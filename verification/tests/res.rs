use diploma_thesis::res::{
    to_vec, view_bytes, BufferData, LoadAnimationError, LoadAssetError, LoadBufferDataError,
    LoadImageDataError, LoadMaterialError, LoadSceneDataError, LoadTextureDataError, PipelineType,
};

#[test]
fn test_to_vec_conversion() {
    let buffers = vec![
        BufferData { data: vec![1, 2, 3], uri: None },
        BufferData { data: vec![4, 5], uri: Some("test.bin".into()) },
    ];

    let vecs = to_vec(buffers);
    assert_eq!(vecs, vec![vec![1, 2, 3], vec![4, 5]]);
}

#[test]
fn to_vec_of_nothing_is_nothing() {
    assert_eq!(to_vec(Vec::new()), Vec::<Vec<u8>>::new());
}

#[test]
fn errors_keep_their_message() {
    assert_eq!(LoadBufferDataError::new("a").message(), "a");
    assert_eq!(LoadImageDataError::new("b").message(), "b");
    assert_eq!(LoadAnimationError::new("c").message(), "c");
    assert_eq!(LoadSceneDataError::new("d").message(), "d");
    assert_eq!(LoadAssetError::new("e").message(), "e");
    assert_eq!(LoadMaterialError::new("f").message(), "f");
    assert_eq!(LoadTextureDataError::new("g").message(), "g");
}

#[test]
fn errors_without_cause_have_no_source() {
    assert_eq!(LoadBufferDataError::new("a").source(), None);
    assert_eq!(LoadImageDataError::new("b").source(), None);
    assert_eq!(LoadAnimationError::new("c").source(), None);
    assert_eq!(LoadSceneDataError::new("d").source(), None);
}

#[test]
fn errors_with_cause_keep_both_texts() {
    let e = LoadBufferDataError::with_source("Buffer [0]: Failed to read 'x.bin'", "not found");
    assert_eq!(e.message(), "Buffer [0]: Failed to read 'x.bin'");
    assert_eq!(e.source(), Some("not found"));
    let e = LoadImageDataError::with_source("m", "s");
    assert_eq!((e.message(), e.source()), ("m", Some("s")));
    let e = LoadAnimationError::with_source("m", "s");
    assert_eq!((e.message(), e.source()), ("m", Some("s")));
    let e = LoadSceneDataError::with_source("m", "s");
    assert_eq!((e.message(), e.source()), ("m", Some("s")));
}

#[test]
fn pipeline_type_is_a_plain_value() {
    let p = PipelineType::Simple;
    let q = p;
    assert_eq!(p, q);
}

#[test]
fn view_bytes_cuts_a_range_out_of_a_buffer() {
    let buffer = vec![10u8, 11, 12, 13, 14];
    assert_eq!(view_bytes(&buffer, 1, 3), Some(vec![11, 12, 13]));
    assert_eq!(view_bytes(&buffer, 0, 5), Some(buffer.clone()));
    assert_eq!(view_bytes(&buffer, 5, 0), Some(Vec::new()));
    assert_eq!(view_bytes(&buffer, 0, 0), Some(Vec::new()));
}

#[test]
fn view_bytes_refuses_a_range_beyond_the_buffer() {
    let buffer = vec![10u8, 11, 12, 13, 14];
    assert_eq!(view_bytes(&buffer, 3, 3), None);
    assert_eq!(view_bytes(&buffer, 6, 0), None);
    assert_eq!(view_bytes(&buffer, 0, 6), None);
    assert_eq!(view_bytes(&buffer, 1, usize::MAX), None);
    assert_eq!(view_bytes(&buffer, usize::MAX, 1), None);
}
