use diploma_thesis::bindings::{
    BufferKind, ShaderStage, Slot, VertexUniforms, BIND_GROUP_COUNT, FRAME_DATA_BUFFER_BYTES,
};
use diploma_thesis::camera::{GpuCamera, GPU_CAMERA_BYTES};
use diploma_thesis::scalar::Scalar;
use diploma_thesis::sky::{GpuSkyState, GPU_SKY_STATE_BYTES};
use diploma_thesis::wire::{push_word, words_to_bytes};

fn s(x: f32) -> Scalar {
    Scalar::from_bits(x.to_bits())
}

fn words(bytes: &[u8]) -> Vec<u32> {
    bytes.chunks(4).map(|c| u32::from_le_bytes([c[0], c[1], c[2], c[3]])).collect()
}

fn floats(bytes: &[u8]) -> Vec<f32> {
    words(bytes).into_iter().map(f32::from_bits).collect()
}

const SLOTS: [Slot; 10] = [
    Slot::VertexUniforms,
    Slot::FrameData,
    Slot::Image,
    Slot::Camera,
    Slot::Sampling,
    Slot::SkyState,
    Slot::Spheres,
    Slot::Materials,
    Slot::Textures,
    Slot::Lights,
];

#[test]
fn words_are_written_least_significant_byte_first() {
    assert_eq!(words_to_bytes(&vec![0x0403_0201]), vec![1, 2, 3, 4]);
    assert_eq!(
        words_to_bytes(&vec![0, 1, 0xffff_ffff, 0x8000_0000]),
        vec![0, 0, 0, 0, 1, 0, 0, 0, 255, 255, 255, 255, 0, 0, 0, 128]
    );
    assert!(words_to_bytes(&Vec::new()).is_empty());
    let mut out = vec![7u8];
    push_word(&mut out, 0xdead_beef);
    assert_eq!(out, vec![7, 0xef, 0xbe, 0xad, 0xde]);
}

#[test]
fn words_to_bytes_agrees_with_to_le_bytes() {
    let data: Vec<u32> = (0..1000u32).map(|i| i.wrapping_mul(2_654_435_761)).collect();
    let expected: Vec<u8> = data.iter().flat_map(|w| w.to_le_bytes()).collect();
    assert_eq!(words_to_bytes(&data), expected);
    assert_eq!(words(&words_to_bytes(&data)), data);
}

#[test]
fn binding_arrangement() {
    let expected = [
        (0, 0, BufferKind::Uniform, ShaderStage::Vertex),
        (1, 0, BufferKind::Uniform, ShaderStage::Fragment),
        (1, 1, BufferKind::Storage { read_only: false }, ShaderStage::Fragment),
        (2, 0, BufferKind::Uniform, ShaderStage::Fragment),
        (2, 1, BufferKind::Uniform, ShaderStage::Fragment),
        (2, 2, BufferKind::Storage { read_only: true }, ShaderStage::Fragment),
        (3, 0, BufferKind::Storage { read_only: true }, ShaderStage::Fragment),
        (3, 1, BufferKind::Storage { read_only: true }, ShaderStage::Fragment),
        (3, 2, BufferKind::Storage { read_only: true }, ShaderStage::Fragment),
        (3, 3, BufferKind::Storage { read_only: true }, ShaderStage::Fragment),
    ];
    for (slot, e) in SLOTS.iter().zip(expected.iter()) {
        assert_eq!((slot.group(), slot.binding(), slot.kind(), slot.visibility()), *e);
    }
    assert_eq!(BIND_GROUP_COUNT, 4);
    assert_eq!(FRAME_DATA_BUFFER_BYTES, 16);
}

#[test]
fn slots_are_found_by_group_and_binding() {
    for slot in SLOTS {
        assert_eq!(Slot::at(slot.group(), slot.binding()), Some(slot));
    }
    let mut count = 0;
    for group in 0..6 {
        for binding in 0..6 {
            if Slot::at(group, binding).is_some() {
                count += 1;
            }
        }
    }
    assert_eq!(count, 10);
    assert_eq!(Slot::at(0, 1), None);
    assert_eq!(Slot::at(1, 2), None);
    assert_eq!(Slot::at(2, 3), None);
    assert_eq!(Slot::at(3, 4), None);
    assert_eq!(Slot::at(4, 0), None);
}

#[test]
fn camera_record_layout() {
    let camera = GpuCamera::from_parts(
        [s(1.0), s(2.0), s(3.0)],
        [s(4.0), s(5.0), s(6.0)],
        [s(7.0), s(8.0), s(9.0)],
        [s(10.0), s(11.0), s(12.0)],
        [s(13.0), s(14.0), s(15.0)],
        s(0.5),
        [s(16.0), s(17.0), s(18.0)],
    );
    let bytes = camera.to_bytes();
    assert_eq!(bytes.len() as u64, GPU_CAMERA_BYTES);
    assert_eq!(
        floats(&bytes),
        vec![
            1.0, 2.0, 3.0, 0.0, 4.0, 5.0, 6.0, 0.0, 7.0, 8.0, 9.0, 0.0, 10.0, 11.0, 12.0, 0.0,
            13.0, 14.0, 15.0, 0.5, 16.0, 17.0, 18.0, 0.0,
        ]
    );
}

#[test]
fn sky_state_record_layout() {
    let mut params = [s(0.0); 27];
    for i in 0..27 {
        params[i] = s(i as f32 + 1.0);
    }
    let state = GpuSkyState::new(
        params,
        [s(100.0), s(101.0), s(102.0)],
        [s(0.25), s(0.5), s(0.75), s(0.0)],
    );
    assert_eq!(state._padding, [0, 2]);
    let bytes = state.to_bytes();
    assert_eq!(bytes.len() as u64, GPU_SKY_STATE_BYTES);
    let f = floats(&bytes);
    for i in 0..27 {
        assert_eq!(f[i], i as f32 + 1.0);
    }
    assert_eq!(&f[27..30], &[100.0, 101.0, 102.0]);
    assert_eq!(&words(&bytes)[30..32], &[0, 2]);
    assert_eq!(&f[32..36], &[0.25, 0.5, 0.75, 0.0]);
    assert_eq!(&bytes[108..112], &100.0f32.to_le_bytes());
    assert_eq!(&bytes[128..132], &0.25f32.to_le_bytes());
}

#[test]
fn vertex_uniforms_record_layout() {
    let mut view_projection_matrix = [s(0.0); 16];
    let mut model_matrix = [s(0.0); 16];
    for i in 0..16 {
        view_projection_matrix[i] = s(i as f32);
        model_matrix[i] = s(-(i as f32) - 1.0);
    }
    let bytes = VertexUniforms { view_projection_matrix, model_matrix }.to_bytes();
    assert_eq!(bytes.len(), 128);
    let f = floats(&bytes);
    for i in 0..16 {
        assert_eq!(f[i], i as f32);
        assert_eq!(f[16 + i], -(i as f32) - 1.0);
    }
}
