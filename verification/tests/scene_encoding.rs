use diploma_thesis::material::{advance, GpuMaterial, RayCastMaterial};
use diploma_thesis::scalar::Scalar;
use diploma_thesis::scene::{encode_pixels, encode_spheres, Scene};
use diploma_thesis::sphere::Sphere;
use diploma_thesis::texture::{area, Pixel, Texture, TextureDescriptor, EMPTY_TEXTURE_OFFSET};

fn s(x: f32) -> Scalar {
    Scalar::from_bits(x.to_bits())
}

fn px(r: f32, g: f32, b: f32) -> Pixel {
    [s(r), s(g), s(b)]
}

fn color(r: f32, g: f32, b: f32) -> Texture {
    Texture::new_from_color(px(r, g, b))
}

fn image(width: u32, height: u32, base: f32) -> Texture {
    let data: Vec<Pixel> =
        (0..width * height).map(|i| px(base + i as f32, base, -base)).collect();
    Texture::new_from_pixels((width, height), data).unwrap()
}

fn sphere(material_idx: u32) -> Sphere {
    Sphere::new([s(0.0), s(1.0), s(-4.0)], s(1.0), material_idx)
}

fn words(bytes: &[u8]) -> Vec<u32> {
    assert_eq!(bytes.len() % 4, 0);
    bytes.chunks(4).map(|c| u32::from_le_bytes([c[0], c[1], c[2], c[3]])).collect()
}

fn floats(bytes: &[u8]) -> Vec<f32> {
    words(bytes).into_iter().map(f32::from_bits).collect()
}

#[test]
fn empty_descriptor_has_the_sentinel_offset() {
    let d = TextureDescriptor::empty();
    assert_eq!(d, TextureDescriptor { width: 0, height: 0, offset: 0xffff_ffff });
    assert_eq!(EMPTY_TEXTURE_OFFSET, 0xffff_ffff);
}

#[test]
fn texture_from_color_is_one_pixel() {
    let t = color(0.5, 0.7, 0.8);
    assert_eq!(t.dimensions(), (1, 1));
    assert_eq!(t.as_slice(), &[px(0.5, 0.7, 0.8)]);
    assert!(t.is_well_formed());
}

#[test]
fn texture_from_pixels_needs_one_pixel_per_point() {
    let t = Texture::new_from_pixels((2, 3), vec![px(0.0, 0.0, 0.0); 6]).unwrap();
    assert_eq!(t.dimensions(), (2, 3));
    assert_eq!(t.as_slice().len(), 6);
    assert!(Texture::new_from_pixels((2, 3), vec![px(0.0, 0.0, 0.0); 5]).is_none());
    assert!(Texture::new_from_pixels((2, 3), vec![px(0.0, 0.0, 0.0); 7]).is_none());
    assert!(Texture::new_from_pixels((0, 3), Vec::new()).is_some());
    assert_eq!(area(65536, 65536), 1u64 << 32);
    assert_eq!(area(u32::MAX, u32::MAX), (u32::MAX as u64) * (u32::MAX as u64));
}

#[test]
fn scene_encoder_offset_invariant() {
    let scene = Scene {
        spheres: vec![sphere(0), sphere(1), sphere(2)],
        materials: vec![
            RayCastMaterial::Lambertian { albedo: color(0.1, 0.2, 0.3) },
            RayCastMaterial::Metal { albedo: color(0.4, 0.5, 0.6), fuzz: s(0.4) },
            RayCastMaterial::Lambertian { albedo: image(2, 3, 10.0) },
        ],
    };
    assert!(scene.is_well_formed());
    assert!(scene.is_encodable());
    let (records, data) = scene.encode_materials();
    assert_eq!(records.len(), 3);
    assert_eq!(records[0].desc1, TextureDescriptor { width: 1, height: 1, offset: 0 });
    assert_eq!(records[1].desc1, TextureDescriptor { width: 1, height: 1, offset: 1 });
    assert_eq!(records[2].desc1, TextureDescriptor { width: 2, height: 3, offset: 2 });
    assert_eq!(records[0].desc2, TextureDescriptor::empty());
    assert_eq!(records[1].desc2, TextureDescriptor::empty());
    assert_eq!(records[2].desc2, TextureDescriptor::empty());
    assert_eq!(data.len(), 1 + 1 + 6);
    assert_eq!(data[0], px(0.1, 0.2, 0.3));
    assert_eq!(data[1], px(0.4, 0.5, 0.6));
    assert_eq!(data[2], px(10.0, 10.0, -10.0));
    assert_eq!(data[7], px(15.0, 10.0, -10.0));
    assert_eq!(scene.encode().textures.len(), 8 * 3 * 4);
}

#[test]
fn light_index_derivation() {
    let scene = Scene {
        spheres: vec![sphere(0), sphere(1), sphere(2), sphere(1), sphere(3)],
        materials: vec![
            RayCastMaterial::Lambertian { albedo: color(0.1, 0.2, 0.3) },
            RayCastMaterial::Emissive { emit: color(50.0, 0.0, 0.0) },
            RayCastMaterial::Dielectric { refraction_index: s(1.5) },
            RayCastMaterial::Metal { albedo: color(1.0, 0.85, 0.57), fuzz: s(0.4) },
        ],
    };
    assert!(scene.is_well_formed());
    assert_eq!(scene.light_indices(), vec![1, 3]);
    assert_eq!(words(&scene.encode().lights), vec![1, 3]);
}

#[test]
fn scene_without_lights_has_no_light_indices() {
    let scene = Scene {
        spheres: vec![sphere(0), sphere(0)],
        materials: vec![RayCastMaterial::Dielectric { refraction_index: s(1.5) }],
    };
    assert_eq!(scene.light_indices(), Vec::<u32>::new());
    let buffers = scene.encode();
    assert!(buffers.lights.is_empty());
    assert!(buffers.textures.is_empty());
    assert_eq!(buffers.spheres.len(), 64);
    assert_eq!(buffers.materials.len(), 32);
}

#[test]
fn empty_scene_encodes_to_empty_buffers() {
    let scene = Scene { spheres: Vec::new(), materials: Vec::new() };
    assert!(scene.is_well_formed());
    assert!(scene.is_encodable());
    let buffers = scene.encode();
    assert!(buffers.spheres.is_empty());
    assert!(buffers.materials.is_empty());
    assert!(buffers.textures.is_empty());
    assert!(buffers.lights.is_empty());
}

#[test]
fn sphere_with_unknown_material_is_not_well_formed() {
    let scene = Scene {
        spheres: vec![sphere(0), sphere(1)],
        materials: vec![RayCastMaterial::Dielectric { refraction_index: s(1.5) }],
    };
    assert!(!scene.is_well_formed());
    let none = Scene { spheres: vec![sphere(0)], materials: Vec::new() };
    assert!(!none.is_well_formed());
}

#[test]
fn material_records_carry_tag_descriptors_and_parameter() {
    let mut data: Vec<Pixel> = vec![px(9.0, 9.0, 9.0)];
    let a = color(0.1, 0.2, 0.3);
    let b = image(2, 2, 1.0);

    let m = GpuMaterial::lambertian(&a, &mut data);
    assert_eq!(m.id, 0);
    assert_eq!(m.desc1, TextureDescriptor { width: 1, height: 1, offset: 1 });
    assert_eq!(m.desc2, TextureDescriptor::empty());
    assert_eq!(m.x, s(0.0));
    assert_eq!(data.len(), 2);

    let m = GpuMaterial::metal(&b, s(0.4), &mut data);
    assert_eq!(m.id, 1);
    assert_eq!(m.desc1, TextureDescriptor { width: 2, height: 2, offset: 2 });
    assert_eq!(m.desc2, TextureDescriptor::empty());
    assert_eq!(m.x, s(0.4));
    assert_eq!(data.len(), 6);

    let m = GpuMaterial::dielectric(s(1.5));
    assert_eq!(m.id, 2);
    assert_eq!(m.desc1, TextureDescriptor::empty());
    assert_eq!(m.desc2, TextureDescriptor::empty());
    assert_eq!(m.x, s(1.5));
    assert_eq!(data.len(), 6);

    let m = GpuMaterial::checkerboard(&b, &a, &mut data);
    assert_eq!(m.id, 3);
    assert_eq!(m.desc1, TextureDescriptor { width: 2, height: 2, offset: 6 });
    assert_eq!(m.desc2, TextureDescriptor { width: 1, height: 1, offset: 10 });
    assert_eq!(m.x, s(0.0));
    assert_eq!(data.len(), 11);

    let m = GpuMaterial::emissive(&a, &mut data);
    assert_eq!(m.id, 4);
    assert_eq!(m.desc1, TextureDescriptor { width: 1, height: 1, offset: 11 });
    assert_eq!(m.desc2, TextureDescriptor::empty());
    assert_eq!(data.len(), 12);

    assert_eq!(data[0], px(9.0, 9.0, 9.0));
    assert_eq!(data[1], px(0.1, 0.2, 0.3));
    assert_eq!(&data[2..6], b.as_slice());
    assert_eq!(&data[6..10], b.as_slice());
    assert_eq!(data[10], px(0.1, 0.2, 0.3));
    assert_eq!(data[11], px(0.1, 0.2, 0.3));
}

#[test]
fn append_keeps_what_was_there() {
    let mut data: Vec<Pixel> = vec![px(1.0, 2.0, 3.0), px(4.0, 5.0, 6.0)];
    let t = image(3, 1, 7.0);
    let d = GpuMaterial::append_to_global_texture_data(&t, &mut data);
    assert_eq!(d, TextureDescriptor { width: 3, height: 1, offset: 2 });
    assert_eq!(data.len(), 5);
    assert_eq!(&data[..2], &[px(1.0, 2.0, 3.0), px(4.0, 5.0, 6.0)]);
    assert_eq!(&data[2..], t.as_slice());
}

#[test]
fn checkerboard_puts_its_odd_texture_first() {
    let scene = Scene {
        spheres: vec![sphere(0)],
        materials: vec![
            RayCastMaterial::Checkerboard { even: color(0.5, 0.7, 0.8), odd: image(2, 1, 0.9) },
            RayCastMaterial::Emissive { emit: color(50.0, 0.0, 0.0) },
        ],
    };
    let (records, data) = scene.encode_materials();
    assert_eq!(records[0].id, 3);
    assert_eq!(records[0].desc1, TextureDescriptor { width: 2, height: 1, offset: 0 });
    assert_eq!(records[0].desc2, TextureDescriptor { width: 1, height: 1, offset: 2 });
    assert_eq!(records[1].desc1, TextureDescriptor { width: 1, height: 1, offset: 3 });
    assert_eq!(data.len(), 4);
    assert_eq!(data[2], px(0.5, 0.7, 0.8));
    assert_eq!(data[3], px(50.0, 0.0, 0.0));
}

#[test]
fn every_descriptor_finds_its_texture() {
    let textures = [image(2, 3, 1.0), color(0.3, 0.9, 0.9), image(4, 1, 20.0), image(1, 5, 40.0)];
    let scene = Scene {
        spheres: Vec::new(),
        materials: vec![
            RayCastMaterial::Lambertian { albedo: image(2, 3, 1.0) },
            RayCastMaterial::Dielectric { refraction_index: s(1.5) },
            RayCastMaterial::Emissive { emit: color(0.3, 0.9, 0.9) },
            RayCastMaterial::Checkerboard { even: image(1, 5, 40.0), odd: image(4, 1, 20.0) },
        ],
    };
    let (records, data) = scene.encode_materials();
    let found = [records[0].desc1, records[2].desc1, records[3].desc1, records[3].desc2];
    let mut end = 0usize;
    for (d, t) in found.iter().zip(textures.iter()) {
        assert_eq!((d.width, d.height), t.dimensions());
        assert_eq!(d.offset as usize, end);
        end = d.offset as usize + (d.width * d.height) as usize;
        assert_eq!(&data[d.offset as usize..end], t.as_slice());
    }
    assert_eq!(end, data.len());
    assert_eq!(records[1].desc1, TextureDescriptor::empty());
    assert_eq!(records[1].desc2, TextureDescriptor::empty());
}

#[test]
fn sphere_record_layout() {
    let sp = Sphere::new([s(1.0), s(2.0), s(3.0)], s(0.5), 7);
    assert_eq!(sp.center, [s(1.0), s(2.0), s(3.0), s(1.0)]);
    assert_eq!(sp._padding, [0, 0]);
    let bytes = encode_spheres(&vec![sp, sphere(2)]);
    assert_eq!(bytes.len(), 64);
    assert_eq!(&floats(&bytes)[..5], &[1.0, 2.0, 3.0, 1.0, 0.5]);
    assert_eq!(&words(&bytes)[5..8], &[7, 0, 0]);
    assert_eq!(&floats(&bytes)[8..13], &[0.0, 1.0, -4.0, 1.0, 1.0]);
    assert_eq!(&words(&bytes)[13..16], &[2, 0, 0]);
}

#[test]
fn material_and_texture_buffer_layout() {
    let scene = Scene {
        spheres: vec![sphere(1)],
        materials: vec![
            RayCastMaterial::Metal { albedo: color(1.0, 0.85, 0.57), fuzz: s(0.4) },
            RayCastMaterial::Checkerboard { even: color(0.5, 0.7, 0.8), odd: color(0.9, 0.9, 0.9) },
        ],
    };
    let buffers = scene.encode();
    assert_eq!(
        words(&buffers.materials),
        vec![
            1, 1, 1, 0, 0, 0, 0xffff_ffff, 0.4f32.to_bits(),
            3, 1, 1, 1, 1, 1, 2, 0,
        ]
    );
    assert_eq!(
        floats(&buffers.textures),
        vec![1.0, 0.85, 0.57, 0.9, 0.9, 0.9, 0.5, 0.7, 0.8]
    );
    assert_eq!(encode_pixels(&vec![px(1.0, 2.0, 3.0)]), {
        let mut b = Vec::new();
        b.extend_from_slice(&1.0f32.to_le_bytes());
        b.extend_from_slice(&2.0f32.to_le_bytes());
        b.extend_from_slice(&3.0f32.to_le_bytes());
        b
    });
}

#[test]
fn emissive_is_the_only_light() {
    assert!(RayCastMaterial::Emissive { emit: color(1.0, 1.0, 1.0) }.is_emissive());
    assert!(!RayCastMaterial::Lambertian { albedo: color(1.0, 1.0, 1.0) }.is_emissive());
    assert!(!RayCastMaterial::Metal { albedo: color(1.0, 1.0, 1.0), fuzz: s(0.0) }.is_emissive());
    assert!(!RayCastMaterial::Dielectric { refraction_index: s(1.5) }.is_emissive());
    assert!(!RayCastMaterial::Checkerboard { even: color(0.0, 0.0, 0.0), odd: color(1.0, 1.0, 1.0) }
        .is_emissive());
}

#[test]
fn end_offset_adds_the_pixels_of_a_material() {
    let m = RayCastMaterial::Checkerboard { even: image(2, 2, 0.0), odd: image(3, 1, 0.0) };
    assert_eq!(m.end_offset(10), 17);
    assert_eq!(m.end_offset(EMPTY_TEXTURE_OFFSET - 8), EMPTY_TEXTURE_OFFSET - 1);
    assert_eq!(m.end_offset(EMPTY_TEXTURE_OFFSET - 7), EMPTY_TEXTURE_OFFSET);
    assert_eq!(m.end_offset(EMPTY_TEXTURE_OFFSET - 1), EMPTY_TEXTURE_OFFSET);
    assert_eq!(m.end_offset(EMPTY_TEXTURE_OFFSET), EMPTY_TEXTURE_OFFSET);
    assert_eq!(RayCastMaterial::Dielectric { refraction_index: s(1.5) }.end_offset(5), 5);
    assert_eq!(advance(7, 0), 7);
    assert_eq!(advance(7, usize::MAX), EMPTY_TEXTURE_OFFSET);
}

#[test]
fn a_texture_must_start_below_the_sentinel() {
    let one = RayCastMaterial::Lambertian { albedo: color(0.0, 0.0, 0.0) };
    assert!(one.is_encodable_at(0));
    assert!(one.is_encodable_at(EMPTY_TEXTURE_OFFSET - 1));
    assert!(!one.is_encodable_at(EMPTY_TEXTURE_OFFSET));
    let two = RayCastMaterial::Checkerboard { even: color(0.0, 0.0, 0.0), odd: image(3, 1, 0.0) };
    assert!(two.is_encodable_at(EMPTY_TEXTURE_OFFSET - 4));
    assert!(!two.is_encodable_at(EMPTY_TEXTURE_OFFSET - 3));
    assert!(!two.is_encodable_at(EMPTY_TEXTURE_OFFSET));
    let none = RayCastMaterial::Dielectric { refraction_index: s(1.5) };
    assert!(none.is_encodable_at(EMPTY_TEXTURE_OFFSET));
}
