use fractal_core::raster::{assemble_rgba, byte_palette, interpolation_endpoints};

#[test]
fn byte_palette_zero_matches_its_table() {
    assert_eq!(
        byte_palette(0),
        vec![
            (0, 255, 255),
            (255, 0, 255),
            (128, 0, 255),
            (0, 128, 255),
            (255, 255, 0),
        ]
    );
}

#[test]
fn byte_palette_nonzero_ids_alias_palette_one() {
    let reference = vec![
        (255, 0, 128),
        (0, 255, 128),
        (128, 0, 255),
        (0, 128, 255),
        (255, 128, 0),
    ];
    for id in [1u32, 2, 17, u32::MAX] {
        assert_eq!(byte_palette(id), reference);
    }
}

#[test]
fn endpoints_at_start_are_the_first_two_anchors() {
    let (c1, c2) = interpolation_endpoints(0, 0);
    assert_eq!(c1, (0, 255, 255));
    assert_eq!(c2, (255, 0, 255));
}

#[test]
fn endpoints_clamp_at_the_last_anchor() {
    let (c1, c2) = interpolation_endpoints(0, 4);
    assert_eq!(c1, (255, 255, 0));
    assert_eq!(c2, (255, 255, 0));
    let (d1, d2) = interpolation_endpoints(3, 3);
    assert_eq!(d1, (0, 128, 255));
    assert_eq!(d2, (255, 128, 0));
}

#[test]
fn assemble_rgba_packs_pixels_with_opaque_alpha() {
    let pixels = vec![(1u8, 2u8, 3u8), (4, 5, 6), (7, 8, 9), (10, 11, 12)];
    let buf = assemble_rgba(2, 2, &pixels);
    assert_eq!(
        buf,
        vec![
            1, 2, 3, 255, //
            4, 5, 6, 255, //
            7, 8, 9, 255, //
            10, 11, 12, 255,
        ]
    );
}

#[test]
fn assemble_rgba_buffer_length_and_alpha() {
    let pixels = vec![(0u8, 0u8, 0u8); 16];
    let buf = assemble_rgba(4, 4, &pixels);
    assert_eq!(buf.len(), 64);
    for j in (3..64).step_by(4) {
        assert_eq!(buf[j], 255);
    }
}

#[test]
fn assemble_rgba_is_deterministic() {
    let pixels = vec![(9u8, 30u8, 200u8), (0, 0, 0), (255, 255, 255)];
    let first = assemble_rgba(3, 1, &pixels);
    let second = assemble_rgba(3, 1, &pixels);
    assert_eq!(first, second);
}

#[test]
fn assemble_rgba_empty_image() {
    let pixels: Vec<(u8, u8, u8)> = Vec::new();
    assert_eq!(assemble_rgba(0, 0, &pixels), Vec::<u8>::new());
    assert_eq!(assemble_rgba(0, 7, &pixels), Vec::<u8>::new());
}
