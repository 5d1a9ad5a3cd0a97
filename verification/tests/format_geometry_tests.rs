use pixel_canvas::formats::select_surface_format_index;
use pixel_canvas::geometry::quad_index_bytes;
use pixel_canvas::geometry::u16s_to_le_bytes;
use pixel_canvas::geometry::quad_indices;

#[test]
fn first_srgb_format_is_preferred() {
    let formats = vec![
        wgpu::TextureFormat::Bgra8Unorm,
        wgpu::TextureFormat::Bgra8UnormSrgb,
        wgpu::TextureFormat::Rgba8UnormSrgb,
    ];
    assert_eq!(select_surface_format_index(&formats), 1);
}

#[test]
fn srgb_format_in_first_place_is_kept() {
    let formats = vec![
        wgpu::TextureFormat::Rgba8UnormSrgb,
        wgpu::TextureFormat::Bgra8Unorm,
    ];
    assert_eq!(select_surface_format_index(&formats), 0);
}

#[test]
fn without_srgb_the_first_format_is_the_fallback() {
    let formats = vec![
        wgpu::TextureFormat::Bgra8Unorm,
        wgpu::TextureFormat::Rgba8Unorm,
        wgpu::TextureFormat::Rgb10a2Unorm,
    ];
    assert_eq!(select_surface_format_index(&formats), 0);
}

#[test]
fn quad_indices_are_two_triangles() {
    assert_eq!(quad_indices(), vec![0u16, 1, 2, 3, 2, 1]);
}

#[test]
fn quad_index_bytes_are_the_indices_in_byte_form() {
    let bytes = quad_index_bytes();
    assert_eq!(bytes.len(), 12);
    assert_eq!(bytes, vec![0u8, 0, 1, 0, 2, 0, 3, 0, 2, 0, 1, 0]);
}

#[test]
fn u16s_serialize_low_byte_first() {
    assert_eq!(u16s_to_le_bytes(&vec![0x1234u16, 0x00FF, 0xFF00]), vec![0x34u8, 0x12, 0xFF, 0x00, 0x00, 0xFF]);
    assert_eq!(u16s_to_le_bytes(&Vec::new()), Vec::<u8>::new());
}
