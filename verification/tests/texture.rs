use frame_loop::texture::{
    load_texture, texture_upload, DataLayout, DecodedImage, TextureError, TextureUpload,
};
use wgpu::Extent3d;

/// A PNG of two columns and three rows, eight-bit RGB without alpha.
fn small_png() -> Vec<u8> {
    vec![
        137, 80, 78, 71, 13, 10, 26, 10, 0, 0, 0, 13, 73, 72, 68, 82, 0, 0, 0, 2, 0, 0, 0, 3, 8, 2,
        0, 0, 0, 54, 136, 73, 214, 0, 0, 0, 28, 73, 68, 65, 84, 120, 218, 99, 248, 207, 192, 192,
        208, 240, 159, 129, 145, 137, 153, 133, 149, 141, 225, 215, 239, 63, 64, 62, 0, 58, 112, 5,
        133, 167, 118, 236, 162, 0, 0, 0, 0, 73, 69, 78, 68, 174, 66, 96, 130,
    ]
}

fn small_png_pixels() -> Vec<u8> {
    vec![
        255, 0, 0, 255, 0, 128, 255, 255, 1, 2, 3, 255, 4, 5, 6, 255, 250, 251, 252, 255, 0, 0, 0,
        255,
    ]
}

#[test]
fn load_texture_decodes_png() {
    let upload = load_texture(&small_png()).unwrap();
    assert_eq!(upload.size, Extent3d { width: 2, height: 3, depth_or_array_layers: 1 });
    assert_eq!(
        upload.layout,
        DataLayout { offset: 0, bytes_per_row: Some(8), rows_per_image: Some(3) }
    );
    assert_eq!(upload.data, small_png_pixels());
    assert_eq!(upload.data.len(), 4 * 2 * 3);
}

#[test]
fn load_texture_is_repeatable() {
    assert_eq!(load_texture(&small_png()), load_texture(&small_png()));
}

#[test]
fn load_texture_rejects_what_is_no_image() {
    assert_eq!(load_texture(&[]), Err(TextureError::Undecodable));
    assert_eq!(load_texture(&[1, 2, 3, 4, 5, 6, 7, 8]), Err(TextureError::Undecodable));
}

#[test]
fn load_texture_rejects_truncated_png() {
    let png = small_png();
    assert_eq!(load_texture(&png[..40]), Err(TextureError::Undecodable));
}

#[test]
fn texture_upload_lays_out_rows() {
    let image = DecodedImage { width: 3, height: 2, rgba: vec![7; 24] };
    let upload = texture_upload(image).unwrap();
    let expected = TextureUpload {
        size: Extent3d { width: 3, height: 2, depth_or_array_layers: 1 },
        layout: DataLayout { offset: 0, bytes_per_row: Some(12), rows_per_image: Some(2) },
        data: vec![7; 24],
    };
    assert_eq!(upload, expected);
}

#[test]
fn texture_upload_of_empty_image_counts_nothing() {
    let upload = texture_upload(DecodedImage { width: 0, height: 0, rgba: vec![] }).unwrap();
    assert_eq!(upload.size, Extent3d { width: 0, height: 0, depth_or_array_layers: 1 });
    assert_eq!(
        upload.layout,
        DataLayout { offset: 0, bytes_per_row: None, rows_per_image: None }
    );
    assert!(upload.data.is_empty());
}

#[test]
fn texture_upload_widest_row() {
    let width = u32::MAX / 4;
    let upload = texture_upload(DecodedImage { width, height: 0, rgba: vec![] }).unwrap();
    assert_eq!(upload.layout.bytes_per_row, Some(4_294_967_292));
    assert_eq!(upload.layout.rows_per_image, None);
}

#[test]
fn texture_upload_rejects_too_wide_row() {
    let width = u32::MAX / 4 + 1;
    assert_eq!(
        texture_upload(DecodedImage { width, height: 0, rgba: vec![] }),
        Err(TextureError::TooWide)
    );
    assert_eq!(
        texture_upload(DecodedImage { width: u32::MAX, height: 1, rgba: vec![] }),
        Err(TextureError::TooWide)
    );
}
