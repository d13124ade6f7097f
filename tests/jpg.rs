use foamshot::jpg::{argb_to_rgb, save_to_jpg, SaveError};

#[test]
fn argb_rows_become_packed_rgb() {
    // two rows of two pixels, stored blue, green, red, alpha, with two bytes of padding per row
    let data = vec![
        1, 2, 3, 255, 4, 5, 6, 255, 0, 0, //
        7, 8, 9, 255, 10, 11, 12, 255, 0, 0,
    ];
    let rgb = argb_to_rgb(&data, 2, 2, 10).unwrap();
    assert_eq!(rgb, vec![3, 2, 1, 6, 5, 4, 9, 8, 7, 12, 11, 10]);
    assert_eq!(argb_to_rgb(&data, 3, 2, 10), None);
    assert_eq!(argb_to_rgb(&data, 2, 3, 10), None);
    assert_eq!(argb_to_rgb(&data, 0, 0, 0), Some(vec![]));
}

#[test]
fn jpeg_encoding_of_a_canvas() {
    let data = vec![0u8; 8 * 8 * 4];
    let bytes = save_to_jpg(&data, 8, 8, 32, 100).unwrap();
    assert_eq!(&bytes[..2], &[0xFF, 0xD8]);
    assert_eq!(&bytes[bytes.len() - 2..], &[0xFF, 0xD9]);
    assert_ne!(bytes, data);
}

#[test]
fn jpeg_errors() {
    assert_eq!(save_to_jpg(&vec![0u8; 10], 8, 8, 32, 100), Err(SaveError::BadCanvas));
    let wide = vec![0u8; 70_000 * 4];
    assert_eq!(save_to_jpg(&wide, 70_000, 1, 70_000 * 4, 100), Err(SaveError::Encode));
}

#[test]
fn jpeg_of_empty_canvas_is_refused() {
    assert_eq!(save_to_jpg(&vec![], 0, 0, 0, 100), Err(SaveError::Encode));
    assert!(save_to_jpg(&vec![0u8; 4], 1, 1, 4, 100).is_ok());
}
