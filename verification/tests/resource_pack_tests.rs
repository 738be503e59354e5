use rustcraft::resource_pack::{
    icon_from_rgba, pack_icon_from_bytes, pack_meta_from_fields, pack_meta_from_text,
};

fn png_2x2() -> Vec<u8> {
    let mut img = image::RgbaImage::new(2, 2);
    img.put_pixel(0, 0, image::Rgba([10, 20, 30, 255]));
    img.put_pixel(1, 0, image::Rgba([40, 50, 60, 255]));
    img.put_pixel(0, 1, image::Rgba([70, 80, 90, 255]));
    img.put_pixel(1, 1, image::Rgba([1, 2, 3, 255]));
    let mut out = std::io::Cursor::new(Vec::new());
    img.write_to(&mut out, image::ImageFormat::Png).unwrap();
    out.into_inner()
}

#[test]
fn a_png_icon_is_scaled_to_32_by_32_rgba() {
    let icon = pack_icon_from_bytes(&png_2x2()).unwrap();
    assert_eq!(&icon[0..4], &[10, 20, 30, 255]);
    assert_eq!(&icon[4092..4096], &[1, 2, 3, 255]);
    let row_end = 31 * 4;
    assert_eq!(&icon[row_end..row_end + 4], &[40, 50, 60, 255]);
}

#[test]
fn bytes_that_are_no_image_give_no_icon() {
    assert!(pack_icon_from_bytes(&[1, 2, 3]).is_none());
    assert!(pack_icon_from_bytes(&[]).is_none());
}

#[test]
fn short_pixel_data_is_padded_with_zeros() {
    let icon = icon_from_rgba(&[9, 8, 7]);
    assert_eq!(&icon[0..4], &[9, 8, 7, 0]);
    assert!(icon[3..].iter().all(|b| *b == 0));
    let long = vec![5u8; 5000];
    assert!(icon_from_rgba(&long).iter().all(|b| *b == 5));
}

#[test]
fn pack_meta_reads_description_and_format() {
    assert_eq!(
        pack_meta_from_text("{\"pack\":{\"description\":\"My pack\",\"pack_format\":1}}"),
        ("My pack".to_string(), 1)
    );
    assert_eq!(
        pack_meta_from_text("{\"pack\":{\"pack_format\":3}}"),
        (String::new(), 3)
    );
    assert_eq!(
        pack_meta_from_text("{\"pack\":{\"description\":7,\"pack_format\":\"1\"}}"),
        (String::new(), 0)
    );
    assert_eq!(
        pack_meta_from_text("{\"pack\":{\"description\":\"x\",\"pack_format\":4294967297}}"),
        ("x".to_string(), 1)
    );
    assert_eq!(pack_meta_from_text("not json"), (String::new(), 0));
    assert_eq!(pack_meta_from_text(""), (String::new(), 0));
}

#[test]
fn pack_meta_from_fields_fills_in_defaults() {
    assert_eq!(pack_meta_from_fields(None), (String::new(), 0));
    assert_eq!(
        pack_meta_from_fields(Some((Some("d".to_string()), None))),
        ("d".to_string(), 0)
    );
    assert_eq!(pack_meta_from_fields(Some((None, Some(-1)))), (String::new(), -1));
}
