use lights::decoder::{decode, image_from_decoding, load_image, load_texture, ImageKind};
use lights::{AssetError, RawImage};
use std::io::Cursor;

fn png_bytes(width: u32, height: u32, rgba: Vec<u8>) -> Vec<u8> {
    let buffer = image::RgbaImage::from_raw(width, height, rgba).unwrap();
    let mut bytes = Vec::new();
    image::DynamicImage::ImageRgba8(buffer)
        .write_to(&mut Cursor::new(&mut bytes), image::ImageFormat::Png)
        .unwrap();
    bytes
}

fn numbered(width: u32, height: u32) -> Vec<u8> {
    (0..width * height * 4).map(|i| (i % 251) as u8).collect()
}

#[test]
fn rows_are_reversed_and_bytes_in_a_row_kept() {
    let data: Vec<u8> = (0u8..24).collect();
    let image = RawImage::from_raw_rgba_reversed(data, (2, 3)).unwrap();
    assert_eq!(image.width(), 2);
    assert_eq!(image.height(), 3);
    assert_eq!(
        image.pixels(),
        &vec![16, 17, 18, 19, 20, 21, 22, 23, 8, 9, 10, 11, 12, 13, 14, 15, 0, 1, 2, 3, 4, 5, 6, 7]
    );
}

#[test]
fn a_single_row_is_left_as_it_is() {
    let data: Vec<u8> = vec![9, 8, 7, 6, 5, 4, 3, 2];
    let image = RawImage::from_raw_rgba_reversed(data.clone(), (2, 1)).unwrap();
    assert_eq!(image.pixels(), &data);
    assert!(!image.is_square_of(2));
    assert!(!image.is_square_of(1));
}

#[test]
fn reversing_twice_gives_the_buffer_back() {
    let data = numbered(5, 7);
    let once = RawImage::from_raw_rgba_reversed(data.clone(), (5, 7)).unwrap();
    assert_ne!(once.pixels(), &data);
    let twice = RawImage::from_raw_rgba_reversed(once.into_pixels(), (5, 7)).unwrap();
    assert_eq!(twice.into_pixels(), data);
}

#[test]
fn a_buffer_of_the_wrong_length_is_refused() {
    assert!(RawImage::from_raw_rgba_reversed(vec![0; 15], (2, 2)).is_none());
    assert!(RawImage::from_raw_rgba_reversed(vec![0; 17], (2, 2)).is_none());
    assert!(RawImage::from_raw_rgba_reversed(vec![0; 16], (2, 2)).is_some());
    assert!(RawImage::from_raw_rgba_reversed(vec![0; 4], (0, 7)).is_none());
    assert!(RawImage::from_raw_rgba_reversed(vec![], (u32::MAX, u32::MAX)).is_none());
}

#[test]
fn empty_images_are_accepted() {
    let flat = RawImage::from_raw_rgba_reversed(vec![], (0, 9)).unwrap();
    assert_eq!((flat.width(), flat.height()), (0, 9));
    assert!(flat.pixels().is_empty());
    let thin = RawImage::from_raw_rgba_reversed(vec![], (9, 0)).unwrap();
    assert_eq!((thin.width(), thin.height()), (9, 0));
    let none = RawImage::from_raw_rgba_reversed(vec![], (0, 0)).unwrap();
    assert!(none.is_square_of(0));
}

#[test]
fn a_decoded_png_holds_four_bytes_per_pixel_bottom_row_first() {
    let (width, height) = (3u32, 4u32);
    let top_down = numbered(width, height);
    let image = decode(&png_bytes(width, height, top_down.clone()), ImageKind::Png).unwrap();
    assert_eq!(image.width(), width);
    assert_eq!(image.height(), height);
    assert_eq!(image.pixels().len(), (width * height * 4) as usize);
    let row = (width * 4) as usize;
    for y in 0..height as usize {
        let mirrored = height as usize - 1 - y;
        assert_eq!(
            &image.pixels()[y * row..(y + 1) * row],
            &top_down[mirrored * row..(mirrored + 1) * row]
        );
    }
}

#[test]
fn decoding_depends_on_the_bytes_alone() {
    let bytes = png_bytes(4, 4, numbered(4, 4));
    assert_eq!(decode(&bytes, ImageKind::Png), decode(&bytes.clone(), ImageKind::Png));
}

#[test]
fn the_format_is_the_one_asked_for_not_a_guess() {
    let bytes = png_bytes(2, 2, numbered(2, 2));
    assert!(decode(&bytes, ImageKind::Png).is_ok());
    assert!(decode(&bytes, ImageKind::Jpeg).is_err());
}

#[test]
fn malformed_bytes_are_an_error_with_a_cause() {
    let cause = decode(&vec![1, 2, 3, 4, 5], ImageKind::Png).unwrap_err();
    assert!(!cause.is_empty());
    assert!(decode(&vec![], ImageKind::Jpeg).is_err());
    let mut truncated = png_bytes(8, 8, numbered(8, 8));
    truncated.truncate(40);
    assert!(decode(&truncated, ImageKind::Png).is_err());
}

#[test]
fn a_decoders_result_becomes_an_image_or_a_cause() {
    let ok = image_from_decoding(Ok((1, 2, vec![1, 2, 3, 4, 5, 6, 7, 8]))).unwrap();
    assert_eq!(ok.pixels(), &vec![5, 6, 7, 8, 1, 2, 3, 4]);
    assert_eq!(
        image_from_decoding(Ok((1, 2, vec![1, 2, 3]))),
        Err("decoded pixel buffer does not match the image dimensions".to_string())
    );
    assert_eq!(image_from_decoding(Err("broken".to_string())), Err("broken".to_string()));
}

#[test]
fn a_texture_that_cannot_be_read_names_its_path() {
    let e = load_texture("assets/wall.png", Err("No such file or directory".to_string()));
    assert_eq!(
        e,
        Err(AssetError::Io {
            path: "assets/wall.png".to_string(),
            cause: "No such file or directory".to_string(),
        })
    );
}

#[test]
fn a_texture_that_does_not_decode_names_its_path() {
    match load_texture("assets/wall.png", Ok(vec![0, 1, 2])) {
        Err(AssetError::Decode { path, cause }) => {
            assert_eq!(path, "assets/wall.png");
            assert!(!cause.is_empty());
        }
        other => panic!("unexpected result: {:?}", other),
    }
}

#[test]
fn a_texture_is_a_flipped_png() {
    let top_down = numbered(2, 2);
    let image = load_texture("wall.png", Ok(png_bytes(2, 2, top_down.clone()))).unwrap();
    let mut expected = top_down[8..].to_vec();
    expected.extend_from_slice(&top_down[..8]);
    assert_eq!(image.pixels(), &expected);
    let same = load_image("wall.png", Ok(png_bytes(2, 2, top_down)), ImageKind::Png).unwrap();
    assert_eq!(image, same);
}
