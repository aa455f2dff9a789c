use lights::face::Face;
use lights::upload::{
    cubemap_calls, CALL_COUNT, CLAMP_TO_EDGE, LINEAR, RGBA, TEXTURE_CUBE_MAP, TEXTURE_MAG_FILTER,
    TEXTURE_MIN_FILTER, TEXTURE_WRAP_R, TEXTURE_WRAP_S, TEXTURE_WRAP_T, UNSIGNED_BYTE,
};
use lights::{
    load_cubemap, AssetError, Binding, CubemapDescriptor, CubemapLoader, CubemapStep,
    CubemapUpload, GlCall, RawImage,
};
use std::io::Cursor;

const ORDER: [Face; 6] =
    [Face::Right, Face::Left, Face::Bottom, Face::Top, Face::Back, Face::Front];

fn jpeg_bytes(width: u32, height: u32, rgb: [u8; 3]) -> Vec<u8> {
    let buffer = image::RgbImage::from_pixel(width, height, image::Rgb(rgb));
    let mut bytes = Vec::new();
    image::DynamicImage::ImageRgb8(buffer)
        .write_to(&mut Cursor::new(&mut bytes), image::ImageFormat::Jpeg)
        .unwrap();
    bytes
}

fn colour(i: usize) -> [u8; 3] {
    [[250, 10, 10], [10, 250, 10], [10, 10, 250], [250, 250, 10], [10, 250, 250], [250, 10, 250]][i]
}

fn plain(size_w: u32, size_h: u32, fill: u8) -> RawImage {
    RawImage::from_raw_rgba_reversed(vec![fill; (size_w * size_h * 4) as usize], (size_w, size_h))
        .unwrap()
}

fn expect_read(step: CubemapStep) -> CubemapLoader {
    match step {
        CubemapStep::Read(loader) => loader,
        other => panic!("expected a request for a file, got {:?}", other),
    }
}

fn expect_upload(step: CubemapStep) -> CubemapUpload {
    match step {
        CubemapStep::Upload(upload) => upload,
        other => panic!("expected a cubemap, got {:?}", other),
    }
}

fn expect_failure(step: CubemapStep) -> AssetError {
    match step {
        CubemapStep::Failed(e) => e,
        other => panic!("expected a failure, got {:?}", other),
    }
}

fn load(name: &str, files: Vec<Result<Vec<u8>, String>>) -> (CubemapStep, Vec<String>) {
    let mut asked = Vec::new();
    let mut loader = load_cubemap(name);
    let mut files = files.into_iter();
    loop {
        asked.push(loader.pending_path());
        match loader.file_read(files.next().expect("the loader asked for a seventh file")) {
            CubemapStep::Read(next) => loader = next,
            done => return (done, asked),
        }
    }
}

fn accept_all(images: Vec<RawImage>) -> CubemapStep {
    let mut loader = load_cubemap("c");
    let mut images = images.into_iter();
    loop {
        match loader.accept_face(images.next().expect("the loader asked for a seventh face")) {
            CubemapStep::Read(next) => loader = next,
            done => return done,
        }
    }
}

#[test]
fn the_native_enumerants_are_those_of_the_graphics_api() {
    assert_eq!(TEXTURE_CUBE_MAP, gl::TEXTURE_CUBE_MAP);
    assert_eq!(RGBA, gl::RGBA);
    assert_eq!(UNSIGNED_BYTE, gl::UNSIGNED_BYTE);
    assert_eq!(TEXTURE_MAG_FILTER, gl::TEXTURE_MAG_FILTER);
    assert_eq!(TEXTURE_MIN_FILTER, gl::TEXTURE_MIN_FILTER);
    assert_eq!(TEXTURE_WRAP_S, gl::TEXTURE_WRAP_S);
    assert_eq!(TEXTURE_WRAP_T, gl::TEXTURE_WRAP_T);
    assert_eq!(TEXTURE_WRAP_R, gl::TEXTURE_WRAP_R);
    assert_eq!(LINEAR, gl::LINEAR);
    assert_eq!(CLAMP_TO_EDGE, gl::CLAMP_TO_EDGE);
}

#[test]
fn the_calls_for_a_cubemap_are_exactly_these() {
    let upload = |face: Face, target: u32| GlCall::TexImage2D {
        target,
        level: 0,
        internal_format: 0x1908,
        width: 64,
        height: 64,
        border: 0,
        format: 0x1908,
        kind: 0x1401,
        face,
    };
    let set = |pname: u32, param: i32| GlCall::TexParameteri { target: 0x8513, pname, param };
    let expected = vec![
        GlCall::GenTexture,
        GlCall::BindTexture { target: 0x8513, texture: Binding::Allocated },
        upload(Face::Right, 0x8515),
        upload(Face::Left, 0x8516),
        upload(Face::Bottom, 0x8517),
        upload(Face::Top, 0x8518),
        upload(Face::Back, 0x8519),
        upload(Face::Front, 0x851A),
        set(0x2800, 0x2601),
        set(0x2801, 0x2601),
        set(0x2802, 0x812F),
        set(0x2803, 0x812F),
        set(0x8072, 0x812F),
        GlCall::BindTexture { target: 0x8513, texture: Binding::Unbound },
    ];
    assert_eq!(cubemap_calls(64), expected);
    assert_eq!(expected.len(), CALL_COUNT);
}

#[test]
fn the_largest_size_still_fits_the_native_integer() {
    let calls = cubemap_calls(i32::MAX as u32);
    match calls[2] {
        GlCall::TexImage2D { width, height, .. } => {
            assert_eq!(width, i32::MAX);
            assert_eq!(height, i32::MAX);
        }
        other => panic!("unexpected call {:?}", other),
    }
}

#[test]
fn six_equal_squares_make_a_cubemap_of_their_size() {
    let images: Vec<RawImage> = (0..6).map(|i| plain(8, 8, i as u8)).collect();
    let upload = expect_upload(accept_all(images.clone()));
    assert_eq!(upload.size(), 8);
    assert_eq!(upload.faces(), &images);
    for (i, face) in ORDER.into_iter().enumerate() {
        assert_eq!(upload.face(face), &images[i]);
    }
    assert_eq!(upload.calls(), cubemap_calls(8));
    assert_eq!(
        upload.finish(77),
        CubemapDescriptor { id: 77, size: 8, extra_mip_levels: 0, owned: true }
    );
}

#[test]
fn a_face_of_another_size_is_named_in_the_failure() {
    for bad in 1..6usize {
        let images: Vec<RawImage> =
            (0..6).map(|i| if i == bad { plain(4, 4, 0) } else { plain(8, 8, 0) }).collect();
        assert_eq!(
            expect_failure(accept_all(images)),
            AssetError::SizeMismatch { expected: 8, width: 4, height: 4, face: ORDER[bad] }
        );
    }
}

#[test]
fn the_first_face_sets_the_size() {
    let images = vec![plain(4, 4, 0), plain(8, 8, 0), plain(8, 8, 0)];
    assert_eq!(
        expect_failure(accept_all(images)),
        AssetError::SizeMismatch { expected: 4, width: 8, height: 8, face: Face::Left }
    );
}

#[test]
fn a_face_that_is_not_square_is_refused() {
    assert_eq!(
        expect_failure(accept_all(vec![plain(8, 4, 0)])),
        AssetError::SizeMismatch { expected: 8, width: 8, height: 4, face: Face::Right }
    );
    let images = vec![plain(8, 8, 0), plain(8, 8, 0), plain(8, 9, 0)];
    assert_eq!(
        expect_failure(accept_all(images)),
        AssetError::SizeMismatch { expected: 8, width: 8, height: 9, face: Face::Bottom }
    );
    let images = vec![plain(8, 8, 0), plain(7, 8, 0)];
    assert_eq!(
        expect_failure(accept_all(images)),
        AssetError::SizeMismatch { expected: 8, width: 7, height: 8, face: Face::Left }
    );
}

#[test]
fn the_first_of_several_offenders_is_reported() {
    let images = vec![plain(8, 8, 0), plain(8, 8, 0), plain(8, 8, 0), plain(2, 2, 0), plain(3, 3, 0)];
    assert_eq!(
        expect_failure(accept_all(images)),
        AssetError::SizeMismatch { expected: 8, width: 2, height: 2, face: Face::Top }
    );
}

#[test]
fn the_files_are_asked_for_in_canonical_order() {
    let files = (0..6).map(|i| Ok(jpeg_bytes(16, 16, colour(i)))).collect();
    let (step, asked) = load("skybox", files);
    expect_upload(step);
    assert_eq!(
        asked,
        vec![
            "./assets/textures/skybox/right.jpg",
            "./assets/textures/skybox/left.jpg",
            "./assets/textures/skybox/bottom.jpg",
            "./assets/textures/skybox/top.jpg",
            "./assets/textures/skybox/back.jpg",
            "./assets/textures/skybox/front.jpg",
        ]
    );
}

#[test]
fn six_jpeg_faces_of_64_pixels_make_a_cubemap_of_size_64() {
    let files: Vec<Vec<u8>> = (0..6).map(|i| jpeg_bytes(64, 64, colour(i))).collect();
    let (step, _) = load("skybox", files.iter().cloned().map(Ok).collect());
    let upload = expect_upload(step);
    assert_eq!(upload.size(), 64);
    assert_eq!(upload.faces().len(), 6);
    for (i, face) in ORDER.into_iter().enumerate() {
        let image = upload.face(face);
        assert_eq!((image.width(), image.height()), (64, 64));
        assert_eq!(image.pixels().len(), 64 * 64 * 4);
        let pixel = &image.pixels()[..4];
        for c in 0..3 {
            assert!((pixel[c] as i32 - colour(i)[c] as i32).abs() <= 8, "face {} channel {}", i, c);
        }
        assert_eq!(pixel[3], 255);
    }
    let calls = upload.calls();
    for (i, face) in ORDER.into_iter().enumerate() {
        match calls[2 + i] {
            GlCall::TexImage2D { target, width, height, face: uploaded, .. } => {
                assert_eq!(target, gl::TEXTURE_CUBE_MAP_POSITIVE_X + i as u32);
                assert_eq!((width, height), (64, 64));
                assert_eq!(uploaded, face);
            }
            other => panic!("unexpected call {:?}", other),
        }
    }
    assert_eq!(upload.finish(3).size, 64);
}

#[test]
fn swapping_two_face_files_swaps_the_two_faces() {
    let files: Vec<Vec<u8>> = (0..6).map(|i| jpeg_bytes(64, 64, colour(i))).collect();
    let mut swapped = files.clone();
    swapped.swap(0, 1);
    let straight = expect_upload(load("skybox", files.into_iter().map(Ok).collect()).0);
    let crossed = expect_upload(load("skybox", swapped.into_iter().map(Ok).collect()).0);
    assert_eq!(crossed.size(), 64);
    assert_eq!(crossed.face(Face::Right), straight.face(Face::Left));
    assert_eq!(crossed.face(Face::Left), straight.face(Face::Right));
    assert_ne!(crossed.face(Face::Right), straight.face(Face::Right));
    for face in [Face::Bottom, Face::Top, Face::Back, Face::Front] {
        assert_eq!(crossed.face(face), straight.face(face));
    }
    assert_eq!(crossed.calls(), straight.calls());
}

#[test]
fn a_face_file_of_another_size_fails_without_an_upload() {
    let mut files: Vec<Result<Vec<u8>, String>> =
        (0..6).map(|i| Ok(jpeg_bytes(16, 16, colour(i)))).collect();
    files[3] = Ok(jpeg_bytes(32, 16, colour(3)));
    let (step, asked) = load("skybox", files);
    assert_eq!(
        expect_failure(step),
        AssetError::SizeMismatch { expected: 16, width: 32, height: 16, face: Face::Top }
    );
    assert_eq!(asked.len(), 4);
}

#[test]
fn a_face_file_that_cannot_be_read_ends_the_load() {
    let mut files: Vec<Result<Vec<u8>, String>> =
        (0..6).map(|i| Ok(jpeg_bytes(16, 16, colour(i)))).collect();
    files[2] = Err("No such file or directory".to_string());
    files[1] = Ok(jpeg_bytes(16, 16, colour(1)));
    let (step, asked) = load("skybox", files);
    assert_eq!(
        expect_failure(step),
        AssetError::Io {
            path: "./assets/textures/skybox/bottom.jpg".to_string(),
            cause: "No such file or directory".to_string(),
        }
    );
    assert_eq!(asked.len(), 3);
}

#[test]
fn a_face_file_that_is_not_a_jpeg_ends_the_load() {
    let files = vec![Ok(jpeg_bytes(16, 16, colour(0))), Ok(b"not a jpeg".to_vec())];
    let (step, _) = load("skybox", files);
    match expect_failure(step) {
        AssetError::Decode { path, cause } => {
            assert_eq!(path, "./assets/textures/skybox/left.jpg");
            assert!(!cause.is_empty());
        }
        other => panic!("unexpected failure {:?}", other),
    }
}

#[test]
fn an_earlier_fault_hides_a_later_one() {
    let files = vec![
        Ok(jpeg_bytes(16, 16, colour(0))),
        Ok(jpeg_bytes(8, 8, colour(1))),
        Err("gone".to_string()),
    ];
    let (step, asked) = load("skybox", files);
    assert_eq!(
        expect_failure(step),
        AssetError::SizeMismatch { expected: 16, width: 8, height: 8, face: Face::Left }
    );
    assert_eq!(asked.len(), 2);
}

#[test]
fn six_outcomes_at_once_give_the_same_cubemap_as_one_by_one() {
    let files: Vec<Result<Vec<u8>, String>> =
        (0..6).map(|i| Ok(jpeg_bytes(16, 16, colour(i)))).collect();
    let at_once = expect_upload(lights::load_cubemap_faces("skybox", files.clone()));
    let stepwise = expect_upload(load("skybox", files).0);
    assert_eq!(at_once.size(), 16);
    assert_eq!(at_once.faces(), stepwise.faces());
}

#[test]
fn outcomes_after_the_first_fault_are_not_looked_at() {
    let files = vec![
        Ok(jpeg_bytes(16, 16, colour(0))),
        Err("unreadable".to_string()),
        Ok(b"not a jpeg".to_vec()),
        Ok(jpeg_bytes(3, 5, colour(3))),
    ];
    assert_eq!(
        expect_failure(lights::load_cubemap_faces("skybox", files)),
        AssetError::Io {
            path: "./assets/textures/skybox/left.jpg".to_string(),
            cause: "unreadable".to_string(),
        }
    );
}

#[test]
fn fewer_than_six_outcomes_leave_the_load_waiting() {
    let loader = expect_read(lights::load_cubemap_faces("skybox", vec![]));
    assert_eq!(loader.pending_face(), Face::Right);
    let files = (0..4).map(|i| Ok(jpeg_bytes(16, 16, colour(i)))).collect();
    let loader = expect_read(lights::load_cubemap_faces("skybox", files));
    assert_eq!(loader.pending_face(), Face::Back);
    assert_eq!(loader.pending_path(), "./assets/textures/skybox/back.jpg");
}

#[test]
fn outcomes_beyond_the_sixth_are_ignored() {
    let mut files: Vec<Result<Vec<u8>, String>> =
        (0..6).map(|i| Ok(jpeg_bytes(16, 16, colour(i)))).collect();
    files.push(Err("never read".to_string()));
    assert_eq!(expect_upload(lights::load_cubemap_faces("skybox", files)).size(), 16);
}
