use video_player::frame::{convert, Frame, PixelFormat, UnsupportedFormatError};
use video_player::mirror::UiMirror;

fn rgb_plane(width: u32, height: u32) -> Vec<u8> {
    let len = (width as usize) * (height as usize) * 3;
    (0..len).map(|i| (i * 7 % 251) as u8).collect()
}

#[test]
fn rgb8_frame_converts_byte_for_byte() {
    let plane = rgb_plane(4, 3);
    let frame = Frame::new(4, 3, PixelFormat::Rgb8, plane.clone()).expect("tightly packed");
    match convert(&frame) {
        Ok(buffer) => {
            assert_eq!(buffer.width(), 4);
            assert_eq!(buffer.height(), 3);
            assert_eq!(buffer.as_bytes().len(), 4 * 3 * 3);
            assert_eq!(buffer.as_bytes(), plane.as_slice());
        }
        Err(error) => panic!("an RGB8 frame was refused: {:?}", error),
    }
}

#[test]
fn converted_buffer_is_a_copy_of_the_plane() {
    let plane = vec![1u8, 2, 3, 4, 5, 6];
    let frame = Frame::new(2, 1, PixelFormat::Rgb8, plane).expect("tightly packed");
    let first = convert(&frame).ok().expect("RGB8 converts");
    let second = convert(&frame).ok().expect("RGB8 converts");
    assert_eq!(first.as_bytes(), &[1u8, 2, 3, 4, 5, 6]);
    assert_eq!(first.as_bytes(), second.as_bytes());
}

#[test]
fn empty_rgb8_frame_converts_to_an_empty_buffer() {
    let frame = Frame::new(0, 5, PixelFormat::Rgb8, Vec::new()).expect("tightly packed");
    let buffer = convert(&frame).ok().expect("RGB8 converts");
    assert_eq!(buffer.width(), 0);
    assert_eq!(buffer.height(), 5);
    assert_eq!(buffer.as_bytes().len(), 0);
}

#[test]
fn every_other_format_is_refused_with_its_name() {
    let formats = [
        PixelFormat::Rgba8,
        PixelFormat::Bgr8,
        PixelFormat::Bgra8,
        PixelFormat::Gray8,
        PixelFormat::I420,
        PixelFormat::Nv12,
        PixelFormat::Unknown,
    ];
    for format in formats {
        let frame = Frame::new(2, 2, format, vec![0u8; 12]).expect("any plane is accepted");
        match convert(&frame) {
            Ok(_) => panic!("{:?} was converted", format),
            Err(error) => assert_eq!(error, UnsupportedFormatError { format }),
        }
    }
}

#[test]
fn rgb8_frame_must_be_tightly_packed() {
    assert!(Frame::new(2, 2, PixelFormat::Rgb8, vec![0u8; 11]).is_none());
    assert!(Frame::new(2, 2, PixelFormat::Rgb8, vec![0u8; 13]).is_none());
    assert!(Frame::new(2, 2, PixelFormat::Rgb8, vec![0u8; 16]).is_none());
    assert!(Frame::new(2, 2, PixelFormat::Rgb8, vec![0u8; 12]).is_some());
    assert!(Frame::new(u32::MAX, u32::MAX, PixelFormat::Rgb8, vec![0u8; 3]).is_none());
}

#[test]
fn other_formats_accept_any_plane() {
    assert!(Frame::new(2, 2, PixelFormat::I420, vec![0u8; 6]).is_some());
    assert!(Frame::new(2, 2, PixelFormat::Rgba8, Vec::new()).is_some());
}

#[test]
fn buffer_gives_up_the_shared_form_unchanged() {
    let plane = rgb_plane(3, 2);
    let frame = Frame::new(3, 2, PixelFormat::Rgb8, plane.clone()).expect("tightly packed");
    let shared = convert(&frame).ok().expect("RGB8 converts").into_shared();
    assert_eq!(shared.width(), 3);
    assert_eq!(shared.height(), 2);
    assert_eq!(shared.as_bytes(), plane.as_slice());
}

#[test]
fn mirror_takes_frame_and_size_together() {
    let mut mirror = UiMirror::new();
    assert_eq!(mirror.video_width(), 0);
    assert_eq!(mirror.video_height(), 0);
    assert!(mirror.current_frame().is_none());
    assert!(!mirror.is_playing());

    let first = Frame::new(2, 1, PixelFormat::Rgb8, vec![9u8; 6]).expect("tightly packed");
    mirror.show_frame(convert(&first).ok().expect("RGB8 converts"));
    assert_eq!((mirror.video_width(), mirror.video_height()), (2, 1));

    let plane = rgb_plane(5, 4);
    let second = Frame::new(5, 4, PixelFormat::Rgb8, plane.clone()).expect("tightly packed");
    mirror.show_frame(convert(&second).ok().expect("RGB8 converts"));
    assert_eq!((mirror.video_width(), mirror.video_height()), (5, 4));
    let shown = mirror.current_frame().expect("a frame is on display");
    assert_eq!(shown.as_bytes(), plane.as_slice());
    assert!(!mirror.is_playing());
}

#[test]
fn frame_hands_back_what_it_was_made_of() {
    let plane = rgb_plane(3, 2);
    let frame = Frame::new(3, 2, PixelFormat::Rgb8, plane.clone()).expect("tightly packed");
    assert_eq!(frame.width(), 3);
    assert_eq!(frame.height(), 2);
    assert_eq!(frame.format(), PixelFormat::Rgb8);
    assert_eq!(frame.plane(), plane.as_slice());
}

#[test]
fn formats_have_their_names() {
    assert_eq!(PixelFormat::Rgb8.name(), "RGB");
    assert_eq!(PixelFormat::Rgba8.name(), "RGBA");
    assert_eq!(PixelFormat::Bgr8.name(), "BGR");
    assert_eq!(PixelFormat::Bgra8.name(), "BGRA");
    assert_eq!(PixelFormat::Gray8.name(), "GRAY8");
    assert_eq!(PixelFormat::I420.name(), "I420");
    assert_eq!(PixelFormat::Nv12.name(), "NV12");
    assert_eq!(PixelFormat::Unknown.name(), "UNKNOWN");
}

#[test]
fn error_message_names_the_format() {
    let frame = Frame::new(1, 1, PixelFormat::Nv12, vec![0u8; 2]).expect("any plane is accepted");
    match convert(&frame) {
        Ok(_) => panic!("NV12 was converted"),
        Err(error) => assert_eq!(
            error.message(),
            "Cannot convert frame to an RGB frame because it is format NV12"
        ),
    }
}
