use revere::config::{Config, WindowConfig, WindowSize};
use revere::error::RevereError;
use revere::frame::{copy_frame, FrameLayout, TEXT_TOP, THUMBNAIL_TEXT_OFFSET};

fn sized(width: u32, height: u32) -> WindowConfig {
    let mut c = Config::default().window;
    c.size = WindowSize { width, height };
    c
}

#[test]
fn buffer_is_width_times_height_times_four() {
    for (w, h) in [(200u32, 100u32), (1, 1), (0, 50), (37, 13), (1920, 1080)] {
        let l = FrameLayout::for_config(&sized(w, h), false).unwrap();
        assert_eq!(l.byte_len as usize, (w * h * 4) as usize);
        assert_eq!(l.stride, w * 4);
        assert_eq!(l.blank_pixels().len(), (w * h * 4) as usize);
        assert!(l.blank_pixels().iter().all(|b| *b == 0));
    }
}

#[test]
fn oversized_frame_is_refused() {
    assert_eq!(FrameLayout::for_config(&sized(65536, 65536), false), Err(RevereError::BufferTooLarge));
    assert_eq!(FrameLayout::for_config(&sized(0x2000_0000, 0), false), Err(RevereError::BufferTooLarge));
    assert!(FrameLayout::for_config(&sized(0x1fff_ffff, 1), false).is_ok());
}

#[test]
fn text_beside_thumbnail() {
    let l = FrameLayout::for_config(&sized(400, 100), true).unwrap();
    assert_eq!(l.text_x, THUMBNAIL_TEXT_OFFSET);
    assert_eq!(l.text_y, TEXT_TOP);
    assert_eq!(l.text_width, 220);
    let narrow = FrameLayout::for_config(&sized(100, 100), true).unwrap();
    assert_eq!(narrow.text_width, 0);
}

#[test]
fn text_between_margins_without_thumbnail() {
    let l = FrameLayout::for_config(&sized(200, 100), false).unwrap();
    assert_eq!(l.text_x, 0);
    // The default margins are 10 on the right and 0 on the left.
    assert_eq!(l.text_width, 190);
    let mut c = sized(200, 100);
    c.margin.left = -50;
    c.margin.right = -50;
    assert_eq!(FrameLayout::for_config(&c, false).unwrap().text_width, 200);
    c.margin.left = 150;
    c.margin.right = 150;
    assert_eq!(FrameLayout::for_config(&c, false).unwrap().text_width, 0);
}

#[test]
fn copy_fills_front_and_keeps_rest() {
    let mut dst = vec![9u8; 6];
    copy_frame(&mut dst, &[1, 2, 3, 4]);
    assert_eq!(dst, vec![1, 2, 3, 4, 9, 9]);
    let mut same = vec![0u8; 3];
    copy_frame(&mut same, &[5, 6, 7]);
    assert_eq!(same, vec![5, 6, 7]);
}
