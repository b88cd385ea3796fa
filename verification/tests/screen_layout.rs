use lead_barry::ui_runner::AnimationScreen;
use lead_barry::status_layout::{
    center_lines_vertically, status_layout, status_screen_layout, Point2, StatusFrame, TextBox,
};

fn p(x: i32, y: i32) -> Point2 {
    Point2 { x, y }
}

#[test]
fn status_without_detail_is_framed_around_its_box() {
    let layout = status_screen_layout("Disconnected", None).expect("in limits");
    assert_eq!(layout.status_dy, 0);
    assert_eq!(layout.detail_dy, 0);
    assert_eq!(
        layout.frame,
        Some(StatusFrame {
            upper: [p(1, 41), p(18, 41), p(21, 32), p(108, 32), p(111, 41), p(126, 41)],
            lower: [p(18, 41), p(21, 49), p(108, 49), p(111, 41)],
        })
    );
}

#[test]
fn status_and_detail_are_centred_together() {
    let layout = status_screen_layout("Connected to:", Some("MyNet")).expect("in limits");
    assert_eq!(layout.status_dy, -9);
    assert_eq!(layout.detail_dy, 7);
    assert_eq!(
        layout.frame,
        Some(StatusFrame {
            upper: [p(1, 40), p(14, 40), p(17, 23), p(111, 23), p(114, 40), p(126, 40)],
            lower: [p(14, 40), p(17, 56), p(111, 56), p(114, 40)],
        })
    );
}

#[test]
fn too_wide_status_gets_no_frame() {
    let layout = status_screen_layout("ABCDEFGHIJKLMNOPQR", None).expect("in limits");
    assert_eq!(layout.frame, None);
}

#[test]
fn layout_of_given_boxes() {
    let status = TextBox { x: 33, y: 34, width: 63, height: 14 };
    let layout = status_layout(status, None);
    assert_eq!(layout.status_dy, 0);
    let frame = layout.frame.expect("fits");
    // grown by two pixels each side about the centre
    assert_eq!(frame.upper[2], p(31, 32));
    assert_eq!(frame.upper[3], p(97, 32));
}

#[test]
fn width_equal_to_frame_compares_heights() {
    // grown width 120: fits only if the grown height is at most 40
    let low = TextBox { x: 0, y: 0, width: 116, height: 36 };
    assert!(status_layout(low, None).frame.is_some());
    let high = TextBox { x: 0, y: 0, width: 116, height: 37 };
    assert!(status_layout(high, None).frame.is_none());
    // a narrower box fits whatever its height
    let tall = TextBox { x: 0, y: 0, width: 100, height: 200 };
    assert!(status_layout(tall, None).frame.is_some());
}

#[test]
fn lines_are_centred_vertically() {
    let b = TextBox { x: 0, y: 10, width: 50, height: 14 };
    assert_eq!(center_lines_vertically(&vec![b, b, b], 40), vec![7, 23, 39]);
    assert_eq!(center_lines_vertically(&vec![b], 40), vec![40 - 7 - 10]);
    assert_eq!(center_lines_vertically(&vec![], 40), Vec::<i32>::new());
}

#[test]
fn animation_circle_moves_and_grows() {
    let mut a = AnimationScreen::new();
    assert_eq!(a.next_frame(), (41, 27, 10));
    assert_eq!(a.frame, 1);
    assert_eq!(a.frame_text(), "Frame: 1");
    a.frame = 24;
    assert_eq!(a.next_frame(), (47, 25, 14));
    a.frame = 0xFFFF_FFFA;
    assert_eq!(a.next_frame(), (25, 23, 18));
}
