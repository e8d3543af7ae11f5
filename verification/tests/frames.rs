use frename::frames::{orient, orientation, turn_frame, Frame, Turn};

const RED: [u8; 3] = [255, 0, 0];
const BLUE: [u8; 3] = [0, 0, 255];

fn pixel(frame: &Frame, x: usize, y: usize) -> [u8; 3] {
    frame.pixels[y * frame.width + x]
}

#[test]
fn the_orientation_tag_turns_frames_upright() {
    // A 2×1 frame: red on the left, blue on the right.
    let frame = Frame { width: 2, height: 1, pixels: vec![RED, BLUE] };

    assert_eq!(orient(frame.clone(), None), frame);
    assert_eq!(orient(frame.clone(), Some("rotate-0")), frame);
    let turned = orient(frame.clone(), Some("rotate-90"));
    assert_eq!((turned.width, turned.height), (1, 2));
    assert_eq!(pixel(&turned, 0, 0), RED, "clockwise: the left edge goes up");
    let turned = orient(frame.clone(), Some("rotate-270"));
    assert_eq!(pixel(&turned, 0, 1), RED);
    assert_eq!(pixel(&orient(frame.clone(), Some("rotate-180")), 1, 0), RED);
    assert_eq!(pixel(&orient(frame.clone(), Some("flip-rotate-0")), 1, 0), RED);
    let flipped = orient(frame, Some("flip-rotate-90"));
    assert_eq!(((flipped.width, flipped.height), pixel(&flipped, 0, 1)), ((1, 2), RED));
}

#[test]
fn a_quarter_turn_of_a_larger_frame() {
    // 3×2:  a b c
    //       d e f
    let (a, b, c, d, e, f) = ([1, 0, 0], [2, 0, 0], [3, 0, 0], [4, 0, 0], [5, 0, 0], [6, 0, 0]);
    let frame = Frame { width: 3, height: 2, pixels: vec![a, b, c, d, e, f] };
    // Clockwise: d a / e b / f c.
    assert_eq!(turn_frame(&frame, Turn::Rotate90).pixels, vec![d, a, e, b, f, c]);
    // Counter-clockwise: c f / b e / a d.
    assert_eq!(turn_frame(&frame, Turn::Rotate270).pixels, vec![c, f, b, e, a, d]);
    assert_eq!(turn_frame(&frame, Turn::Rotate180).pixels, vec![f, e, d, c, b, a]);
    assert_eq!(turn_frame(&frame, Turn::FlipHorizontal).pixels, vec![c, b, a, f, e, d]);
    let back = turn_frame(&turn_frame(&frame, Turn::Rotate90), Turn::Rotate270);
    assert_eq!(back, frame);
}

#[test]
fn the_tags_name_a_mirror_and_a_turn() {
    assert_eq!(orientation(None), (false, None));
    assert_eq!(orientation(Some("rotate-90")), (false, Some(Turn::Rotate90)));
    assert_eq!(orientation(Some("flip-rotate-270")), (true, Some(Turn::Rotate270)));
    assert_eq!(orientation(Some("flip-rotate-0")), (true, None));
    assert_eq!(orientation(Some("flip-")), (true, None));
    assert_eq!(orientation(Some("upside-down")), (false, None));
}

#[test]
fn an_empty_frame_stays_empty() {
    let frame = Frame { width: 0, height: 3, pixels: Vec::new() };
    let turned = turn_frame(&frame, Turn::Rotate90);
    assert_eq!((turned.width, turned.height, turned.pixels.len()), (3, 0, 0));
}
