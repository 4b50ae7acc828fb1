use gamepad::display::{DisplayFrame, Frame};

#[test]
fn heart_bitmap_rows() {
    let f = DisplayFrame::Heart.to_frame();
    assert_eq!(f, Frame { r0: 0b01010, r1: 0b10101, r2: 0b10001, r3: 0b01010, r4: 0b00100 });
}

#[test]
fn question_mark_bitmap_rows() {
    let f = DisplayFrame::QuestionMark.to_frame();
    assert_eq!(f, Frame { r0: 0b01100, r1: 0b10010, r2: 0b00100, r3: 0b00000, r4: 0b00100 });
}

#[test]
fn arrow_bitmaps_rows() {
    assert_eq!(
        DisplayFrame::Up.to_frame(),
        Frame { r0: 0b00100, r1: 0b01110, r2: 0b10101, r3: 0b00100, r4: 0b00100 }
    );
    assert_eq!(
        DisplayFrame::Down.to_frame(),
        Frame { r0: 0b00100, r1: 0b00100, r2: 0b10101, r3: 0b01110, r4: 0b00100 }
    );
    assert_eq!(
        DisplayFrame::Left.to_frame(),
        Frame { r0: 0b00100, r1: 0b01000, r2: 0b11111, r3: 0b01000, r4: 0b00100 }
    );
    assert_eq!(
        DisplayFrame::Right.to_frame(),
        Frame { r0: 0b00100, r1: 0b00010, r2: 0b11111, r3: 0b00010, r4: 0b00100 }
    );
}

#[test]
fn coord_center_lights_middle_pixel() {
    let f = DisplayFrame::Coord { x: 0, y: 0 }.to_frame();
    assert_eq!(f, Frame { r0: 0, r1: 0, r2: 0b00100, r3: 0, r4: 0 });
}

#[test]
fn coord_offsets_map_to_display_cells() {
    // stick level (1, -2) lands one column right of center, top row
    let f = DisplayFrame::Coord { x: 1, y: -2 }.to_frame();
    assert_eq!(f, Frame { r0: 0b00010, r1: 0, r2: 0, r3: 0, r4: 0 });
}

#[test]
fn coord_clamped_onto_display() {
    let f = DisplayFrame::Coord { x: -100, y: -100 }.to_frame();
    assert_eq!(f, Frame { r0: 0b10000, r1: 0, r2: 0, r3: 0, r4: 0 });
    let f = DisplayFrame::Coord { x: 127, y: 127 }.to_frame();
    assert_eq!(f, Frame { r0: 0, r1: 0, r2: 0, r3: 0, r4: 0b00001 });
}

#[test]
fn letters_map_to_their_bitmaps() {
    assert_eq!(DisplayFrame::Letter('A').to_frame(), DisplayFrame::Smile.to_frame());
    assert_eq!(DisplayFrame::Letter('B').to_frame(), DisplayFrame::Sad.to_frame());
    assert_eq!(DisplayFrame::Letter('C').to_frame(), DisplayFrame::Left.to_frame());
    assert_eq!(DisplayFrame::Letter('D').to_frame(), DisplayFrame::Up.to_frame());
    assert_eq!(DisplayFrame::Letter('E').to_frame(), DisplayFrame::Down.to_frame());
    assert_eq!(DisplayFrame::Letter('F').to_frame(), DisplayFrame::Right.to_frame());
    assert_eq!(DisplayFrame::Letter('Z').to_frame(), DisplayFrame::QuestionMark.to_frame());
}

#[test]
fn custom_frame_passes_through() {
    let frame = Frame { r0: 1, r1: 2, r2: 4, r3: 8, r4: 16 };
    assert_eq!(DisplayFrame::Custom(frame).to_frame(), frame);
}
