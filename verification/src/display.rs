//! The 5-by-5 light-matrix frames the device shows as local feedback.
//!
//! A frame is five rows of five pixels, one bit per pixel with the
//! leftmost column in the highest of the five bits. The driver that owns
//! the matrix drains a queue of actions outside the library; what the
//! library fixes is every bitmap in the catalog and how a request turns
//! into the frame that is shown — including the position frame, which
//! marks a single pixel from cartesian stick coordinates with the origin
//! at the center of the display.

use vstd::prelude::*;

verus! {

/// One light-matrix frame: five rows, each holding five pixel bits.
#[derive(Clone, Copy, PartialEq, Eq, Structural, Debug)]
pub struct Frame {
    pub r0: u8,
    pub r1: u8,
    pub r2: u8,
    pub r3: u8,
    pub r4: u8,
}

impl Frame {
    /// Every row uses its five pixel bits only.
    pub open spec fn wf(&self) -> bool {
        self.r0 < 32 && self.r1 < 32 && self.r2 < 32 && self.r3 < 32 && self.r4 < 32
    }
}

/// The heart bitmap.
pub open spec fn spec_heart() -> Frame {
    Frame { r0: 0b01010, r1: 0b10101, r2: 0b10001, r3: 0b01010, r4: 0b00100 }
}

/// The smile bitmap.
pub open spec fn spec_smile() -> Frame {
    Frame { r0: 0b00000, r1: 0b01010, r2: 0b00000, r3: 0b10001, r4: 0b01110 }
}

/// The sad-face bitmap.
pub open spec fn spec_sad() -> Frame {
    Frame { r0: 0b00000, r1: 0b01010, r2: 0b00000, r3: 0b01110, r4: 0b10001 }
}

/// The question-mark bitmap.
pub open spec fn spec_question_mark() -> Frame {
    Frame { r0: 0b01100, r1: 0b10010, r2: 0b00100, r3: 0b00000, r4: 0b00100 }
}

/// The up-arrow bitmap.
pub open spec fn spec_arrow_up() -> Frame {
    Frame { r0: 0b00100, r1: 0b01110, r2: 0b10101, r3: 0b00100, r4: 0b00100 }
}

/// The down-arrow bitmap.
pub open spec fn spec_arrow_down() -> Frame {
    Frame { r0: 0b00100, r1: 0b00100, r2: 0b10101, r3: 0b01110, r4: 0b00100 }
}

/// The left-arrow bitmap.
pub open spec fn spec_arrow_left() -> Frame {
    Frame { r0: 0b00100, r1: 0b01000, r2: 0b11111, r3: 0b01000, r4: 0b00100 }
}

/// The right-arrow bitmap.
pub open spec fn spec_arrow_right() -> Frame {
    Frame { r0: 0b00100, r1: 0b00010, r2: 0b11111, r3: 0b00010, r4: 0b00100 }
}

/// Clamp a coordinate onto the display, columns and rows both running 0
/// through 4.
pub open spec fn clamp04(v: int) -> int {
    if v < 0 {
        0
    } else if v > 4 {
        4
    } else {
        v
    }
}

/// The single-pixel row value for a column, leftmost column highest bit.
pub open spec fn col_mask(c: int) -> u8 {
    if c == 0 {
        0b10000
    } else if c == 1 {
        0b01000
    } else if c == 2 {
        0b00100
    } else if c == 3 {
        0b00010
    } else {
        0b00001
    }
}

/// The frame marking one stick position: cartesian coordinates with the
/// origin at the display's center, clamped onto the display, one pixel lit.
pub open spec fn spec_coord_frame(x: int, y: int) -> Frame {
    let cx = clamp04(x + 2);
    let cy = clamp04(y + 2);
    Frame {
        r0: if cy == 0 { col_mask(cx) } else { 0 },
        r1: if cy == 1 { col_mask(cx) } else { 0 },
        r2: if cy == 2 { col_mask(cx) } else { 0 },
        r3: if cy == 3 { col_mask(cx) } else { 0 },
        r4: if cy == 4 { col_mask(cx) } else { 0 },
    }
}

/// The bitmap a letter is shown as: each button label has its own frame,
/// anything unlabelled falls back to the question mark.
pub open spec fn spec_letter_frame(c: char) -> Frame {
    if c == 'A' {
        spec_smile()
    } else if c == 'B' {
        spec_sad()
    } else if c == 'C' {
        spec_arrow_left()
    } else if c == 'D' {
        spec_arrow_up()
    } else if c == 'E' {
        spec_arrow_down()
    } else if c == 'F' {
        spec_arrow_right()
    } else {
        spec_question_mark()
    }
}

/// A frame request, as the tasks of a session issue them.
#[derive(Clone, Copy, PartialEq, Eq, Structural, Debug)]
pub enum DisplayFrame {
    /// Show a caller-supplied bitmap.
    Custom(Frame),
    /// Show a single pixel at the given stick coordinates, where (0, 0)
    /// is the center of the display.
    Coord { x: i8, y: i8 },
    /// Show the bitmap of a button label.
    Letter(char),
    Heart,
    Smile,
    Sad,
    QuestionMark,
    Left,
    Right,
    Up,
    Down,
}

/// The frame a request resolves to.
pub open spec fn spec_to_frame(df: DisplayFrame) -> Frame {
    match df {
        DisplayFrame::Custom(frame) => frame,
        DisplayFrame::Coord { x, y } => spec_coord_frame(x as int, y as int),
        DisplayFrame::Letter(c) => spec_letter_frame(c),
        DisplayFrame::Heart => spec_heart(),
        DisplayFrame::Smile => spec_smile(),
        DisplayFrame::Sad => spec_sad(),
        DisplayFrame::QuestionMark => spec_question_mark(),
        DisplayFrame::Left => spec_arrow_left(),
        DisplayFrame::Right => spec_arrow_right(),
        DisplayFrame::Up => spec_arrow_up(),
        DisplayFrame::Down => spec_arrow_down(),
    }
}

impl DisplayFrame {
    /// Resolve this request to the frame the matrix will show.
    pub fn to_frame(&self) -> (f: Frame)
        ensures
            f == spec_to_frame(*self),
    {
        match *self {
            DisplayFrame::Custom(frame) => frame,
            DisplayFrame::Heart => Frame {
                r0: 0b01010, r1: 0b10101, r2: 0b10001, r3: 0b01010, r4: 0b00100,
            },
            DisplayFrame::Smile => Frame {
                r0: 0b00000, r1: 0b01010, r2: 0b00000, r3: 0b10001, r4: 0b01110,
            },
            DisplayFrame::Sad => Frame {
                r0: 0b00000, r1: 0b01010, r2: 0b00000, r3: 0b01110, r4: 0b10001,
            },
            DisplayFrame::QuestionMark => Frame {
                r0: 0b01100, r1: 0b10010, r2: 0b00100, r3: 0b00000, r4: 0b00100,
            },
            DisplayFrame::Left => Frame {
                r0: 0b00100, r1: 0b01000, r2: 0b11111, r3: 0b01000, r4: 0b00100,
            },
            DisplayFrame::Right => Frame {
                r0: 0b00100, r1: 0b00010, r2: 0b11111, r3: 0b00010, r4: 0b00100,
            },
            DisplayFrame::Up => Frame {
                r0: 0b00100, r1: 0b01110, r2: 0b10101, r3: 0b00100, r4: 0b00100,
            },
            DisplayFrame::Down => Frame {
                r0: 0b00100, r1: 0b00100, r2: 0b10101, r3: 0b01110, r4: 0b00100,
            },
            DisplayFrame::Coord { x, y } => {
                let cx: i32 = {
                    let v: i32 = x as i32 + 2;
                    if v < 0 {
                        0
                    } else if v > 4 {
                        4
                    } else {
                        v
                    }
                };
                let cy: i32 = {
                    let v: i32 = y as i32 + 2;
                    if v < 0 {
                        0
                    } else if v > 4 {
                        4
                    } else {
                        v
                    }
                };
                let mask: u8 = if cx == 0 {
                    0b10000
                } else if cx == 1 {
                    0b01000
                } else if cx == 2 {
                    0b00100
                } else if cx == 3 {
                    0b00010
                } else {
                    0b00001
                };
                Frame {
                    r0: if cy == 0 { mask } else { 0 },
                    r1: if cy == 1 { mask } else { 0 },
                    r2: if cy == 2 { mask } else { 0 },
                    r3: if cy == 3 { mask } else { 0 },
                    r4: if cy == 4 { mask } else { 0 },
                }
            },
            DisplayFrame::Letter(c) => {
                if c == 'A' {
                    Frame { r0: 0b00000, r1: 0b01010, r2: 0b00000, r3: 0b10001, r4: 0b01110 }
                } else if c == 'B' {
                    Frame { r0: 0b00000, r1: 0b01010, r2: 0b00000, r3: 0b01110, r4: 0b10001 }
                } else if c == 'C' {
                    Frame { r0: 0b00100, r1: 0b01000, r2: 0b11111, r3: 0b01000, r4: 0b00100 }
                } else if c == 'D' {
                    Frame { r0: 0b00100, r1: 0b01110, r2: 0b10101, r3: 0b00100, r4: 0b00100 }
                } else if c == 'E' {
                    Frame { r0: 0b00100, r1: 0b00100, r2: 0b10101, r3: 0b01110, r4: 0b00100 }
                } else if c == 'F' {
                    Frame { r0: 0b00100, r1: 0b00010, r2: 0b11111, r3: 0b00010, r4: 0b00100 }
                } else {
                    Frame { r0: 0b01100, r1: 0b10010, r2: 0b00100, r3: 0b00000, r4: 0b00100 }
                }
            },
        }
    }
}

/// Every frame in the catalog, and every frame a request resolves to,
/// keeps to the five pixel bits of each row.
pub proof fn lemma_frames_well_formed(df: DisplayFrame)
    requires
        df matches DisplayFrame::Custom(f) ==> f.wf(),
    ensures
        spec_to_frame(df).wf(),
{
}

/// A request queued to the display driver.
pub enum DisplayAction {
    /// Set the brightness of the display.
    SetBrightness(u8),
    /// Show a frame, for a number of milliseconds.
    SetFrame { frame: DisplayFrame, duration_ms: Option<u64> },
    /// Clear the display.
    Clear,
    /// Scroll a text across the display.
    Scroll(String),
}

} // verus!
