//! Layout of the status screen: the status line and its optional detail
//! line are centred together in the status frame, and a frame is drawn
//! around them when they fit.
//!
//! Screen coordinates: x grows to the right, y downwards; the display is
//! 128 by 64 pixels, the title bar takes the top 16 rows and the status
//! frame the rest.

use embedded_graphics::geometry::{Dimensions, Point};
use embedded_graphics::mono_font::ascii::FONT_7X14_BOLD;
use embedded_graphics::mono_font::MonoTextStyle;
use embedded_graphics::pixelcolor::BinaryColor;
use embedded_graphics::text::{Alignment, Baseline, Text, TextStyleBuilder};
use vstd::prelude::*;

verus! {

/// Centre of the status frame, where the status text is centred.
pub const STATUS_TEXT_X: i32 = 64;

/// Middle row of the status frame.
pub const STATUS_TEXT_Y: i32 = 40;

/// Rows between the status line and the detail line.
pub const LINE_SPACE: u32 = 2;

/// Pixels by which the text frame surrounds the texts.
pub const TEXT_FRAME_MARGIN: u32 = 2;

/// Inner width of the status frame, less a border and three pixels each side.
pub const FRAME_INNER_WIDTH: u32 = 120;

/// Inner height of the status frame, less a border and three pixels each side.
pub const FRAME_INNER_HEIGHT: u32 = 40;

/// First column inside the status frame border.
pub const FRAME_LEFT_X: i32 = 1;

/// Last column inside the status frame border.
pub const FRAME_RIGHT_X: i32 = 126;

/// Largest coordinate or size of a text box that the layout accepts.
pub const BOX_LIMIT: i32 = 0x10_0000;

/// Most characters of a text that is measured: seven columns and fourteen
/// rows per character then stay far within 32-bit coordinates.
pub const MAX_MEASURED_CHARS: usize = 100_000_000;

/// A point of the screen.
#[derive(Debug, Clone, Copy, PartialEq, Eq, Structural)]
pub struct Point2 {
    pub x: i32,
    pub y: i32,
}

/// A rectangle given by its top-left corner and its size.
#[derive(Debug, Clone, Copy, PartialEq, Eq, Structural)]
pub struct TextBox {
    pub x: i32,
    pub y: i32,
    pub width: u32,
    pub height: u32,
}

/// The two polylines of the text frame: the upper one runs from the left
/// border of the status frame over the texts to its right border, the lower
/// one closes the frame below the texts.
#[derive(Debug, Clone, Copy, PartialEq, Eq)]
pub struct StatusFrame {
    pub upper: [Point2; 6],
    pub lower: [Point2; 4],
}

/// Where the texts of the status screen go.
#[derive(Debug, Clone, Copy, PartialEq, Eq)]
pub struct StatusLayout {
    /// Rows by which the status text moves.
    pub status_dy: i32,
    /// Rows by which the detail text moves.
    pub detail_dy: i32,
    /// The frame around the texts, when they fit in the status frame.
    pub frame: Option<StatusFrame>,
}

/// The point (x, y).
pub open spec fn pt(x: int, y: int) -> Point2 {
    Point2 { x: x as i32, y: y as i32 }
}

/// A box whose coordinates and size stay within the layout limits.
pub open spec fn box_in_limits(b: TextBox) -> bool {
    &&& -BOX_LIMIT <= b.x <= BOX_LIMIT
    &&& -BOX_LIMIT <= b.y <= BOX_LIMIT
    &&& b.width <= BOX_LIMIT
    &&& b.height <= BOX_LIMIT
}

/// Rows of the status and detail lines together.
pub open spec fn total_height(status: TextBox, detail: TextBox) -> int {
    status.height + detail.height + LINE_SPACE
}

/// First row of the status and detail lines centred together.
pub open spec fn total_top(status: TextBox, detail: TextBox) -> int {
    STATUS_TEXT_Y - total_height(status, detail) / 2
}

/// Rows by which the status line moves up or down: to the top of the pair.
pub open spec fn status_shift(status: TextBox, detail: Option<TextBox>) -> int {
    match detail {
        Some(d) => total_top(status, d) - status.y,
        None => 0,
    }
}

/// Rows by which the detail line moves: its last row becomes the last row
/// of the pair.
pub open spec fn detail_shift(status: TextBox, detail: Option<TextBox>) -> int {
    match detail {
        Some(d) => (total_top(status, d) + total_height(status, d) - 1) - (d.y + d.height - 1),
        None => 0,
    }
}

/// The box around the texts: the moved status box and the detail box as
/// measured before its move, spanning the height of the pair.
pub open spec fn texts_box(status: TextBox, detail: Option<TextBox>) -> TextBox {
    match detail {
        Some(d) => {
            let status_top = status.y + status_shift(status, detail);
            TextBox {
                x: if status.x <= d.x { status.x } else { d.x },
                y: (if status_top <= d.y { status_top } else { d.y as int }) as i32,
                width: if status.width >= d.width { status.width } else { d.width },
                height: total_height(status, d) as u32,
            }
        },
        None => status,
    }
}

/// One box lies horizontally within the other, as two lines centred on the
/// same column do.
pub open spec fn nested_horizontally(a: TextBox, b: TextBox) -> bool {
    ||| (a.x <= b.x && b.x + b.width <= a.x + a.width)
    ||| (b.x <= a.x && a.x + a.width <= b.x + b.width)
}

/// The box around the texts spans both lines horizontally: with a detail
/// line that lies within the status line's columns or around them, as two
/// centred lines do, it starts no further right than either box and ends
/// no further left than either; and the frame drawn around it, where it
/// fits, starts left of both boxes and ends at or right of both.
pub proof fn lemma_status_frame_spans_both_lines(status: TextBox, detail: TextBox)
    requires
        box_in_limits(status),
        box_in_limits(detail),
        nested_horizontally(status, detail),
    ensures
        ({
            let b = texts_box(status, Some(detail));
            &&& b.x <= status.x && b.x <= detail.x
            &&& b.x + b.width >= status.x + status.width
            &&& b.x + b.width >= detail.x + detail.width
        }),
        status_layout_of(status, Some(detail)).frame matches Some(f) ==> {
            &&& f.upper[2].x < status.x && f.upper[2].x < detail.x
            &&& f.upper[3].x >= status.x + status.width
            &&& f.upper[3].x >= detail.x + detail.width
            &&& f.lower[1].x == f.upper[2].x && f.lower[2].x == f.upper[3].x
        },
{
}

/// With a detail line, the two lines are stacked and centred together on
/// the middle row of the status frame: the moved status line starts where
/// the pair starts, half its height above the middle row, and the moved
/// detail line starts [`LINE_SPACE`] rows below the status line's end.
/// Without a detail line nothing moves.
pub proof fn lemma_status_lines_stacked(status: TextBox, detail: Option<TextBox>)
    requires
        box_in_limits(status),
        detail matches Some(d) ==> box_in_limits(d),
    ensures
        detail matches Some(d) ==> {
            let layout = status_layout_of(status, detail);
            let status_top = status.y + layout.status_dy;
            let detail_top = d.y + layout.detail_dy;
            &&& status_top == STATUS_TEXT_Y - (status.height + d.height + LINE_SPACE) / 2
            &&& detail_top == status_top + status.height + LINE_SPACE
        },
        detail is None ==> status_layout_of(status, detail).status_dy == 0
            && status_layout_of(status, detail).detail_dy == 0,
{
}

/// Without a detail line, the frame drawn around the status line, where it
/// fits, starts left of its box and ends at or right of it.
pub proof fn lemma_status_frame_spans_status_line(status: TextBox)
    requires
        box_in_limits(status),
    ensures
        texts_box(status, None) == status,
        status_layout_of(status, None).frame matches Some(f) ==> {
            &&& f.upper[2].x < status.x
            &&& f.upper[3].x >= status.x + status.width
        },
{
}

/// Half of a size less one, rounded down: where the centre of a box lies.
pub open spec fn center_offset(size: int) -> int {
    if size >= 1 { (size - 1) / 2 } else { 0 }
}

/// The box grown by `margin` pixels on each side about its centre.
pub open spec fn grown_box(b: TextBox, margin: int) -> TextBox {
    let w = b.width + 2 * margin;
    let h = b.height + 2 * margin;
    TextBox {
        x: (b.x + center_offset(b.width as int) - center_offset(w)) as i32,
        y: (b.y + center_offset(b.height as int) - center_offset(h)) as i32,
        width: w as u32,
        height: h as u32,
    }
}

/// Whether the text box fits the status frame, sizes compared by width
/// first and by height where the widths are equal.
pub open spec fn fits_frame(b: TextBox) -> bool {
    b.width < FRAME_INNER_WIDTH || (b.width == FRAME_INNER_WIDTH && b.height <= FRAME_INNER_HEIGHT)
}

/// The frame drawn around the box `b`.
pub open spec fn frame_of(b: TextBox) -> StatusFrame {
    let mid = b.y + b.height / 2;
    let right = b.x + b.width - 1;
    let bottom = b.y + b.height - 1;
    StatusFrame {
        upper: [
            pt(FRAME_LEFT_X as int, mid),
            pt(b.x - 3, mid),
            pt(b.x as int, b.y as int),
            pt(right, b.y as int),
            pt(right + 3, mid),
            pt(FRAME_RIGHT_X as int, mid),
        ],
        lower: [pt(b.x - 3, mid), pt(b.x as int, bottom), pt(right, bottom), pt(right + 3, mid)],
    }
}

/// The layout of a status line measured as `status` and a detail line
/// measured as `detail`, both at the centre of the status frame.
pub open spec fn status_layout_of(status: TextBox, detail: Option<TextBox>) -> StatusLayout {
    let framed = grown_box(texts_box(status, detail), TEXT_FRAME_MARGIN as int);
    StatusLayout {
        status_dy: status_shift(status, detail) as i32,
        detail_dy: detail_shift(status, detail) as i32,
        frame: if fits_frame(framed) { Some(frame_of(framed)) } else { None },
    }
}

/// The box grown by the frame margin on each side about its centre.
fn grow_box(b: TextBox) -> (r: TextBox)
    requires
        -4 * BOX_LIMIT <= b.x <= 4 * BOX_LIMIT,
        -4 * BOX_LIMIT <= b.y <= 4 * BOX_LIMIT,
        b.width <= 4 * BOX_LIMIT,
        b.height <= 4 * BOX_LIMIT,
    ensures
        r == grown_box(b, TEXT_FRAME_MARGIN as int),
{
    let w = b.width + 2 * TEXT_FRAME_MARGIN;
    let h = b.height + 2 * TEXT_FRAME_MARGIN;
    let old_cx: u32 = if b.width >= 1 { (b.width - 1) / 2 } else { 0 };
    let old_cy: u32 = if b.height >= 1 { (b.height - 1) / 2 } else { 0 };
    let new_cx: u32 = (w - 1) / 2;
    let new_cy: u32 = (h - 1) / 2;
    TextBox {
        x: b.x + old_cx as i32 - new_cx as i32,
        y: b.y + old_cy as i32 - new_cy as i32,
        width: w,
        height: h,
    }
}

/// Where the texts of the status screen go, given the boxes that the status
/// line and the detail line take when centred in the status frame.
pub fn status_layout(status: TextBox, detail: Option<TextBox>) -> (r: StatusLayout)
    requires
        box_in_limits(status),
        detail matches Some(d) ==> box_in_limits(d),
    ensures
        r == status_layout_of(status, detail),
{
    let (status_dy, detail_dy, text_box) = match detail {
        Some(d) => {
            let total_height: u32 = status.height + d.height + LINE_SPACE;
            let total_top: i32 = STATUS_TEXT_Y - (total_height as i32) / 2;
            let total_bottom: i32 = total_top + total_height as i32 - 1;
            let detail_bottom: i32 = d.y + d.height as i32 - 1;
            let detail_dy: i32 = total_bottom - detail_bottom;
            let status_dy: i32 = total_top - status.y;
            let status_top: i32 = status.y + status_dy;
            let b = TextBox {
                x: if status.x <= d.x { status.x } else { d.x },
                y: if status_top <= d.y { status_top } else { d.y },
                width: if status.width >= d.width { status.width } else { d.width },
                height: total_height,
            };
            (status_dy, detail_dy, b)
        },
        None => (0i32, 0i32, status),
    };
    let framed = grow_box(text_box);
    let fits = framed.width < FRAME_INNER_WIDTH || (framed.width == FRAME_INNER_WIDTH
        && framed.height <= FRAME_INNER_HEIGHT);
    let frame = if fits {
        let mid: i32 = framed.y + (framed.height as i32) / 2;
        let right: i32 = framed.x + framed.width as i32 - 1;
        let bottom: i32 = framed.y + framed.height as i32 - 1;
        let left_corner = Point2 { x: framed.x - 3, y: mid };
        let right_corner = Point2 { x: right + 3, y: mid };
        Some(
            StatusFrame {
                upper: [
                    Point2 { x: FRAME_LEFT_X, y: mid },
                    left_corner,
                    Point2 { x: framed.x, y: framed.y },
                    Point2 { x: right, y: framed.y },
                    right_corner,
                    Point2 { x: FRAME_RIGHT_X, y: mid },
                ],
                lower: [
                    left_corner,
                    Point2 { x: framed.x, y: bottom },
                    Point2 { x: right, y: bottom },
                    right_corner,
                ],
            },
        )
    } else {
        None
    };
    let r = StatusLayout { status_dy, detail_dy, frame };
    assert(r.frame == (if fits_frame(framed) { Some(frame_of(framed)) } else { None }));
    r
}

/// The box that `text` takes in the bold 7 by 14 pixel font, centred on
/// the point (x, y) both ways: left, top, width, height.
pub uninterp spec fn status_text_box_of(text: Seq<char>, x: i32, y: i32) -> (i32, i32, u32, u32);

/// The box of a measurement.
pub open spec fn box_of(m: (i32, i32, u32, u32)) -> TextBox {
    TextBox { x: m.0, y: m.1, width: m.2, height: m.3 }
}

/// Measures `text` with `embedded_graphics::text::Text::bounding_box`, for a
/// text in `FONT_7X14_BOLD` centred horizontally and on its middle row at
/// (x, y). The contract only names the result: it depends on the text, the
/// point and the font metrics alone. The measurement adds and subtracts
/// 32-bit coordinates, which overflow, and panic, for points near the ends
/// of the range or for very long texts; `requires` keeps both well within.
#[verifier::external_body]
fn status_text_box(text: &str, x: i32, y: i32) -> (r: TextBox)
    requires
        text@.len() <= MAX_MEASURED_CHARS,
        -BOX_LIMIT <= x <= BOX_LIMIT,
        -BOX_LIMIT <= y <= BOX_LIMIT,
    ensures
        r == box_of(status_text_box_of(text@, x, y)),
{
    let character_style = MonoTextStyle::new(&FONT_7X14_BOLD, BinaryColor::On);
    let text_style = TextStyleBuilder::new().baseline(Baseline::Middle).alignment(
        Alignment::Center,
    ).build();
    let b = Text::with_text_style(text, Point::new(x, y), character_style, text_style).bounding_box();
    TextBox { x: b.top_left.x, y: b.top_left.y, width: b.size.width, height: b.size.height }
}

/// The status line and the detail line are short enough to be measured.
pub open spec fn measurable(status: &str, detail: Option<&str>) -> bool {
    &&& status@.len() <= MAX_MEASURED_CHARS
    &&& (detail matches Some(d) ==> d@.len() <= MAX_MEASURED_CHARS)
}

/// The measured box of the detail line, if there is one.
pub open spec fn detail_box_of(detail: Option<&str>) -> Option<TextBox> {
    match detail {
        Some(d) => Some(box_of(status_text_box_of(d@, STATUS_TEXT_X, STATUS_TEXT_Y))),
        None => None,
    }
}

/// Lays out the status screen for the status line `status` and the detail
/// line `detail`: both are measured centred in the status frame, then
/// placed together. `None` where a text is longer than
/// [`MAX_MEASURED_CHARS`] or a measured box leaves the layout limits.
pub fn status_screen_layout(status: &str, detail: Option<&str>) -> (r: Option<StatusLayout>)
    ensures
        !measurable(status, detail) ==> r is None,
        measurable(status, detail) ==> ({
            let sb = box_of(status_text_box_of(status@, STATUS_TEXT_X, STATUS_TEXT_Y));
            let db = detail_box_of(detail);
            if box_in_limits(sb) && (db matches Some(b) ==> box_in_limits(b)) {
                r == Some(status_layout_of(sb, db))
            } else {
                r is None
            }
        }),
{
    if status.unicode_len() > MAX_MEASURED_CHARS {
        return None;
    }
    match detail {
        Some(d) => {
            if d.unicode_len() > MAX_MEASURED_CHARS {
                return None;
            }
        },
        None => {},
    }
    let sb = status_text_box(status, STATUS_TEXT_X, STATUS_TEXT_Y);
    let db = match detail {
        Some(d) => Some(status_text_box(d, STATUS_TEXT_X, STATUS_TEXT_Y)),
        None => None,
    };
    if !within_limits(sb) {
        return None;
    }
    match db {
        Some(b) => {
            if !within_limits(b) {
                return None;
            }
        },
        None => {},
    }
    Some(status_layout(sb, db))
}

/// Whether the box stays within the layout limits.
pub fn within_limits(b: TextBox) -> (r: bool)
    ensures
        r == box_in_limits(b),
{
    -BOX_LIMIT <= b.x && b.x <= BOX_LIMIT && -BOX_LIMIT <= b.y && b.y <= BOX_LIMIT && b.width
        <= BOX_LIMIT as u32 && b.height <= BOX_LIMIT as u32
}

/// Rows that the boxes take stacked, each followed by the line space.
pub open spec fn stacked_height(boxes: Seq<TextBox>) -> int
    decreases boxes.len(),
{
    if boxes.len() == 0 {
        0
    } else {
        stacked_height(boxes.drop_last()) + boxes.last().height + LINE_SPACE
    }
}

/// Rows that the lines take stacked with the line space between them.
pub open spec fn lines_height(boxes: Seq<TextBox>) -> int {
    if boxes.len() == 0 {
        0
    } else {
        stacked_height(boxes) - LINE_SPACE
    }
}

/// Rows by which line `i` moves so that the lines, stacked, are centred on
/// the row `center_y`.
pub open spec fn line_shift(boxes: Seq<TextBox>, center_y: int, i: int) -> int {
    center_y - (lines_height(boxes) + 1) / 2 + stacked_height(boxes.take(i)) - boxes[i].y
}

proof fn lemma_stacked_height_bounds(boxes: Seq<TextBox>)
    requires
        forall|i: int| 0 <= i < boxes.len() ==> box_in_limits(#[trigger] boxes[i]),
    ensures
        boxes.len() > 0 ==> stacked_height(boxes) >= LINE_SPACE,
        0 <= stacked_height(boxes) <= boxes.len() * 0x10_0002,
    decreases boxes.len(),
{
    if boxes.len() > 0 {
        assert(box_in_limits(boxes[boxes.len() - 1]));
        lemma_stacked_height_bounds(boxes.drop_last());
    }
}

/// Moves lines of text, measured as `boxes`, so that together, with two
/// rows between neighbours, they are centred on the row `center_y`: the rows
/// by which each line moves.
pub fn center_lines_vertically(boxes: &Vec<TextBox>, center_y: i32) -> (r: Vec<i32>)
    requires
        boxes@.len() <= 3,
        forall|i: int| 0 <= i < boxes@.len() ==> box_in_limits(#[trigger] boxes@[i]),
        -BOX_LIMIT <= center_y <= BOX_LIMIT,
    ensures
        r@.len() == boxes@.len(),
        forall|i: int| 0 <= i < r@.len() ==> r@[i] == line_shift(boxes@, center_y as int, i),
{
    let n = boxes.len();
    let mut stacked: u32 = 0;
    let mut k: usize = 0;
    while k < n
        invariant
            n == boxes@.len() <= 3,
            forall|i: int| 0 <= i < boxes@.len() ==> box_in_limits(#[trigger] boxes@[i]),
            k <= n,
            stacked == stacked_height(boxes@.take(k as int)),
            stacked <= k * 0x10_0002,
            k > 0 ==> stacked >= LINE_SPACE,
        decreases n - k,
    {
        assert(boxes@.take(k + 1).drop_last() =~= boxes@.take(k as int));
        assert(box_in_limits(boxes@[k as int]));
        stacked = stacked + boxes[k].height + LINE_SPACE;
        k += 1;
    }
    assert(boxes@.take(n as int) =~= boxes@);
    let total: u32 = if n == 0 { 0 } else { stacked - LINE_SPACE };
    let mut shifts: Vec<i32> = Vec::new();
    let mut y_start: i32 = center_y - ((total + 1) as i32) / 2;
    let mut i: usize = 0;
    while i < n
        invariant
            n == boxes@.len() <= 3,
            forall|j: int| 0 <= j < boxes@.len() ==> box_in_limits(#[trigger] boxes@[j]),
            -BOX_LIMIT <= center_y <= BOX_LIMIT,
            total == lines_height(boxes@),
            total <= 3 * 0x10_0002,
            i <= n,
            shifts@.len() == i,
            y_start == center_y - (lines_height(boxes@) + 1) / 2 + stacked_height(boxes@.take(i as int)),
            0 <= stacked_height(boxes@.take(i as int)) <= i * 0x10_0002,
            forall|j: int| 0 <= j < i ==> shifts@[j] == line_shift(boxes@, center_y as int, j),
        decreases n - i,
    {
        assert(boxes@.take(i + 1).drop_last() =~= boxes@.take(i as int));
        assert(box_in_limits(boxes@[i as int]));
        proof {
            lemma_stacked_height_bounds(boxes@.take(i as int));
        }
        let b = boxes[i];
        shifts.push(y_start - b.y);
        y_start = y_start + b.height as i32 + LINE_SPACE as i32;
        i += 1;
    }
    shifts
}

} // verus!
