//! The frames sampled from a clip for "Describe with AI", turned upright before they are sent:
//! a clip's orientation tag (`rotate-90`, `flip-rotate-270`, ...) says how its picture is
//! stored, and the model must see it as the viewer does.

use vstd::prelude::*;
use vstd::string::*;

use crate::text::str_eq;

verus! {

/// An RGB pixel.
pub type Rgb = [u8; 3];

/// A frame: `width` × `height` pixels, row after row from the top left.
#[derive(Debug, Clone, PartialEq, Eq)]
pub struct Frame {
    pub width: usize,
    pub height: usize,
    pub pixels: Vec<Rgb>,
}

impl Frame {
    /// Whether the frame holds exactly its pixels.
    pub open spec fn well_formed(&self) -> bool {
        self.pixels@.len() == self.width * self.height
    }

    /// The pixel at column `x` of row `y`.
    pub open spec fn pixel(&self, x: int, y: int) -> Rgb {
        self.pixels@[y * self.width + x]
    }
}

/// A way of turning a frame.
#[derive(Debug, Clone, Copy, PartialEq, Eq, Structural)]
pub enum Turn {
    /// Mirrored left to right.
    FlipHorizontal,
    /// A quarter turn clockwise.
    Rotate90,
    Rotate180,
    /// Three quarter turns clockwise.
    Rotate270,
}

/// The size of a `width` × `height` frame after `turn`.
pub open spec fn turned_size(turn: Turn, width: int, height: int) -> (int, int) {
    match turn {
        Turn::Rotate90 | Turn::Rotate270 => (height, width),
        _ => (width, height),
    }
}

/// Where the pixel at `(x, y)` of the turned frame comes from, in a `width` × `height` frame.
pub open spec fn source_of(turn: Turn, x: int, y: int, width: int, height: int) -> (int, int) {
    match turn {
        Turn::FlipHorizontal => (width - 1 - x, y),
        Turn::Rotate90 => (y, height - 1 - x),
        Turn::Rotate180 => (width - 1 - x, height - 1 - y),
        Turn::Rotate270 => (width - 1 - y, x),
    }
}

/// Whether `out` is `frame` after `turn`.
pub open spec fn is_turned(frame: Frame, turn: Turn, out: Frame) -> bool {
    &&& (out.width as int, out.height as int) == turned_size(turn, frame.width as int, frame.height as int)
    &&& out.well_formed()
    &&& forall|x: int, y: int| 0 <= x < out.width && 0 <= y < out.height ==> {
        let (sx, sy) = source_of(turn, x, y, frame.width as int, frame.height as int);
        #[trigger] out.pixel(x, y) == frame.pixel(sx, sy)
    }
}

/// Where the pixel at `(x, y)` of the turned frame comes from, computed.
fn source(turn: Turn, x: usize, y: usize, width: usize, height: usize) -> (at: (usize, usize))
    requires
        x < turned_size(turn, width as int, height as int).0,
        y < turned_size(turn, width as int, height as int).1,
    ensures
        (at.0 as int, at.1 as int) == source_of(turn, x as int, y as int, width as int, height as int),
        at.0 < width,
        at.1 < height,
{
    match turn {
        Turn::FlipHorizontal => (width - 1 - x, y),
        Turn::Rotate90 => (y, height - 1 - x),
        Turn::Rotate180 => (width - 1 - x, height - 1 - y),
        Turn::Rotate270 => (width - 1 - y, x),
    }
}

/// Row-major positions of a grid stay inside it and apart.
proof fn lemma_grid_index(x: int, y: int, width: int, height: int)
    requires
        0 <= x < width,
        0 <= y < height,
    ensures
        0 <= y * width + x < width * height,
        y * width + x + 1 <= (y + 1) * width,
{
    assert(y * width + x < width * height) by (nonlinear_arith)
        requires
            0 <= x < width,
            0 <= y < height,
    ;
    assert(0 <= y * width) by (nonlinear_arith)
        requires
            0 <= y,
            0 <= width,
    ;
    assert((y + 1) * width == y * width + width) by (nonlinear_arith);
}

/// `frame` after `turn`.
pub fn turn_frame(frame: &Frame, turn: Turn) -> (out: Frame)
    requires
        frame.well_formed(),
    ensures
        is_turned(*frame, turn, out),
{
    let (out_w, out_h) = match turn {
        Turn::Rotate90 | Turn::Rotate270 => (frame.height, frame.width),
        _ => (frame.width, frame.height),
    };
    proof {
        assert(out_w * out_h == frame.width * frame.height) by (nonlinear_arith)
            requires
                (out_w == frame.width && out_h == frame.height) || (out_w == frame.height && out_h == frame.width),
        ;
    }
    let total = frame.pixels.len();
    let mut pixels: Vec<Rgb> = Vec::new();
    let mut y: usize = 0;
    while y < out_h
        invariant
            frame.well_formed(),
            total == frame.pixels@.len(),
            (out_w as int, out_h as int) == turned_size(turn, frame.width as int, frame.height as int),
            out_w * out_h == frame.width * frame.height,
            y <= out_h,
            pixels@.len() == y * out_w,
            forall|yy: int, xx: int| 0 <= yy < y && 0 <= xx < out_w ==> {
                let (sx, sy) = source_of(turn, xx, yy, frame.width as int, frame.height as int);
                #[trigger] pixels@[yy * out_w + xx] == frame.pixel(sx, sy)
            },
        decreases out_h - y,
    {
        let mut x: usize = 0;
        while x < out_w
            invariant
                frame.well_formed(),
                total == frame.pixels@.len(),
                (out_w as int, out_h as int) == turned_size(turn, frame.width as int, frame.height as int),
                out_w * out_h == frame.width * frame.height,
                y < out_h,
                x <= out_w,
                pixels@.len() == y * out_w + x,
                forall|yy: int, xx: int| 0 <= yy < y && 0 <= xx < out_w ==> {
                    let (sx, sy) = source_of(turn, xx, yy, frame.width as int, frame.height as int);
                    #[trigger] pixels@[yy * out_w + xx] == frame.pixel(sx, sy)
                },
                forall|xx: int| 0 <= xx < x ==> {
                    let (sx, sy) = source_of(turn, xx, y as int, frame.width as int, frame.height as int);
                    #[trigger] pixels@[y * out_w + xx] == frame.pixel(sx, sy)
                },
            decreases out_w - x,
        {
            let (sx, sy) = source(turn, x, y, frame.width, frame.height);
            proof {
                lemma_grid_index(sx as int, sy as int, frame.width as int, frame.height as int);
                lemma_grid_index(x as int, y as int, out_w as int, out_h as int);
            }
            let p = frame.pixels[sy * frame.width + sx];
            let ghost before = pixels@;
            pixels.push(p);
            proof {
                assert forall|yy: int, xx: int| 0 <= yy < y && 0 <= xx < out_w implies {
                    let (sx2, sy2) = source_of(turn, xx, yy, frame.width as int, frame.height as int);
                    #[trigger] pixels@[yy * out_w + xx] == frame.pixel(sx2, sy2)
                } by {
                    lemma_grid_index(xx, yy, out_w as int, out_h as int);
                    assert(yy * out_w + xx < y * out_w) by (nonlinear_arith)
                        requires
                            0 <= xx < out_w,
                            0 <= yy < y,
                    ;
                    assert(pixels@[yy * out_w + xx] == before[yy * out_w + xx]);
                }
                assert forall|xx: int| 0 <= xx < x + 1 implies {
                    let (sx2, sy2) = source_of(turn, xx, y as int, frame.width as int, frame.height as int);
                    #[trigger] pixels@[y * out_w + xx] == frame.pixel(sx2, sy2)
                } by {
                    if xx < x {
                        assert(pixels@[y * out_w + xx] == before[y * out_w + xx]);
                    }
                }
            }
            x = x + 1;
        }
        proof {
            assert((y + 1) * out_w == y * out_w + out_w) by (nonlinear_arith);
        }
        y = y + 1;
    }
    proof {
        assert(pixels@.len() == out_w * out_h) by (nonlinear_arith)
            requires
                pixels@.len() == y * out_w,
                y == out_h,
        ;
    }
    let out = Frame { width: out_w, height: out_h, pixels };
    proof {
        assert forall|x: int, y: int| 0 <= x < out.width && 0 <= y < out.height implies {
            let (sx, sy) = source_of(turn, x, y, frame.width as int, frame.height as int);
            #[trigger] out.pixel(x, y) == frame.pixel(sx, sy)
        } by {
            assert(out.pixel(x, y) == out.pixels@[y * out_w + x]);
        }
    }
    out
}

/// How a clip's orientation tag says its frames are turned upright: mirrored first when the
/// tag starts with `flip-`, then turned by the quarter turns the rest names (`rotate-90`,
/// `rotate-180`, `rotate-270`; anything else turns nothing).
pub open spec fn orientation_turns(tag: Option<Seq<char>>) -> (bool, Option<Turn>) {
    match tag {
        None => (false, None),
        Some(t) => {
            let flip = t.len() >= 5 && t.take(5) == "flip-"@;
            let rest = if flip { t.skip(5) } else { t };
            let rotation = if rest == "rotate-90"@ {
                Some(Turn::Rotate90)
            } else if rest == "rotate-180"@ {
                Some(Turn::Rotate180)
            } else if rest == "rotate-270"@ {
                Some(Turn::Rotate270)
            } else {
                None
            };
            (flip, rotation)
        },
    }
}

/// The characters of `s` from `start` on.
fn rest_of(s: &str, start: usize) -> (rest: String)
    requires
        start <= s@.len(),
    ensures
        rest@ == s@.skip(start as int),
{
    let n = s.unicode_len();
    let mut rest = String::new();
    let mut i = start;
    while i < n
        invariant
            n == s@.len(),
            start <= i <= n,
            rest@ == s@.subrange(start as int, i as int),
        decreases n - i,
    {
        crate::text::push_char(&mut rest, s.get_char(i));
        proof {
            assert(s@.subrange(start as int, i + 1) =~= s@.subrange(start as int, i as int).push(s@[i as int]));
        }
        i = i + 1;
    }
    proof {
        assert(s@.subrange(start as int, n as int) =~= s@.skip(start as int));
    }
    rest
}

/// How the orientation tag `tag` says a clip's frames are turned upright: whether they are
/// mirrored first, and the turn after that.
pub fn orientation(tag: Option<&str>) -> (turns: (bool, Option<Turn>))
    ensures
        turns == orientation_turns(match tag { Some(t) => Some(t@), None => None }),
{
    let tag = match tag {
        Some(t) => t,
        None => return (false, None),
    };
    proof {
        reveal_strlit("flip-");
        reveal_strlit("rotate-90");
        reveal_strlit("rotate-180");
        reveal_strlit("rotate-270");
    }
    let n = tag.unicode_len();
    let flip = n >= 5 && str_eq(rest_prefix(tag, 5).as_str(), "flip-");
    let rest = if flip { rest_of(tag, 5) } else { String::from_str(tag) };
    let r = rest.as_str();
    let rotation = if str_eq(r, "rotate-90") {
        Some(Turn::Rotate90)
    } else if str_eq(r, "rotate-180") {
        Some(Turn::Rotate180)
    } else if str_eq(r, "rotate-270") {
        Some(Turn::Rotate270)
    } else {
        None
    };
    (flip, rotation)
}

/// The first `n` characters of `s`.
fn rest_prefix(s: &str, n: usize) -> (prefix: String)
    requires
        n <= s@.len(),
    ensures
        prefix@ == s@.take(n as int),
{
    let mut prefix = String::new();
    let mut i: usize = 0;
    while i < n
        invariant
            n <= s@.len(),
            i <= n,
            prefix@ == s@.take(i as int),
        decreases n - i,
    {
        crate::text::push_char(&mut prefix, s.get_char(i));
        proof {
            assert(s@.take(i + 1) =~= s@.take(i as int).push(s@[i as int]));
        }
        i = i + 1;
    }
    prefix
}

/// The size of a `width` × `height` frame turned upright: mirroring keeps it, quarter turns
/// swap its sides.
pub open spec fn upright_size(rotation: Option<Turn>, width: int, height: int) -> (int, int) {
    match rotation {
        Some(turn) => turned_size(turn, width, height),
        None => (width, height),
    }
}

/// Where the pixel at `(x, y)` of the upright frame comes from: through the turn, then through
/// the mirror.
pub open spec fn upright_source(flip: bool, rotation: Option<Turn>, x: int, y: int, width: int, height: int) -> (int, int) {
    let (mx, my) = match rotation {
        Some(turn) => source_of(turn, x, y, width, height),
        None => (x, y),
    };
    if flip { (width - 1 - mx, my) } else { (mx, my) }
}

/// Whether `upright` is `frame` turned upright as the orientation tag `tag` says.
pub open spec fn is_upright(frame: Frame, tag: Option<Seq<char>>, upright: Frame) -> bool {
    let (flip, rotation) = orientation_turns(tag);
    &&& upright.well_formed()
    &&& (upright.width as int, upright.height as int) == upright_size(rotation, frame.width as int, frame.height as int)
    &&& forall|x: int, y: int| 0 <= x < upright.width && 0 <= y < upright.height ==> {
        let (sx, sy) = upright_source(flip, rotation, x, y, frame.width as int, frame.height as int);
        #[trigger] upright.pixel(x, y) == frame.pixel(sx, sy)
    }
}

/// `frame` turned upright as the clip's orientation tag says: `rotate-N` turns it N°
/// clockwise, `flip-rotate-N` mirrors it left to right first.
pub fn orient(frame: Frame, tag: Option<&str>) -> (upright: Frame)
    requires
        frame.well_formed(),
    ensures
        upright.well_formed(),
        is_upright(frame, match tag { Some(t) => Some(t@), None => None }, upright),
{
    let ghost original = frame;
    let (flip, rotation) = orientation(tag);
    let mirrored = if flip { turn_frame(&frame, Turn::FlipHorizontal) } else { frame };
    let ghost m = mirrored;
    proof {
        if flip {
            assert(is_turned(original, Turn::FlipHorizontal, m));
        } else {
            assert(m == original);
        }
    }
    let upright = match rotation {
        Some(turn) => turn_frame(&mirrored, turn),
        None => mirrored,
    };
    proof {
        let (w, h) = (original.width as int, original.height as int);
        assert forall|x: int, y: int| 0 <= x < upright.width && 0 <= y < upright.height implies {
            let (sx, sy) = upright_source(flip, rotation, x, y, w, h);
            #[trigger] upright.pixel(x, y) == original.pixel(sx, sy)
        } by {
            let (mx, my) = match rotation {
                Some(turn) => source_of(turn, x, y, w, h),
                None => (x, y),
            };
            if let Some(turn) = rotation {
                assert(upright.pixel(x, y) == m.pixel(mx, my));
            }
            if flip {
                assert(m.pixel(mx, my) == original.pixel(w - 1 - mx, my));
            }
        }
        assert(is_upright(original, match tag { Some(t) => Some(t@), None => None }, upright));
    }
    upright
}

/// The turn that undoes `turn`.
pub open spec fn undoing(turn: Turn) -> Turn {
    match turn {
        Turn::FlipHorizontal => Turn::FlipHorizontal,
        Turn::Rotate90 => Turn::Rotate270,
        Turn::Rotate180 => Turn::Rotate180,
        Turn::Rotate270 => Turn::Rotate90,
    }
}

/// A turn and the turn that undoes it give the frame back: a quarter turn clockwise and one
/// counter-clockwise, a half turn twice, a mirror twice.
pub proof fn law_a_turn_and_its_undoing_give_the_frame_back(frame: Frame, turned: Frame, back: Frame, turn: Turn)
    requires
        frame.well_formed(),
        is_turned(frame, turn, turned),
        is_turned(turned, undoing(turn), back),
    ensures
        back.width == frame.width,
        back.height == frame.height,
        forall|x: int, y: int| 0 <= x < frame.width && 0 <= y < frame.height ==> #[trigger] back.pixel(x, y) == frame.pixel(x, y),
{
    assert forall|x: int, y: int| 0 <= x < frame.width && 0 <= y < frame.height implies #[trigger] back.pixel(x, y) == frame.pixel(x, y) by {
        let (tx, ty) = source_of(undoing(turn), x, y, turned.width as int, turned.height as int);
        assert(back.pixel(x, y) == turned.pixel(tx, ty));
        assert(turned.pixel(tx, ty) == frame.pixel(
            source_of(turn, tx, ty, frame.width as int, frame.height as int).0,
            source_of(turn, tx, ty, frame.width as int, frame.height as int).1,
        ));
    }
}

/// What each turn does to a `width` × `height` frame, pixel by pixel: a mirror swaps left and
/// right and keeps the rows; a quarter turn clockwise lays the frame's left column, read from
/// the bottom up, along the top row; a half turn swaps both left and right and top and bottom,
/// so the top-left pixel comes from the bottom-right one; three quarter turns lay the top row,
/// read from the right, down the left column.
pub proof fn law_what_each_turn_does(frame: Frame, turn: Turn, out: Frame)
    requires
        frame.well_formed(),
        is_turned(frame, turn, out),
    ensures
        turn == Turn::FlipHorizontal ==> out.width == frame.width && out.height == frame.height
            && forall|x: int, y: int| 0 <= x < frame.width && 0 <= y < frame.height
                ==> #[trigger] out.pixel(x, y) == frame.pixel(frame.width - 1 - x, y),
        turn == Turn::Rotate90 ==> out.width == frame.height && out.height == frame.width
            && forall|x: int, y: int| 0 <= x < frame.height && 0 <= y < frame.width
                ==> #[trigger] out.pixel(x, y) == frame.pixel(y, frame.height - 1 - x),
        turn == Turn::Rotate180 ==> out.width == frame.width && out.height == frame.height
            && forall|x: int, y: int| 0 <= x < frame.width && 0 <= y < frame.height
                ==> #[trigger] out.pixel(x, y) == frame.pixel(frame.width - 1 - x, frame.height - 1 - y),
        turn == Turn::Rotate270 ==> out.width == frame.height && out.height == frame.width
            && forall|x: int, y: int| 0 <= x < frame.height && 0 <= y < frame.width
                ==> #[trigger] out.pixel(x, y) == frame.pixel(frame.width - 1 - y, x),
{
}

/// A half turn is two quarter turns, and three quarter turns are a quarter turn and a half
/// turn: turning a frame by the larger turn gives, pixel for pixel, what turning it step by
/// step gives.
pub proof fn law_turns_add_up(frame: Frame, quarter: Frame, two_quarters: Frame, half: Frame, three_quarters: Frame, quarter_then_half: Frame)
    requires
        frame.well_formed(),
        is_turned(frame, Turn::Rotate90, quarter),
        is_turned(quarter, Turn::Rotate90, two_quarters),
        is_turned(frame, Turn::Rotate180, half),
        is_turned(frame, Turn::Rotate270, three_quarters),
        is_turned(quarter, Turn::Rotate180, quarter_then_half),
    ensures
        half.width == two_quarters.width && half.height == two_quarters.height,
        forall|x: int, y: int| 0 <= x < half.width && 0 <= y < half.height
            ==> #[trigger] half.pixel(x, y) == two_quarters.pixel(x, y),
        three_quarters.width == quarter_then_half.width && three_quarters.height == quarter_then_half.height,
        forall|x: int, y: int| 0 <= x < three_quarters.width && 0 <= y < three_quarters.height
            ==> #[trigger] three_quarters.pixel(x, y) == quarter_then_half.pixel(x, y),
{
    assert forall|x: int, y: int| 0 <= x < half.width && 0 <= y < half.height
        implies #[trigger] half.pixel(x, y) == two_quarters.pixel(x, y) by {
        let (qx, qy) = source_of(Turn::Rotate90, x, y, quarter.width as int, quarter.height as int);
        assert(two_quarters.pixel(x, y) == quarter.pixel(qx, qy));
        assert(quarter.pixel(qx, qy) == frame.pixel(
            source_of(Turn::Rotate90, qx, qy, frame.width as int, frame.height as int).0,
            source_of(Turn::Rotate90, qx, qy, frame.width as int, frame.height as int).1,
        ));
    }
    assert forall|x: int, y: int| 0 <= x < three_quarters.width && 0 <= y < three_quarters.height
        implies #[trigger] three_quarters.pixel(x, y) == quarter_then_half.pixel(x, y) by {
        let (qx, qy) = source_of(Turn::Rotate180, x, y, quarter.width as int, quarter.height as int);
        assert(quarter_then_half.pixel(x, y) == quarter.pixel(qx, qy));
        assert(quarter.pixel(qx, qy) == frame.pixel(
            source_of(Turn::Rotate90, qx, qy, frame.width as int, frame.height as int).0,
            source_of(Turn::Rotate90, qx, qy, frame.width as int, frame.height as int).1,
        ));
    }
}

/// The orientation tags turn frames clockwise by the degrees they name: `rotate-90` lays the
/// left column along the top, `rotate-180` turns the frame half round (the top-left pixel
/// comes from the bottom-right one), `rotate-270` lays the top row down the left side; with
/// no tag the frame stays as it is.
pub proof fn law_orientation_tags_turn_clockwise(frame: Frame, upright: Frame, tag: Option<Seq<char>>)
    requires
        frame.well_formed(),
        is_upright(frame, tag, upright),
    ensures
        tag is None ==> upright.width == frame.width && upright.height == frame.height
            && forall|x: int, y: int| 0 <= x < frame.width && 0 <= y < frame.height
                ==> #[trigger] upright.pixel(x, y) == frame.pixel(x, y),
        tag == Some("rotate-90"@) ==> upright.width == frame.height && upright.height == frame.width
            && forall|x: int, y: int| 0 <= x < frame.height && 0 <= y < frame.width
                ==> #[trigger] upright.pixel(x, y) == frame.pixel(y, frame.height - 1 - x),
        tag == Some("rotate-180"@) ==> upright.width == frame.width && upright.height == frame.height
            && forall|x: int, y: int| 0 <= x < frame.width && 0 <= y < frame.height
                ==> #[trigger] upright.pixel(x, y) == frame.pixel(frame.width - 1 - x, frame.height - 1 - y),
        tag == Some("rotate-270"@) ==> upright.width == frame.height && upright.height == frame.width
            && forall|x: int, y: int| 0 <= x < frame.height && 0 <= y < frame.width
                ==> #[trigger] upright.pixel(x, y) == frame.pixel(frame.width - 1 - y, x),
{
    reveal_strlit("flip-");
    reveal_strlit("rotate-90");
    reveal_strlit("rotate-180");
    reveal_strlit("rotate-270");
    if tag == Some("rotate-90"@) {
        assert("rotate-90"@.take(5) != "flip-"@) by {
            assert("rotate-90"@.take(5)[0] == 'r');
        }
    }
    if tag == Some("rotate-180"@) {
        assert("rotate-180"@.take(5) != "flip-"@) by {
            assert("rotate-180"@.take(5)[0] == 'r');
        }
        assert("rotate-180"@ != "rotate-90"@);
    }
    if tag == Some("rotate-270"@) {
        assert("rotate-270"@.take(5) != "flip-"@) by {
            assert("rotate-270"@.take(5)[0] == 'r');
        }
        assert("rotate-270"@ != "rotate-90"@);
        assert("rotate-270"@ != "rotate-180"@) by {
            assert("rotate-270"@[7] != "rotate-180"@[7]);
        }
    }
}

/// A `flip-` tag mirrors the frame left to right before turning it: `flip-rotate-90` lays
/// the right column, read from the bottom up, along the top row; `flip-rotate-180` turns the
/// frame upside down without swapping its sides; `flip-rotate-270` swaps rows and columns
/// (the top row goes down the left side, read from the left).
pub proof fn law_flip_tags_mirror_before_turning(frame: Frame, upright: Frame, tag: Option<Seq<char>>)
    requires
        frame.well_formed(),
        is_upright(frame, tag, upright),
    ensures
        tag == Some("flip-rotate-90"@) ==> upright.width == frame.height && upright.height == frame.width
            && forall|x: int, y: int| 0 <= x < frame.height && 0 <= y < frame.width
                ==> #[trigger] upright.pixel(x, y) == frame.pixel(frame.width - 1 - y, frame.height - 1 - x),
        tag == Some("flip-rotate-180"@) ==> upright.width == frame.width && upright.height == frame.height
            && forall|x: int, y: int| 0 <= x < frame.width && 0 <= y < frame.height
                ==> #[trigger] upright.pixel(x, y) == frame.pixel(x, frame.height - 1 - y),
        tag == Some("flip-rotate-270"@) ==> upright.width == frame.height && upright.height == frame.width
            && forall|x: int, y: int| 0 <= x < frame.height && 0 <= y < frame.width
                ==> #[trigger] upright.pixel(x, y) == frame.pixel(y, x),
{
    reveal_strlit("flip-");
    reveal_strlit("rotate-90");
    reveal_strlit("rotate-180");
    reveal_strlit("rotate-270");
    reveal_strlit("flip-rotate-90");
    reveal_strlit("flip-rotate-180");
    reveal_strlit("flip-rotate-270");
    if tag == Some("flip-rotate-90"@) {
        assert("flip-rotate-90"@.take(5) =~= "flip-"@);
        assert("flip-rotate-90"@.skip(5) =~= "rotate-90"@);
    }
    if tag == Some("flip-rotate-180"@) {
        assert("flip-rotate-180"@.take(5) =~= "flip-"@);
        assert("flip-rotate-180"@.skip(5) =~= "rotate-180"@);
        assert("rotate-180"@ != "rotate-90"@);
    }
    if tag == Some("flip-rotate-270"@) {
        assert("flip-rotate-270"@.take(5) =~= "flip-"@);
        assert("flip-rotate-270"@.skip(5) =~= "rotate-270"@);
        assert("rotate-270"@ != "rotate-90"@);
        assert("rotate-270"@ != "rotate-180"@) by {
            assert("rotate-270"@[7] != "rotate-180"@[7]);
        }
    }
}

} // verus!
