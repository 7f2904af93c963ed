//! Window-side helpers that decide from plain values handed in by the
//! platform layer: style-bit filters and rectangle comparisons, and the
//! trimming of NUL-padded UTF-16 window text.

use vstd::prelude::*;

verus! {

/// `WS_CHILD`: the window is a child window.
pub const STYLE_CHILD: u32 = 0x4000_0000;

/// `WS_MAXIMIZE`: the window is maximized.
pub const STYLE_MAXIMIZE: u32 = 0x0100_0000;

/// `WS_EX_TOOLWINDOW`: a floating tool window.
pub const EX_STYLE_TOOLWINDOW: u32 = 0x0000_0080;

/// `WS_EX_NOACTIVATE`: the window never takes the foreground.
pub const EX_STYLE_NOACTIVATE: u32 = 0x0800_0000;

/// `WS_EX_WINDOWEDGE`: the window has a raised edge.
pub const EX_STYLE_WINDOWEDGE: u32 = 0x0000_0100;

/// A window rectangle in screen coordinates.
#[derive(Clone, Copy, PartialEq, Eq, Structural, Debug)]
pub struct Rect {
    pub left: i32,
    pub top: i32,
    pub right: i32,
    pub bottom: i32,
}

/// True when a window with these style bits never gets a border: child
/// windows, tool windows and no-activate windows are filtered out.
pub fn has_filtered_style(style: u32, ex_style: u32) -> (r: bool)
    ensures
        r == (style & STYLE_CHILD != 0 || ex_style & EX_STYLE_TOOLWINDOW != 0 || ex_style
            & EX_STYLE_NOACTIVATE != 0),
{
    style & STYLE_CHILD != 0 || ex_style & EX_STYLE_TOOLWINDOW != 0 || ex_style
        & EX_STYLE_NOACTIVATE != 0
}

/// True when the window keeps a native edge a border should follow: it has
/// a window edge and is not maximized.
pub fn has_native_border(style: u32, ex_style: u32) -> (r: bool)
    ensures
        r == (ex_style & EX_STYLE_WINDOWEDGE != 0 && style & STYLE_MAXIMIZE == 0),
{
    ex_style & EX_STYLE_WINDOWEDGE != 0 && style & STYLE_MAXIMIZE == 0
}

/// True when any edge of the rectangle reaches into visible space.
pub fn is_rect_visible(rect: &Rect) -> (r: bool)
    ensures
        r == (rect.top >= 0 || rect.left >= 0 || rect.bottom >= 0 || rect.right >= 0),
{
    rect.top >= 0 || rect.left >= 0 || rect.bottom >= 0 || rect.right >= 0
}

/// True when the two rectangles have the same width and height.
pub fn are_rects_same_size(rect1: &Rect, rect2: &Rect) -> (r: bool)
    ensures
        r == (rect1.right - rect1.left == rect2.right - rect2.left && rect1.bottom - rect1.top
            == rect2.bottom - rect2.top),
{
    let w1 = rect1.right as i64 - rect1.left as i64;
    let w2 = rect2.right as i64 - rect2.left as i64;
    let h1 = rect1.bottom as i64 - rect1.top as i64;
    let h2 = rect2.bottom as i64 - rect2.top as i64;
    w1 == w2 && h1 == h2
}

/// The position of the first NUL in the buffer at or after `i` (the length
/// when there is none).
pub open spec fn nul_pos(s: Seq<u16>, i: int) -> int
    decreases s.len() - i,
{
    if i < 0 || i >= s.len() {
        i
    } else if s[i] == 0 {
        i
    } else {
        nul_pos(s, i + 1)
    }
}

/// The prefix of a NUL-padded UTF-16 buffer up to (not including) its first
/// NUL; the whole buffer when no NUL occurs. Window titles and class names
/// arrive in such buffers.
pub fn text_before_nul(buf: &[u16]) -> (r: Vec<u16>)
    ensures
        r@ == buf@.subrange(0, nul_pos(buf@, 0)),
{
    let n = buf.len();
    let mut out: Vec<u16> = Vec::new();
    let mut i: usize = 0;
    while i < n
        invariant
            i <= n,
            n == buf@.len(),
            out@ == buf@.subrange(0, i as int),
            nul_pos(buf@, 0) == nul_pos(buf@, i as int),
        decreases n - i,
    {
        let c = buf[i];
        if c == 0 {
            return out;
        }
        out.push(c);
        proof {
            assert(out@ =~= buf@.subrange(0, i + 1));
        }
        i = i + 1;
    }
    out
}

} // verus!
