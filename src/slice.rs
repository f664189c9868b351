//! Regions of the terminal: coordinate translation and width-aware clipping.
use vstd::prelude::*;
use crate::geom::{IVec2, TermRect, U16Vec2, UVec2};
use crate::width::{push_char, sum_widths, text_widths, widths_of};

verus! {

/// The characters of `s`, the `i`-th of which is `ws[i]` columns wide,
/// written from column `col` onwards, that lie wholly inside the columns
/// `[lo, hi)`. A character whose columns straddle either edge is left out
/// entirely.
pub open spec fn clip_row(s: Seq<char>, ws: Seq<usize>, col: int, lo: int, hi: int) -> Seq<char>
    decreases s.len(),
{
    if s.len() == 0 {
        Seq::empty()
    } else {
        let n = s.len() - 1;
        let start = col + sum_widths(ws.take(n));
        if lo <= start && start + ws[n] <= hi {
            clip_row(s.take(n), ws, col, lo, hi).push(s[n])
        } else {
            clip_row(s.take(n), ws, col, lo, hi)
        }
    }
}

/// What of `s`, with column widths `ws`, written at the absolute position `at`,
/// shows inside `rect`: nothing when the row is outside the rectangle, else the
/// characters that fit between its left and right edges.
pub open spec fn visible_with(rect: TermRect, at: U16Vec2, s: Seq<char>, ws: Seq<usize>) -> Seq<
    char,
> {
    if rect.pos.y <= at.y < rect.pos.y + rect.size.y {
        clip_row(s, ws, at.x as int, rect.pos.x as int, rect.pos.x + rect.size.x)
    } else {
        Seq::empty()
    }
}

/// What of `s` shows inside `rect` when written at `at`, each character taking
/// its display width.
pub open spec fn visible(rect: TermRect, at: U16Vec2, s: Seq<char>) -> Seq<char> {
    visible_with(rect, at, s, widths_of(s))
}

/// The characters of `text` that show inside `rect` when written at `at`,
/// where `widths[i]` is the column width of the `i`-th character.
pub fn clip_measured(rect: TermRect, at: U16Vec2, text: &str, widths: &Vec<usize>) -> (r: String)
    requires
        widths@.len() == text@.len(),
    ensures
        r@ == visible_with(rect, at, text@, widths@),
{
    let mut out = String::new();
    let top: i64 = rect.pos.y as i64;
    let bottom: i64 = top + rect.size.y as i64;
    let row: i64 = at.y as i64;
    if row < top || row >= bottom {
        return out;
    }
    let lo: i128 = rect.pos.x as i128;
    let hi: i128 = lo + rect.size.x as i128;
    let mut col: i128 = at.x as i128;
    let ghost start: int = at.x as int;
    let ghost ws = widths@;
    let n: usize = widths.len();
    let mut i: usize = 0;
    for c in it: text.chars()
        invariant
            it.seq() == text@,
            i == it.index(),
            ws == widths@,
            ws.len() == text@.len(),
            n == ws.len(),
            col == start || col <= hi + u64::MAX,
            col <= start + sum_widths(ws.take(i as int)),
            col <= hi ==> col == start + sum_widths(ws.take(i as int)),
            out@ == clip_row(text@.take(i as int), ws, start, lo as int, hi as int),
            lo == rect.pos.x,
            hi == rect.pos.x + rect.size.x,
    {
        let ghost q = text@.take(i + 1);
        assert(q.take(i as int) == text@.take(i as int));
        assert(q[i as int] == c);
        assert(ws.take(i + 1).drop_last() == ws.take(i as int));
        let w = widths[i];
        if col <= hi {
            if lo <= col && col + (w as i128) <= hi {
                push_char(&mut out, c);
            }
            col = col + w as i128;
        }
        i = i + 1;
    }
    assert(text@.take(text@.len() as int) == text@);
    out
}

/// The characters of `text` that show inside `rect` when written at `at`.
pub fn clip_text(rect: TermRect, at: U16Vec2, text: &str) -> (r: String)
    ensures
        r@ == visible(rect, at, text@),
{
    let widths = text_widths(text);
    clip_measured(rect, at, text, &widths)
}

/// The absolute grid position of the region-relative position `rel`, or the
/// maximum sentinel when either coordinate falls outside `0..=u16::MAX`.
pub open spec fn absolute_target(rect: TermRect, rel: IVec2) -> U16Vec2 {
    let ax = rect.pos.x + rel.x;
    let ay = rect.pos.y + rel.y;
    if 0 <= ax <= u16::MAX && 0 <= ay <= u16::MAX {
        U16Vec2 { x: ax as u16, y: ay as u16 }
    } else {
        U16Vec2::max_spec()
    }
}

/// Whether every absolute grid position, taken relative to `rect`, fits in `i32`.
pub open spec fn relative_fits(rect: TermRect) -> bool {
    u16::MAX - rect.pos.x <= i32::MAX && u16::MAX - rect.pos.y <= i32::MAX
}

/// The region-relative position of a reported absolute cursor position; a
/// failed report counts as the maximum sentinel.
pub open spec fn relative_of(rect: TermRect, reported: Option<U16Vec2>) -> IVec2 {
    let a = match reported {
        Some(p) => p,
        None => U16Vec2::max_spec(),
    };
    IVec2 { x: (a.x - rect.pos.x) as i32, y: (a.y - rect.pos.y) as i32 }
}

/// A clipping view over a rectangle in absolute terminal coordinates.
///
/// A region is only made from a context rectangle and a rectangle relative to
/// it, so its rectangle is always the composition of the two.
#[derive(Clone, Copy, PartialEq, Eq, Structural, Debug, Hash)]
pub struct TermSlice {
    rect: TermRect,
}

impl View for TermSlice {
    type V = TermRect;

    closed spec fn view(&self) -> TermRect {
        self.rect
    }
}

impl TermSlice {
    /// The region for `rect` read relative to `context_rect`.
    pub(crate) fn new(context_rect: TermRect, rect: TermRect) -> (r: TermSlice)
        requires
            rect.composable(context_rect),
        ensures
            r@ == rect.compose(context_rect),
    {
        TermSlice { rect: rect.move_clamp(context_rect) }
    }

    /// A child region: `rect` read relative to this region's rectangle.
    pub fn slice(&self, rect: TermRect) -> (r: TermSlice)
        requires
            rect.composable(self@),
        ensures
            r@ == rect.compose(self@),
    {
        TermSlice::new(self.rect, rect)
    }

    pub fn rect(&self) -> (r: TermRect)
        ensures
            r == self@,
    {
        self.rect
    }

    pub fn pos(&self) -> (r: IVec2)
        ensures
            r == self@.pos,
    {
        self.rect.pos
    }

    pub fn size(&self) -> (r: UVec2)
        ensures
            r == self@.size,
    {
        self.rect.size
    }

    pub fn x(&self) -> (r: i32)
        ensures
            r == self@.pos.x,
    {
        self.rect.x()
    }

    pub fn y(&self) -> (r: i32)
        ensures
            r == self@.pos.y,
    {
        self.rect.y()
    }

    pub fn width(&self) -> (r: u32)
        ensures
            r == self@.size.x,
    {
        self.rect.width()
    }

    pub fn height(&self) -> (r: u32)
        ensures
            r == self@.size.y,
    {
        self.rect.height()
    }

    /// The absolute position to move the cursor to for the region-relative
    /// position `pos`; the maximum sentinel where it is not representable.
    pub fn move_cursor(&self, pos: IVec2) -> (r: U16Vec2)
        ensures
            r == absolute_target(self@, pos),
    {
        let ax: i64 = self.rect.pos.x as i64 + pos.x as i64;
        let ay: i64 = self.rect.pos.y as i64 + pos.y as i64;
        if 0 <= ax && ax <= u16::MAX as i64 && 0 <= ay && ay <= u16::MAX as i64 {
            U16Vec2 { x: ax as u16, y: ay as u16 }
        } else {
            U16Vec2::max()
        }
    }

    /// The text to emit for `text` written at the reported absolute cursor
    /// position `cursor` (the maximum sentinel when the report failed),
    /// clipped to this region. Nothing is to be emitted when it is empty.
    pub fn write(&self, cursor: Option<U16Vec2>, text: &str) -> (r: String)
        ensures
            r@ == visible(
                self@,
                match cursor {
                    Some(p) => p,
                    None => U16Vec2::max_spec(),
                },
                text@,
            ),
    {
        let at = match cursor {
            Some(p) => p,
            None => U16Vec2::max(),
        };
        clip_text(self.rect, at, text)
    }

    /// Moves to the region-relative `pos`, then writes `text` there: the
    /// absolute position to move to, and the clipped text to emit. The
    /// clipping is decided from that position, not from a new query.
    pub fn write_to(&self, pos: IVec2, text: &str) -> (r: (U16Vec2, String))
        ensures
            r.0 == absolute_target(self@, pos),
            r.1@ == visible(self@, absolute_target(self@, pos), text@),
    {
        let at = self.move_cursor(pos);
        let shown = clip_text(self.rect, at, text);
        (at, shown)
    }

    /// The region-relative position of the reported absolute cursor position;
    /// a failed report (`None`) gives the maximum sentinel's relative position.
    pub fn cursor_pos(&self, reported: Option<U16Vec2>) -> (r: IVec2)
        requires
            relative_fits(self@),
        ensures
            r == relative_of(self@, reported),
    {
        let a = match reported {
            Some(p) => p,
            None => U16Vec2::max(),
        };
        IVec2 { x: a.x as i32 - self.rect.pos.x, y: a.y as i32 - self.rect.pos.y }
    }
}

/// Moving the cursor to a region-relative position that lies on the grid and
/// then reading the cursor back gives that same relative position.
pub proof fn law_cursor_round_trip(s: TermSlice, rel: IVec2)
    requires
        relative_fits(s@),
        0 <= s@.pos.x + rel.x <= u16::MAX,
        0 <= s@.pos.y + rel.y <= u16::MAX,
    ensures
        relative_of(s@, Some(absolute_target(s@, rel))) == rel,
{
}

/// A row outside the region shows nothing, whatever the text.
pub proof fn law_outside_rows_show_nothing(
    rect: TermRect,
    at: U16Vec2,
    s: Seq<char>,
    ws: Seq<usize>,
)
    requires
        !(rect.pos.y <= at.y < rect.pos.y + rect.size.y),
    ensures
        visible_with(rect, at, s, ws).len() == 0,
        visible(rect, at, s).len() == 0,
{
}

/// A character whose columns straddle the left or the right edge is dropped
/// whole: what shows of the text up to and including it is what showed of the
/// text before it.
pub proof fn law_straddling_char_dropped(
    s: Seq<char>,
    ws: Seq<usize>,
    col: int,
    lo: int,
    hi: int,
    i: int,
)
    requires
        ws.len() == s.len(),
        0 <= i < s.len(),
        ({
            let start = col + sum_widths(ws.take(i));
            let end = start + ws[i];
            (start < hi < end) || (start < lo < end)
        }),
    ensures
        clip_row(s.take(i + 1), ws, col, lo, hi) == clip_row(s.take(i), ws, col, lo, hi),
{
    assert(s.take(i + 1).take(i) == s.take(i));
}

/// The bounds `(a, b)` of the run `s[a..b]` that shows between the columns
/// `[lo, hi)`; characters after the run are cut because the text runs past `hi`.
proof fn lemma_clip_run(s: Seq<char>, ws: Seq<usize>, col: int, lo: int, hi: int) -> (r: (
    int,
    int,
))
    requires
        s.len() <= ws.len(),
    ensures
        0 <= r.0 <= r.1 <= s.len(),
        clip_row(s, ws, col, lo, hi) == s.subrange(r.0, r.1),
        r.1 < s.len() ==> col + sum_widths(ws.take(s.len() as int)) > hi,
        r.0 < r.1 ==> col + sum_widths(ws.take(r.1)) >= lo,
    decreases s.len(),
{
    let n = s.len() as int;
    if n == 0 {
        assert(s.subrange(0, 0) =~= Seq::<char>::empty());
        (0, 0)
    } else {
        let p = s.take(n - 1);
        let c = s[n - 1];
        let (a, b) = lemma_clip_run(p, ws, col, lo, hi);
        let start = col + sum_widths(ws.take(n - 1));
        assert(ws.take(n).drop_last() =~= ws.take(n - 1));
        if lo <= start && start + ws[n - 1] <= hi {
            if a == b {
                assert(s.subrange(n - 1, n) =~= seq![c]);
                assert(p.subrange(a, b) =~= Seq::<char>::empty());
                (n - 1, n)
            } else {
                assert(s.subrange(a, n) =~= p.subrange(a, n - 1).push(c));
                (a, n)
            }
        } else {
            if a == b {
                assert(p.subrange(a, b) =~= Seq::<char>::empty());
                assert(s.subrange(n, n) =~= Seq::<char>::empty());
                (n, n)
            } else {
                assert(s.subrange(a, b) =~= p.subrange(a, b));
                (a, b)
            }
        }
    }
}

/// Clipping only trims: what shows is one contiguous run of the text, with
/// characters cut from its start and from its end only.
pub proof fn law_clip_is_contiguous_run(s: Seq<char>, ws: Seq<usize>, col: int, lo: int, hi: int)
    requires
        ws.len() == s.len(),
    ensures
        exists|a: int, b: int|
            0 <= a <= b <= s.len() && #[trigger] clip_row(s, ws, col, lo, hi) == s.subrange(a, b),
{
    let (a, b) = lemma_clip_run(s, ws, col, lo, hi);
    assert(0 <= a <= b <= s.len() && clip_row(s, ws, col, lo, hi) == s.subrange(a, b));
}

} // verus!
