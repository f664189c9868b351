//! Display width of single characters, and appending to strings.
use vstd::prelude::*;
use unicode_width::UnicodeWidthChar;

verus! {

/// What `unicode_width` reports as the column width of a character
/// (`None` for a control character).
pub uninterp spec fn unicode_width_of(c: char) -> Option<usize>;

/// Whether `c` is one of the control characters that have no width:
/// U+0000..U+001F and U+007F..U+009F.
pub open spec fn is_control(c: char) -> bool {
    (c as u32) < 0x20 || (0x7f <= (c as u32) && (c as u32) < 0xa0)
}

/// Relies on `UnicodeWidthChar::width` for `char`: `None` exactly on control
/// characters, 1 on printable ASCII, otherwise a table entry of at most 3.
#[verifier::external_body]
fn unicode_char_width(c: char) -> (r: Option<usize>)
    ensures
        r == unicode_width_of(c),
        r is None <==> is_control(c),
        0x20 <= (c as u32) < 0x7f ==> r == Some(1usize),
        r matches Some(w) ==> w <= 3,
{
    UnicodeWidthChar::width(c)
}

/// The number of columns a character occupies; control characters take none.
pub open spec fn col_width(c: char) -> usize {
    match unicode_width_of(c) {
        Some(w) => w,
        None => 0,
    }
}

/// The column width of each character of `s`.
pub open spec fn widths_of(s: Seq<char>) -> Seq<usize> {
    Seq::new(s.len(), |i: int| col_width(s[i]))
}

/// The total of a run of column widths.
pub open spec fn sum_widths(ws: Seq<usize>) -> int
    decreases ws.len(),
{
    if ws.len() == 0 {
        0
    } else {
        sum_widths(ws.drop_last()) + ws.last()
    }
}

/// Column width of `c`, with control characters counted as zero.
pub fn char_width(c: char) -> (r: usize)
    ensures
        r == col_width(c),
        r <= 3,
        0x20 <= (c as u32) < 0x7f ==> r == 1,
{
    match unicode_char_width(c) {
        Some(w) => w,
        None => 0,
    }
}

/// The column width of each character of `text`, in order.
pub fn text_widths(text: &str) -> (r: Vec<usize>)
    ensures
        r@ == widths_of(text@),
{
    let mut r: Vec<usize> = Vec::new();
    for c in it: text.chars()
        invariant
            it.seq() == text@,
            r@ == widths_of(text@).take(it.index() as int),
    {
        let ghost i = it.index() as int;
        let w = char_width(c);
        r.push(w);
        assert(r@ =~= widths_of(text@).take(i + 1));
    }
    assert(r@ =~= widths_of(text@));
    r
}

/// Relies on `String::push`: appends one character.
#[verifier::external_body]
pub(crate) fn push_char(s: &mut String, c: char)
    ensures
        final(s)@ == old(s)@.push(c),
{
    s.push(c);
}

} // verus!
