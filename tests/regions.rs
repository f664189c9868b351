use termslice::{clip_measured, clip_text, text_widths, ivec2, u16vec2, uvec2, Term, TermRect, TermSlice};

fn region_2_1_5_3() -> TermSlice {
    let term = Term::new(Some(u16vec2(80, 24)));
    term.slice(TermRect::new(ivec2(2, 1), uvec2(5, 3)))
}

#[test]
fn compose_adds_origins_and_takes_smaller_size() {
    let ctx = TermRect::new(ivec2(10, -4), uvec2(20, 6));
    let rel = TermRect::new(ivec2(-3, 7), uvec2(50, 2));
    let r = rel.move_clamp(ctx);
    assert_eq!(r.pos, ivec2(7, 3));
    assert_eq!(r.size, uvec2(20, 2));
    assert_eq!((r.x(), r.y(), r.width(), r.height()), (7, 3, 20, 2));
}

#[test]
fn nested_slice_composes_with_parent() {
    let parent = region_2_1_5_3();
    let child = parent.slice(TermRect::new(ivec2(1, 1), uvec2(10, 1)));
    assert_eq!(child.rect(), TermRect::new(ivec2(3, 2), uvec2(5, 1)));
    assert_eq!(child.pos(), ivec2(3, 2));
    assert_eq!(child.size(), uvec2(5, 1));
}

#[test]
fn region_accessors() {
    let s = region_2_1_5_3();
    assert_eq!((s.x(), s.y(), s.width(), s.height()), (2, 1, 5, 3));
}

#[test]
fn write_to_whole_word_fits() {
    let s = region_2_1_5_3();
    let (at, shown) = s.write_to(ivec2(0, 0), "hello");
    assert_eq!(at, u16vec2(2, 1));
    assert_eq!(shown, "hello");
}

#[test]
fn write_to_left_trimmed() {
    let s = region_2_1_5_3();
    let (at, shown) = s.write_to(ivec2(-2, 0), "hello");
    assert_eq!(at, u16vec2(0, 1));
    assert_eq!(shown, "llo");
}

#[test]
fn write_to_right_trimmed() {
    let s = region_2_1_5_3();
    let (at, shown) = s.write_to(ivec2(3, 0), "hello");
    assert_eq!(at, u16vec2(5, 1));
    assert_eq!(shown, "he");
}

#[test]
fn write_at_queried_cursor() {
    let s = region_2_1_5_3();
    assert_eq!(s.write(Some(u16vec2(2, 1)), "hello"), "hello");
    assert_eq!(s.write(Some(u16vec2(0, 2)), "hello"), "llo");
    assert_eq!(s.write(Some(u16vec2(5, 3)), "hello"), "he");
}

#[test]
fn write_both_sides_trimmed() {
    let s = region_2_1_5_3();
    assert_eq!(s.write(Some(u16vec2(0, 1)), "abcdefghij"), "cdefg");
}

#[test]
fn rows_outside_region_emit_nothing() {
    let s = region_2_1_5_3();
    assert_eq!(s.write(Some(u16vec2(2, 0)), "hello"), "");
    assert_eq!(s.write(Some(u16vec2(2, 4)), "hello"), "");
    assert_eq!(s.write_to(ivec2(0, -1), "hello").1, "");
    assert_eq!(s.write_to(ivec2(0, 3), "hello").1, "");
}

#[test]
fn failed_cursor_query_clips_everything() {
    let s = region_2_1_5_3();
    assert_eq!(s.write(None, "hello"), "");
}

#[test]
fn wide_char_at_right_edge_dropped() {
    let s = region_2_1_5_3();
    // one column left at column 6: the two-column character does not fit
    assert_eq!(s.write_to(ivec2(4, 0), "\u{4e2d}").1, "");
    assert_eq!(s.write_to(ivec2(3, 0), "a\u{4e2d}").1, "a");
}

#[test]
fn wide_char_at_left_edge_dropped() {
    let s = region_2_1_5_3();
    // the character spans columns 1 and 2, the region starts at column 2
    assert_eq!(s.write(Some(u16vec2(1, 1)), "\u{4e2d}bc"), "bc");
}

#[test]
fn wide_chars_that_fit_are_kept() {
    let s = region_2_1_5_3();
    assert_eq!(s.write_to(ivec2(0, 0), "\u{4e2d}\u{6587}x").1, "\u{4e2d}\u{6587}x");
    assert_eq!(s.write_to(ivec2(0, 0), "\u{4e2d}\u{6587}\u{5b57}").1, "\u{4e2d}\u{6587}");
}

#[test]
fn nothing_left_after_trim() {
    let s = region_2_1_5_3();
    assert_eq!(s.write_to(ivec2(5, 0), "hello").1, "");
    assert_eq!(s.write_to(ivec2(-9, 0), "hello").1, "");
    assert_eq!(s.write_to(ivec2(0, 0), "").1, "");
}

#[test]
fn control_chars_take_no_columns() {
    let rect = TermRect::new(ivec2(0, 0), uvec2(2, 1));
    assert_eq!(clip_text(rect, u16vec2(0, 0), "a\u{7}b"), "a\u{7}b");
    assert_eq!(clip_text(rect, u16vec2(0, 0), "a\u{7}bc"), "a\u{7}b");
}

#[test]
fn move_cursor_translates_to_absolute() {
    let s = region_2_1_5_3();
    assert_eq!(s.move_cursor(ivec2(3, 2)), u16vec2(5, 3));
    assert_eq!(s.move_cursor(ivec2(-2, -1)), u16vec2(0, 0));
}

#[test]
fn move_cursor_saturates_off_grid() {
    let s = region_2_1_5_3();
    assert_eq!(s.move_cursor(ivec2(-3, 0)), u16vec2(u16::MAX, u16::MAX));
    assert_eq!(s.move_cursor(ivec2(0, 65535)), u16vec2(u16::MAX, u16::MAX));
    assert_eq!(s.write_to(ivec2(i32::MAX, i32::MAX), "x").0, u16vec2(u16::MAX, u16::MAX));
}

#[test]
fn cursor_pos_round_trips() {
    let s = region_2_1_5_3();
    let abs = s.move_cursor(ivec2(3, 2));
    assert_eq!(s.cursor_pos(Some(abs)), ivec2(3, 2));
}

#[test]
fn cursor_pos_failed_query_is_sentinel() {
    let s = region_2_1_5_3();
    assert_eq!(s.cursor_pos(None), ivec2(65535 - 2, 65535 - 1));
}

#[test]
fn clip_measured_uses_given_widths() {
    let rect = TermRect::new(ivec2(2, 1), uvec2(5, 3));
    let ones = vec![1usize; 5];
    assert_eq!(clip_measured(rect, u16vec2(0, 1), "hello", &ones), "llo");
    assert_eq!(clip_measured(rect, u16vec2(5, 1), "hello", &ones), "he");
    // 'b' is taken to be two columns wide and straddles the right edge
    let wide_b = vec![1usize, 2, 1];
    assert_eq!(clip_measured(rect, u16vec2(5, 1), "abc", &wide_b), "a");
    // 'a' is taken to be three columns wide and straddles the left edge
    let wide_a = vec![3usize, 1, 1];
    assert_eq!(clip_measured(rect, u16vec2(0, 1), "abc", &wide_a), "bc");
    assert_eq!(clip_measured(rect, u16vec2(2, 0), "abc", &wide_a), "");
}

#[test]
fn clip_measured_huge_width_is_dropped() {
    let rect = TermRect::new(ivec2(0, 0), uvec2(10, 1));
    let widths = vec![1usize, usize::MAX, 1];
    assert_eq!(clip_measured(rect, u16vec2(0, 0), "abc", &widths), "a");
}

#[test]
fn text_widths_per_character() {
    assert_eq!(text_widths("a\u{4e2d}\u{7}\u{301}"), vec![1, 2, 0, 0]);
    assert_eq!(text_widths(""), Vec::<usize>::new());
}
