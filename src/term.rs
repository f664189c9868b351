//! The terminal session's cached size and its mode bookkeeping.
//!
//! The session decides which mode switches are to be performed, and records
//! whether each one took effect; performing them is left to the caller.
use vstd::prelude::*;
use crate::geom::{IVec2, TermRect, U16Vec2, UVec2};
use crate::slice::TermSlice;

verus! {

/// A terminal-wide mode.
#[derive(Clone, Copy, PartialEq, Eq, Structural, Debug, Hash)]
pub enum Mode {
    /// Keystrokes arrive unprocessed, without line buffering or echo.
    RawInput,
    /// The secondary screen buffer is shown.
    AlternateScreen,
    /// The cursor is not drawn.
    HiddenCursor,
}

/// A switch of one mode on (`enable`) or off, to be performed by the caller.
#[derive(Clone, Copy, PartialEq, Eq, Structural, Debug, Hash)]
pub struct ModeChange {
    pub mode: Mode,
    pub enable: bool,
}

/// The root of a terminal session: the size reported when it began, and
/// whether each mode is currently in effect.
#[derive(Debug)]
pub struct Term {
    size: UVec2,
    raw_mode_enabled: bool,
    alternate_screen_enabled: bool,
    cursor_hidden: bool,
}

impl Term {
    /// The size cached at the start of the session.
    pub closed spec fn size_spec(&self) -> UVec2 {
        self.size
    }

    /// Whether mode `m` is recorded as in effect.
    pub closed spec fn is_on(&self, m: Mode) -> bool {
        match m {
            Mode::RawInput => self.raw_mode_enabled,
            Mode::AlternateScreen => self.alternate_screen_enabled,
            Mode::HiddenCursor => self.cursor_hidden,
        }
    }

    /// The rectangle of the whole screen.
    pub open spec fn rect_spec(&self) -> TermRect {
        TermRect { pos: IVec2 { x: 0, y: 0 }, size: self.size_spec() }
    }

    /// The switch to perform to bring `m` to `enable`; none when it is already so.
    pub open spec fn request_spec(&self, m: Mode, enable: bool) -> Option<ModeChange> {
        if self.is_on(m) == enable {
            None
        } else {
            Some(ModeChange { mode: m, enable })
        }
    }

    /// The session after `change` was performed: the mode follows the change
    /// when it succeeded and stays as it was when it failed.
    pub closed spec fn after(self, change: ModeChange, succeeded: bool) -> Term {
        if !succeeded {
            self
        } else {
            match change.mode {
                Mode::RawInput => Term { raw_mode_enabled: change.enable, ..self },
                Mode::AlternateScreen => Term { alternate_screen_enabled: change.enable, ..self },
                Mode::HiddenCursor => Term { cursor_hidden: change.enable, ..self },
            }
        }
    }

    /// The session after each change of `cs` was performed in order.
    pub open spec fn after_all(self, cs: Seq<ModeChange>, succeeded: bool) -> Term
        decreases cs.len(),
    {
        if cs.len() == 0 {
            self
        } else {
            self.after(cs[0], succeeded).after_all(cs.drop_first(), succeeded)
        }
    }

    /// The switches that restore the terminal, in order: raw input off, then
    /// the primary screen back, then the cursor shown, each only when on.
    pub open spec fn teardown_spec(&self) -> Seq<ModeChange> {
        let raw = if self.is_on(Mode::RawInput) {
            seq![ModeChange { mode: Mode::RawInput, enable: false }]
        } else {
            Seq::empty()
        };
        let alt = if self.is_on(Mode::AlternateScreen) {
            seq![ModeChange { mode: Mode::AlternateScreen, enable: false }]
        } else {
            Seq::empty()
        };
        let cur = if self.is_on(Mode::HiddenCursor) {
            seq![ModeChange { mode: Mode::HiddenCursor, enable: false }]
        } else {
            Seq::empty()
        };
        raw + alt + cur
    }

    /// A session whose size is the reported `(columns, rows)`, or `(0, 0)`
    /// when the size query failed; no mode is on.
    pub fn new(reported: Option<U16Vec2>) -> (r: Term)
        ensures
            r.size_spec() == (match reported {
                Some(s) => UVec2 { x: s.x as u32, y: s.y as u32 },
                None => UVec2 { x: 0, y: 0 },
            }),
            !r.is_on(Mode::RawInput),
            !r.is_on(Mode::AlternateScreen),
            !r.is_on(Mode::HiddenCursor),
    {
        let size = match reported {
            Some(s) => s.to_uvec2(),
            None => UVec2 { x: 0, y: 0 },
        };
        Term {
            size,
            raw_mode_enabled: false,
            alternate_screen_enabled: false,
            cursor_hidden: false,
        }
    }

    /// A region for `rect`, read relative to the whole screen.
    pub fn slice(&self, rect: TermRect) -> (r: TermSlice)
        ensures
            r@ == rect.compose(self.rect_spec()),
    {
        TermSlice::new(self.rect(), rect)
    }

    /// The region of the whole screen.
    pub fn full_slice(&self) -> (r: TermSlice)
        ensures
            r@ == self.rect_spec(),
    {
        let full = self.rect();
        TermSlice::new(full, full)
    }

    /// The switch to perform to bring `m` to `enable`, if any.
    pub fn request(&self, m: Mode, enable: bool) -> (r: Option<ModeChange>)
        ensures
            r == self.request_spec(m, enable),
    {
        let on = match m {
            Mode::RawInput => self.raw_mode_enabled,
            Mode::AlternateScreen => self.alternate_screen_enabled,
            Mode::HiddenCursor => self.cursor_hidden,
        };
        if on == enable {
            None
        } else {
            Some(ModeChange { mode: m, enable })
        }
    }

    /// Records whether `change` took effect.
    pub fn record(&mut self, change: ModeChange, succeeded: bool)
        ensures
            *final(self) == old(self).after(change, succeeded),
            final(self).size_spec() == old(self).size_spec(),
            forall|m: Mode|
                #[trigger] final(self).is_on(m) == if m == change.mode && succeeded {
                    change.enable
                } else {
                    old(self).is_on(m)
                },
    {
        if succeeded {
            match change.mode {
                Mode::RawInput => self.raw_mode_enabled = change.enable,
                Mode::AlternateScreen => self.alternate_screen_enabled = change.enable,
                Mode::HiddenCursor => self.cursor_hidden = change.enable,
            }
        }
    }

    pub fn enable_raw_mode(&self) -> (r: Option<ModeChange>)
        ensures
            r == self.request_spec(Mode::RawInput, true),
    {
        self.request(Mode::RawInput, true)
    }

    pub fn disable_raw_mode(&self) -> (r: Option<ModeChange>)
        ensures
            r == self.request_spec(Mode::RawInput, false),
    {
        self.request(Mode::RawInput, false)
    }

    pub fn enter_alternate_screen(&self) -> (r: Option<ModeChange>)
        ensures
            r == self.request_spec(Mode::AlternateScreen, true),
    {
        self.request(Mode::AlternateScreen, true)
    }

    pub fn leave_alternate_screen(&self) -> (r: Option<ModeChange>)
        ensures
            r == self.request_spec(Mode::AlternateScreen, false),
    {
        self.request(Mode::AlternateScreen, false)
    }

    pub fn hide_cursor(&self) -> (r: Option<ModeChange>)
        ensures
            r == self.request_spec(Mode::HiddenCursor, true),
    {
        self.request(Mode::HiddenCursor, true)
    }

    pub fn show_cursor(&self) -> (r: Option<ModeChange>)
        ensures
            r == self.request_spec(Mode::HiddenCursor, false),
    {
        self.request(Mode::HiddenCursor, false)
    }

    /// The switches that restore the terminal when the session ends.
    pub fn teardown(&self) -> (r: Vec<ModeChange>)
        ensures
            r@ == self.teardown_spec(),
    {
        let mut r: Vec<ModeChange> = Vec::new();
        if self.raw_mode_enabled {
            r.push(ModeChange { mode: Mode::RawInput, enable: false });
        }
        if self.alternate_screen_enabled {
            r.push(ModeChange { mode: Mode::AlternateScreen, enable: false });
        }
        if self.cursor_hidden {
            r.push(ModeChange { mode: Mode::HiddenCursor, enable: false });
        }
        r
    }

    pub fn size(&self) -> (r: UVec2)
        ensures
            r == self.size_spec(),
    {
        self.size
    }

    pub fn rect(&self) -> (r: TermRect)
        ensures
            r == self.rect_spec(),
    {
        TermRect::new(IVec2 { x: 0, y: 0 }, self.size)
    }

    pub fn raw_mode_enabled(&self) -> (r: bool)
        ensures
            r == self.is_on(Mode::RawInput),
    {
        self.raw_mode_enabled
    }

    pub fn alternate_screen_enabled(&self) -> (r: bool)
        ensures
            r == self.is_on(Mode::AlternateScreen),
    {
        self.alternate_screen_enabled
    }

    pub fn cursor_hidden(&self) -> (r: bool)
        ensures
            r == self.is_on(Mode::HiddenCursor),
    {
        self.cursor_hidden
    }
}

/// How many switches of mode `m` the sequence `cs` holds.
pub open spec fn count_switches(cs: Seq<ModeChange>, m: Mode) -> nat
    decreases cs.len(),
{
    if cs.len() == 0 {
        0
    } else {
        (if cs[0].mode == m { 1nat } else { 0nat }) + count_switches(cs.drop_first(), m)
    }
}

/// Asking twice for a mode to be turned on performs the switch at most once:
/// after the first request succeeded, the mode is on and a second request
/// asks for nothing.
pub proof fn law_enable_twice(t: Term, m: Mode)
    ensures
        ({
            let t1 = match t.request_spec(m, true) {
                Some(c) => t.after(c, true),
                None => t,
            };
            t1.is_on(m) && t1.request_spec(m, true) is None
        }),
{
}

/// Ending a session reverts each mode that is on exactly once and touches no
/// other mode; once those switches succeeded, every mode is off.
pub proof fn law_teardown_reverts_each_once(t: Term)
    ensures
        forall|m: Mode| #[trigger]
            count_switches(t.teardown_spec(), m) == if t.is_on(m) {
                1nat
            } else {
                0nat
            },
        forall|i: int| 0 <= i < t.teardown_spec().len() ==> !(#[trigger] t.teardown_spec()[i]).enable,
        forall|m: Mode| !(#[trigger] t.after_all(t.teardown_spec(), true).is_on(m)),
        t.after_all(t.teardown_spec(), true).size_spec() == t.size_spec(),
{
    reveal_with_fuel(count_switches, 4);
    reveal_with_fuel(Term::after_all, 4);
    let cs = t.teardown_spec();
    assert forall|m: Mode| #[trigger]
        count_switches(cs, m) == if t.is_on(m) {
            1nat
        } else {
            0nat
        } by {
        if cs.len() > 0 {
            assert(cs.drop_first().len() < 3 || cs.drop_first().len() == 2);
        }
    }
}

} // verus!
