//! The dashboard's state and how it answers a key: switching between its
//! three views, scrolling the raw trace, and quitting.

use vstd::prelude::*;

verus! {

/// The number of views (overview, system calls, raw trace).
pub const TAB_COUNT: usize = 3;

/// The view that shows the raw trace, the only one that scrolls.
pub const RAW_TRACE_TAB: usize = 2;

/// How far one page-jump scrolls.
pub const SCROLL_JUMP: u16 = 10;

/// The key that was used.
#[derive(Clone, Copy, Debug, PartialEq, Eq, Structural)]
pub enum KeyCode {
    Char(char),
    Esc,
    Enter,
    Tab,
    BackTab,
    Left,
    Right,
    Up,
    Down,
    Home,
    Other,
}

/// Whether a key went down, repeats, or was let go.
#[derive(Clone, Copy, Debug, PartialEq, Eq, Structural)]
pub enum KeyKind {
    Press,
    Repeat,
    Release,
}

/// A key event as the dashboard reads it.
#[derive(Clone, Copy, Debug, PartialEq, Eq, Structural)]
pub struct KeyEvent {
    pub code: KeyCode,
    /// The control modifier was held.
    pub control: bool,
    pub kind: KeyKind,
}

/// The dashboard's state: which view is shown and how far the raw trace is
/// scrolled.
#[derive(Debug)]
pub struct TuiState {
    active_tab: usize,
    raw_scroll: u16,
}

/// The plain values of a dashboard state.
#[derive(Clone, Copy, Debug, PartialEq, Eq, Structural)]
pub struct TuiView {
    pub active_tab: usize,
    pub raw_scroll: u16,
}

impl View for TuiState {
    type V = TuiView;

    closed spec fn view(&self) -> TuiView {
        TuiView { active_tab: self.active_tab, raw_scroll: self.raw_scroll }
    }
}

/// What a key does: the state after it, and whether the dashboard closes.
#[derive(Clone, Copy, Debug, PartialEq, Eq, Structural)]
pub struct KeyStep {
    pub next: TuiView,
    pub quit: bool,
}

/// `s` with the raw trace scrolled to `scroll`, when the raw trace is shown.
pub open spec fn scrolled(s: TuiView, scroll: u16) -> TuiView {
    if s.active_tab == RAW_TRACE_TAB {
        TuiView { raw_scroll: scroll, ..s }
    } else {
        s
    }
}

/// `n` added to `x`, stopping at the largest `u16`.
pub open spec fn sat_add(x: u16, n: u16) -> u16 {
    if x + n > u16::MAX {
        u16::MAX
    } else {
        (x + n) as u16
    }
}

/// `n` taken from `x`, stopping at zero.
pub open spec fn sat_sub(x: u16, n: u16) -> u16 {
    if x < n {
        0
    } else {
        (x - n) as u16
    }
}

/// The view after `t` when moving forward, wrapping round.
pub open spec fn next_tab(t: usize) -> usize {
    ((t + 1) % (TAB_COUNT as int)) as usize
}

/// The view before `t` when moving back, wrapping round.
pub open spec fn prev_tab(t: usize) -> usize {
    if t == 0 {
        (TAB_COUNT - 1) as usize
    } else {
        (t - 1) as usize
    }
}

/// How the dashboard answers `key` in state `s`:
/// a released key does nothing; `q`, Esc and Enter close it; Tab, Right and
/// `l` show the next view, BackTab, Left and `h` the one before; on the raw
/// trace, Down and `j` scroll one line down, Up and `k` one line up, Home
/// back to the top, and ctrl+d and ctrl+u ten lines down and up.
pub open spec fn key_step(s: TuiView, key: KeyEvent) -> KeyStep {
    let stay = KeyStep { next: s, quit: false };
    if key.kind == KeyKind::Release {
        stay
    } else {
        match key.code {
            KeyCode::Esc | KeyCode::Enter => KeyStep { next: s, quit: true },
            KeyCode::Tab | KeyCode::Right => KeyStep {
                next: TuiView { active_tab: next_tab(s.active_tab), ..s },
                quit: false,
            },
            KeyCode::BackTab | KeyCode::Left => KeyStep {
                next: TuiView { active_tab: prev_tab(s.active_tab), ..s },
                quit: false,
            },
            KeyCode::Down => KeyStep { next: scrolled(s, sat_add(s.raw_scroll, 1)), quit: false },
            KeyCode::Up => KeyStep { next: scrolled(s, sat_sub(s.raw_scroll, 1)), quit: false },
            KeyCode::Home => KeyStep { next: scrolled(s, 0), quit: false },
            KeyCode::Char(c) => if c == 'q' {
                KeyStep { next: s, quit: true }
            } else if c == 'l' {
                KeyStep { next: TuiView { active_tab: next_tab(s.active_tab), ..s }, quit: false }
            } else if c == 'h' {
                KeyStep { next: TuiView { active_tab: prev_tab(s.active_tab), ..s }, quit: false }
            } else if c == 'j' {
                KeyStep { next: scrolled(s, sat_add(s.raw_scroll, 1)), quit: false }
            } else if c == 'k' {
                KeyStep { next: scrolled(s, sat_sub(s.raw_scroll, 1)), quit: false }
            } else if c == 'u' && key.control {
                KeyStep { next: scrolled(s, sat_sub(s.raw_scroll, SCROLL_JUMP)), quit: false }
            } else if c == 'd' && key.control {
                KeyStep { next: scrolled(s, sat_add(s.raw_scroll, SCROLL_JUMP)), quit: false }
            } else {
                stay
            },
            KeyCode::Other => stay,
        }
    }
}

impl TuiState {
    #[verifier::type_invariant]
    spec fn inv(self) -> bool {
        self.active_tab < TAB_COUNT
    }

    /// The state the dashboard opens in: the overview, not scrolled.
    pub fn new() -> (r: TuiState)
        ensures
            r@ == (TuiView { active_tab: 0, raw_scroll: 0 }),
    {
        TuiState { active_tab: 0, raw_scroll: 0 }
    }

    /// The view shown.
    pub fn active_tab(&self) -> (r: usize)
        ensures
            r == self@.active_tab,
            r < TAB_COUNT,
    {
        proof {
            use_type_invariant(self);
        }
        self.active_tab
    }

    /// How far the raw trace is scrolled.
    pub fn raw_scroll(&self) -> (r: u16)
        ensures
            r == self@.raw_scroll,
    {
        self.raw_scroll
    }

    fn scroll_to(&mut self, scroll: u16)
        ensures
            final(self)@ == scrolled(old(self)@, scroll),
    {
        if self.active_tab == RAW_TRACE_TAB {
            self.raw_scroll = scroll;
        }
    }

    /// Answers a key (see `key_step`); returns whether the dashboard closes.
    pub fn handle_key(&mut self, key: KeyEvent) -> (quit: bool)
        ensures
            (KeyStep { next: final(self)@, quit }) == key_step(old(self)@, key),
    {
        proof {
            use_type_invariant(&*self);
        }
        if key.kind == KeyKind::Release {
            return false;
        }
        match key.code {
            KeyCode::Esc | KeyCode::Enter => true,
            KeyCode::Tab | KeyCode::Right => {
                self.forward();
                false
            },
            KeyCode::BackTab | KeyCode::Left => {
                self.backward();
                false
            },
            KeyCode::Down => {
                let s = self.raw_scroll.saturating_add(1);
                self.scroll_to(s);
                false
            },
            KeyCode::Up => {
                let s = self.raw_scroll.saturating_sub(1);
                self.scroll_to(s);
                false
            },
            KeyCode::Home => {
                self.scroll_to(0);
                false
            },
            KeyCode::Char(c) => {
                if c == 'q' {
                    true
                } else if c == 'l' {
                    self.forward();
                    false
                } else if c == 'h' {
                    self.backward();
                    false
                } else if c == 'j' {
                    let s = self.raw_scroll.saturating_add(1);
                    self.scroll_to(s);
                    false
                } else if c == 'k' {
                    let s = self.raw_scroll.saturating_sub(1);
                    self.scroll_to(s);
                    false
                } else if c == 'u' && key.control {
                    let s = self.raw_scroll.saturating_sub(SCROLL_JUMP);
                    self.scroll_to(s);
                    false
                } else if c == 'd' && key.control {
                    let s = self.raw_scroll.saturating_add(SCROLL_JUMP);
                    self.scroll_to(s);
                    false
                } else {
                    false
                }
            },
            KeyCode::Other => false,
        }
    }

    fn forward(&mut self)
        ensures
            final(self)@ == (TuiView { active_tab: next_tab(old(self)@.active_tab), ..old(self)@ }),
    {
        proof {
            use_type_invariant(&*self);
        }
        self.active_tab = (self.active_tab + 1) % TAB_COUNT;
    }

    fn backward(&mut self)
        ensures
            final(self)@ == (TuiView { active_tab: prev_tab(old(self)@.active_tab), ..old(self)@ }),
    {
        proof {
            use_type_invariant(&*self);
        }
        self.active_tab = if self.active_tab == 0 {
            TAB_COUNT - 1
        } else {
            self.active_tab - 1
        };
    }
}

// ---------------------------------------------------------------------------
// Laws
// ---------------------------------------------------------------------------

/// A key pressed with no modifier.
pub open spec fn press(code: KeyCode) -> KeyEvent {
    KeyEvent { code, control: false, kind: KeyKind::Press }
}

/// Every key keeps the shown view among the three.
pub proof fn lemma_key_step_keeps_tab(s: TuiView, key: KeyEvent)
    requires
        s.active_tab < TAB_COUNT,
    ensures
        key_step(s, key).next.active_tab < TAB_COUNT,
{
}

/// Moving back undoes moving forward, and moving forward undoes moving back.
pub proof fn lemma_back_undoes_forward(s: TuiView)
    requires
        s.active_tab < TAB_COUNT,
    ensures
        key_step(key_step(s, press(KeyCode::Tab)).next, press(KeyCode::BackTab)).next == s,
        key_step(key_step(s, press(KeyCode::BackTab)).next, press(KeyCode::Tab)).next == s,
{
}

/// Moving forward three times comes back to the same view.
pub proof fn lemma_forward_cycles(s: TuiView)
    requires
        s.active_tab < TAB_COUNT,
    ensures
        key_step(
            key_step(key_step(s, press(KeyCode::Tab)).next, press(KeyCode::Tab)).next,
            press(KeyCode::Tab),
        ).next == s,
{
}

/// A released key changes nothing and closes nothing.
pub proof fn lemma_release_ignored(s: TuiView, code: KeyCode, control: bool)
    ensures
        key_step(s, KeyEvent { code, control, kind: KeyKind::Release }) == (KeyStep {
            next: s,
            quit: false,
        }),
{
}

/// Away from the raw trace, no key scrolls it.
pub proof fn lemma_scroll_only_on_raw_trace(s: TuiView, key: KeyEvent)
    requires
        s.active_tab != RAW_TRACE_TAB,
    ensures
        key_step(s, key).next.raw_scroll == s.raw_scroll,
{
}

/// `q`, Esc and Enter close the dashboard in every state, leaving it as it was.
pub proof fn lemma_quit_keys(s: TuiView, key: KeyEvent)
    requires
        key.kind != KeyKind::Release,
        key.code == KeyCode::Char('q') || key.code == KeyCode::Esc || key.code == KeyCode::Enter,
    ensures
        key_step(s, key) == (KeyStep { next: s, quit: true }),
{
}

/// Only `q`, Esc and Enter close the dashboard.
pub proof fn lemma_only_quit_keys_close(s: TuiView, key: KeyEvent)
    requires
        key_step(s, key).quit,
    ensures
        key.kind != KeyKind::Release,
        key.code == KeyCode::Char('q') || key.code == KeyCode::Esc || key.code == KeyCode::Enter,
{
}

/// Scrolling down and then up one line on the raw trace comes back to the
/// same place, unless the scroll was already at its limit.
pub proof fn lemma_up_undoes_down(s: TuiView)
    requires
        s.active_tab == RAW_TRACE_TAB,
        s.raw_scroll < u16::MAX,
    ensures
        key_step(key_step(s, press(KeyCode::Down)).next, press(KeyCode::Up)).next == s,
{
}

/// Tab, Right and `l` show the next view (overview, system calls, raw
/// trace, then overview again); BackTab, Left and `h` the one before;
/// neither scrolls or closes.
pub proof fn lemma_tab_keys_move(s: TuiView, key: KeyEvent)
    requires
        s.active_tab < TAB_COUNT,
        key.kind != KeyKind::Release,
    ensures
        key.code == KeyCode::Tab || key.code == KeyCode::Right || key.code == KeyCode::Char('l')
            ==> key_step(s, key) == (KeyStep {
            next: TuiView {
                active_tab: if s.active_tab == 2 {
                    0
                } else {
                    (s.active_tab + 1) as usize
                },
                raw_scroll: s.raw_scroll,
            },
            quit: false,
        }),
        key.code == KeyCode::BackTab || key.code == KeyCode::Left || key.code == KeyCode::Char('h')
            ==> key_step(s, key) == (KeyStep {
            next: TuiView {
                active_tab: if s.active_tab == 0 {
                    2
                } else {
                    (s.active_tab - 1) as usize
                },
                raw_scroll: s.raw_scroll,
            },
            quit: false,
        }),
{
}

/// On the raw trace, Down and `j` scroll one line down and Up and `k` one
/// line up, ctrl+d ten lines down and ctrl+u ten up, each stopping at the
/// ends, and Home goes back to the top; none of them changes the view or
/// closes the dashboard.
pub proof fn lemma_scroll_keys(s: TuiView, key: KeyEvent)
    requires
        s.active_tab == RAW_TRACE_TAB,
        key.kind != KeyKind::Release,
    ensures
        key.code == KeyCode::Down || key.code == KeyCode::Char('j') ==> key_step(s, key) == (KeyStep {
            next: TuiView {
                active_tab: s.active_tab,
                raw_scroll: if s.raw_scroll == u16::MAX {
                    u16::MAX
                } else {
                    (s.raw_scroll + 1) as u16
                },
            },
            quit: false,
        }),
        key.code == KeyCode::Up || key.code == KeyCode::Char('k') ==> key_step(s, key) == (KeyStep {
            next: TuiView {
                active_tab: s.active_tab,
                raw_scroll: if s.raw_scroll == 0 {
                    0
                } else {
                    (s.raw_scroll - 1) as u16
                },
            },
            quit: false,
        }),
        key.code == KeyCode::Char('d') && key.control ==> key_step(s, key) == (KeyStep {
            next: TuiView {
                active_tab: s.active_tab,
                raw_scroll: if s.raw_scroll + 10 > u16::MAX {
                    u16::MAX
                } else {
                    (s.raw_scroll + 10) as u16
                },
            },
            quit: false,
        }),
        key.code == KeyCode::Char('u') && key.control ==> key_step(s, key) == (KeyStep {
            next: TuiView {
                active_tab: s.active_tab,
                raw_scroll: if s.raw_scroll < 10 {
                    0
                } else {
                    (s.raw_scroll - 10) as u16
                },
            },
            quit: false,
        }),
        key.code == KeyCode::Home ==> key_step(s, key) == (KeyStep {
            next: TuiView { active_tab: s.active_tab, raw_scroll: 0 },
            quit: false,
        }),
        (key.code == KeyCode::Char('d') || key.code == KeyCode::Char('u')) && !key.control
            ==> key_step(s, key) == (KeyStep { next: s, quit: false }),
{
}

} // verus!
