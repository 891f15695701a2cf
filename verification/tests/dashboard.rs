use why::{KeyCode, KeyEvent, KeyKind, TuiState, TAB_COUNT};

fn press(code: KeyCode) -> KeyEvent {
    KeyEvent { code, control: false, kind: KeyKind::Press }
}

fn ctrl(c: char) -> KeyEvent {
    KeyEvent { code: KeyCode::Char(c), control: true, kind: KeyKind::Press }
}

#[test]
fn opens_on_overview() {
    let s = TuiState::new();
    assert_eq!(s.active_tab(), 0);
    assert_eq!(s.raw_scroll(), 0);
}

#[test]
fn tabs_wrap_both_ways() {
    let mut s = TuiState::new();
    assert!(!s.handle_key(press(KeyCode::BackTab)));
    assert_eq!(s.active_tab(), TAB_COUNT - 1);
    assert!(!s.handle_key(press(KeyCode::Tab)));
    assert_eq!(s.active_tab(), 0);
    for expected in [1, 2, 0] {
        s.handle_key(press(KeyCode::Right));
        assert_eq!(s.active_tab(), expected);
    }
    s.handle_key(press(KeyCode::Char('l')));
    assert_eq!(s.active_tab(), 1);
    s.handle_key(press(KeyCode::Char('h')));
    s.handle_key(press(KeyCode::Left));
    assert_eq!(s.active_tab(), 2);
}

#[test]
fn back_undoes_forward() {
    for start in 0..TAB_COUNT {
        let mut s = TuiState::new();
        for _ in 0..start {
            s.handle_key(press(KeyCode::Tab));
        }
        s.handle_key(press(KeyCode::Tab));
        s.handle_key(press(KeyCode::BackTab));
        assert_eq!(s.active_tab(), start);
    }
}

#[test]
fn quit_keys() {
    for code in [KeyCode::Char('q'), KeyCode::Esc, KeyCode::Enter] {
        let mut s = TuiState::new();
        s.handle_key(press(KeyCode::Tab));
        assert!(s.handle_key(press(code)));
        assert_eq!(s.active_tab(), 1);
    }
    let mut s = TuiState::new();
    assert!(!s.handle_key(press(KeyCode::Char('x'))));
    assert!(!s.handle_key(KeyEvent { code: KeyCode::Char('q'), control: false, kind: KeyKind::Release }));
    assert!(s.handle_key(KeyEvent { code: KeyCode::Char('q'), control: false, kind: KeyKind::Repeat }));
}

#[test]
fn released_keys_do_nothing() {
    let mut s = TuiState::new();
    s.handle_key(KeyEvent { code: KeyCode::Tab, control: false, kind: KeyKind::Release });
    assert_eq!(s.active_tab(), 0);
}

#[test]
fn scrolling_only_on_raw_trace() {
    let mut s = TuiState::new();
    s.handle_key(press(KeyCode::Down));
    s.handle_key(ctrl('d'));
    assert_eq!(s.raw_scroll(), 0);
    s.handle_key(press(KeyCode::BackTab));
    assert_eq!(s.active_tab(), 2);
    s.handle_key(press(KeyCode::Down));
    s.handle_key(press(KeyCode::Char('j')));
    assert_eq!(s.raw_scroll(), 2);
    s.handle_key(ctrl('d'));
    assert_eq!(s.raw_scroll(), 12);
    s.handle_key(press(KeyCode::Char('k')));
    assert_eq!(s.raw_scroll(), 11);
    s.handle_key(ctrl('u'));
    s.handle_key(ctrl('u'));
    assert_eq!(s.raw_scroll(), 0);
    s.handle_key(press(KeyCode::Up));
    assert_eq!(s.raw_scroll(), 0);
    s.handle_key(press(KeyCode::Char('d')));
    assert_eq!(s.raw_scroll(), 0);
    for _ in 0..5 {
        s.handle_key(press(KeyCode::Down));
    }
    s.handle_key(press(KeyCode::Home));
    assert_eq!(s.raw_scroll(), 0);
    // Leaving the raw trace keeps its scroll.
    s.handle_key(press(KeyCode::Down));
    s.handle_key(press(KeyCode::Tab));
    s.handle_key(press(KeyCode::Home));
    s.handle_key(press(KeyCode::BackTab));
    assert_eq!(s.raw_scroll(), 1);
}

#[test]
fn scrolling_saturates() {
    let mut s = TuiState::new();
    s.handle_key(press(KeyCode::BackTab));
    for _ in 0..6554 {
        s.handle_key(ctrl('d'));
    }
    assert_eq!(s.raw_scroll(), u16::MAX);
    s.handle_key(press(KeyCode::Down));
    assert_eq!(s.raw_scroll(), u16::MAX);
}
