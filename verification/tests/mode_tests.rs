use terminal_prompt::mode::TerminalMode;

#[test]
fn enable_echo_overrides_any_prior_state() {
    for line_editing in [false, true] {
        for echo in [false, true] {
            let mut m = TerminalMode::new(line_editing, echo);
            m.enable_echo();
            assert!(m.is_echo_enabled());
        }
    }
}

#[test]
fn disable_echo_overrides_any_prior_state() {
    for line_editing in [false, true] {
        for echo in [false, true] {
            let mut m = TerminalMode::new(line_editing, echo);
            m.disable_echo();
            assert!(!m.is_echo_enabled());
        }
    }
}

#[test]
fn enable_line_editing_never_changes_echo() {
    for line_editing in [false, true] {
        for echo in [false, true] {
            let mut m = TerminalMode::new(line_editing, echo);
            m.enable_line_editing();
            assert_eq!(m.is_echo_enabled(), echo);
            assert!(m.is_line_editing_enabled());
        }
    }
}

#[test]
fn echo_toggles_never_change_line_editing() {
    for line_editing in [false, true] {
        for echo in [false, true] {
            let mut m = TerminalMode::new(line_editing, echo);
            m.enable_echo();
            assert_eq!(m.is_line_editing_enabled(), line_editing);
            m.disable_echo();
            assert_eq!(m.is_line_editing_enabled(), line_editing);
        }
    }
}

#[test]
fn mode_snapshots_are_value_copies() {
    let m = TerminalMode::new(true, true);
    let mut n = m;
    n.disable_echo();
    assert!(m.is_echo_enabled());
    assert!(!n.is_echo_enabled());
}
