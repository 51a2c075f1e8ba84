use terminal_prompt::mode::TerminalMode;
use terminal_prompt::session::Terminal;
use terminal_prompt::sim::SimTerminal;
use terminal_prompt::Error;

fn open_sim(line_editing: bool, echo: bool, input: &[u8]) -> Terminal<SimTerminal> {
    let device = SimTerminal::new(TerminalMode::new(line_editing, echo), input.to_vec());
    Terminal::open(device).unwrap()
}

#[test]
fn open_enables_line_editing_and_keeps_echo_on() {
    let t = open_sim(false, true, b"");
    assert!(t.is_echo_enabled());
    assert!(t.current_mode().is_line_editing_enabled());
}

#[test]
fn open_enables_line_editing_and_keeps_echo_off() {
    let t = open_sim(false, false, b"");
    assert!(!t.is_echo_enabled());
    assert!(t.current_mode().is_line_editing_enabled());
}

#[test]
fn read_line_strips_exactly_one_terminator() {
    let mut t = open_sim(true, true, b"abc\n");
    assert_eq!(t.read_input_line().unwrap(), "abc");
}

#[test]
fn read_line_without_terminator_is_unchanged() {
    let mut t = open_sim(true, true, b"abc");
    assert_eq!(t.read_input_line().unwrap(), "abc");
}

#[test]
fn read_line_keeps_interior_and_double_terminators() {
    let mut t = open_sim(true, true, b"a\n\nb\n");
    assert_eq!(t.read_input_line().unwrap(), "a");
    assert_eq!(t.read_input_line().unwrap(), "");
    assert_eq!(t.read_input_line().unwrap(), "b");
    assert_eq!(t.read_input_line().unwrap(), "");
}

#[test]
fn read_line_at_end_of_input_is_empty() {
    let mut t = open_sim(true, true, b"");
    assert_eq!(t.read_input_line().unwrap(), "");
}

#[test]
fn read_line_with_echo_off_advances_the_cursor() {
    let mut t = open_sim(true, false, b"abc\n");
    assert_eq!(t.read_input_line().unwrap(), "abc");
    let device = t.close();
    assert_eq!(device.output_bytes().as_slice(), b"\n");
}

#[test]
fn read_line_with_echo_on_writes_nothing() {
    let mut t = open_sim(true, true, b"abc\n");
    assert_eq!(t.read_input_line().unwrap(), "abc");
    let device = t.close();
    assert_eq!(device.output_bytes().as_slice(), b"");
}

#[test]
fn read_line_decodes_multibyte_input() {
    let mut t = open_sim(true, true, "héllo\n".as_bytes());
    assert_eq!(t.read_input_line().unwrap(), "héllo");
}

#[test]
fn read_line_rejects_invalid_utf8() {
    let mut t = open_sim(true, true, &[0xff, 0xfe, b'\n']);
    assert_eq!(t.read_input_line(), Err(Error::InvalidUtf8));
}

#[test]
fn prompt_writes_text_and_returns_the_line() {
    let mut t = open_sim(true, true, b"alice\n");
    assert_eq!(t.prompt("Username: ").unwrap(), "alice");
    assert!(t.is_echo_enabled());
    let device = t.close();
    assert_eq!(device.output_bytes().as_slice(), b"Username: ");
}

#[test]
fn prompt_sensitive_round_trip_restores_echo() {
    let mut t = open_sim(true, true, b"secret\n");
    let before = t.is_echo_enabled();
    assert_eq!(t.prompt_sensitive("Password: ").unwrap(), "secret");
    assert_eq!(t.is_echo_enabled(), before);
    assert!(before);
}

#[test]
fn prompt_sensitive_leaves_disabled_echo_disabled() {
    let mut t = open_sim(true, false, b"secret\n");
    assert_eq!(t.prompt_sensitive("Password: ").unwrap(), "secret");
    assert!(!t.is_echo_enabled());
}

#[test]
fn end_to_end_username_then_password() {
    let device = SimTerminal::new(TerminalMode::new(false, true), b"alice\ns3cret\n".to_vec());
    let mut t = Terminal::open(device).unwrap();

    assert_eq!(t.prompt("Username: ").unwrap(), "alice");
    assert!(t.is_echo_enabled());

    assert_eq!(t.prompt_sensitive("Password: ").unwrap(), "s3cret");
    assert!(t.is_echo_enabled());

    let device = t.close();
    // The secret is never echoed; one line feed marks the end of its entry.
    assert_eq!(device.output_bytes().as_slice(), b"Username: Password: \n");
}

#[test]
fn teardown_restores_the_mode_observed_at_open() {
    let initial = TerminalMode::new(false, true);
    let device = SimTerminal::new(initial, Vec::new());
    let mut t = Terminal::open(device).unwrap();
    assert_eq!(t.initial_mode(), initial);

    t.disable_echo().unwrap();
    t.enable_echo().unwrap();
    t.disable_echo().unwrap();
    assert!(!t.is_echo_enabled());

    let device = t.close();
    assert_eq!(device.current_mode(), initial);
}

#[test]
fn echo_toggles_update_the_session_state() {
    let mut t = open_sim(true, true, b"");
    t.disable_echo().unwrap();
    assert!(!t.is_echo_enabled());
    t.enable_echo().unwrap();
    assert!(t.is_echo_enabled());
}

#[test]
fn raw_passthroughs_reach_the_device() {
    let mut t = open_sim(true, true, b"xy");
    assert_eq!(t.read_byte().unwrap(), Some(b'x'));
    assert_eq!(t.read_byte().unwrap(), Some(b'y'));
    assert_eq!(t.read_byte().unwrap(), None);
    t.write_bytes(b"ok").unwrap();
    let device = t.close();
    assert_eq!(device.output_bytes().as_slice(), b"ok");
    assert_eq!(device.remaining_input().len(), 0);
}
