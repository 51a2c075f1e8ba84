use terminal_prompt::discovery::{choose_stream, check_console_streams, ProbeReport, StreamChoice};
use terminal_prompt::{check_ret, Error};

fn report(
    stderr_is_tty: bool,
    stdin_is_tty: bool,
    stdout_is_tty: bool,
    device_opens: bool,
    device_is_tty: bool,
) -> ProbeReport {
    ProbeReport { stderr_is_tty, stdin_is_tty, stdout_is_tty, device_opens, device_is_tty }
}

#[test]
fn stderr_is_probed_first() {
    let p = report(true, true, true, true, true);
    assert_eq!(choose_stream(&p), Ok(StreamChoice::Stderr));
}

#[test]
fn stdin_is_probed_second() {
    let p = report(false, true, true, true, true);
    assert_eq!(choose_stream(&p), Ok(StreamChoice::Stdin));
}

#[test]
fn stdout_is_probed_third() {
    let p = report(false, false, true, true, true);
    assert_eq!(choose_stream(&p), Ok(StreamChoice::Stdout));
}

#[test]
fn device_is_the_fallback() {
    let p = report(false, false, false, true, true);
    assert_eq!(choose_stream(&p), Ok(StreamChoice::Device));
}

#[test]
fn discovery_fails_when_nothing_qualifies() {
    let unavailable = report(false, false, false, false, false);
    assert_eq!(choose_stream(&unavailable), Err(Error::NoTerminal));

    let opened_but_not_a_terminal = report(false, false, false, true, false);
    assert_eq!(choose_stream(&opened_but_not_a_terminal), Err(Error::NoTerminal));
}

#[test]
fn console_discovery_needs_both_streams() {
    assert_eq!(check_console_streams(true, true), Ok(()));
    assert_eq!(check_console_streams(false, true), Err(Error::NoTerminal));
    assert_eq!(check_console_streams(true, false), Err(Error::NoTerminal));
    assert_eq!(check_console_streams(false, false), Err(Error::NoTerminal));
}

#[test]
fn check_ret_maps_return_codes() {
    assert_eq!(check_ret(0, 25), Ok(()));
    assert_eq!(check_ret(-1, 25), Err(Error::Os(25)));
    assert_eq!(check_ret(1, 9), Err(Error::Os(9)));
}
