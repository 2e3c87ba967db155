use hc12_at::query::{
    is_ok_response, ok_query, ok_response, reset_settings_command, revision_query, sleep_command,
    update_command,
};
use hc12_at::config::TransmissionPower;

#[test]
fn power_query_is_independent_of_state() {
    // The query takes no parameter state at all; whatever buffer it is
    // handed, the output is the fixed 7-byte string.
    let mut buffer = [0u8; 7];
    TransmissionPower::make_query(&mut buffer);
    assert_eq!(b"AT+RP\r\n", &buffer);

    let mut dirty = [0xFFu8; 7];
    TransmissionPower::make_query(&mut dirty);
    assert_eq!(buffer, dirty);
}

#[test]
fn fixed_command_strings() {
    assert_eq!(b"AT\r\n", &ok_query());
    assert_eq!(b"Ok\r\n", &ok_response());
    assert_eq!(b"AT+V\r\n", &revision_query());
    assert_eq!(b"AT+SLEEP\r\n", &sleep_command());
    assert_eq!(b"AT+DEFAULT\r\n", &reset_settings_command());
    assert_eq!(b"AT+UPDATE\r\n", &update_command());
}

#[test]
fn ok_response_matching_is_exact() {
    assert!(is_ok_response(b"Ok\r\n"));
    assert!(!is_ok_response(b"OK\r\n"));
    assert!(!is_ok_response(b"Ok\r"));
    assert!(!is_ok_response(b"Ok\r\n\r\n"));
    assert!(!is_ok_response(b""));
    assert!(!is_ok_response(b"ok\r\n"));
}
