use file_server::lifecycle::{choose_listener, on_signal, Directive, Listener, Phase, Signal};
use file_server::tls::InvalidMaterial;

const CERT: &[u8] = b"-----BEGIN CERTIFICATE-----\nAQID\n-----END CERTIFICATE-----\n";

/// The base64 digit for a value below 64.
fn digit_of(value: u8) -> char {
    let code = match value {
        0..=25 => b'A' + value,
        26..=51 => b'a' + (value - 26),
        52..=61 => b'0' + (value - 52),
        62 => b'+',
        _ => b'/',
    };
    code as char
}

/// The bytes in base64, padded.
fn encode(data: &[u8]) -> String {
    let mut text = String::new();
    for group in data.chunks(3) {
        let b0 = group[0];
        let b1 = if group.len() > 1 { group[1] } else { 0 };
        let b2 = if group.len() > 2 { group[2] } else { 0 };
        text.push(digit_of(b0 >> 2));
        text.push(digit_of(((b0 & 0x03) << 4) | (b1 >> 4)));
        text.push(if group.len() > 1 { digit_of(((b1 & 0x0f) << 2) | (b2 >> 6)) } else { '=' });
        text.push(if group.len() > 2 { digit_of(b2 & 0x3f) } else { '=' });
    }
    text
}

/// A PEM section with the given label around the bytes.
fn pem_section(label: &str, der: &[u8]) -> String {
    format!("-----BEGIN {0}-----\n{1}\n-----END {0}-----\n", label, encode(der))
}

/// An Ed25519 key in PKCS#8: the fixed header and a seed of 32 bytes.
fn usable_key() -> Vec<u8> {
    let mut der = vec![
        0x30, 0x2e, 0x02, 0x01, 0x00, 0x30, 0x05, 0x06, 0x03, 0x2b, 0x65, 0x70, 0x04, 0x22, 0x04,
        0x20,
    ];
    der.extend(0u8..32);
    pem_section("PRIVATE KEY", &der).into_bytes()
}

/// A PKCS#8 section whose bytes are no key.
fn unusable_key() -> Vec<u8> {
    pem_section("PRIVATE KEY", &[10, 11, 12]).into_bytes()
}

#[test]
fn daemon_starts_and_listens() {
    assert_eq!(on_signal(Phase::Starting, Signal::Bound), (Phase::Listening, Directive::Serve));
    assert_eq!(on_signal(Phase::Starting, Signal::BindFailed), (Phase::Stopped, Directive::Fail));
    assert_eq!(
        on_signal(Phase::Starting, Signal::ShutdownRequested),
        (Phase::Stopped, Directive::Exit)
    );
}

#[test]
fn shutdown_trigger_stops_listening() {
    assert_eq!(
        on_signal(Phase::Listening, Signal::ShutdownRequested),
        (Phase::ShuttingDown, Directive::Halt)
    );
    assert_eq!(
        on_signal(Phase::ShuttingDown, Signal::ListenersStopped),
        (Phase::Stopped, Directive::Exit)
    );
}

#[test]
fn stopped_listeners_stop_the_daemon() {
    assert_eq!(
        on_signal(Phase::Listening, Signal::ListenersStopped),
        (Phase::Stopped, Directive::Exit)
    );
}

#[test]
fn shutdown_trigger_counts_once() {
    assert_eq!(
        on_signal(Phase::ShuttingDown, Signal::ShutdownRequested),
        (Phase::ShuttingDown, Directive::Carry)
    );
}

#[test]
fn stopped_stays_stopped() {
    for signal in [
        Signal::Bound,
        Signal::BindFailed,
        Signal::ShutdownRequested,
        Signal::ListenersStopped,
    ] {
        assert_eq!(on_signal(Phase::Stopped, signal), (Phase::Stopped, Directive::Exit));
    }
}

#[test]
fn signals_out_of_place_change_nothing() {
    assert_eq!(on_signal(Phase::Listening, Signal::Bound), (Phase::Listening, Directive::Carry));
    assert_eq!(
        on_signal(Phase::Starting, Signal::ListenersStopped),
        (Phase::Starting, Directive::Carry)
    );
    assert_eq!(
        on_signal(Phase::ShuttingDown, Signal::BindFailed),
        (Phase::ShuttingDown, Directive::Carry)
    );
}

#[test]
fn listener_is_plain_without_both_files() {
    let key = usable_key();
    assert!(matches!(choose_listener(None, None), Ok(Listener::Plain)));
    assert!(matches!(choose_listener(Some(CERT), None), Ok(Listener::Plain)));
    assert!(matches!(choose_listener(None, Some(&key)), Ok(Listener::Plain)));
}

#[test]
fn listener_is_tls_with_valid_material() {
    let key = usable_key();
    assert!(matches!(choose_listener(Some(CERT), Some(&key)), Ok(Listener::Tls(_))));
}

#[test]
fn invalid_material_does_not_fall_back_to_plain() {
    let key = usable_key();
    assert_eq!(choose_listener(Some(CERT), Some(CERT)).err(), Some(InvalidMaterial));
    assert_eq!(choose_listener(Some(&key), Some(&key)).err(), Some(InvalidMaterial));
    assert_eq!(choose_listener(Some(b""), Some(b"")).err(), Some(InvalidMaterial));
}

#[test]
fn unusable_key_does_not_fall_back_to_plain() {
    let key = unusable_key();
    assert_eq!(choose_listener(Some(CERT), Some(&key)).err(), Some(InvalidMaterial));
}

#[test]
fn sections_are_encoded_as_expected() {
    assert_eq!(encode(&[1, 2, 3]), "AQID");
    assert_eq!(encode(&[10, 11, 12]), "CgsM");
    assert_eq!(encode(&[255]), "/w==");
    assert_eq!(encode(&[255, 254]), "//4=");
    assert_eq!(encode(&[]), "");
    assert_eq!(
        pem_section("CERTIFICATE", &[1, 2, 3]).into_bytes(),
        CERT.to_vec()
    );
}
