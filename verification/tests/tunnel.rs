use crane_game::tunnel::{
    accept_server_key, channel_step, connection_url, is_white_space_char, login_outcome, scan_url, ChannelAction,
    ChannelEvent, ChannelStep, LoginMethod, UrlScan,
};

#[test]
fn white_space_is_unicode_white_space() {
    for c in (0u32..=0x10ffff).filter_map(char::from_u32) {
        assert_eq!(is_white_space_char(c), c.is_whitespace(), "{:x}", c as u32);
    }
}

#[test]
fn url_runs_to_the_next_white_space() {
    match scan_url("Forwarding HTTP traffic from https://abc.example.dev\r\n") {
        UrlScan::Found(url) => assert_eq!(url, "https://abc.example.dev"),
        _ => panic!("no url"),
    }
    match scan_url("http://a https://é.example\u{3000}rest https://b ") {
        UrlScan::Found(url) => assert_eq!(url, "https://é.example"),
        _ => panic!("no url"),
    }
    assert!(matches!(scan_url("nothing here http://x "), UrlScan::Absent));
    assert!(matches!(scan_url("https:/"), UrlScan::Absent));
    assert!(matches!(scan_url("see https://x.example"), UrlScan::Unterminated));
}

#[test]
fn invalid_bytes_are_replaced_before_scanning() {
    match connection_url(b"\xff https://a.b\xffc d") {
        UrlScan::Found(url) => assert_eq!(url, "https://a.b\u{fffd}c"),
        _ => panic!("no url"),
    }
}

#[test]
fn server_keys_are_checked_against_the_fingerprint() {
    let presented = "SHA256:abc".to_string();
    assert!(accept_server_key(&None, &presented));
    assert!(accept_server_key(&Some("SHA256:abc".to_string()), &presented));
    assert!(!accept_server_key(&Some("SHA256:abd".to_string()), &presented));
}

#[test]
fn failed_logins_are_errors() {
    assert!(login_outcome(LoginMethod::Password, true).is_ok());
    assert_eq!(login_outcome(LoginMethod::Password, false).unwrap_err(), "Password authentication failed.");
    assert_eq!(login_outcome(LoginMethod::Key, false).unwrap_err(), "Key authentication failed.");
}

#[test]
fn channel_messages() {
    match channel_step(ChannelEvent::Data(b"go to https://x.y/z now".to_vec())) {
        ChannelStep::Continue(actions) => {
            assert_eq!(actions.len(), 1);
            assert!(matches!(&actions[0], ChannelAction::AnnounceUrl(u) if u == "https://x.y/z"));
        },
        _ => panic!("expected to continue"),
    }
    assert!(matches!(channel_step(ChannelEvent::Data(b"banner".to_vec())), ChannelStep::Continue(a) if a.is_empty()));
    assert!(matches!(channel_step(ChannelEvent::Data(b"https://x".to_vec())), ChannelStep::UnterminatedUrl));
    let stderr = ChannelEvent::ExtendedData { data: b"e".to_vec(), ext: 1, description: String::new() };
    assert!(matches!(channel_step(stderr), ChannelStep::Continue(a) if a.is_empty()));
    let odd = ChannelEvent::ExtendedData { data: vec![], ext: 2, description: "ExtendedData { ext: 2 }".to_string() };
    assert!(matches!(channel_step(odd), ChannelStep::Fail(m) if m == "Unknown message type ExtendedData { ext: 2 }."));
    assert!(matches!(channel_step(ChannelEvent::Success), ChannelStep::Continue(a) if a.is_empty()));
    assert!(matches!(channel_step(ChannelEvent::Close), ChannelStep::Exit { code: 0, send_eof: false }));
    assert!(matches!(channel_step(ChannelEvent::ExitStatus(7)), ChannelStep::Exit { code: 7, send_eof: true }));
    assert!(matches!(channel_step(ChannelEvent::Other("Eof".to_string())), ChannelStep::Fail(m) if m == "Unknown message type Eof."));
    assert!(matches!(channel_step(ChannelEvent::Ended), ChannelStep::Fail(m) if m == "Unexpected end of channel."));
}
