use relay_core::{
    parse_smtp_host_address, should_flush_after, upstream_service_not_ready, Greeting,
    GreetingError, GreetingStep, Host, ResponseLineError, ServerTaskError, MAX_LINE_SIZE,
    NO_SERVICE, SERVICE_READY,
};

fn domain(host: &Host) -> Vec<u8> {
    match host {
        Host::Domain(d) => d.clone(),
        Host::Ip4(a, b, c, d) => panic!("expected a domain, got {}.{}.{}.{}", a, b, c, d),
    }
}

#[test]
fn greeting_host_extraction() {
    let mut g = Greeting::new();
    let r = g.feed_line(b"220 mail.example.com ESMTP ready\r\n");
    assert!(r.is_ok());
    let step = g.dispatch_reply().expect("service-ready line must dispatch");
    assert_eq!(step, GreetingStep::Finished);
    let (code, host) = g.into_parts();
    assert_eq!(code, SERVICE_READY);
    assert_eq!(domain(&host), b"mail.example.com".to_vec());
}

#[test]
fn greeting_empty_host() {
    let mut g = Greeting::new();
    let r = g.feed_line(b"220 \r\n");
    assert!(r.is_ok());
    let e = g.dispatch_reply().expect_err("an empty host token must fail");
    assert!(matches!(e, GreetingError::NoHostField));
}

#[test]
fn greeting_multiline_keeps_first_host() {
    let mut g = Greeting::new();
    assert!(g.feed_line(b"220-mail.example.com greets you\r\n").is_ok());
    assert_eq!(g.dispatch_reply().unwrap(), GreetingStep::Continue);
    assert!(g.feed_line(b"220 other.example.org final\r\n").is_ok());
    assert_eq!(g.dispatch_reply().unwrap(), GreetingStep::Finished);
    let (_, host) = g.into_parts();
    assert_eq!(domain(&host), b"mail.example.com".to_vec());
}

#[test]
fn greeting_code_mismatch() {
    let mut g = Greeting::new();
    assert!(g.feed_line(b"220-hello\r\n").is_ok());
    let e = g.feed_line(b"250 other\r\n").expect_err("changed code must fail");
    assert!(matches!(
        e,
        GreetingError::InvalidResponseLine(ResponseLineError::CodeMismatch)
    ));
}

#[test]
fn greeting_unexpected_code() {
    let mut g = Greeting::new();
    assert!(g.feed_line(b"354 go ahead\r\n").is_ok());
    let e = g.dispatch_reply().expect_err("code 354 is not a greeting");
    assert!(matches!(e, GreetingError::UnexpectedReplyCode(354)));
}

#[test]
fn greeting_no_service_passthrough() {
    let mut g = Greeting::new();
    assert!(g.feed_line(b"554 no service for you\r\n").is_ok());
    assert_eq!(g.dispatch_reply().unwrap(), GreetingStep::Finished);
    let (code, host) = g.into_parts();
    assert_eq!(code, NO_SERVICE);
    assert_eq!(domain(&host), b"".to_vec());
}

#[test]
fn greeting_line_too_long() {
    let mut g = Greeting::new();
    let mut line = vec![b'2'; MAX_LINE_SIZE + 1];
    line.push(b'\n');
    let e = g.feed_line(&line).expect_err("an oversized line must fail");
    assert!(matches!(e, GreetingError::TooLongResponseLine));
}

#[test]
fn greeting_malformed_lines() {
    let mut g = Greeting::new();
    assert!(matches!(
        g.feed_line(b"2x0 hi\r\n"),
        Err(GreetingError::InvalidResponseLine(ResponseLineError::InvalidCode))
    ));
    assert!(matches!(
        g.feed_line(b"220~hi\r\n"),
        Err(GreetingError::InvalidResponseLine(ResponseLineError::InvalidDelimiter))
    ));
    assert!(matches!(
        g.feed_line(b"22\r\n"),
        Err(GreetingError::InvalidResponseLine(ResponseLineError::TooShort))
    ));
    assert!(matches!(
        g.feed_line(b"220 no newline"),
        Err(GreetingError::InvalidResponseLine(ResponseLineError::MissingLineEnd))
    ));
}

#[test]
fn greeting_bare_code_line() {
    let mut g = Greeting::new();
    assert!(g.feed_line(b"554\r\n").is_ok());
    assert_eq!(g.dispatch_reply().unwrap(), GreetingStep::Finished);
}

#[test]
fn greeting_ipv4_literal_host() {
    let mut g = Greeting::new();
    assert!(g.feed_line(b"220 [192.168.0.1] ready\r\n").is_ok());
    assert_eq!(g.dispatch_reply().unwrap(), GreetingStep::Finished);
    let (_, host) = g.into_parts();
    assert!(matches!(host, Host::Ip4(192, 168, 0, 1)));
}

#[test]
fn greeting_bad_host_literals() {
    for bad in [
        &b"220 [1.2.3] x\r\n"[..],
        b"220 [1.2.3.4.5] x\r\n",
        b"220 [256.1.1.1] x\r\n",
        b"220 [01.2.3.4] x\r\n",
        b"220 !!bad!! x\r\n",
    ] {
        let mut g = Greeting::new();
        assert!(g.feed_line(bad).is_ok());
        let e = g.dispatch_reply().expect_err("host token must be refused");
        assert!(matches!(e, GreetingError::UnsupportedHostFormat));
    }
}

#[test]
fn fallback_synthesis_before_traffic() {
    let g = Greeting::new();
    let r = g.reply_no_service(&GreetingError::Timeout, "10.0.0.1");
    assert_eq!(
        r.as_deref(),
        Some("554 10.0.0.1 upstream service not ready: read timeout\r\n")
    );
    let r = g.reply_no_service(&GreetingError::UpstreamClosed, "10.0.0.1");
    assert_eq!(
        r.as_deref(),
        Some("554 10.0.0.1 upstream service not ready: connection closed\r\n")
    );
}

#[test]
fn fallback_suppressed_after_traffic() {
    let mut g = Greeting::new();
    assert!(g.feed_line(b"220-hello\r\n").is_ok());
    let r = g.reply_no_service(&GreetingError::Timeout, "10.0.0.1");
    assert!(r.is_none());
}

#[test]
fn fallback_suppressed_without_reason() {
    let g = Greeting::new();
    assert!(g.reply_no_service(&GreetingError::NoHostField, "10.0.0.1").is_none());
    assert!(g
        .reply_no_service(&GreetingError::ClientWriteFailed(String::from("broken pipe")), "10.0.0.1")
        .is_none());
}

#[test]
fn no_service_encoder_shape() {
    let s = upstream_service_not_ready("192.0.2.7", "read failed");
    assert_eq!(s, "554 192.0.2.7 upstream service not ready: read failed\r\n");
}

#[test]
fn flush_decision() {
    assert!(!should_flush_after(&GreetingError::ClientWriteFailed(String::from("gone"))));
    assert!(should_flush_after(&GreetingError::Timeout));
    assert!(should_flush_after(&GreetingError::UpstreamClosed));
}

#[test]
fn task_error_conversion() {
    assert!(matches!(
        ServerTaskError::from(GreetingError::Timeout),
        ServerTaskError::UpstreamAppTimeout("smtp greeting timeout")
    ));
    assert!(matches!(
        ServerTaskError::from(GreetingError::UpstreamClosed),
        ServerTaskError::ClosedByUpstream
    ));
    match ServerTaskError::from(GreetingError::ClientWriteFailed(String::from("io"))) {
        ServerTaskError::ClientTcpWriteFailed(m) => assert_eq!(m, "io"),
        _ => panic!("wrong conversion"),
    }
    match ServerTaskError::from(GreetingError::UpstreamReadFailed(String::from("eof"))) {
        ServerTaskError::UpstreamReadFailed(m) => assert_eq!(m, "eof"),
        _ => panic!("wrong conversion"),
    }
    assert!(matches!(
        ServerTaskError::from(GreetingError::NoHostField),
        ServerTaskError::UpstreamAppError("no host found in smtp greeting message")
    ));
}

#[test]
fn response_parser_direct() {
    let mut p = relay_core::ResponseParser::new();
    let msg = p.feed_line(b"250-first\r\n").unwrap();
    assert_eq!(msg, b"first");
    assert_eq!(p.code(), 250);
    assert!(!p.finished());
    let msg = p.feed_line(b"250 done\r\n").unwrap();
    assert_eq!(msg, b"done");
    assert!(p.finished());
    // feeding after a finished reply opens a new one
    let msg = p.feed_line(b"220 again\r\n").unwrap();
    assert_eq!(msg, b"again");
    assert_eq!(p.code(), 220);
}

#[test]
fn host_address_parsing() {
    match parse_smtp_host_address(b"mail.example.com") {
        Some(Host::Domain(d)) => assert_eq!(d, b"mail.example.com".to_vec()),
        other => panic!("expected a domain, got {:?}", other),
    }
    assert!(matches!(
        parse_smtp_host_address(b"[10.0.0.255]"),
        Some(Host::Ip4(10, 0, 0, 255))
    ));
    assert!(parse_smtp_host_address(b"").is_none());
    assert!(parse_smtp_host_address(b".dot.first").is_none());
    assert!(parse_smtp_host_address(b"dot.last.").is_none());
    assert!(parse_smtp_host_address(b"two..dots").is_none());
    assert!(parse_smtp_host_address(b"spa ce").is_none());
    assert!(parse_smtp_host_address(b"[300.1.1.1]").is_none());
}
