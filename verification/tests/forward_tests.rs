use relay_core::{
    BackendStats, emit_stats, ForwardWriteError, HttpProxyClientRequest,
    HttpsPeerHttpForwardWriter, HttpsPeerHttpRequestWriter, ProxyFloatHttpsPeerSharedConfig,
};

fn config(expire_at: Option<u64>, extra: &[&str]) -> ProxyFloatHttpsPeerSharedConfig {
    ProxyFloatHttpsPeerSharedConfig {
        expire_at,
        append_http_headers: extra.iter().map(|s| s.to_string()).collect(),
    }
}

fn request() -> HttpProxyClientRequest {
    HttpProxyClientRequest {
        method: String::from("GET"),
        uri: String::from("/index.html"),
        header_lines: vec![String::from("host: example.com\r\n")],
    }
}

#[test]
fn expiry_blocks_proxy_form_writer() {
    let w: HttpsPeerHttpForwardWriter<(), u32> =
        HttpsPeerHttpForwardWriter::new((), config(Some(100), &[]), String::from("example.com:443"));
    assert_eq!(w.send_request_header(&request(), 101), Err(ForwardWriteError::Expired));
    assert!(w.send_request_header(&request(), 100).is_ok());
    assert!(w.send_request_header(&request(), 99).is_ok());
}

#[test]
fn expiry_blocks_origin_form_writer() {
    let w: HttpsPeerHttpRequestWriter<(), u32> =
        HttpsPeerHttpRequestWriter::new((), config(Some(7), &[]));
    assert_eq!(w.send_request_header(&request(), 8), Err(ForwardWriteError::Expired));
    assert!(w.send_request_header(&request(), 7).is_ok());
}

#[test]
fn no_expiry_never_blocks() {
    let w: HttpsPeerHttpRequestWriter<(), u32> = HttpsPeerHttpRequestWriter::new((), config(None, &[]));
    assert!(w.send_request_header(&request(), u64::MAX).is_ok());
}

#[test]
fn proxy_form_head_shape() {
    let w: HttpsPeerHttpForwardWriter<(), u32> = HttpsPeerHttpForwardWriter::new(
        (),
        config(None, &["x-forwarded-for: 10.0.0.1\r\n"]),
        String::from("example.com:8080"),
    );
    let head = w.send_request_header(&request(), 0).unwrap();
    assert_eq!(
        head,
        "GET http://example.com:8080/index.html HTTP/1.1\r\n\
         host: example.com\r\n\
         x-forwarded-for: 10.0.0.1\r\n\
         \r\n"
    );
}

#[test]
fn origin_form_head_shape() {
    let w: HttpsPeerHttpRequestWriter<(), u32> = HttpsPeerHttpRequestWriter::new((), config(None, &[]));
    let head = w.send_request_header(&request(), 0).unwrap();
    assert_eq!(head, "GET /index.html HTTP/1.1\r\nhost: example.com\r\n\r\n");
}

#[test]
fn prepare_new_reaims_the_proxy_form_writer() {
    let mut w: HttpsPeerHttpForwardWriter<(), u32> =
        HttpsPeerHttpForwardWriter::new((), config(None, &[]), String::from("a.example:1"));
    w.prepare_new(String::from("b.example:2"));
    let head = w.send_request_header(&request(), 0).unwrap();
    assert!(head.starts_with("GET http://b.example:2/index.html HTTP/1.1\r\n"));
}

#[test]
fn update_stats_replaces_wholesale() {
    let mut w: HttpsPeerHttpForwardWriter<(), u32> =
        HttpsPeerHttpForwardWriter::new((), config(None, &[]), String::from("a:1"));
    assert!(w.wrapper_stats().is_none());
    w.update_stats(11, vec![1, 2]);
    w.update_stats(22, vec![3]);
    let stats = w.wrapper_stats().as_ref().expect("stats installed");
    assert_eq!(stats.task, 22);
    assert_eq!(stats.users, vec![3]);

    let mut w2: HttpsPeerHttpRequestWriter<(), u32> =
        HttpsPeerHttpRequestWriter::new((), config(None, &[]));
    w2.update_stats(5, vec![]);
    w2.update_stats(6, vec![9, 9]);
    let stats = w2.wrapper_stats().as_ref().expect("stats installed");
    assert_eq!(stats.task, 6);
    assert_eq!(stats.users, vec![9, 9]);
}

#[test]
fn backend_counters_emit_and_reset() {
    let mut s = BackendStats::new();
    s.add_refresh_total();
    s.add_refresh_total();
    s.add_refresh_ok();
    s.add_request_total();
    s.add_request_total();
    s.add_request_total();
    s.add_request_ok();
    let snap = emit_stats(&mut s);
    assert_eq!(
        (snap.refresh_total, snap.refresh_ok, snap.request_total, snap.request_ok),
        (2, 1, 3, 1)
    );
    let snap = emit_stats(&mut s);
    assert_eq!(
        (snap.refresh_total, snap.refresh_ok, snap.request_total, snap.request_ok),
        (0, 0, 0, 0)
    );
}

#[test]
fn backend_counters_clamp_to_signed_range() {
    let mut s = BackendStats::with_counts(u64::MAX, i64::MAX as u64, (i64::MAX as u64) + 1, 5);
    let snap = emit_stats(&mut s);
    assert_eq!(snap.refresh_total, i64::MAX);
    assert_eq!(snap.refresh_ok, i64::MAX);
    assert_eq!(snap.request_total, i64::MAX);
    assert_eq!(snap.request_ok, 5);
}

#[test]
fn backend_counters_saturate() {
    let mut s = BackendStats::with_counts(u64::MAX, 0, 0, 0);
    s.add_refresh_total();
    let snap = emit_stats(&mut s);
    assert_eq!(snap.refresh_total, i64::MAX);
}
