use relay_core::{
    client_close_frame, finish_block, server_close_frame, DetourProtocol,
    H1WebsocketInterceptObject, Host, InterceptRouting, ProtocolInspectPolicy, ServerTaskError,
    StreamInspectContext, UpstreamAddr, WebSocketContext, CLOSE_GOING_AWAY,
};

fn object(
    policy: ProtocolInspectPolicy,
    has_detour_client: bool,
) -> H1WebsocketInterceptObject<i32, i32, i32, i32> {
    let ctx = StreamInspectContext {
        websocket_inspect_policy: policy,
        has_detour_client,
        inspection_depth: 1,
    };
    let upstream = UpstreamAddr { host: Host::Domain(b"ws.example.com".to_vec()), port: 443 };
    let websocket_ctx = WebSocketContext { version: 13, subprotocol: b"chat".to_vec() };
    let mut obj = H1WebsocketInterceptObject::new(ctx, upstream, websocket_ctx);
    obj.set_io(1, 2, 3, 4);
    obj
}

#[test]
fn close_frame_bytes() {
    assert_eq!(server_close_frame(CLOSE_GOING_AWAY), vec![0x88, 0x02, 0x03, 0xE9]);
    assert_eq!(
        client_close_frame(CLOSE_GOING_AWAY),
        vec![0x88, 0x82, 0, 0, 0, 0, 0x03, 0xE9]
    );
}

#[test]
fn block_routing() {
    match object(ProtocolInspectPolicy::Block, false).intercept() {
        InterceptRouting::Block(io) => {
            assert_eq!((io.clt_r, io.clt_w, io.ups_r, io.ups_w), (1, 2, 3, 4));
        }
        _ => panic!("the Block policy must route to the Block branch"),
    }
}

#[test]
fn bypass_and_intercept_route_to_transit() {
    for policy in [ProtocolInspectPolicy::Bypass, ProtocolInspectPolicy::Intercept] {
        match object(policy, true).intercept() {
            InterceptRouting::Transit(io) => {
                assert_eq!((io.clt_r, io.clt_w, io.ups_r, io.ups_w), (1, 2, 3, 4));
            }
            _ => panic!("transparent relay expected"),
        }
    }
}

#[test]
fn detour_routing_with_device() {
    match object(ProtocolInspectPolicy::Detour, true).intercept() {
        InterceptRouting::Detour(io, dctx) => {
            assert_eq!((io.clt_r, io.clt_w, io.ups_r, io.ups_w), (1, 2, 3, 4));
            assert!(matches!(dctx.protocol, DetourProtocol::Websocket));
            assert_eq!(dctx.upstream.port, 443);
            assert_eq!(dctx.payload, vec![0, 13, b'c', b'h', b'a', b't']);
        }
        _ => panic!("a configured detour device must be used"),
    }
}

#[test]
fn detour_without_device_falls_back_to_transit() {
    match object(ProtocolInspectPolicy::Detour, false).intercept() {
        InterceptRouting::Transit(_) => {}
        _ => panic!("no detour device: the connection must be relayed"),
    }
}

#[test]
fn context_serialization() {
    let ctx = WebSocketContext { version: 13, subprotocol: Vec::new() };
    assert_eq!(ctx.serialize(), vec![0, 13]);
    let ctx = WebSocketContext { version: 300, subprotocol: b"x".to_vec() };
    assert_eq!(ctx.serialize(), vec![1, 44, b'x']);
}

#[test]
fn block_always_reports_blocked() {
    for (clt_ok, ups_ok) in [(true, true), (true, false), (false, true), (false, false)] {
        let r = finish_block(clt_ok, ups_ok);
        match r {
            Err(ServerTaskError::InternalAdapterError(m)) => {
                assert_eq!(m, "websocket blocked by inspection policy");
            }
            _ => panic!("the Block branch must always report the administrative block"),
        }
    }
}
