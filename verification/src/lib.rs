//! Verified core of a protocol interception and relay engine.
//!
//! The crate covers the decision logic of four cooperating components:
//! an interception policy dispatcher for websocket connections, an SMTP
//! greeting state machine, a SOCKS5 UDP datagram decapsulator with
//! control-channel liveness tracking, and an HTTP forward writer with
//! expiry enforcement.  Transport I/O stays outside; every function here
//! works on plain values and carries a contract.

mod forward;
mod greeting;
mod headers;
mod host;
mod serve;
mod smtp_reply;
mod socks_udp;
mod stats;
mod websocket;

pub use forward::{
    ForwardWriteError, HttpForwardTaskRemoteWrapperStats, HttpProxyClientRequest,
    HttpsPeerHttpForwardWriter, HttpsPeerHttpRequestWriter, ProxyFloatHttpsPeerSharedConfig,
};
pub use greeting::{lemma_total_monotonic, should_flush_after, Greeting, GreetingError, GreetingStep};
pub use headers::{
    header_name_to_bytes, parse_header_name, HeaderMapFull, HttpHeaderMap, HttpHeaderValue,
    InvalidName, HMAP_SAFE_ENTRIES, MAX_HEADER_NAME_LEN,
};
pub use host::{parse_smtp_host_address, Host, HostSpec, UpstreamAddr};
pub use serve::ServerTaskError;
pub use smtp_reply::{
    upstream_service_not_ready, ResponseLineError, ResponseParser, MAX_LINE_SIZE, NO_SERVICE,
    SERVICE_READY,
};
pub use socks_udp::{
    lemma_liveness_after_traffic, lemma_liveness_before_traffic, CtlProbe, CtlVerdict,
    ProxySocks5UdpConnectRemoteRecv, UdpCopyRemoteError, UdpPacketMeta, MAX_UDP_HDR_LEN,
};
pub use stats::{emit_stats, BackendSnapshot, BackendStats};
pub use websocket::{
    client_close_frame, finish_block, server_close_frame, DetourProtocol, H1WebsocketIo,
    H1WebsocketInterceptObject, InterceptRouting, ProtocolInspectPolicy, StreamDetourContext,
    StreamInspectContext, WebSocketContext, CLOSE_GOING_AWAY,
};
