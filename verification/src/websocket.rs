use vstd::prelude::*;
use crate::host::UpstreamAddr;
use crate::serve::ServerTaskError;

verus! {

/// How a detected protocol is to be handled, resolved by external
/// configuration before this core runs.
#[derive(Clone, Copy, PartialEq, Eq, Structural, Debug)]
pub enum ProtocolInspectPolicy {
    /// Actively intercept; for websocket this relays transparently.
    Intercept,
    /// Hand the connection to an external inspection device.
    Detour,
    /// Relay transparently, byte for byte.
    Bypass,
    /// Tear the connection down administratively.
    Block,
}

/// The protocol tag a detoured connection is labelled with.
#[derive(Clone, Copy, PartialEq, Eq, Structural, Debug)]
pub enum DetourProtocol {
    Websocket,
}

/// Close status "going away", sent on an administrative block.
pub const CLOSE_GOING_AWAY: u16 = 1001;

/// The close frame sent toward the client, as a server would send it:
/// final close opcode, two-byte payload, the status code big endian.
pub open spec fn server_close_bytes(code: u16) -> Seq<u8> {
    seq![0x88u8, 2u8, (code / 256) as u8, (code % 256) as u8]
}

/// The close frame sent toward the upstream, as a client would send
/// it: the same close frame, masked as the protocol demands of a
/// client, with the all-zero masking key that leaves the payload
/// bytes plain.
pub open spec fn client_close_bytes(code: u16) -> Seq<u8> {
    seq![0x88u8, 0x82u8, 0u8, 0u8, 0u8, 0u8, (code / 256) as u8, (code % 256) as u8]
}

/// Encodes the server-side close frame for a status code.
pub fn server_close_frame(code: u16) -> (r: Vec<u8>)
    ensures
        r@ == server_close_bytes(code),
{
    let mut v: Vec<u8> = Vec::new();
    v.push(0x88);
    v.push(2);
    v.push((code / 256) as u8);
    v.push((code % 256) as u8);
    proof {
        assert(v@ =~= server_close_bytes(code));
    }
    v
}

/// Encodes the client-side close frame for a status code.
pub fn client_close_frame(code: u16) -> (r: Vec<u8>)
    ensures
        r@ == client_close_bytes(code),
{
    let mut v: Vec<u8> = Vec::new();
    v.push(0x88);
    v.push(0x82);
    v.push(0);
    v.push(0);
    v.push(0);
    v.push(0);
    v.push((code / 256) as u8);
    v.push((code % 256) as u8);
    proof {
        assert(v@ =~= client_close_bytes(code));
    }
    v
}

/// Framing parameters recorded while the websocket upgrade was
/// inspected; what a detoured connection's inspector needs to resume.
pub struct WebSocketContext {
    pub version: u16,
    pub subprotocol: Vec<u8>,
}

/// The opaque payload a context serializes into for the detour
/// device: the version big endian, then the subprotocol bytes.
pub open spec fn ws_ctx_bytes(version: u16, subprotocol: Seq<u8>) -> Seq<u8> {
    seq![(version / 256) as u8, (version % 256) as u8] + subprotocol
}

impl WebSocketContext {
    /// Serializes the context into its opaque detour payload.
    pub fn serialize(&self) -> (r: Vec<u8>)
        ensures
            r@ == ws_ctx_bytes(self.version, self.subprotocol@),
    {
        let mut v: Vec<u8> = Vec::new();
        v.push((self.version / 256) as u8);
        v.push((self.version % 256) as u8);
        let mut i: usize = 0;
        while i < self.subprotocol.len()
            invariant
                0 <= i <= self.subprotocol@.len(),
                v@ == seq![
                    ((self.version / 256) as u8),
                    ((self.version % 256) as u8),
                ] + self.subprotocol@.subrange(0, i as int),
            decreases self.subprotocol@.len() - i,
        {
            v.push(self.subprotocol[i]);
            proof {
                assert(self.subprotocol@.subrange(0, i + 1) =~= self.subprotocol@.subrange(
                    0,
                    i as int,
                ).push(self.subprotocol@[i as int]));
            }
            i += 1;
        }
        proof {
            assert(self.subprotocol@.subrange(0, self.subprotocol@.len() as int)
                =~= self.subprotocol@);
            assert(v@ =~= ws_ctx_bytes(self.version, self.subprotocol@));
        }
        v
    }
}

/// What the policy resolver supplies about one accepted connection.
pub struct StreamInspectContext {
    pub websocket_inspect_policy: ProtocolInspectPolicy,
    pub has_detour_client: bool,
    pub inspection_depth: usize,
}

/// The four transport handles of one intercepted connection.
pub struct H1WebsocketIo<CR, CW, UR, UW> {
    pub clt_r: CR,
    pub clt_w: CW,
    pub ups_r: UR,
    pub ups_w: UW,
}

/// What the detour-relay client is handed besides the four transport
/// handles.
pub struct StreamDetourContext {
    pub upstream: UpstreamAddr,
    pub protocol: DetourProtocol,
    pub payload: Vec<u8>,
}

/// The branch the dispatcher routed a connection to, owning the I/O
/// bundle exactly once.
pub enum InterceptRouting<CR, CW, UR, UW> {
    /// Relay transparently (the Bypass and Intercept policies, and
    /// Detour with no device configured).
    Transit(H1WebsocketIo<CR, CW, UR, UW>),
    /// Send close frames both ways and report the administrative
    /// block.
    Block(H1WebsocketIo<CR, CW, UR, UW>),
    /// Hand everything to the external detour-relay client.
    Detour(H1WebsocketIo<CR, CW, UR, UW>, StreamDetourContext),
}

/// A websocket connection picked up after its upgrade was inspected:
/// connection context, resolved upstream, framing context, and the
/// I/O bundle, present until a dispatch branch consumes it.
pub struct H1WebsocketInterceptObject<CR, CW, UR, UW> {
    io: Option<H1WebsocketIo<CR, CW, UR, UW>>,
    pub ctx: StreamInspectContext,
    upstream: UpstreamAddr,
    websocket_ctx: WebSocketContext,
}

impl<CR, CW, UR, UW> H1WebsocketInterceptObject<CR, CW, UR, UW> {
    pub closed spec fn io_spec(&self) -> Option<H1WebsocketIo<CR, CW, UR, UW>> {
        self.io
    }

    pub open spec fn has_io(&self) -> bool {
        self.io_spec() is Some
    }

    pub closed spec fn ctx_spec(&self) -> StreamInspectContext {
        self.ctx
    }

    pub closed spec fn upstream_spec(&self) -> UpstreamAddr {
        self.upstream
    }

    pub closed spec fn websocket_ctx_spec(&self) -> WebSocketContext {
        self.websocket_ctx
    }

    pub fn new(ctx: StreamInspectContext, upstream: UpstreamAddr, websocket_ctx: WebSocketContext)
        -> (r: Self)
        ensures
            !r.has_io(),
            r.ctx_spec() == ctx,
            r.upstream_spec() == upstream,
            r.websocket_ctx_spec() == websocket_ctx,
    {
        H1WebsocketInterceptObject { io: None, ctx, upstream, websocket_ctx }
    }

    /// Installs the connection's transport handles; the bundle must be
    /// consumed exactly once by the dispatch that follows.
    pub fn set_io(&mut self, clt_r: CR, clt_w: CW, ups_r: UR, ups_w: UW)
        ensures
            final(self).io_spec() matches Some(io) && io.clt_r == clt_r && io.clt_w == clt_w
                && io.ups_r == ups_r && io.ups_w == ups_w,
            final(self).ctx_spec() == old(self).ctx_spec(),
            final(self).upstream_spec() == old(self).upstream_spec(),
            final(self).websocket_ctx_spec() == old(self).websocket_ctx_spec(),
    {
        let io = H1WebsocketIo { clt_r, clt_w, ups_r, ups_w };
        self.io = Some(io);
    }

    /// Whether the transport handles are installed and unconsumed.
    pub fn io_is_set(&self) -> (r: bool)
        ensures
            r == self.has_io(),
    {
        self.io.is_some()
    }

    /// Routes the connection by the resolved policy, consuming the
    /// object and surrendering the I/O bundle to exactly one branch:
    /// Block tears down, Bypass and Intercept relay transparently,
    /// Detour goes to the external device when one is configured and
    /// otherwise falls back to the transparent relay.
    pub fn intercept(self) -> (r: InterceptRouting<CR, CW, UR, UW>)
        requires
            self.has_io(),
        ensures
            match r {
                InterceptRouting::Transit(io) => {
                    &&& self.io_spec() == Some(io)
                    &&& (self.ctx_spec().websocket_inspect_policy == ProtocolInspectPolicy::Bypass
                        || self.ctx_spec().websocket_inspect_policy == ProtocolInspectPolicy::Intercept
                        || (self.ctx_spec().websocket_inspect_policy == ProtocolInspectPolicy::Detour
                            && !self.ctx_spec().has_detour_client))
                },
                InterceptRouting::Block(io) => {
                    &&& self.io_spec() == Some(io)
                    &&& self.ctx_spec().websocket_inspect_policy == ProtocolInspectPolicy::Block
                },
                InterceptRouting::Detour(io, dctx) => {
                    &&& self.io_spec() == Some(io)
                    &&& self.ctx_spec().websocket_inspect_policy == ProtocolInspectPolicy::Detour
                    &&& self.ctx_spec().has_detour_client
                    &&& dctx.upstream == self.upstream_spec()
                    &&& dctx.protocol == DetourProtocol::Websocket
                    &&& dctx.payload@ == ws_ctx_bytes(
                        self.websocket_ctx_spec().version,
                        self.websocket_ctx_spec().subprotocol@,
                    )
                },
            },
    {
        let policy = self.ctx.websocket_inspect_policy;
        let has_detour = self.ctx.has_detour_client;
        let payload = self.websocket_ctx.serialize();
        let io = match self.io {
            Some(io) => io,
            None => {
                unreached()
            },
        };
        match policy {
            ProtocolInspectPolicy::Block => InterceptRouting::Block(io),
            ProtocolInspectPolicy::Bypass => InterceptRouting::Transit(io),
            ProtocolInspectPolicy::Intercept => InterceptRouting::Transit(io),
            ProtocolInspectPolicy::Detour => {
                if has_detour {
                    let dctx = StreamDetourContext {
                        upstream: self.upstream,
                        protocol: DetourProtocol::Websocket,
                        payload,
                    };
                    InterceptRouting::Detour(io, dctx)
                } else {
                    InterceptRouting::Transit(io)
                }
            },
        }
    }
}

/// Concludes the Block branch: whatever became of the two best-effort
/// close-frame writes, the result is the administrative "blocked"
/// error and nothing else.
pub fn finish_block(clt_write_ok: bool, ups_write_ok: bool) -> (r: Result<(), ServerTaskError>)
    ensures
        r == Err::<(), ServerTaskError>(
            ServerTaskError::InternalAdapterError("websocket blocked by inspection policy"),
        ),
{
    let _ = clt_write_ok;
    let _ = ups_write_ok;
    Err(ServerTaskError::InternalAdapterError("websocket blocked by inspection policy"))
}

} // verus!
