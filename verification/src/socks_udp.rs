use vstd::prelude::*;

verus! {

/// Size of the probe read on the control channel; the channel is
/// expected to carry no application data, so a full probe buffer is a
/// protocol violation.
pub const MAX_CTL_MSG_SIZE: usize = 4;

/// Fixed worst-case SOCKS5 UDP encapsulation header: reserved and
/// fragment bytes, the longest address form (length byte plus up to
/// 255 address bytes), and the port.
pub const MAX_UDP_HDR_LEN: usize = 262;

pub const ATYP_IPV4: u8 = 1;
pub const ATYP_DOMAIN: u8 = 3;
pub const ATYP_IPV6: u8 = 4;

/// Ways one receive call of the datagram relay can fail.
#[derive(Debug)]
pub enum UdpCopyRemoteError {
    /// The underlying datagram receive failed; the payload is the
    /// transport's message.
    RecvFailed(String),
    /// The datagram's encapsulation header is malformed.
    InvalidPacket(&'static str),
    /// The control channel reported EOF while liveness was enforced.
    RemoteSessionClosed,
    /// The control channel failed or carried unexpected data.
    RemoteSessionError(String),
}

/// What one non-blocking probe read of up to `MAX_CTL_MSG_SIZE` bytes
/// from the control channel observed.
#[derive(Debug)]
pub enum CtlProbe {
    /// The read would block: the channel is idle and alive.
    WouldBlock,
    /// The read returned this many bytes; zero means EOF.
    Read(usize),
    /// The read itself failed; the payload is the transport's message.
    Failed(String),
}

/// The spec-level outcome of a control-channel probe.
#[derive(PartialEq, Eq, Structural)]
pub enum CtlVerdict {
    /// Nothing to act on; go on to the datagram receive.
    Proceed,
    /// Liveness says the session is over.
    SessionClosed,
    /// The control channel misbehaved.
    SessionError,
}

/// How a probe observation is judged, given whether closure of the
/// control channel currently ends the session: EOF closes only then;
/// a full probe buffer is always a violation; one to three stray
/// bytes are drained and tolerated.
pub open spec fn ctl_verdict(end_on_control_closed: bool, probe: CtlProbe) -> CtlVerdict {
    match probe {
        CtlProbe::WouldBlock => CtlVerdict::Proceed,
        CtlProbe::Failed(_) => CtlVerdict::SessionError,
        CtlProbe::Read(n) => if n == 0 {
            if end_on_control_closed {
                CtlVerdict::SessionClosed
            } else {
                CtlVerdict::Proceed
            }
        } else if n >= MAX_CTL_MSG_SIZE {
            CtlVerdict::SessionError
        } else {
            CtlVerdict::Proceed
        },
    }
}

/// Whether the probe turns further probing off: only a tolerated EOF
/// does, and only before liveness is enforced.
pub open spec fn ctl_new_ignore(end_on_control_closed: bool, ignore: bool, probe: CtlProbe) -> bool {
    ignore || (probe == CtlProbe::Read(0usize) && !end_on_control_closed)
}

/// Length of the SOCKS5 UDP encapsulation header at the head of
/// `pkt`, if it is well formed: two reserved bytes, a fragment byte
/// that must be zero, an address tagged by type, and a two-byte port,
/// all of which must fit inside the datagram.
pub open spec fn udp_header_len(pkt: Seq<u8>) -> Option<int> {
    if pkt.len() < 4 {
        None
    } else if pkt[2] != 0 {
        None
    } else if pkt[3] == ATYP_IPV4 {
        if pkt.len() >= 10 {
            Some(10)
        } else {
            None
        }
    } else if pkt[3] == ATYP_IPV6 {
        if pkt.len() >= 22 {
            Some(22)
        } else {
            None
        }
    } else if pkt[3] == ATYP_DOMAIN {
        if pkt.len() >= 5 && pkt.len() >= 7 + pkt[4] {
            Some(7 + pkt[4])
        } else {
            None
        }
    } else {
        None
    }
}

/// Finds the payload offset of one encapsulated datagram
/// `pkt[0..len]`.
pub fn parse_udp_header(pkt: &[u8], len: usize) -> (r: Result<usize, &'static str>)
    requires
        len <= pkt@.len(),
    ensures
        match r {
            Ok(off) => udp_header_len(pkt@.subrange(0, len as int)) == Some(off as int),
            Err(_) => udp_header_len(pkt@.subrange(0, len as int)) is None,
        },
{
    let ghost p = pkt@.subrange(0, len as int);
    if len < 4 {
        return Err("packet too short for encapsulation header");
    }
    if pkt[2] != 0 {
        return Err("fragmented packets are not supported");
    }
    let atyp = pkt[3];
    if atyp == ATYP_IPV4 {
        if len >= 10 {
            Ok(10)
        } else {
            Err("packet too short for an address")
        }
    } else if atyp == ATYP_IPV6 {
        if len >= 22 {
            Ok(22)
        } else {
            Err("packet too short for an address")
        }
    } else if atyp == ATYP_DOMAIN {
        if len >= 5 {
            let alen = pkt[4] as usize;
            if len >= 7 + alen {
                Ok(7 + alen)
            } else {
                Err("packet too short for an address")
            }
        } else {
            Err("packet too short for an address")
        }
    } else {
        Err("unknown address type")
    }
}

/// Offset and length of one decapsulated datagram inside its receive
/// buffer.
#[derive(Clone, Copy, PartialEq, Eq, Structural, Debug)]
pub struct UdpPacketMeta {
    pub offset: usize,
    pub len: usize,
}

/// Receive side of a SOCKS5 UDP-connect relay: the underlying
/// datagram receiver, the associate control connection probed for
/// liveness, and the two liveness flags.  Once a datagram has been
/// decapsulated, closure of the control channel ends the session;
/// before that, closure is tolerated unless enforcement was requested
/// at construction.
pub struct ProxySocks5UdpConnectRemoteRecv<T, C> {
    inner: T,
    ctl_stream: C,
    end_on_control_closed: bool,
    ignore_ctl_stream: bool,
}

impl<T, C> ProxySocks5UdpConnectRemoteRecv<T, C> {
    pub closed spec fn inner_spec(&self) -> T {
        self.inner
    }

    pub closed spec fn ctl_stream_spec(&self) -> C {
        self.ctl_stream
    }

    pub closed spec fn end_on_control_closed_spec(&self) -> bool {
        self.end_on_control_closed
    }

    pub closed spec fn ignore_ctl_stream_spec(&self) -> bool {
        self.ignore_ctl_stream
    }

    pub fn new(recv: T, ctl_stream: C, end_on_control_closed: bool) -> (r: Self)
        ensures
            r.inner_spec() == recv,
            r.ctl_stream_spec() == ctl_stream,
            r.end_on_control_closed_spec() == end_on_control_closed,
            !r.ignore_ctl_stream_spec(),
    {
        ProxySocks5UdpConnectRemoteRecv {
            inner: recv,
            ctl_stream,
            end_on_control_closed,
            ignore_ctl_stream: false,
        }
    }

    /// Fixed worst-case encapsulation header size, for sizing receive
    /// buffers; independent of any traffic.
    pub fn max_hdr_len(&self) -> (r: usize)
        ensures
            r == MAX_UDP_HDR_LEN,
    {
        256 + 4 + 2
    }

    /// Whether the next receive call must probe the control channel
    /// first.
    pub fn needs_ctl_probe(&self) -> (r: bool)
        ensures
            r == !self.ignore_ctl_stream_spec(),
    {
        !self.ignore_ctl_stream
    }

    /// The underlying datagram receiver, for the transport layer.
    pub fn inner_mut(&mut self) -> (r: &mut T)
        ensures
            *r == old(self).inner_spec(),
            final(self).inner_spec() == *final(r),
            final(self).ctl_stream_spec() == old(self).ctl_stream_spec(),
            final(self).end_on_control_closed_spec() == old(self).end_on_control_closed_spec(),
            final(self).ignore_ctl_stream_spec() == old(self).ignore_ctl_stream_spec(),
    {
        &mut self.inner
    }

    /// The control connection, for the transport layer's probe read.
    pub fn ctl_stream_mut(&mut self) -> (r: &mut C)
        ensures
            *r == old(self).ctl_stream_spec(),
            final(self).ctl_stream_spec() == *final(r),
            final(self).inner_spec() == old(self).inner_spec(),
            final(self).end_on_control_closed_spec() == old(self).end_on_control_closed_spec(),
            final(self).ignore_ctl_stream_spec() == old(self).ignore_ctl_stream_spec(),
    {
        &mut self.ctl_stream
    }

    /// Judges one probe observation from the control channel, before
    /// the datagram receive.  While probing is disabled this is a
    /// no-op; otherwise EOF closes the session exactly when liveness
    /// is enforced, turns further probing off when it is not, a full
    /// probe buffer is a protocol violation, and stray partial bytes
    /// are drained.
    pub fn check_ctl_stream(&mut self, probe: CtlProbe) -> (r: Result<(), UdpCopyRemoteError>)
        ensures
            final(self).inner_spec() == old(self).inner_spec(),
            final(self).ctl_stream_spec() == old(self).ctl_stream_spec(),
            final(self).end_on_control_closed_spec() == old(self).end_on_control_closed_spec(),
            old(self).ignore_ctl_stream_spec() ==> r is Ok && final(self).ignore_ctl_stream_spec(),
            !old(self).ignore_ctl_stream_spec() ==> {
                &&& final(self).ignore_ctl_stream_spec() == ctl_new_ignore(
                    old(self).end_on_control_closed_spec(),
                    false,
                    probe,
                )
                &&& match ctl_verdict(old(self).end_on_control_closed_spec(), probe) {
                    CtlVerdict::Proceed => r is Ok,
                    CtlVerdict::SessionClosed => r matches Err(
                        UdpCopyRemoteError::RemoteSessionClosed,
                    ),
                    CtlVerdict::SessionError => r matches Err(
                        UdpCopyRemoteError::RemoteSessionError(_),
                    ),
                }
            },
    {
        if self.ignore_ctl_stream {
            return Ok(());
        }
        match probe {
            CtlProbe::WouldBlock => Ok(()),
            CtlProbe::Failed(e) => Err(UdpCopyRemoteError::RemoteSessionError(e)),
            CtlProbe::Read(n) => {
                if n == 0 {
                    if self.end_on_control_closed {
                        Err(UdpCopyRemoteError::RemoteSessionClosed)
                    } else {
                        self.ignore_ctl_stream = true;
                        Ok(())
                    }
                } else if n >= MAX_CTL_MSG_SIZE {
                    Err(
                        UdpCopyRemoteError::RemoteSessionError(
                            String::from_str("unexpected data received in ctl stream"),
                        ),
                    )
                } else {
                    // drain extra data sent by some non-conformant peer
                    Ok(())
                }
            },
        }
    }

    /// Decapsulates one received datagram `buf[0..nr]`: on success the
    /// payload offset with the datagram length, and liveness
    /// enforcement is permanently on; a malformed header fails the
    /// call and changes nothing.
    pub fn decapsulate_packet(&mut self, buf: &[u8], nr: usize) -> (r: Result<
        (usize, usize),
        UdpCopyRemoteError,
    >)
        requires
            nr <= buf@.len(),
        ensures
            final(self).inner_spec() == old(self).inner_spec(),
            final(self).ctl_stream_spec() == old(self).ctl_stream_spec(),
            final(self).ignore_ctl_stream_spec() == old(self).ignore_ctl_stream_spec(),
            match r {
                Ok((off, n)) => {
                    &&& udp_header_len(buf@.subrange(0, nr as int)) == Some(off as int)
                    &&& n == nr
                    &&& final(self).end_on_control_closed_spec()
                },
                Err(e) => {
                    &&& udp_header_len(buf@.subrange(0, nr as int)) is None
                    &&& e matches UdpCopyRemoteError::InvalidPacket(_)
                    &&& final(self).end_on_control_closed_spec() == old(
                        self,
                    ).end_on_control_closed_spec()
                },
            },
    {
        match parse_udp_header(buf, nr) {
            Ok(off) => {
                self.end_on_control_closed = true;
                Ok((off, nr))
            },
            Err(m) => Err(UdpCopyRemoteError::InvalidPacket(m)),
        }
    }

    /// Decapsulates a whole batch, each datagram independently and by
    /// the same rule as `decapsulate_packet`; one malformed header
    /// fails the whole batch and changes nothing.
    pub fn decapsulate_batch(&mut self, pkts: &Vec<Vec<u8>>) -> (r: Result<
        Vec<UdpPacketMeta>,
        UdpCopyRemoteError,
    >)
        ensures
            final(self).inner_spec() == old(self).inner_spec(),
            final(self).ctl_stream_spec() == old(self).ctl_stream_spec(),
            final(self).ignore_ctl_stream_spec() == old(self).ignore_ctl_stream_spec(),
            match r {
                Ok(metas) => {
                    &&& metas@.len() == pkts@.len()
                    &&& forall|i: int|
                        0 <= i < pkts@.len() ==> udp_header_len(#[trigger] pkts@[i]@) == Some(
                            metas@[i].offset as int,
                        ) && metas@[i].len == pkts@[i]@.len()
                    &&& pkts@.len() > 0 ==> final(self).end_on_control_closed_spec()
                    &&& pkts@.len() == 0 ==> final(self).end_on_control_closed_spec() == old(
                        self,
                    ).end_on_control_closed_spec()
                },
                Err(e) => {
                    &&& exists|i: int| 0 <= i < pkts@.len() && udp_header_len(#[trigger] pkts@[i]@) is None
                    &&& e matches UdpCopyRemoteError::InvalidPacket(_)
                    &&& final(self).end_on_control_closed_spec() == old(
                        self,
                    ).end_on_control_closed_spec()
                },
            },
    {
        let mut metas: Vec<UdpPacketMeta> = Vec::new();
        let mut i: usize = 0;
        while i < pkts.len()
            invariant
                0 <= i <= pkts@.len(),
                metas@.len() == i,
                forall|j: int|
                    0 <= j < i ==> udp_header_len(#[trigger] pkts@[j]@) == Some(
                        metas@[j].offset as int,
                    ) && metas@[j].len == pkts@[j]@.len(),
            decreases pkts@.len() - i,
        {
            let pkt = &pkts[i];
            let n = pkt.len();
            proof {
                assert(pkt@.subrange(0, n as int) =~= pkt@);
            }
            match parse_udp_header(pkt.as_slice(), n) {
                Ok(off) => {
                    metas.push(UdpPacketMeta { offset: off, len: n });
                },
                Err(m) => {
                    return Err(UdpCopyRemoteError::InvalidPacket(m));
                },
            }
            i += 1;
        }
        if pkts.len() > 0 {
            self.end_on_control_closed = true;
        }
        Ok(metas)
    }
}

/// Liveness law, before traffic: an EOF probe closes the session
/// exactly when closure-ends-session was requested; otherwise it is
/// tolerated and probing proceeds.
pub proof fn lemma_liveness_before_traffic(end_requested: bool)
    ensures
        ctl_verdict(end_requested, CtlProbe::Read(0usize)) == if end_requested {
            CtlVerdict::SessionClosed
        } else {
            CtlVerdict::Proceed
        },
{
}

/// Liveness law, after traffic: whatever tolerance the receiver was
/// built with, once a datagram has been decapsulated the liveness
/// flag is on, and an EOF probe then always closes the session.
pub proof fn lemma_liveness_after_traffic()
    ensures
        ctl_verdict(true, CtlProbe::Read(0usize)) == CtlVerdict::SessionClosed,
{
}

} // verus!
