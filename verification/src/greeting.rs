use vstd::prelude::*;
use crate::host::{find_byte, host_of, Host, HostSpec};
use crate::smtp_reply::{
    content_code, content_is_last, feed_result, line_content, no_service_text,
    upstream_service_not_ready, ResponseLineError, ResponseParser, MAX_LINE_SIZE, NO_SERVICE,
    SERVICE_READY, SP,
};

verus! {

/// Ways the greeting relay can fail.
#[derive(Debug)]
pub enum GreetingError {
    /// The overall deadline for the whole banner exchange passed.
    Timeout,
    /// A reply line was malformed.
    InvalidResponseLine(ResponseLineError),
    /// A reply line exceeded the line-size bound.
    TooLongResponseLine,
    /// A reply code other than "service ready" or "no service".
    UnexpectedReplyCode(u16),
    /// The first "service ready" line carried no host token.
    NoHostField,
    /// The host token is neither a domain nor a bracketed IPv4 literal.
    UnsupportedHostFormat,
    /// Writing a banner line to the client failed; the payload is the
    /// transport's message.
    ClientWriteFailed(String),
    /// Reading from the upstream failed; the payload is the
    /// transport's message.
    UpstreamReadFailed(String),
    /// The upstream closed before the banner finished.
    UpstreamClosed,
}

/// What the caller should do after a successfully relayed line.
#[derive(Clone, Copy, PartialEq, Eq, Structural, Debug)]
pub enum GreetingStep {
    /// More lines of the banner are outstanding.
    Continue,
    /// The banner is complete; hand the upstream reader back.
    Finished,
}

/// `a + b` capped at the top of `usize`.
pub open spec fn sat_add_usize(a: usize, b: usize) -> usize {
    if a + b > usize::MAX {
        usize::MAX
    } else {
        (a + b) as usize
    }
}

/// The byte count owed to the client never decreases: an accepted
/// line can only add to it.
pub proof fn lemma_total_monotonic(total: usize, line_len: usize)
    ensures
        sat_add_usize(total, line_len) >= total,
{
}

/// The host token of a greeting message: everything up to the first
/// space, or the whole message if it has none.
pub open spec fn host_token(msg: Seq<u8>) -> Seq<u8> {
    match find_byte(msg, SP) {
        Some(i) => msg.take(i),
        None => msg,
    }
}

/// Relies on memchr::memchr: the least index at which `needle` occurs
/// in `haystack`, or nothing when it does not occur.
#[verifier::external_body]
fn memchr_first(needle: u8, haystack: &[u8]) -> (r: Option<usize>)
    ensures
        match r {
            Some(i) => find_byte(haystack@, needle) == Some(i as int),
            None => find_byte(haystack@, needle) is None,
        },
{
    memchr::memchr(needle, haystack)
}

/// Progress of one server-first greeting: the reply parser, the host
/// resolved from the first "service ready" line, and how many banner
/// bytes have been handed on toward the client.
pub struct Greeting {
    host: Host,
    rsp: ResponseParser,
    total_to_write: usize,
    last_msg: Vec<u8>,
}

impl Greeting {
    pub closed spec fn host_repr(&self) -> HostSpec {
        self.host.repr()
    }

    pub open spec fn host_is_empty(&self) -> bool {
        self.host_repr() == HostSpec::Domain(Seq::<u8>::empty())
    }

    pub closed spec fn code_spec(&self) -> u16 {
        self.rsp.code_spec()
    }

    pub closed spec fn active_spec(&self) -> bool {
        self.rsp.active_spec()
    }

    pub closed spec fn finished_spec(&self) -> bool {
        self.rsp.finished_spec()
    }

    pub closed spec fn total_spec(&self) -> usize {
        self.total_to_write
    }

    pub closed spec fn last_msg_spec(&self) -> Seq<u8> {
        self.last_msg@
    }

    pub fn new() -> (r: Self)
        ensures
            r.host_is_empty(),
            r.code_spec() == 0,
            !r.finished_spec(),
            !r.active_spec(),
            r.total_spec() == 0,
            r.last_msg_spec() == Seq::<u8>::empty(),
    {
        let r = Greeting {
            host: Host::empty(),
            rsp: ResponseParser::new(),
            total_to_write: 0,
            last_msg: Vec::new(),
        };
        proof {
            assert(r.last_msg@ =~= Seq::<u8>::empty());
        }
        r
    }

    /// Surrenders the final reply code and the resolved host.
    pub fn into_parts(self) -> (r: (u16, Host))
        ensures
            r.0 == self.code_spec(),
            r.1.repr() == self.host_repr(),
    {
        (self.rsp.code(), self.host)
    }

    /// Accepts one raw banner line from the upstream.  On success the
    /// line's byte length is added (capped) to the running count of
    /// bytes owed to the client, and the line's message is kept for
    /// `dispatch_reply`; on any failure the state is unchanged.
    pub fn feed_line(&mut self, line: &[u8]) -> (r: Result<(), GreetingError>)
        ensures
            line@.len() > MAX_LINE_SIZE ==> (r matches Err(GreetingError::TooLongResponseLine)
                && *final(self) == *old(self)),
            line@.len() <= MAX_LINE_SIZE ==> match feed_result(
                old(self).code_spec(),
                old(self).active_spec(),
                line@,
            ) {
                Ok(msg) => {
                    &&& r is Ok
                    &&& final(self).last_msg_spec() == msg
                    &&& final(self).code_spec() == content_code(line_content(line@))
                    &&& final(self).finished_spec() == content_is_last(line_content(line@))
                    &&& final(self).active_spec() == !content_is_last(line_content(line@))
                    &&& final(self).total_spec() == sat_add_usize(
                        old(self).total_spec(),
                        line@.len() as usize,
                    )
                    &&& final(self).host_repr() == old(self).host_repr()
                },
                Err(pe) => {
                    &&& r matches Err(GreetingError::InvalidResponseLine(e)) && e == pe
                    &&& *final(self) == *old(self)
                },
            },
    {
        if line.len() > MAX_LINE_SIZE {
            return Err(GreetingError::TooLongResponseLine);
        }
        match self.rsp.feed_line(line) {
            Ok(msg) => {
                self.total_to_write = self.total_to_write.saturating_add(line.len());
                self.last_msg = msg;
                Ok(())
            },
            Err(e) => Err(GreetingError::InvalidResponseLine(e)),
        }
    }

    /// Acts on the most recently accepted line, after it has been
    /// forwarded to the client.  A "service ready" line resolves the
    /// host from its message once; a "no service" line is passed
    /// through; any other code is fatal.  The step says whether the
    /// banner is complete.
    pub fn dispatch_reply(&mut self) -> (r: Result<GreetingStep, GreetingError>)
        ensures
            final(self).code_spec() == old(self).code_spec(),
            final(self).finished_spec() == old(self).finished_spec(),
            final(self).active_spec() == old(self).active_spec(),
            final(self).total_spec() == old(self).total_spec(),
            final(self).last_msg_spec() == old(self).last_msg_spec(),
            old(self).code_spec() != SERVICE_READY && old(self).code_spec() != NO_SERVICE ==> (
            r matches Err(GreetingError::UnexpectedReplyCode(c)) && c == old(self).code_spec()
                && final(self).host_repr() == old(self).host_repr()),
            old(self).code_spec() == NO_SERVICE ==> final(self).host_repr() == old(self).host_repr() && r == step_of(old(self).finished_spec()),
            old(self).code_spec() == SERVICE_READY && !old(self).host_is_empty() ==> final(self).host_repr() == old(self).host_repr() && r == step_of(old(self).finished_spec()),
            old(self).code_spec() == SERVICE_READY && old(self).host_is_empty() ==> {
                let token = host_token(old(self).last_msg_spec());
                if token.len() == 0 {
                    r matches Err(GreetingError::NoHostField) && final(self).host_repr() == old(self).host_repr()
                } else {
                    match host_of(token) {
                        Some(h) => final(self).host_repr() == h && r == step_of(
                            old(self).finished_spec(),
                        ),
                        None => r matches Err(GreetingError::UnsupportedHostFormat) && final(self).host_repr() == old(self).host_repr(),
                    }
                }
            },
    {
        let code = self.rsp.code();
        if code == SERVICE_READY {
            if self.host.is_empty() {
                let token_end = match memchr_first(SP, self.last_msg.as_slice()) {
                    Some(d) => d,
                    None => self.last_msg.len(),
                };
                proof {
                    crate::host::lemma_find_byte(self.last_msg@, SP);
                    if find_byte(self.last_msg@, SP) is None {
                        assert(self.last_msg@.take(self.last_msg@.len() as int) =~= self.last_msg@);
                    }
                }
                if token_end == 0 {
                    return Err(GreetingError::NoHostField);
                }
                let mut token: Vec<u8> = Vec::new();
                let mut i: usize = 0;
                while i < token_end
                    invariant
                        0 <= i <= token_end <= self.last_msg@.len(),
                        token@ == self.last_msg@.subrange(0, i as int),
                    decreases token_end - i,
                {
                    token.push(self.last_msg[i]);
                    proof {
                        assert(self.last_msg@.subrange(0, i + 1) =~= self.last_msg@.subrange(
                            0,
                            i as int,
                        ).push(self.last_msg@[i as int]));
                    }
                    i += 1;
                }
                proof {
                    assert(token@ =~= host_token(self.last_msg@));
                }
                match crate::host::parse_smtp_host_address(token.as_slice()) {
                    Some(h) => {
                        self.host = h;
                    },
                    None => {
                        return Err(GreetingError::UnsupportedHostFormat);
                    },
                }
            }
            if self.rsp.finished() {
                Ok(GreetingStep::Finished)
            } else {
                Ok(GreetingStep::Continue)
            }
        } else if code == NO_SERVICE {
            if self.rsp.finished() {
                Ok(GreetingStep::Finished)
            } else {
                Ok(GreetingStep::Continue)
            }
        } else {
            Err(GreetingError::UnexpectedReplyCode(code))
        }
    }

    /// Synthesizes the negative reply owed to the client after a failed
    /// greeting.  Nothing is produced once any real banner byte has
    /// been forwarded, nor for failures that carry no client-facing
    /// reason.
    pub fn reply_no_service(&self, e: &GreetingError, server_ip: &str) -> (r: Option<String>)
        ensures
            self.total_spec() > 0 ==> r is None,
            reason_of(e) is None ==> r is None,
            self.total_spec() == 0 ==> (reason_of(e) matches Some(reason) ==> (r matches Some(s)
                && s@ == no_service_text(server_ip@, reason))),
    {
        if self.total_to_write > 0 {
            return None;
        }
        let reason: &str = match e {
            GreetingError::Timeout => "read timeout",
            GreetingError::InvalidResponseLine(_) => "invalid response",
            GreetingError::UnexpectedReplyCode(_) => "unexpected reply code",
            GreetingError::UpstreamReadFailed(_) => "read failed",
            GreetingError::UpstreamClosed => "connection closed",
            _ => {
                return None;
            },
        };
        Some(upstream_service_not_ready(server_ip, reason))
    }
}

impl Default for Greeting {
    /// A greeting that has seen nothing: host unresolved, no bytes
    /// owed to the client.
    fn default() -> (r: Self)
        ensures
            r.host_is_empty(),
            r.code_spec() == 0,
            !r.finished_spec(),
            !r.active_spec(),
            r.total_spec() == 0,
            r.last_msg_spec() == Seq::<u8>::empty(),
    {
        Greeting::new()
    }
}

/// The step a finished flag translates to.
pub open spec fn step_of(finished: bool) -> Result<GreetingStep, GreetingError> {
    if finished {
        Ok(GreetingStep::Finished)
    } else {
        Ok(GreetingStep::Continue)
    }
}

/// The client-facing reason a failure translates to, if it has one.
pub open spec fn reason_of(e: &GreetingError) -> Option<Seq<char>> {
    match e {
        GreetingError::Timeout => Some("read timeout"@),
        GreetingError::InvalidResponseLine(_) => Some("invalid response"@),
        GreetingError::UnexpectedReplyCode(_) => Some("unexpected reply code"@),
        GreetingError::UpstreamReadFailed(_) => Some("read failed"@),
        GreetingError::UpstreamClosed => Some("connection closed"@),
        _ => None,
    }
}

/// Whether buffered banner bytes should still be flushed to the
/// client after a failure: always, except when the client link itself
/// failed.
pub fn should_flush_after(e: &GreetingError) -> (r: bool)
    ensures
        r == !(e matches GreetingError::ClientWriteFailed(_)),
{
    !(matches!(e, GreetingError::ClientWriteFailed(_)))
}

} // verus!
