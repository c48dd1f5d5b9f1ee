use vstd::prelude::*;

verus! {

/// Shared, read-only configuration of one upstream peer group: an
/// optional absolute expiry instant (milliseconds on the task clock)
/// and extra header lines to append when addressing through the
/// proxy.  Each header line carries its own terminator.
pub struct ProxyFloatHttpsPeerSharedConfig {
    pub expire_at: Option<u64>,
    pub append_http_headers: Vec<String>,
}

/// A client request reduced to what the forward writer serializes:
/// the method, the origin-form target, and the already formatted
/// header lines, each with its terminator.
pub struct HttpProxyClientRequest {
    pub method: String,
    pub uri: String,
    pub header_lines: Vec<String>,
}

/// Whether a writer configured with expiry `expire_at` has expired at
/// `now`: only an instant strictly before now counts.
pub open spec fn is_expired(expire_at: Option<u64>, now: u64) -> bool {
    match expire_at {
        Some(t) => t < now,
        None => false,
    }
}

/// The one way the forward writer itself refuses to write.
#[derive(Clone, Copy, PartialEq, Eq, Structural, Debug)]
pub enum ForwardWriteError {
    /// The configured absolute expiry instant lies before now.
    Expired,
}

/// The given lines, one after another.
pub open spec fn join_lines(lines: Seq<Seq<char>>) -> Seq<char>
    decreases lines.len(),
{
    if lines.len() == 0 {
        Seq::<char>::empty()
    } else {
        join_lines(lines.drop_last()) + lines.last()
    }
}

pub open spec fn lines_view(lines: Seq<String>) -> Seq<Seq<char>> {
    lines.map_values(|s: String| s@)
}

/// The request head in proxy absolute-form: the target carries the
/// scheme and the upstream authority, and the configured extra
/// headers follow the request's own.
pub open spec fn request_head_via_proxy(
    method: Seq<char>,
    uri: Seq<char>,
    upstream: Seq<char>,
    req_lines: Seq<Seq<char>>,
    extra_lines: Seq<Seq<char>>,
) -> Seq<char> {
    method + " http://"@ + upstream + uri + " HTTP/1.1\r\n"@ + join_lines(req_lines) + join_lines(
        extra_lines,
    ) + "\r\n"@
}

/// The request head in origin-form: the target as the client gave
/// it, no extra headers.
pub open spec fn request_head_to_origin(
    method: Seq<char>,
    uri: Seq<char>,
    req_lines: Seq<Seq<char>>,
) -> Seq<char> {
    method + " "@ + uri + " HTTP/1.1\r\n"@ + join_lines(req_lines) + "\r\n"@
}

/// Appends every line in order.
fn append_lines(out: &mut String, lines: &Vec<String>)
    ensures
        final(out)@ == old(out)@ + join_lines(lines_view(lines@)),
{
    let ghost all = lines_view(lines@);
    let mut i: usize = 0;
    while i < lines.len()
        invariant
            0 <= i <= lines@.len(),
            all == lines_view(lines@),
            out@ == old(out)@ + join_lines(all.take(i as int)),
        decreases lines@.len() - i,
    {
        out.append(lines[i].as_str());
        proof {
            assert(all.take(i + 1).drop_last() =~= all.take(i as int));
            assert(all.take(i + 1).last() == lines@[i as int]@);
        }
        i += 1;
    }
    proof {
        assert(all.take(lines@.len() as int) =~= all);
    }
}

/// The traffic-accounting composition a forward writer reports
/// through: one task-level sink and any number of per-user sinks.
pub struct HttpForwardTaskRemoteWrapperStats<S> {
    pub task: S,
    pub users: Vec<S>,
}

/// Forward writer addressing the upstream through the proxy peer:
/// request heads go out in absolute-form with the configured extra
/// headers, once the expiry gate passes.
pub struct HttpsPeerHttpForwardWriter<W, S> {
    config: ProxyFloatHttpsPeerSharedConfig,
    inner: W,
    upstream: String,
    wrapper_stats: Option<HttpForwardTaskRemoteWrapperStats<S>>,
}

impl<W, S> HttpsPeerHttpForwardWriter<W, S> {
    pub closed spec fn inner_spec(&self) -> W {
        self.inner
    }

    pub closed spec fn expire_at_spec(&self) -> Option<u64> {
        self.config.expire_at
    }

    pub closed spec fn extra_lines_spec(&self) -> Seq<Seq<char>> {
        lines_view(self.config.append_http_headers@)
    }

    pub closed spec fn upstream_spec(&self) -> Seq<char> {
        self.upstream@
    }

    pub closed spec fn wrapper_stats_spec(&self) -> Option<HttpForwardTaskRemoteWrapperStats<S>> {
        self.wrapper_stats
    }

    pub fn new(ups_w: W, config: ProxyFloatHttpsPeerSharedConfig, upstream: String) -> (r: Self)
        ensures
            r.inner_spec() == ups_w,
            r.expire_at_spec() == config.expire_at,
            r.extra_lines_spec() == lines_view(config.append_http_headers@),
            r.upstream_spec() == upstream@,
            r.wrapper_stats_spec() is None,
    {
        HttpsPeerHttpForwardWriter { config, inner: ups_w, upstream, wrapper_stats: None }
    }

    /// Re-aims the writer at a new upstream for the next request.
    pub fn prepare_new(&mut self, upstream: String)
        ensures
            final(self).inner_spec() == old(self).inner_spec(),
            final(self).upstream_spec() == upstream@,
            final(self).expire_at_spec() == old(self).expire_at_spec(),
            final(self).extra_lines_spec() == old(self).extra_lines_spec(),
            final(self).wrapper_stats_spec() == old(self).wrapper_stats_spec(),
    {
        self.upstream = upstream;
    }

    /// Replaces the traffic-accounting composition wholesale: a fresh
    /// wrapper of the task sink and the per-user sinks, never a merge
    /// with what was installed before.
    pub fn update_stats(&mut self, task_stats: S, user_stats: Vec<S>)
        ensures
            final(self).wrapper_stats_spec() matches Some(w) && w.task == task_stats && w.users
                == user_stats,
            final(self).inner_spec() == old(self).inner_spec(),
            final(self).upstream_spec() == old(self).upstream_spec(),
            final(self).expire_at_spec() == old(self).expire_at_spec(),
            final(self).extra_lines_spec() == old(self).extra_lines_spec(),
    {
        let wrapper = HttpForwardTaskRemoteWrapperStats { task: task_stats, users: user_stats };
        self.wrapper_stats = Some(wrapper);
    }

    /// Serializes the request head for the transport to write, in
    /// proxy absolute-form.  An expired configuration fails before
    /// producing any byte.
    pub fn send_request_header(&self, req: &HttpProxyClientRequest, now: u64) -> (r: Result<
        String,
        ForwardWriteError,
    >)
        ensures
            is_expired(self.expire_at_spec(), now) ==> r == Err::<String, ForwardWriteError>(
                ForwardWriteError::Expired,
            ),
            !is_expired(self.expire_at_spec(), now) ==> (r matches Ok(head) && head@
                == request_head_via_proxy(
                req.method@,
                req.uri@,
                self.upstream_spec(),
                lines_view(req.header_lines@),
                self.extra_lines_spec(),
            )),
    {
        if let Some(t) = self.config.expire_at {
            if t < now {
                return Err(ForwardWriteError::Expired);
            }
        }
        let mut head = String::new();
        head.append(req.method.as_str());
        head.append(" http://");
        head.append(self.upstream.as_str());
        head.append(req.uri.as_str());
        head.append(" HTTP/1.1\r\n");
        append_lines(&mut head, &req.header_lines);
        append_lines(&mut head, &self.config.append_http_headers);
        head.append("\r\n");
        Ok(head)
    }

    /// The installed traffic-accounting composition.
    pub fn wrapper_stats(&self) -> (r: &Option<HttpForwardTaskRemoteWrapperStats<S>>)
        ensures
            *r == self.wrapper_stats_spec(),
    {
        &self.wrapper_stats
    }

    /// The underlying transport writer.
    pub fn inner_mut(&mut self) -> (r: &mut W)
        ensures
            *r == old(self).inner_spec(),
            final(self).inner_spec() == *final(r),
            final(self).expire_at_spec() == old(self).expire_at_spec(),
            final(self).extra_lines_spec() == old(self).extra_lines_spec(),
            final(self).upstream_spec() == old(self).upstream_spec(),
            final(self).wrapper_stats_spec() == old(self).wrapper_stats_spec(),
    {
        &mut self.inner
    }
}

/// Forward writer addressing the upstream directly: request heads go
/// out in origin-form with no extra headers, under the same expiry
/// gate.
pub struct HttpsPeerHttpRequestWriter<W, S> {
    config: ProxyFloatHttpsPeerSharedConfig,
    inner: W,
    wrapper_stats: Option<HttpForwardTaskRemoteWrapperStats<S>>,
}

impl<W, S> HttpsPeerHttpRequestWriter<W, S> {
    pub closed spec fn inner_spec(&self) -> W {
        self.inner
    }

    pub closed spec fn expire_at_spec(&self) -> Option<u64> {
        self.config.expire_at
    }

    pub closed spec fn wrapper_stats_spec(&self) -> Option<HttpForwardTaskRemoteWrapperStats<S>> {
        self.wrapper_stats
    }

    pub fn new(ups_w: W, config: ProxyFloatHttpsPeerSharedConfig) -> (r: Self)
        ensures
            r.inner_spec() == ups_w,
            r.expire_at_spec() == config.expire_at,
            r.wrapper_stats_spec() is None,
    {
        HttpsPeerHttpRequestWriter { config, inner: ups_w, wrapper_stats: None }
    }

    /// Nothing to re-aim: the origin-form writer addresses whatever
    /// the request itself names.
    pub fn prepare_new(&mut self)
        ensures
            final(self).inner_spec() == old(self).inner_spec(),
            final(self).expire_at_spec() == old(self).expire_at_spec(),
            final(self).wrapper_stats_spec() == old(self).wrapper_stats_spec(),
    {
    }

    /// Replaces the traffic-accounting composition wholesale, as the
    /// proxy-form writer does.
    pub fn update_stats(&mut self, task_stats: S, user_stats: Vec<S>)
        ensures
            final(self).wrapper_stats_spec() matches Some(w) && w.task == task_stats && w.users
                == user_stats,
            final(self).inner_spec() == old(self).inner_spec(),
            final(self).expire_at_spec() == old(self).expire_at_spec(),
    {
        let wrapper = HttpForwardTaskRemoteWrapperStats { task: task_stats, users: user_stats };
        self.wrapper_stats = Some(wrapper);
    }

    /// Serializes the request head for the transport to write, in
    /// origin-form.  An expired configuration fails before producing
    /// any byte.
    pub fn send_request_header(&self, req: &HttpProxyClientRequest, now: u64) -> (r: Result<
        String,
        ForwardWriteError,
    >)
        ensures
            is_expired(self.expire_at_spec(), now) ==> r == Err::<String, ForwardWriteError>(
                ForwardWriteError::Expired,
            ),
            !is_expired(self.expire_at_spec(), now) ==> (r matches Ok(head) && head@
                == request_head_to_origin(req.method@, req.uri@, lines_view(req.header_lines@))),
    {
        if let Some(t) = self.config.expire_at {
            if t < now {
                return Err(ForwardWriteError::Expired);
            }
        }
        let mut head = String::new();
        head.append(req.method.as_str());
        head.append(" ");
        head.append(req.uri.as_str());
        head.append(" HTTP/1.1\r\n");
        append_lines(&mut head, &req.header_lines);
        head.append("\r\n");
        Ok(head)
    }

    /// The installed traffic-accounting composition.
    pub fn wrapper_stats(&self) -> (r: &Option<HttpForwardTaskRemoteWrapperStats<S>>)
        ensures
            *r == self.wrapper_stats_spec(),
    {
        &self.wrapper_stats
    }

    /// The underlying transport writer.
    pub fn inner_mut(&mut self) -> (r: &mut W)
        ensures
            *r == old(self).inner_spec(),
            final(self).inner_spec() == *final(r),
            final(self).expire_at_spec() == old(self).expire_at_spec(),
            final(self).wrapper_stats_spec() == old(self).wrapper_stats_spec(),
    {
        &mut self.inner
    }
}

} // verus!
