use vstd::prelude::*;

verus! {

/// ASCII bytes the parsers test against.
pub const DOT: u8 = 46;
pub const DIGIT_0: u8 = 48;
pub const DIGIT_9: u8 = 57;
pub const LOWER_A: u8 = 97;
pub const LOWER_Z: u8 = 122;
pub const UPPER_A: u8 = 65;
pub const UPPER_Z: u8 = 90;
pub const HYPHEN: u8 = 45;
pub const UNDERSCORE: u8 = 95;
pub const LBRACKET: u8 = 91;
pub const RBRACKET: u8 = 93;

/// Least index of `b` in `s`, if any.
pub open spec fn find_byte(s: Seq<u8>, b: u8) -> Option<int>
    decreases s.len(),
{
    if s.len() == 0 {
        None
    } else if s[0] == b {
        Some(0)
    } else {
        match find_byte(s.drop_first(), b) {
            None => None,
            Some(i) => Some(i + 1),
        }
    }
}

/// `find_byte` really is the least index: its result lies in range,
/// carries `b`, and nothing before it does; `None` means `b` is absent.
pub proof fn lemma_find_byte(s: Seq<u8>, b: u8)
    ensures
        match find_byte(s, b) {
            Some(i) => 0 <= i < s.len() && s[i] == b && (forall|j: int| 0 <= j < i ==> s[j] != b),
            None => forall|j: int| 0 <= j < s.len() ==> s[j] != b,
        },
    decreases s.len(),
{
    if s.len() > 0 && s[0] != b {
        let t = s.drop_first();
        lemma_find_byte(t, b);
        assert forall|j: int| 1 <= j < s.len() implies s[j] == t[j - 1] by {
            assert(t[j - 1] == s[j]);
        }
    }
}

pub open spec fn is_digit(b: u8) -> bool {
    DIGIT_0 <= b <= DIGIT_9
}

pub open spec fn is_alpha(b: u8) -> bool {
    (LOWER_A <= b <= LOWER_Z) || (UPPER_A <= b <= UPPER_Z)
}

/// Bytes a hostname may carry besides the label separator.
pub open spec fn is_domain_char(b: u8) -> bool {
    is_alpha(b) || is_digit(b) || b == HYPHEN || b == UNDERSCORE || b == DOT
}

/// A plausible domain name: 1 to 255 allowed bytes, no leading or
/// trailing dot, and no empty label between two dots.
pub open spec fn valid_domain(s: Seq<u8>) -> bool {
    &&& 1 <= s.len() <= 255
    &&& forall|i: int| 0 <= i < s.len() ==> is_domain_char(#[trigger] s[i])
    &&& s[0] != DOT
    &&& s[s.len() - 1] != DOT
    &&& forall|i: int| 0 < i < s.len() ==> !(#[trigger] s[i] == DOT && s[i - 1] == DOT)
}

/// Numeric value of a digit string, most significant first.
pub open spec fn dec_val(s: Seq<u8>) -> int
    decreases s.len(),
{
    if s.len() == 0 {
        0
    } else {
        dec_val(s.take(s.len() - 1)) * 10 + (s[s.len() - 1] - DIGIT_0)
    }
}

/// One dotted-quad part: 1 to 3 digits, no surplus leading zero, at
/// most 255.
pub open spec fn octet_of(s: Seq<u8>) -> Option<u8> {
    if 1 <= s.len() <= 3 && (forall|i: int| 0 <= i < s.len() ==> is_digit(#[trigger] s[i])) && (
    s.len() == 1 || s[0] != DIGIT_0) && dec_val(s) <= 255 {
        Some(dec_val(s) as u8)
    } else {
        None
    }
}

/// The address an IPv4 dotted-quad literal denotes, if it is one:
/// exactly four octets separated by single dots.
pub open spec fn ipv4_value(s: Seq<u8>) -> Option<(u8, u8, u8, u8)> {
    match find_byte(s, DOT) {
        None => None,
        Some(i) => match find_byte(s.skip(i + 1), DOT) {
            None => None,
            Some(j) => match find_byte(s.skip(i + 1).skip(j + 1), DOT) {
                None => None,
                Some(k) => {
                    let pa = s.take(i);
                    let pb = s.skip(i + 1).take(j);
                    let pc = s.skip(i + 1).skip(j + 1).take(k);
                    let pd = s.skip(i + 1).skip(j + 1).skip(k + 1);
                    if find_byte(pd, DOT) is Some {
                        None
                    } else {
                        match (octet_of(pa), octet_of(pb), octet_of(pc), octet_of(pd)) {
                            (Some(a), Some(b), Some(c), Some(d)) => Some((a, b, c, d)),
                            _ => None,
                        }
                    }
                },
            },
        },
    }
}

/// A host as the SMTP greeting names it: a domain name, or an IPv4
/// address given as a bracketed literal.  The empty domain stands for
/// "not resolved yet".
pub enum HostSpec {
    Ip4(u8, u8, u8, u8),
    Domain(Seq<u8>),
}

#[derive(Debug)]
pub enum Host {
    Ip4(u8, u8, u8, u8),
    Domain(Vec<u8>),
}

impl Host {
    pub open spec fn repr(&self) -> HostSpec {
        match self {
            Host::Ip4(a, b, c, d) => HostSpec::Ip4(*a, *b, *c, *d),
            Host::Domain(v) => HostSpec::Domain(v@),
        }
    }

    pub open spec fn is_empty_spec(&self) -> bool {
        self.repr() == HostSpec::Domain(Seq::<u8>::empty())
    }

    /// The unresolved host: an empty domain.
    pub fn empty() -> (r: Self)
        ensures
            r.is_empty_spec(),
    {
        let v: Vec<u8> = Vec::new();
        proof {
            assert(v@ =~= Seq::<u8>::empty());
        }
        Host::Domain(v)
    }

    pub fn is_empty(&self) -> (r: bool)
        ensures
            r == self.is_empty_spec(),
    {
        match self {
            Host::Domain(v) => {
                proof {
                    if v@.len() == 0 {
                        assert(v@ =~= Seq::<u8>::empty());
                    }
                }
                v.len() == 0
            },
            _ => false,
        }
    }
}

/// What a host token of the greeting resolves to: a bracketed IPv4
/// literal, or a domain name; anything else is unsupported.
pub open spec fn host_of(s: Seq<u8>) -> Option<HostSpec> {
    if s.len() >= 2 && s[0] == LBRACKET && s[s.len() - 1] == RBRACKET {
        match ipv4_value(s.subrange(1, s.len() - 1)) {
            Some((a, b, c, d)) => Some(HostSpec::Ip4(a, b, c, d)),
            None => None,
        }
    } else if valid_domain(s) {
        Some(HostSpec::Domain(s))
    } else {
        None
    }
}

/// Parses the digits `s[start..end]` as one dotted-quad octet.
fn parse_octet(s: &[u8], start: usize, end: usize) -> (r: Option<u8>)
    requires
        start <= end <= s@.len(),
    ensures
        r == octet_of(s@.subrange(start as int, end as int)),
{
    let ghost part = s@.subrange(start as int, end as int);
    let len = end - start;
    if len < 1 || len > 3 {
        return None;
    }
    if len > 1 && s[start] == DIGIT_0 {
        proof {
            assert(part[0] == s@[start as int]);
        }
        return None;
    }
    let mut v: u32 = 0;
    let mut i: usize = start;
    while i < end
        invariant
            start <= i <= end <= s@.len(),
            end - start <= 3,
            part == s@.subrange(start as int, end as int),
            forall|j: int| start <= j < i ==> is_digit(#[trigger] s@[j]),
            v == dec_val(part.take(i - start)),
            i - start == 0 ==> v == 0,
            i - start == 1 ==> v <= 9,
            i - start == 2 ==> v <= 99,
            i - start == 3 ==> v <= 999,
        decreases end - i,
    {
        let b = s[i];
        if b < DIGIT_0 || b > DIGIT_9 {
            proof {
                assert(part[i - start] == s@[i as int]);
                assert(!is_digit(part[i - start]));
            }
            return None;
        }
        proof {
            assert(part.take(i + 1 - start).take(i - start) =~= part.take(i - start));
            assert(part.take(i + 1 - start)[i - start] == s@[i as int]);
        }
        v = v * 10 + (b - DIGIT_0) as u32;
        i += 1;
    }
    proof {
        assert(part.take(end - start) =~= part);
    }
    if v > 255 {
        None
    } else {
        Some(v as u8)
    }
}

/// Parses `s` as an IPv4 dotted-quad literal.
fn parse_ipv4(s: &[u8], start: usize, end: usize) -> (r: Option<(u8, u8, u8, u8)>)
    requires
        start <= end <= s@.len(),
    ensures
        r == ipv4_value(s@.subrange(start as int, end as int)),
{
    let ghost whole = s@.subrange(start as int, end as int);
    let d1 = match find_byte_range(s, start, end) {
        Some(i) => i,
        None => {
            return None;
        },
    };
    let d2 = match find_byte_range(s, d1 + 1, end) {
        Some(i) => i,
        None => {
            proof {
                assert(whole.skip(d1 + 1 - start) =~= s@.subrange(d1 + 1, end as int));
            }
            return None;
        },
    };
    let d3 = match find_byte_range(s, d2 + 1, end) {
        Some(i) => i,
        None => {
            proof {
                assert(whole.skip(d1 + 1 - start) =~= s@.subrange(d1 + 1, end as int));
                assert(whole.skip(d1 + 1 - start).skip(d2 - d1) =~= s@.subrange(d2 + 1, end as int));
            }
            return None;
        },
    };
    proof {
        assert(whole.skip(d1 + 1 - start) =~= s@.subrange(d1 + 1, end as int));
        assert(whole.skip(d1 + 1 - start).skip(d2 - d1) =~= s@.subrange(d2 + 1, end as int));
        assert(whole.skip(d1 + 1 - start).skip(d2 - d1).skip(d3 - d2) =~= s@.subrange(
            d3 + 1,
            end as int,
        ));
        assert(whole.take(d1 - start) =~= s@.subrange(start as int, d1 as int));
        assert(whole.skip(d1 + 1 - start).take(d2 - d1 - 1) =~= s@.subrange(d1 + 1, d2 as int));
        assert(whole.skip(d1 + 1 - start).skip(d2 - d1).take(d3 - d2 - 1) =~= s@.subrange(
            d2 + 1,
            d3 as int,
        ));
    }
    if find_byte_range(s, d3 + 1, end).is_some() {
        return None;
    }
    let a = parse_octet(s, start, d1);
    let b = parse_octet(s, d1 + 1, d2);
    let c = parse_octet(s, d2 + 1, d3);
    let d = parse_octet(s, d3 + 1, end);
    match (a, b, c, d) {
        (Some(a), Some(b), Some(c), Some(d)) => Some((a, b, c, d)),
        _ => None,
    }
}

/// Least position of a dot within `s[start..end]`, as an absolute
/// index into `s`.
fn find_byte_range(s: &[u8], start: usize, end: usize) -> (r: Option<usize>)
    requires
        start <= end <= s@.len(),
    ensures
        match r {
            Some(i) => start <= i < end && find_byte(s@.subrange(start as int, end as int), DOT)
                == Some(i - start),
            None => find_byte(s@.subrange(start as int, end as int), DOT) is None,
        },
{
    proof {
        lemma_find_byte(s@.subrange(start as int, end as int), DOT);
    }
    let mut i: usize = start;
    while i < end
        invariant
            start <= i <= end <= s@.len(),
            forall|j: int| start <= j < i ==> s@[j] != DOT,
        decreases end - i,
    {
        if s[i] == DOT {
            proof {
                let sub = s@.subrange(start as int, end as int);
                lemma_find_byte(sub, DOT);
                if find_byte(sub, DOT) is None {
                    assert(sub[i - start] == DOT);
                    assert(false);
                }
                let k = find_byte(sub, DOT)->Some_0;
                assert(sub[k] == DOT);
                assert(s@[k + start] == DOT);
                assert(k + start >= i);
                if k + start > i {
                    assert(sub[i - start] == DOT);
                    assert(false);
                }
            }
            return Some(i);
        }
        i += 1;
    }
    proof {
        let sub = s@.subrange(start as int, end as int);
        if find_byte(sub, DOT) is Some {
            let k = find_byte(sub, DOT)->Some_0;
            assert(sub[k] == DOT);
            assert(s@[k + start] == DOT);
            assert(false);
        }
    }
    None
}

/// Checks `valid_domain` by one pass over the bytes.
fn check_domain(s: &[u8]) -> (r: bool)
    ensures
        r == valid_domain(s@),
{
    let n = s.len();
    if n < 1 || n > 255 {
        return false;
    }
    if s[0] == DOT || s[n - 1] == DOT {
        return false;
    }
    let mut i: usize = 0;
    let mut ok = true;
    while i < n
        invariant
            0 <= i <= n == s@.len(),
            ok == (forall|j: int|
                0 <= j < i ==> is_domain_char(#[trigger] s@[j]) && !(0 < j && s@[j] == DOT
                    && s@[j - 1] == DOT)),
        decreases n - i,
    {
        let b = s[i];
        let is_ok = (b >= LOWER_A && b <= LOWER_Z) || (b >= UPPER_A && b <= UPPER_Z) || (b >= DIGIT_0 && b <= DIGIT_9)
            || b == HYPHEN || b == UNDERSCORE || b == DOT;
        if !is_ok {
            ok = false;
        }
        if i > 0 && b == DOT && s[i - 1] == DOT {
            ok = false;
        }
        i += 1;
    }
    ok
}

/// A remote peer: host and port.
pub struct UpstreamAddr {
    pub host: Host,
    pub port: u16,
}

/// Resolves the host token of an SMTP greeting: a bracketed literal
/// must hold an IPv4 dotted quad, anything else must be a plausible
/// domain name.
pub fn parse_smtp_host_address(s: &[u8]) -> (r: Option<Host>)
    ensures
        match (r, host_of(s@)) {
            (Some(h), Some(hs)) => h.repr() == hs,
            (None, None) => true,
            _ => false,
        },
{
    let n = s.len();
    if n >= 2 && s[0] == LBRACKET && s[n - 1] == RBRACKET {
        match parse_ipv4(s, 1, n - 1) {
            Some((a, b, c, d)) => Some(Host::Ip4(a, b, c, d)),
            None => None,
        }
    } else if check_domain(s) {
        let mut v: Vec<u8> = Vec::new();
        let mut i: usize = 0;
        while i < n
            invariant
                0 <= i <= n == s@.len(),
                v@ == s@.take(i as int),
            decreases n - i,
        {
            v.push(s[i]);
            proof {
                assert(v@ =~= s@.take(i + 1));
            }
            i += 1;
        }
        proof {
            assert(v@ =~= s@);
        }
        Some(Host::Domain(v))
    } else {
        None
    }
}

} // verus!
