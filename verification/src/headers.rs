use vstd::prelude::*;

verus! {

/// A byte a header value may carry: horizontal tab, or anything
/// visible or above, but never delete.
pub open spec fn valid_value_byte(b: u8) -> bool {
    b == 9 || (b >= 32 && b != 127)
}

pub open spec fn valid_value_bytes(s: Seq<u8>) -> bool {
    forall|i: int| 0 <= i < s.len() ==> valid_value_byte(#[trigger] s[i])
}

/// A byte this crate writes into a header name: lowercase letters,
/// digits, hyphen and underscore; a safe subset of what the header
/// grammar allows, already in its normalized case.
pub open spec fn lc_name_byte(b: u8) -> bool {
    (97 <= b <= 122) || (48 <= b <= 57) || b == 45 || b == 95
}

/// Longest header name the http crate accepts.
pub const MAX_HEADER_NAME_LEN: usize = 65535;

/// A name within the normalized subset: nonempty, not longer than the
/// crate's name-length cap, every byte from the subset.
pub open spec fn lc_name_bytes(s: Seq<u8>) -> bool {
    0 < s.len() <= MAX_HEADER_NAME_LEN && (forall|i: int|
        0 <= i < s.len() ==> lc_name_byte(#[trigger] s[i]))
}

/// One header value, held as its raw bytes; the type invariant keeps
/// them within the header-value grammar.
#[derive(Debug)]
pub struct HttpHeaderValue {
    bytes: Vec<u8>,
}

impl View for HttpHeaderValue {
    type V = Seq<u8>;

    closed spec fn view(&self) -> Seq<u8> {
        self.bytes@
    }
}

impl HttpHeaderValue {
    #[verifier::type_invariant]
    pub closed spec fn wf(&self) -> bool {
        valid_value_bytes(self.bytes@)
    }

    /// Accepts the bytes as a header value if each of them is legal
    /// there.
    pub fn from_bytes(bytes: Vec<u8>) -> (r: Option<HttpHeaderValue>)
        ensures
            valid_value_bytes(bytes@) ==> (r matches Some(v) && v@ == bytes@),
            !valid_value_bytes(bytes@) ==> r is None,
    {
        let n = bytes.len();
        let mut i: usize = 0;
        while i < n
            invariant
                0 <= i <= n == bytes@.len(),
                forall|j: int| 0 <= j < i ==> valid_value_byte(#[trigger] bytes@[j]),
            decreases n - i,
        {
            let b = bytes[i];
            if !(b == 9 || (b >= 32 && b != 127)) {
                return None;
            }
            i += 1;
        }
        Some(HttpHeaderValue { bytes })
    }

    pub fn as_bytes(&self) -> (r: &[u8])
        ensures
            r@ == self@,
    {
        self.bytes.as_slice()
    }
}

// What this module relies on of the http crate: its header multimap,
// and the name and value types that index it.
#[verifier::external_type_specification]
#[verifier::external_body]
#[verifier::reject_recursive_types(T)]
pub struct ExHeaderMap<T>(http::HeaderMap<T>);

#[verifier::external_type_specification]
#[verifier::external_body]
pub struct ExHeaderName(http::HeaderName);

#[verifier::external_type_specification]
#[verifier::external_body]
pub struct ExHeaderValue(http::HeaderValue);

/// The bytes of a header name as http::HeaderName holds them
/// (normalized to lowercase).
pub uninterp spec fn header_name_bytes(n: http::HeaderName) -> Seq<u8>;

/// The bytes of an http::HeaderValue.
pub uninterp spec fn http_value_bytes(v: http::HeaderValue) -> Seq<u8>;

/// Contents of a header multimap holding this crate's values: name
/// bytes to the ordered group of value byte strings.
pub uninterp spec fn hmap_view(m: http::HeaderMap<HttpHeaderValue>) -> Map<Seq<u8>, Seq<Seq<u8>>>;

/// Contents of a header multimap holding http's own values.
pub uninterp spec fn hv_map_view(m: http::HeaderMap<http::HeaderValue>) -> Map<
    Seq<u8>,
    Seq<Seq<u8>>,
>;

/// The contents of a map with nothing in it.
pub open spec fn empty_groups() -> Map<Seq<u8>, Seq<Seq<u8>>> {
    Map::empty()
}

/// Entry count up to which one more insertion is always accepted,
/// whatever internal state the map's hash table has reached.  The
/// table refuses to grow past 32768 index slots, and its
/// rehash-or-grow branch can ask for such a doubling once five times
/// the distinct-name count reaches the slot count; below a fifth of
/// that cap neither refusal is reachable, whatever the state.
pub const HMAP_SAFE_ENTRIES: usize = 6553;

/// How many (name, value) entries a map of this crate's values holds.
pub uninterp spec fn hmap_len(m: http::HeaderMap<HttpHeaderValue>) -> nat;

/// How many (name, value) entries a map of http's own values holds.
pub uninterp spec fn hv_map_len(m: http::HeaderMap<http::HeaderValue>) -> nat;

/// How many values a key holds in a contents map.
pub open spec fn group_len(m: Map<Seq<u8>, Seq<Seq<u8>>>, k: Seq<u8>) -> nat {
    if m.dom().contains(k) {
        m[k].len()
    } else {
        0
    }
}

/// A group extended by one value: appended to the key's existing
/// values, or opening the key with a single value.
pub open spec fn append_entry(
    m: Map<Seq<u8>, Seq<Seq<u8>>>,
    k: Seq<u8>,
    v: Seq<u8>,
) -> Map<Seq<u8>, Seq<Seq<u8>>> {
    if m.dom().contains(k) {
        m.insert(k, m[k].push(v))
    } else {
        m.insert(k, seq![v])
    }
}

/// The map could not take another entry.
#[derive(Clone, Copy, PartialEq, Eq, Structural, Debug)]
pub struct HeaderMapFull;

/// The bytes are not a header name this crate writes.
#[derive(Clone, Copy, PartialEq, Eq, Structural, Debug)]
pub struct InvalidName;

/// Relies on http::HeaderName::from_bytes: a byte string within the
/// normalized subset is accepted and kept verbatim (each such byte
/// maps to itself in the crate's normalization table).
#[verifier::external_body]
pub fn parse_header_name(b: &[u8]) -> (r: Result<http::HeaderName, InvalidName>)
    ensures
        match r {
            Ok(n) => lc_name_bytes(b@) ==> header_name_bytes(n) == b@,
            Err(_) => !lc_name_bytes(b@),
        },
{
    match http::HeaderName::from_bytes(b) {
        Ok(n) => Ok(n),
        Err(_) => Err(InvalidName),
    }
}

/// Relies on http::HeaderName::as_str: the name's bytes back out.
#[verifier::external_body]
pub fn header_name_to_bytes(n: &http::HeaderName) -> (r: Vec<u8>)
    ensures
        r@ == header_name_bytes(*n),
{
    n.as_str().as_bytes().to_vec()
}

/// Relies on Clone for http::HeaderName: an equal name, so the same
/// bytes.
#[verifier::external_body]
fn clone_header_name(n: &http::HeaderName) -> (r: http::HeaderName)
    ensures
        header_name_bytes(r) == header_name_bytes(*n),
{
    n.clone()
}

/// Relies on http::HeaderValue::from_bytes: it accepts exactly the
/// byte strings whose every byte is legal in a header value, and
/// keeps them verbatim.
#[verifier::external_body]
fn to_http_value(v: &HttpHeaderValue) -> (r: http::HeaderValue)
    requires
        valid_value_bytes(v@),
    ensures
        http_value_bytes(r) == v@,
{
    match http::HeaderValue::from_bytes(v.as_bytes()) {
        Ok(hv) => hv,
        Err(_) => http::HeaderValue::from_static(""),
    }
}

/// Relies on http::HeaderMap::with_capacity(0): an empty map, and no
/// allocation to fail.
#[verifier::external_body]
fn new_inner_map() -> (r: http::HeaderMap<HttpHeaderValue>)
    ensures
        hmap_view(r) == empty_groups(),
        hmap_len(r) == 0,
{
    http::HeaderMap::with_capacity(0)
}

/// Relies on http::HeaderMap::with_capacity(0) at http's own value
/// type.
#[verifier::external_body]
fn new_value_map() -> (r: http::HeaderMap<http::HeaderValue>)
    ensures
        hv_map_view(r) == empty_groups(),
        hv_map_len(r) == 0,
{
    http::HeaderMap::with_capacity(0)
}

/// Relies on http::HeaderMap::try_insert: on success all values of
/// the key are replaced by this one and the first previous value
/// comes back; on failure the map is unchanged.  While the entry
/// count is at most `HMAP_SAFE_ENTRIES`, no growth past the slot cap
/// can be asked for, so the call succeeds.
#[verifier::external_body]
fn hmap_try_insert(
    m: &mut http::HeaderMap<HttpHeaderValue>,
    name: http::HeaderName,
    value: HttpHeaderValue,
) -> (r: Result<Option<HttpHeaderValue>, HeaderMapFull>)
    ensures
        match r {
            Ok(prev) => {
                &&& hmap_view(*final(m)) == hmap_view(*old(m)).insert(
                    header_name_bytes(name),
                    seq![value@],
                )
                &&& if hmap_view(*old(m)).dom().contains(header_name_bytes(name)) {
                    prev matches Some(p) && p@ == hmap_view(*old(m))[header_name_bytes(name)][0]
                } else {
                    prev is None
                }
            },
            Err(_) => hmap_view(*final(m)) == hmap_view(*old(m)),
        },
        hmap_len(*old(m)) <= HMAP_SAFE_ENTRIES ==> r is Ok,
        r is Ok ==> hmap_len(*final(m)) + group_len(hmap_view(*old(m)), header_name_bytes(name))
            == hmap_len(*old(m)) + 1,
        r is Err ==> hmap_len(*final(m)) == hmap_len(*old(m)),
{
    match m.try_insert(name, value) {
        Ok(prev) => Ok(prev),
        Err(_) => Err(HeaderMapFull),
    }
}

/// Relies on http::HeaderMap::try_append: on success the value joins
/// the end of the key's group and the result says whether the key was
/// already present; on failure the map is unchanged.  While the entry
/// count is at most `HMAP_SAFE_ENTRIES`, the call succeeds.
#[verifier::external_body]
fn hmap_try_append(
    m: &mut http::HeaderMap<HttpHeaderValue>,
    name: http::HeaderName,
    value: HttpHeaderValue,
) -> (r: Result<bool, HeaderMapFull>)
    ensures
        match r {
            Ok(had) => {
                &&& hmap_view(*final(m)) == append_entry(
                    hmap_view(*old(m)),
                    header_name_bytes(name),
                    value@,
                )
                &&& had == hmap_view(*old(m)).dom().contains(header_name_bytes(name))
            },
            Err(_) => hmap_view(*final(m)) == hmap_view(*old(m)),
        },
        hmap_len(*old(m)) <= HMAP_SAFE_ENTRIES ==> r is Ok,
        r is Ok ==> hmap_len(*final(m)) == hmap_len(*old(m)) + 1,
        r is Err ==> hmap_len(*final(m)) == hmap_len(*old(m)),
{
    match m.try_append(name, value) {
        Ok(had) => Ok(had),
        Err(_) => Err(HeaderMapFull),
    }
}

/// Relies on http::HeaderMap::try_append at http's own value type,
/// with the same success bound.
#[verifier::external_body]
fn hv_map_try_append(
    m: &mut http::HeaderMap<http::HeaderValue>,
    name: http::HeaderName,
    value: http::HeaderValue,
) -> (r: Result<bool, HeaderMapFull>)
    ensures
        match r {
            Ok(had) => {
                &&& hv_map_view(*final(m)) == append_entry(
                    hv_map_view(*old(m)),
                    header_name_bytes(name),
                    http_value_bytes(value),
                )
                &&& had == hv_map_view(*old(m)).dom().contains(header_name_bytes(name))
            },
            Err(_) => hv_map_view(*final(m)) == hv_map_view(*old(m)),
        },
        hv_map_len(*old(m)) <= HMAP_SAFE_ENTRIES ==> r is Ok,
        r is Ok ==> hv_map_len(*final(m)) == hv_map_len(*old(m)) + 1,
        r is Err ==> hv_map_len(*final(m)) == hv_map_len(*old(m)),
{
    match m.try_append(name, value) {
        Ok(had) => Ok(had),
        Err(_) => Err(HeaderMapFull),
    }
}

/// Relies on http::HeaderMap::remove: all values of the key leave,
/// the first comes back.
#[verifier::external_body]
fn hmap_remove(m: &mut http::HeaderMap<HttpHeaderValue>, name: &http::HeaderName) -> (r: Option<
    HttpHeaderValue,
>)
    ensures
        hmap_view(*final(m)) == hmap_view(*old(m)).remove(header_name_bytes(*name)),
        hmap_len(*final(m)) + group_len(hmap_view(*old(m)), header_name_bytes(*name)) == hmap_len(
            *old(m),
        ),
        if hmap_view(*old(m)).dom().contains(header_name_bytes(*name)) {
            r matches Some(p) && p@ == hmap_view(*old(m))[header_name_bytes(*name)][0]
        } else {
            r is None
        },
{
    m.remove(name)
}

/// Relies on http::HeaderMap::contains_key.
#[verifier::external_body]
fn hmap_contains_key(m: &http::HeaderMap<HttpHeaderValue>, name: &http::HeaderName) -> (r: bool)
    ensures
        r == hmap_view(*m).dom().contains(header_name_bytes(*name)),
{
    m.contains_key(name)
}

/// Relies on http::HeaderMap::get: the first value of the key.
#[verifier::external_body]
fn hmap_get<'a>(m: &'a http::HeaderMap<HttpHeaderValue>, name: &http::HeaderName) -> (r: Option<
    &'a HttpHeaderValue,
>)
    ensures
        if hmap_view(*m).dom().contains(header_name_bytes(*name)) {
            r matches Some(p) && p@ == hmap_view(*m)[header_name_bytes(*name)][0]
        } else {
            r is None
        },
{
    m.get(name)
}

/// Relies on http::HeaderMap::get_all: every value of the key, in the
/// order they were inserted; cloned out into a plain vector.
#[verifier::external_body]
fn hmap_get_all(m: &http::HeaderMap<HttpHeaderValue>, name: &http::HeaderName) -> (r: Vec<
    HttpHeaderValue,
>)
    ensures
        if hmap_view(*m).dom().contains(header_name_bytes(*name)) {
            r@.map_values(|v: HttpHeaderValue| v@) == hmap_view(*m)[header_name_bytes(*name)]
        } else {
            r@.len() == 0
        },
{
    m.get_all(name).iter().map(|v| HttpHeaderValue { bytes: v.bytes.clone() }).collect()
}

/// Relies on http::HeaderMap::is_empty: no entries at all.
#[verifier::external_body]
fn hmap_is_empty(m: &http::HeaderMap<HttpHeaderValue>) -> (r: bool)
    ensures
        r == (hmap_view(*m).dom() == Set::<Seq<u8>>::empty()),
{
    m.is_empty()
}

/// Relies on http::HeaderMap::drain: the map is left empty and every
/// entry comes out once, grouped by name; the first pair of a group
/// carries the name and the group's further pairs carry none, so
/// regrouping the pairs restores exactly the old contents.  The first
/// pair yielded, if any, always carries its name.
#[verifier::external_body]
fn hmap_drain(m: &mut http::HeaderMap<HttpHeaderValue>) -> (r: Vec<
    (Option<http::HeaderName>, HttpHeaderValue),
>)
    ensures
        hmap_view(*final(m)) == empty_groups(),
        hmap_len(*final(m)) == 0,
        regroup(pairs_bytes(r@)) == Some(hmap_view(*old(m))),
        r@.len() == hmap_len(*old(m)),
        r@.len() > 0 ==> r@[0].0 is Some,
{
    m.drain().collect()
}

/// Relies on http::HeaderMap::iter: every entry comes out once,
/// named, with the values of one name in insertion order relative to
/// each other; cloned out into a plain vector, the map untouched.
#[verifier::external_body]
fn hmap_iter_pairs(m: &http::HeaderMap<HttpHeaderValue>) -> (r: Vec<
    (http::HeaderName, HttpHeaderValue),
>)
    ensures
        regroup(all_pairs_bytes(r@)) == Some(hmap_view(*m)),
        r@.len() == hmap_len(*m),
{
    m.iter().map(|(n, v)| (n.clone(), HttpHeaderValue { bytes: v.bytes.clone() })).collect()
}

/// Iterated pairs reduced to byte strings; every pair carries its
/// name.
pub open spec fn all_pairs_bytes(pairs: Seq<(http::HeaderName, HttpHeaderValue)>) -> Seq<
    (Option<Seq<u8>>, Seq<u8>),
> {
    pairs.map_values(
        |p: (http::HeaderName, HttpHeaderValue)| (Some(header_name_bytes(p.0)), p.1@),
    )
}

/// The drained pairs reduced to byte strings.
pub open spec fn pairs_bytes(pairs: Seq<(Option<http::HeaderName>, HttpHeaderValue)>) -> Seq<
    (Option<Seq<u8>>, Seq<u8>),
> {
    pairs.map_values(
        |p: (Option<http::HeaderName>, HttpHeaderValue)|
            (
                match p.0 {
                    Some(n) => Some(header_name_bytes(n)),
                    None => None,
                },
                p.1@,
            ),
    )
}

/// Rebuilds a header multimap from drained pairs: a pair without a
/// name belongs to the name of the nearest earlier pair; a nameless
/// pair before any named one makes the sequence meaningless.
pub open spec fn regroup_from(
    pairs: Seq<(Option<Seq<u8>>, Seq<u8>)>,
    i: int,
    last: Option<Seq<u8>>,
    acc: Map<Seq<u8>, Seq<Seq<u8>>>,
) -> Option<Map<Seq<u8>, Seq<Seq<u8>>>>
    decreases pairs.len() - i,
{
    if i < 0 || i >= pairs.len() {
        Some(acc)
    } else {
        let name = match pairs[i].0 {
            Some(n) => Some(n),
            None => last,
        };
        match name {
            None => None,
            Some(n) => regroup_from(pairs, i + 1, Some(n), append_entry(acc, n, pairs[i].1)),
        }
    }
}

pub open spec fn regroup(pairs: Seq<(Option<Seq<u8>>, Seq<u8>)>) -> Option<
    Map<Seq<u8>, Seq<Seq<u8>>>,
> {
    regroup_from(pairs, 0, None, empty_groups())
}

/// An ordered multimap of HTTP headers, held in http's header map.
pub struct HttpHeaderMap {
    inner: http::HeaderMap<HttpHeaderValue>,
}

impl HttpHeaderMap {
    pub closed spec fn view_spec(&self) -> Map<Seq<u8>, Seq<Seq<u8>>> {
        hmap_view(self.inner)
    }

    /// How many (name, value) entries the map holds.
    pub closed spec fn len_spec(&self) -> nat {
        hmap_len(self.inner)
    }

    pub fn new() -> (r: Self)
        ensures
            r.view_spec() == empty_groups(),
            r.len_spec() == 0,
    {
        HttpHeaderMap { inner: new_inner_map() }
    }

    pub fn is_empty(&self) -> (r: bool)
        ensures
            r == (self.view_spec().dom() == Set::<Seq<u8>>::empty()),
    {
        hmap_is_empty(&self.inner)
    }

    /// Makes `value` the key's only value; the first previous value,
    /// if any, comes back.  While the map holds no more than
    /// `HMAP_SAFE_ENTRIES` entries the call is accepted; on a refusal
    /// nothing changes.
    pub fn insert(&mut self, name: http::HeaderName, value: HttpHeaderValue) -> (r: Result<
        Option<HttpHeaderValue>,
        HeaderMapFull,
    >)
        ensures
            match r {
                Ok(prev) => {
                    &&& final(self).view_spec() == old(self).view_spec().insert(
                        header_name_bytes(name),
                        seq![value@],
                    )
                    &&& if old(self).view_spec().dom().contains(header_name_bytes(name)) {
                        prev matches Some(p) && p@ == old(self).view_spec()[header_name_bytes(
                            name,
                        )][0]
                    } else {
                        prev is None
                    }
                },
                Err(_) => final(self).view_spec() == old(self).view_spec(),
            },
            old(self).len_spec() <= HMAP_SAFE_ENTRIES ==> r is Ok,
            r is Ok ==> final(self).len_spec() + group_len(
                old(self).view_spec(),
                header_name_bytes(name),
            ) == old(self).len_spec() + 1,
            r is Err ==> final(self).len_spec() == old(self).len_spec(),
    {
        hmap_try_insert(&mut self.inner, name, value)
    }

    /// Adds `value` at the end of the key's group.  While the map
    /// holds no more than `HMAP_SAFE_ENTRIES` entries the call is
    /// accepted; on a refusal nothing changes.
    pub fn append(&mut self, name: http::HeaderName, value: HttpHeaderValue) -> (r: Result<
        (),
        HeaderMapFull,
    >)
        ensures
            match r {
                Ok(_) => final(self).view_spec() == append_entry(
                    old(self).view_spec(),
                    header_name_bytes(name),
                    value@,
                ),
                Err(_) => final(self).view_spec() == old(self).view_spec(),
            },
            old(self).len_spec() <= HMAP_SAFE_ENTRIES ==> r is Ok,
            r is Ok ==> final(self).len_spec() == old(self).len_spec() + 1,
            r is Err ==> final(self).len_spec() == old(self).len_spec(),
    {
        match hmap_try_append(&mut self.inner, name, value) {
            Ok(_) => Ok(()),
            Err(e) => Err(e),
        }
    }

    /// Removes the key with all its values; the first one comes back.
    pub fn remove(&mut self, name: &http::HeaderName) -> (r: Option<HttpHeaderValue>)
        ensures
            final(self).view_spec() == old(self).view_spec().remove(header_name_bytes(*name)),
            final(self).len_spec() + group_len(old(self).view_spec(), header_name_bytes(*name))
                == old(self).len_spec(),
            if old(self).view_spec().dom().contains(header_name_bytes(*name)) {
                r matches Some(p) && p@ == old(self).view_spec()[header_name_bytes(*name)][0]
            } else {
                r is None
            },
    {
        hmap_remove(&mut self.inner, name)
    }

    pub fn contains_key(&self, name: &http::HeaderName) -> (r: bool)
        ensures
            r == self.view_spec().dom().contains(header_name_bytes(*name)),
    {
        hmap_contains_key(&self.inner, name)
    }

    /// The first value of the key.
    pub fn get<'a>(&'a self, name: &http::HeaderName) -> (r: Option<&'a HttpHeaderValue>)
        ensures
            if self.view_spec().dom().contains(header_name_bytes(*name)) {
                r matches Some(p) && p@ == self.view_spec()[header_name_bytes(*name)][0]
            } else {
                r is None
            },
    {
        hmap_get(&self.inner, name)
    }

    /// Every value of the key, in insertion order.
    pub fn get_all(&self, name: &http::HeaderName) -> (r: Vec<HttpHeaderValue>)
        ensures
            if self.view_spec().dom().contains(header_name_bytes(*name)) {
                r@.map_values(|v: HttpHeaderValue| v@) == self.view_spec()[header_name_bytes(
                    *name,
                )]
            } else {
                r@.len() == 0
            },
    {
        hmap_get_all(&self.inner, name)
    }

    /// Empties the map, handing every entry out once: each group's
    /// first pair carries the name, its further pairs do not, so
    /// regrouping the pairs restores exactly what the map held.
    pub fn drain(&mut self) -> (r: Vec<(Option<http::HeaderName>, HttpHeaderValue)>)
        ensures
            final(self).view_spec() == empty_groups(),
            final(self).len_spec() == 0,
            regroup(pairs_bytes(r@)) == Some(old(self).view_spec()),
            r@.len() == old(self).len_spec(),
            r@.len() > 0 ==> r@[0].0 is Some,
    {
        hmap_drain(&mut self.inner)
    }

    /// Every entry once, under its name, with the values of one name
    /// in insertion order relative to each other; the map untouched.
    pub fn entries(&self) -> (r: Vec<(http::HeaderName, HttpHeaderValue)>)
        ensures
            regroup(all_pairs_bytes(r@)) == Some(self.view_spec()),
            r@.len() == self.len_spec(),
    {
        hmap_iter_pairs(&self.inner)
    }

    /// Rebuilds the same contents in a map of http's own value type,
    /// by draining this map and re-associating each nameless drained
    /// pair with the nearest earlier name, as the drain order defines
    /// it.  A map of at most `HMAP_SAFE_ENTRIES` entries always
    /// converts; past that the target map may refuse an entry, and
    /// the conversion reports it rather than drop pairs.
    #[verifier::loop_isolation(false)]
    pub fn into_header_map(self) -> (r: Result<http::HeaderMap<http::HeaderValue>, HeaderMapFull>)
        ensures
            r matches Ok(out) ==> hv_map_view(out) == self.view_spec(),
            self.len_spec() <= HMAP_SAFE_ENTRIES ==> r is Ok,
    {
        let ghost orig = self.view_spec();
        let ghost orig_len = self.len_spec();
        let mut this = self;
        let pairs = this.drain();
        let ghost pb = pairs_bytes(pairs@);
        let mut out = new_value_map();
        let mut last_name: Option<http::HeaderName> = None;
        let mut i: usize = 0;
        while i < pairs.len()
            invariant
                0 <= i <= pairs@.len(),
                pairs@.len() == orig_len,
                pb == pairs_bytes(pairs@),
                hv_map_len(out) == i,
                regroup_from(pb, i as int, name_bytes_opt(last_name), hv_map_view(out)) == Some(
                    orig,
                ),
            decreases pairs@.len() - i,
        {
            let p = &pairs[i];
            proof {
                use_type_invariant(&p.1);
                assert(pb[i as int] == (
                    match p.0 {
                        Some(n) => Some(header_name_bytes(n)),
                        None => None::<Seq<u8>>,
                    },
                    p.1@,
                ));
            }
            let hv = to_http_value(&p.1);
            match &p.0 {
                Some(n) => {
                    let n2 = clone_header_name(n);
                    let n3 = clone_header_name(n);
                    let appended = hv_map_try_append(&mut out, n2, hv);
                    if appended.is_err() {
                        proof {
                            assert(orig_len > HMAP_SAFE_ENTRIES);
                        }
                        return Err(HeaderMapFull);
                    }
                    last_name = Some(n3);
                },
                None => {
                    match &last_name {
                        Some(n) => {
                            let n2 = clone_header_name(n);
                            let appended = hv_map_try_append(&mut out, n2, hv);
                            if appended.is_err() {
                                proof {
                                    assert(orig_len > HMAP_SAFE_ENTRIES);
                                }
                                return Err(HeaderMapFull);
                            }
                        },
                        None => {
                            proof {
                                assert(false);
                            }
                        },
                    }
                },
            }
            i += 1;
        }
        Ok(out)
    }

    /// The same rebuild without consuming this map: every entry is
    /// read out under its name and appended into a map of http's own
    /// value type.  A map of at most `HMAP_SAFE_ENTRIES` entries
    /// always converts.
    pub fn to_header_map(&self) -> (r: Result<http::HeaderMap<http::HeaderValue>, HeaderMapFull>)
        ensures
            r matches Ok(out) ==> hv_map_view(out) == self.view_spec(),
            self.len_spec() <= HMAP_SAFE_ENTRIES ==> r is Ok,
    {
        let pairs = self.entries();
        let ghost pb = all_pairs_bytes(pairs@);
        let mut out = new_value_map();
        let ghost last: Option<Seq<u8>> = None;
        let mut i: usize = 0;
        while i < pairs.len()
            invariant
                0 <= i <= pairs@.len(),
                pairs@.len() == self.len_spec(),
                pb == all_pairs_bytes(pairs@),
                hv_map_len(out) == i,
                exists|ln: Option<Seq<u8>>|
                    #[trigger] regroup_from(pb, i as int, ln, hv_map_view(out)) == Some(
                        self.view_spec(),
                    ),
            decreases pairs@.len() - i,
        {
            let p = &pairs[i];
            proof {
                use_type_invariant(&p.1);
                assert(pb[i as int] == (Some(header_name_bytes(p.0)), p.1@));
            }
            let hv = to_http_value(&p.1);
            let n2 = clone_header_name(&p.0);
            let ghost old_out = hv_map_view(out);
            let appended = hv_map_try_append(&mut out, n2, hv);
            if appended.is_err() {
                proof {
                    assert(i > HMAP_SAFE_ENTRIES);
                }
                return Err(HeaderMapFull);
            }
            proof {
                let ln = choose|ln: Option<Seq<u8>>|
                    #[trigger] regroup_from(pb, i as int, ln, old_out) == Some(self.view_spec());
                assert(regroup_from(
                    pb,
                    i + 1,
                    Some(header_name_bytes(p.0)),
                    hv_map_view(out),
                ) == Some(self.view_spec()));
            }
            i += 1;
        }
        Ok(out)
    }
}

/// The bytes of an optional carried name.
pub open spec fn name_bytes_opt(o: Option<http::HeaderName>) -> Option<Seq<u8>> {
    match o {
        Some(n) => Some(header_name_bytes(n)),
        None => None,
    }
}

impl Default for HttpHeaderMap {
    /// The empty header map.
    fn default() -> (r: Self)
        ensures
            r.view_spec() == empty_groups(),
    {
        HttpHeaderMap::new()
    }
}

} // verus!
