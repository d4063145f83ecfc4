//! The request/response engine: request descriptors, query-string and URL
//! construction, blocking-query parameters, consistency-index extraction,
//! the structured error taxonomy, and the write-result check.

use vstd::prelude::*;

use crate::decimal::all_digits;
use crate::decimal::decimal_digits;
use crate::decimal::decimal_value;
use crate::decimal::parse_decimal_u64;
use crate::decimal::u64_to_decimal;
use crate::encoding::percent_encode;
use crate::encoding::percent_encoded;

verus! {

/// HTTP method of a prepared request.
#[derive(Clone, Copy, Debug, PartialEq, Eq, Structural)]
pub enum Method {
    Get,
    Put,
}

/// A fully described request: everything the transport needs besides the
/// client's base URL. Parameters are ordered key/value pairs; values are
/// percent-encoded only when the URL is assembled.
#[derive(Debug)]
pub struct ClientRequest {
    pub method: Method,
    pub path: Vec<u8>,
    pub params: Vec<(Vec<u8>, Vec<u8>)>,
    pub body: Option<Vec<u8>>,
}

/// Options of a single, possibly blocking, query. A `wait_index` of zero
/// and an absent `wait_time` mean an ordinary non-blocking read.
#[derive(Debug)]
pub struct QueryOption {
    pub wait_index: u64,
    /// Wait duration in whole seconds.
    pub wait_time: Option<u64>,
    pub dc: Option<Vec<u8>>,
    pub tag: Option<Vec<u8>>,
}

/// Consistency metadata of one response: the server's state version, to be
/// used as the next blocking query's wait index.
#[derive(Clone, Copy, Debug, PartialEq, Eq, Structural)]
pub struct QueryMeta {
    pub last_index: u64,
}

impl Default for QueryMeta {
    /// The metadata of a response that carried no index header.
    fn default() -> (m: Self)
        ensures
            m.last_index == 0,
    {
        QueryMeta { last_index: 0 }
    }
}

/// Why a query failed. Exactly one variant describes each failure; an
/// application-level failure still carries the consistency metadata and the
/// raw body observed on that exact response.
#[derive(Debug)]
pub enum QueryError {
    /// The request could not be sent or the response not fully read.
    TransportFailure(String),
    /// The server answered with a non-success status.
    ApplicationError(u16, QueryMeta, Vec<u8>),
    /// The body of a successful response did not decode.
    DecodeFailure(String),
}

/// A parameter list as mathematical sequences of bytes.
pub open spec fn params_view(ps: Seq<(Vec<u8>, Vec<u8>)>) -> Seq<(Seq<u8>, Seq<u8>)> {
    ps.map_values(|p: (Vec<u8>, Vec<u8>)| (p.0@, p.1@))
}

/// One `key=value` pair as it appears in the query string: the key as
/// given, the value percent-encoded.
pub open spec fn pair_bytes(p: (Seq<u8>, Seq<u8>)) -> Seq<u8> {
    p.0 + seq![('=' as u8)] + percent_encoded(p.1)
}

/// The whole query string: the pairs in their given order, joined by `&`.
pub open spec fn query_string(ps: Seq<(Seq<u8>, Seq<u8>)>) -> Seq<u8>
    decreases ps.len(),
{
    if ps.len() == 0 {
        Seq::empty()
    } else if ps.len() == 1 {
        pair_bytes(ps[0])
    } else {
        query_string(ps.drop_last()) + seq![('&' as u8)] + pair_bytes(ps.last())
    }
}

/// A full URL: base, path as given, `?`, then the query string.
pub open spec fn url_bytes(base: Seq<u8>, path: Seq<u8>, ps: Seq<(Seq<u8>, Seq<u8>)>) -> Seq<u8> {
    base + path + seq![('?' as u8)] + query_string(ps)
}

/// A base URL extended, when needed, to end with a single `/`.
pub open spec fn normalized_base(s: Seq<u8>) -> Seq<u8> {
    if s.len() > 0 && s.last() == ('/' as u8) {
        s
    } else {
        s.push('/' as u8)
    }
}

/// Build the query string of an ordered parameter list.
pub fn build_query_string(params: &Vec<(Vec<u8>, Vec<u8>)>) -> (out: Vec<u8>)
    ensures
        out@ == query_string(params_view(params@)),
{
    let mut out: Vec<u8> = Vec::new();
    let mut i: usize = 0;
    proof {
        assert(params_view(params@).take(0) =~= Seq::<(Seq<u8>, Seq<u8>)>::empty());
    }
    while i < params.len()
        invariant
            i <= params.len(),
            out@ == query_string(params_view(params@).take(i as int)),
        decreases params.len() - i,
    {
        if i > 0 {
            out.push('&' as u8);
        }
        let pair = &params[i];
        out.extend_from_slice(pair.0.as_slice());
        out.push('=' as u8);
        let enc = percent_encode(pair.1.as_slice());
        out.extend_from_slice(enc.as_slice());
        proof {
            let pv = params_view(params@);
            assert(pv[i as int] == (params@[i as int].0@, params@[i as int].1@));
            assert(pv.take(i + 1).drop_last() =~= pv.take(i as int));
            assert(pv.take(i + 1).last() == pv[i as int]);
            assert(out@ =~= query_string(pv.take(i + 1)));
        }
        i += 1;
    }
    proof {
        assert(params_view(params@).take(params@.len() as int) =~= params_view(params@));
    }
    out
}

/// Client configuration: the normalized base URL and the optional access
/// token the transport attaches to every request.
#[derive(Debug)]
pub struct Client {
    pub base: Vec<u8>,
    pub token: Option<Vec<u8>>,
}

impl Client {
    /// The base URL ends with exactly one trailing separator.
    pub open spec fn wf(self) -> bool {
        self.base@.len() > 0 && self.base@.last() == ('/' as u8)
    }

    /// A client against `base`, which gains a trailing `/` unless it
    /// already ends with one.
    pub fn new(base: Vec<u8>, token: Option<Vec<u8>>) -> (c: Client)
        ensures
            c.base@ == normalized_base(base@),
            c.token == token,
            c.wf(),
    {
        let mut base = base;
        let n = base.len();
        if n == 0 || base[n - 1] != ('/' as u8) {
            base.push('/' as u8);
        }
        Client { base, token }
    }

    /// The absolute URL of a prepared request against this client's base:
    /// base, path, `?`, query string.
    pub fn build_url(&self, req: &ClientRequest) -> (out: Vec<u8>)
        ensures
            out@ == url_bytes(self.base@, req.path@, params_view(req.params@)),
    {
        let mut out: Vec<u8> = Vec::new();
        out.extend_from_slice(self.base.as_slice());
        out.extend_from_slice(req.path.as_slice());
        out.push('?' as u8);
        let qs = build_query_string(&req.params);
        out.extend_from_slice(qs.as_slice());
        proof {
            assert(out@ =~= url_bytes(self.base@, req.path@, params_view(req.params@)));
        }
        out
    }
}

/// The `dc` parameter key.
pub open spec fn key_dc() -> Seq<u8> {
    seq![('d' as u8), ('c' as u8)]
}

/// The `tag` parameter key.
pub open spec fn key_tag() -> Seq<u8> {
    seq![('t' as u8), ('a' as u8), ('g' as u8)]
}

/// The `index` parameter key.
pub open spec fn key_index() -> Seq<u8> {
    seq![('i' as u8), ('n' as u8), ('d' as u8), ('e' as u8), ('x' as u8)]
}

/// The `wait` parameter key.
pub open spec fn key_wait() -> Seq<u8> {
    seq![('w' as u8), ('a' as u8), ('i' as u8), ('t' as u8)]
}

/// What the datacenter filter contributes to the parameter list.
pub open spec fn dc_params(q: QueryOption) -> Seq<(Seq<u8>, Seq<u8>)> {
    match q.dc {
        Option::Some(d) => seq![(key_dc(), d@)],
        Option::None => Seq::empty(),
    }
}

/// What the tag filter contributes to the parameter list.
pub open spec fn tag_params(q: QueryOption) -> Seq<(Seq<u8>, Seq<u8>)> {
    match q.tag {
        Option::Some(t) => seq![(key_tag(), t@)],
        Option::None => Seq::empty(),
    }
}

/// What the wait index contributes: its decimal digits, and nothing at all
/// when it is zero, the non-blocking read.
pub open spec fn index_params(q: QueryOption) -> Seq<(Seq<u8>, Seq<u8>)> {
    if q.wait_index != 0 {
        seq![(key_index(), decimal_digits(q.wait_index as nat))]
    } else {
        Seq::empty()
    }
}

/// What the wait duration contributes: whole seconds suffixed with `s`.
pub open spec fn wait_params(q: QueryOption) -> Seq<(Seq<u8>, Seq<u8>)> {
    match q.wait_time {
        Option::Some(secs) => seq![(key_wait(), decimal_digits(secs as nat).push('s' as u8))],
        Option::None => Seq::empty(),
    }
}

/// Everything a `QueryOption` contributes, in fixed order: datacenter,
/// tag, wait index, wait duration.
pub open spec fn option_params(q: QueryOption) -> Seq<(Seq<u8>, Seq<u8>)> {
    dc_params(q) + tag_params(q) + index_params(q) + wait_params(q)
}

/// The contribution of an optional `QueryOption`.
pub open spec fn optional_params(qo: Option<QueryOption>) -> Seq<(Seq<u8>, Seq<u8>)> {
    match qo {
        Option::Some(q) => option_params(q),
        Option::None => Seq::empty(),
    }
}

/// Append the consistency and filter parameters a query option asks for,
/// in fixed order, after the parameters already present.
pub fn apply_query_options(params: &mut Vec<(Vec<u8>, Vec<u8>)>, qo: Option<QueryOption>)
    ensures
        params_view(final(params)@) == params_view(old(params)@) + optional_params(qo),
{
    let ghost start = params_view(old(params)@);
    match qo {
        Option::None => {
            proof {
                assert(params_view(params@) =~= start + optional_params(qo));
            }
        },
        Option::Some(q) => {
            let QueryOption { wait_index, wait_time, dc, tag } = q;
            match dc {
                Option::Some(d) => {
                    let mut k: Vec<u8> = Vec::new();
                    k.push('d' as u8);
                    k.push('c' as u8);
                    proof {
                        assert(k@ =~= key_dc());
                    }
                    params.push((k, d));
                },
                Option::None => {},
            }
            proof {
                assert(params_view(params@) =~= start + dc_params(q));
            }
            match tag {
                Option::Some(t) => {
                    let mut k: Vec<u8> = Vec::new();
                    k.push('t' as u8);
                    k.push('a' as u8);
                    k.push('g' as u8);
                    proof {
                        assert(k@ =~= key_tag());
                    }
                    params.push((k, t));
                },
                Option::None => {},
            }
            proof {
                assert(params_view(params@) =~= start + dc_params(q) + tag_params(q));
            }
            if wait_index != 0 {
                let mut k: Vec<u8> = Vec::new();
                k.push('i' as u8);
                k.push('n' as u8);
                k.push('d' as u8);
                k.push('e' as u8);
                k.push('x' as u8);
                proof {
                    assert(k@ =~= key_index());
                }
                let v = u64_to_decimal(wait_index);
                params.push((k, v));
            }
            proof {
                assert(params_view(params@) =~= start + dc_params(q) + tag_params(q)
                    + index_params(q));
            }
            match wait_time {
                Option::Some(secs) => {
                    let mut k: Vec<u8> = Vec::new();
                    k.push('w' as u8);
                    k.push('a' as u8);
                    k.push('i' as u8);
                    k.push('t' as u8);
                    proof {
                        assert(k@ =~= key_wait());
                    }
                    let mut v = u64_to_decimal(secs);
                    v.push('s' as u8);
                    params.push((k, v));
                },
                Option::None => {},
            }
            proof {
                assert(params_view(params@) =~= start + dc_params(q) + tag_params(q)
                    + index_params(q) + wait_params(q));
                assert(params_view(params@) =~= start + optional_params(qo));
            }
        },
    }
}

/// The index a response's consistency header denotes: the decimal value of
/// the header when it is present, all digits and in range; zero otherwise.
pub open spec fn header_index(h: Option<Seq<u8>>) -> nat {
    match h {
        Option::Some(s) => if s.len() > 0 && all_digits(s) && decimal_value(s) <= u64::MAX {
            decimal_value(s)
        } else {
            0
        },
        Option::None => 0,
    }
}

/// The byte string of an optional header value.
pub open spec fn header_view(h: Option<&[u8]>) -> Option<Seq<u8>> {
    match h {
        Option::Some(s) => Option::Some(s@),
        Option::None => Option::None,
    }
}

/// Consistency metadata from the raw index header of a response. A missing
/// or malformed header degrades to index zero instead of failing the call.
pub fn parse_query_meta(index_header: Option<&[u8]>) -> (meta: QueryMeta)
    ensures
        meta.last_index as nat == header_index(header_view(index_header)),
{
    match index_header {
        Option::Some(h) => match parse_decimal_u64(h) {
            Option::Some(v) => QueryMeta { last_index: v },
            Option::None => QueryMeta { last_index: 0 },
        },
        Option::None => QueryMeta { last_index: 0 },
    }
}

/// Whether a status code counts as success.
pub open spec fn is_success_status(status: u16) -> bool {
    200 <= status && status < 300
}

/// Whether a status code counts as success.
pub fn status_is_success(status: u16) -> (ok: bool)
    ensures
        ok == is_success_status(status),
{
    200 <= status && status < 300
}

/// Interpret a raw query response. The consistency metadata is taken from
/// the index header before the status is inspected, so a failed query
/// still reports the index observed on that exact response; a non-success
/// status becomes the application error carrying status, metadata and the
/// unread body.
pub fn interpret_query_response(status: u16, index_header: Option<&[u8]>, body: Vec<u8>) -> (out:
    Result<(QueryMeta, Vec<u8>), QueryError>)
    ensures
        is_success_status(status) ==> (out matches Result::Ok(p) && p.0.last_index as nat
            == header_index(header_view(index_header)) && p.1@ == body@),
        !is_success_status(status) ==> (out matches Result::Err(
            QueryError::ApplicationError(s, m, b),
        ) && s == status && m.last_index as nat == header_index(header_view(index_header)) && b@
            == body@),
{
    let meta = parse_query_meta(index_header);
    if status_is_success(status) {
        Result::Ok((meta, body))
    } else {
        Result::Err(QueryError::ApplicationError(status, meta, body))
    }
}

/// Attach consistency metadata to a decoded body, or surface the decoder's
/// report as the decode failure; a partial value is never produced.
pub fn decode_step<T>(meta: QueryMeta, decoded: Result<T, String>) -> (out: Result<
    (QueryMeta, T),
    QueryError,
>)
    ensures
        decoded matches Result::Ok(v) ==> (out matches Result::Ok(p) && p.0 == meta && p.1 == v),
        decoded matches Result::Err(e) ==> (out matches Result::Err(QueryError::DecodeFailure(m))
            && m == e),
{
    match decoded {
        Result::Ok(v) => Result::Ok((meta, v)),
        Result::Err(e) => Result::Err(QueryError::DecodeFailure(e)),
    }
}

/// The only response body that reports a completed KV write.
pub open spec fn cas_success_marker() -> Seq<u8> {
    seq![('t' as u8), ('r' as u8), ('u' as u8), ('e' as u8)]
}

/// Whether a put or compare-and-swap response reports that the write took
/// place: a success status whose body is exactly the marker, byte for
/// byte. Anything else — other text, extra whitespace, other case — means
/// the swap did not occur.
pub fn put_succeeded(status: u16, body: &[u8]) -> (ok: bool)
    ensures
        ok == (is_success_status(status) && body@ == cas_success_marker()),
{
    proof {
        assert(cas_success_marker().len() == 4);
        assert(cas_success_marker()[0] == ('t' as u8));
        assert(cas_success_marker()[1] == ('r' as u8));
        assert(cas_success_marker()[2] == ('u' as u8));
        assert(cas_success_marker()[3] == ('e' as u8));
    }
    if !status_is_success(status) {
        return false;
    }
    if body.len() != 4 {
        return false;
    }
    let same = body[0] == ('t' as u8) && body[1] == ('r' as u8) && body[2] == ('u' as u8) && body[3]
        == ('e' as u8);
    proof {
        if same {
            assert(body@ =~= cas_success_marker());
        }
    }
    same
}

/// Whether two query options ask for the same thing: equal wait settings,
/// and datacenter and tag equal as byte strings.
pub open spec fn options_equivalent(a: QueryOption, b: QueryOption) -> bool {
    a.wait_index == b.wait_index && a.wait_time == b.wait_time && (match (a.dc, b.dc) {
        (Option::Some(x), Option::Some(y)) => x@ == y@,
        (Option::None, Option::None) => true,
        _ => false,
    }) && (match (a.tag, b.tag) {
        (Option::Some(x), Option::Some(y)) => x@ == y@,
        (Option::None, Option::None) => true,
        _ => false,
    })
}

/// Blocking-query parameters are deterministic: two options that ask for
/// the same thing contribute the same parameters — datacenter, tag,
/// index, wait, in that order — and so a byte-identical query string.
pub proof fn lemma_query_params_deterministic(a: QueryOption, b: QueryOption)
    requires
        options_equivalent(a, b),
    ensures
        option_params(a) == option_params(b),
        query_string(option_params(a)) == query_string(option_params(b)),
{
    match (a.dc, b.dc) {
        (Option::Some(x), Option::Some(y)) => {
            assert(dc_params(a) =~= dc_params(b));
        },
        _ => {
            assert(dc_params(a) =~= dc_params(b));
        },
    }
    match (a.tag, b.tag) {
        (Option::Some(x), Option::Some(y)) => {
            assert(tag_params(a) =~= tag_params(b));
        },
        _ => {
            assert(tag_params(a) =~= tag_params(b));
        },
    }
    assert(index_params(a) =~= index_params(b));
    assert(wait_params(a) =~= wait_params(b));
    assert(option_params(a) =~= option_params(b));
}

/// A nonzero wait index travels intact around the watch loop: the one
/// `index` parameter it contributes denotes, when read back the way the
/// consistency header is read, exactly the index that was set.
pub proof fn lemma_wait_index_round_trip(q: QueryOption)
    requires
        q.wait_index != 0,
    ensures
        index_params(q).len() == 1,
        index_params(q)[0].0 == key_index(),
        header_index(Option::Some(index_params(q)[0].1)) == q.wait_index as nat,
{
    crate::decimal::lemma_decimal_round_trip(q.wait_index as nat);
}

/// A wait index of zero is never emitted: no parameter such an option
/// contributes carries the `index` key.
pub proof fn lemma_zero_wait_index_not_emitted(q: QueryOption)
    requires
        q.wait_index == 0,
    ensures
        forall|i: int|
            0 <= i < option_params(q).len() ==> #[trigger] option_params(q)[i].0 != key_index(),
{
    assert(key_dc().len() == 2);
    assert(key_tag().len() == 3);
    assert(key_wait().len() == 4);
    assert(key_index().len() == 5);
    assert(index_params(q) =~= Seq::<(Seq<u8>, Seq<u8>)>::empty());
    assert forall|i: int|
        0 <= i < option_params(q).len() implies #[trigger] option_params(q)[i].0
        != key_index() by {
        let ps = option_params(q);
        let dcl = dc_params(q).len() as int;
        let tgl = tag_params(q).len() as int;
        if i < dcl {
            assert(ps[i] == dc_params(q)[i]);
            assert(dc_params(q)[i].0 == key_dc());
        } else if i < dcl + tgl {
            assert(ps[i] == tag_params(q)[i - dcl]);
            assert(tag_params(q)[i - dcl].0 == key_tag());
        } else {
            assert(ps[i] == wait_params(q)[i - dcl - tgl]);
            assert(wait_params(q)[i - dcl - tgl].0 == key_wait());
        }
    }
}

} // verus!
