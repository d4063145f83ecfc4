//! The endpoints: each method prepares the complete request descriptor —
//! method, path, ordered parameters, body — that the transport then
//! carries out against the client's base URL.

use vstd::prelude::*;
use vstd::slice::slice_to_vec;

use crate::client::apply_query_options;
use crate::client::key_tag;
use crate::client::optional_params;
use crate::client::params_view;
use crate::client::Client;
use crate::client::ClientRequest;
use crate::client::Method;
use crate::client::QueryOption;
use crate::decimal::decimal_digits;
use crate::decimal::u64_to_decimal;
use crate::encoding::lemma_leading_slash_irrelevant;
use crate::encoding::strip_leading_slashes;
use crate::encoding::without_leading_slashes;

verus! {

/// The path prefix of a check-pass request; the check id follows it.
pub open spec fn check_pass_prefix() -> Seq<u8> {
    seq![('/' as u8), ('v' as u8), ('1' as u8), ('/' as u8), ('a' as u8), ('g' as u8), ('e' as u8), ('n' as u8), ('t' as u8), ('/' as u8), ('c' as u8), ('h' as u8), ('e' as u8), ('c' as u8), ('k' as u8), ('/' as u8), ('p' as u8), ('a' as u8), ('s' as u8), ('s' as u8), ('/' as u8)]
}

/// The path of a service registration.
pub open spec fn register_path() -> Seq<u8> {
    seq![('v' as u8), ('1' as u8), ('/' as u8), ('a' as u8), ('g' as u8), ('e' as u8), ('n' as u8), ('t' as u8), ('/' as u8), ('s' as u8), ('e' as u8), ('r' as u8), ('v' as u8), ('i' as u8), ('c' as u8), ('e' as u8), ('/' as u8), ('r' as u8), ('e' as u8), ('g' as u8), ('i' as u8), ('s' as u8), ('t' as u8), ('e' as u8), ('r' as u8)]
}

/// The path prefix of a service deregistration; the service id follows it.
pub open spec fn deregister_prefix() -> Seq<u8> {
    seq![('/' as u8), ('v' as u8), ('1' as u8), ('/' as u8), ('a' as u8), ('g' as u8), ('e' as u8), ('n' as u8), ('t' as u8), ('/' as u8), ('s' as u8), ('e' as u8), ('r' as u8), ('v' as u8), ('i' as u8), ('c' as u8), ('e' as u8), ('/' as u8), ('d' as u8), ('e' as u8), ('r' as u8), ('e' as u8), ('g' as u8), ('i' as u8), ('s' as u8), ('t' as u8), ('e' as u8), ('r' as u8), ('/' as u8)]
}

/// The path prefix of a catalog lookup; the service name follows it.
pub open spec fn catalog_prefix() -> Seq<u8> {
    seq![('/' as u8), ('v' as u8), ('1' as u8), ('/' as u8), ('c' as u8), ('a' as u8), ('t' as u8), ('a' as u8), ('l' as u8), ('o' as u8), ('g' as u8), ('/' as u8), ('s' as u8), ('e' as u8), ('r' as u8), ('v' as u8), ('i' as u8), ('c' as u8), ('e' as u8), ('/' as u8)]
}

/// The path prefix every KV operation uses.
pub open spec fn kv_prefix() -> Seq<u8> {
    seq![('/' as u8), ('v' as u8), ('1' as u8), ('/' as u8), ('k' as u8), ('v' as u8), ('/' as u8)]
}

/// The path of every KV operation on `key`: the KV prefix, then the key
/// with its leading separators stripped.
pub open spec fn kv_path(key: Seq<u8>) -> Seq<u8> {
    kv_prefix() + without_leading_slashes(key)
}

/// KV keys that differ only in a leading separator name the same path:
/// `/foo/bar` and `foo/bar` produce identical requests.
pub proof fn lemma_kv_path_strips_leading_slash(key: Seq<u8>)
    ensures
        kv_path(seq![('/' as u8)] + key) == kv_path(key),
{
    lemma_leading_slash_irrelevant(key);
}

/// The `note` parameter key of a check-pass request.
pub open spec fn key_note() -> Seq<u8> {
    seq![('n' as u8), ('o' as u8), ('t' as u8), ('e' as u8)]
}

/// The `recurse` parameter key of a KV listing.
pub open spec fn key_recurse() -> Seq<u8> {
    seq![('r' as u8), ('e' as u8), ('c' as u8), ('u' as u8), ('r' as u8), ('s' as u8), ('e' as u8)]
}

/// The `keys` parameter key of a KV key listing.
pub open spec fn key_keys() -> Seq<u8> {
    seq![('k' as u8), ('e' as u8), ('y' as u8), ('s' as u8)]
}

/// The `cas` parameter key of a compare-and-swap write.
pub open spec fn key_cas() -> Seq<u8> {
    seq![('c' as u8), ('a' as u8), ('s' as u8)]
}

fn check_pass_prefix_vec() -> (out: Vec<u8>)
    ensures
        out@ == check_pass_prefix(),
{
    let mut out: Vec<u8> = Vec::new();
    out.push('/' as u8);
    out.push('v' as u8);
    out.push('1' as u8);
    out.push('/' as u8);
    out.push('a' as u8);
    out.push('g' as u8);
    out.push('e' as u8);
    out.push('n' as u8);
    out.push('t' as u8);
    out.push('/' as u8);
    out.push('c' as u8);
    out.push('h' as u8);
    out.push('e' as u8);
    out.push('c' as u8);
    out.push('k' as u8);
    out.push('/' as u8);
    out.push('p' as u8);
    out.push('a' as u8);
    out.push('s' as u8);
    out.push('s' as u8);
    out.push('/' as u8);
    proof {
        assert(out@ =~= check_pass_prefix());
    }
    out
}

fn register_path_vec() -> (out: Vec<u8>)
    ensures
        out@ == register_path(),
{
    let mut out: Vec<u8> = Vec::new();
    out.push('v' as u8);
    out.push('1' as u8);
    out.push('/' as u8);
    out.push('a' as u8);
    out.push('g' as u8);
    out.push('e' as u8);
    out.push('n' as u8);
    out.push('t' as u8);
    out.push('/' as u8);
    out.push('s' as u8);
    out.push('e' as u8);
    out.push('r' as u8);
    out.push('v' as u8);
    out.push('i' as u8);
    out.push('c' as u8);
    out.push('e' as u8);
    out.push('/' as u8);
    out.push('r' as u8);
    out.push('e' as u8);
    out.push('g' as u8);
    out.push('i' as u8);
    out.push('s' as u8);
    out.push('t' as u8);
    out.push('e' as u8);
    out.push('r' as u8);
    proof {
        assert(out@ =~= register_path());
    }
    out
}

fn deregister_prefix_vec() -> (out: Vec<u8>)
    ensures
        out@ == deregister_prefix(),
{
    let mut out: Vec<u8> = Vec::new();
    out.push('/' as u8);
    out.push('v' as u8);
    out.push('1' as u8);
    out.push('/' as u8);
    out.push('a' as u8);
    out.push('g' as u8);
    out.push('e' as u8);
    out.push('n' as u8);
    out.push('t' as u8);
    out.push('/' as u8);
    out.push('s' as u8);
    out.push('e' as u8);
    out.push('r' as u8);
    out.push('v' as u8);
    out.push('i' as u8);
    out.push('c' as u8);
    out.push('e' as u8);
    out.push('/' as u8);
    out.push('d' as u8);
    out.push('e' as u8);
    out.push('r' as u8);
    out.push('e' as u8);
    out.push('g' as u8);
    out.push('i' as u8);
    out.push('s' as u8);
    out.push('t' as u8);
    out.push('e' as u8);
    out.push('r' as u8);
    out.push('/' as u8);
    proof {
        assert(out@ =~= deregister_prefix());
    }
    out
}

fn catalog_prefix_vec() -> (out: Vec<u8>)
    ensures
        out@ == catalog_prefix(),
{
    let mut out: Vec<u8> = Vec::new();
    out.push('/' as u8);
    out.push('v' as u8);
    out.push('1' as u8);
    out.push('/' as u8);
    out.push('c' as u8);
    out.push('a' as u8);
    out.push('t' as u8);
    out.push('a' as u8);
    out.push('l' as u8);
    out.push('o' as u8);
    out.push('g' as u8);
    out.push('/' as u8);
    out.push('s' as u8);
    out.push('e' as u8);
    out.push('r' as u8);
    out.push('v' as u8);
    out.push('i' as u8);
    out.push('c' as u8);
    out.push('e' as u8);
    out.push('/' as u8);
    proof {
        assert(out@ =~= catalog_prefix());
    }
    out
}

/// The path of a KV operation on `key`.
fn kv_path_vec(key: &[u8]) -> (out: Vec<u8>)
    ensures
        out@ == kv_path(key@),
{
    let mut out: Vec<u8> = Vec::new();
    out.push('/' as u8);
    out.push('v' as u8);
    out.push('1' as u8);
    out.push('/' as u8);
    out.push('k' as u8);
    out.push('v' as u8);
    out.push('/' as u8);
    proof {
        assert(out@ =~= kv_prefix());
    }
    let stripped = strip_leading_slashes(key);
    out.extend_from_slice(stripped.as_slice());
    out
}

fn key_vec_note() -> (out: Vec<u8>)
    ensures
        out@ == key_note(),
{
    let mut out: Vec<u8> = Vec::new();
    out.push('n' as u8);
    out.push('o' as u8);
    out.push('t' as u8);
    out.push('e' as u8);
    proof {
        assert(out@ =~= key_note());
    }
    out
}

fn key_vec_tag() -> (out: Vec<u8>)
    ensures
        out@ == key_tag(),
{
    let mut out: Vec<u8> = Vec::new();
    out.push('t' as u8);
    out.push('a' as u8);
    out.push('g' as u8);
    proof {
        assert(out@ =~= key_tag());
    }
    out
}

fn key_vec_recurse() -> (out: Vec<u8>)
    ensures
        out@ == key_recurse(),
{
    let mut out: Vec<u8> = Vec::new();
    out.push('r' as u8);
    out.push('e' as u8);
    out.push('c' as u8);
    out.push('u' as u8);
    out.push('r' as u8);
    out.push('s' as u8);
    out.push('e' as u8);
    proof {
        assert(out@ =~= key_recurse());
    }
    out
}

fn key_vec_keys() -> (out: Vec<u8>)
    ensures
        out@ == key_keys(),
{
    let mut out: Vec<u8> = Vec::new();
    out.push('k' as u8);
    out.push('e' as u8);
    out.push('y' as u8);
    out.push('s' as u8);
    proof {
        assert(out@ =~= key_keys());
    }
    out
}

fn key_vec_cas() -> (out: Vec<u8>)
    ensures
        out@ == key_cas(),
{
    let mut out: Vec<u8> = Vec::new();
    out.push('c' as u8);
    out.push('a' as u8);
    out.push('s' as u8);
    proof {
        assert(out@ =~= key_cas());
    }
    out
}

impl Client {
    /// A check-pass request: PUT on the check's path with the note as its
    /// one parameter and no body.
    pub fn agent_check_pass(&self, id: &[u8], note: &[u8]) -> (req: ClientRequest)
        ensures
            req.method == Method::Put,
            req.path@ == check_pass_prefix() + id@,
            params_view(req.params@) == seq![(key_note(), note@)],
            req.body is None,
    {
        let mut path = check_pass_prefix_vec();
        path.extend_from_slice(id);
        let mut params: Vec<(Vec<u8>, Vec<u8>)> = Vec::new();
        params.push((key_vec_note(), slice_to_vec(note)));
        proof {
            assert(params_view(params@) =~= seq![(key_note(), note@)]);
        }
        ClientRequest { method: Method::Put, path, params, body: None }
    }

    /// A service registration: PUT of the encoded registration record,
    /// with no parameters.
    pub fn agent_service_register(&self, service_json: Vec<u8>) -> (req: ClientRequest)
        ensures
            req.method == Method::Put,
            req.path@ == register_path(),
            params_view(req.params@) == Seq::<(Seq<u8>, Seq<u8>)>::empty(),
            req.body == Some(service_json),
    {
        let params: Vec<(Vec<u8>, Vec<u8>)> = Vec::new();
        proof {
            assert(params_view(params@) =~= Seq::<(Seq<u8>, Seq<u8>)>::empty());
        }
        ClientRequest {
            method: Method::Put,
            path: register_path_vec(),
            params,
            body: Some(service_json),
        }
    }

    /// A service deregistration: PUT on the service's path, no parameters,
    /// no body.
    pub fn agent_service_deregister(&self, id: &[u8]) -> (req: ClientRequest)
        ensures
            req.method == Method::Put,
            req.path@ == deregister_prefix() + id@,
            params_view(req.params@) == Seq::<(Seq<u8>, Seq<u8>)>::empty(),
            req.body is None,
    {
        let mut path = deregister_prefix_vec();
        path.extend_from_slice(id);
        let params: Vec<(Vec<u8>, Vec<u8>)> = Vec::new();
        proof {
            assert(params_view(params@) =~= Seq::<(Seq<u8>, Seq<u8>)>::empty());
        }
        ClientRequest { method: Method::Put, path, params, body: None }
    }

    /// A catalog lookup: GET on the service's path, the tag filter first,
    /// then whatever the query option contributes.
    pub fn catalog_service(&self, service: &[u8], tag: &[u8], qo: Option<QueryOption>) -> (req:
        ClientRequest)
        ensures
            req.method == Method::Get,
            req.path@ == catalog_prefix() + service@,
            params_view(req.params@) == seq![(key_tag(), tag@)] + optional_params(qo),
            req.body is None,
    {
        let mut path = catalog_prefix_vec();
        path.extend_from_slice(service);
        let mut params: Vec<(Vec<u8>, Vec<u8>)> = Vec::new();
        params.push((key_vec_tag(), slice_to_vec(tag)));
        proof {
            assert(params_view(params@) =~= seq![(key_tag(), tag@)]);
        }
        apply_query_options(&mut params, qo);
        ClientRequest { method: Method::Get, path, params, body: None }
    }

    /// A recursive KV read below `prefix`: GET with the `recurse` marker
    /// first, then whatever the query option contributes.
    pub fn kv_list(&self, prefix: &[u8], qo: Option<QueryOption>) -> (req: ClientRequest)
        ensures
            req.method == Method::Get,
            req.path@ == kv_path(prefix@),
            params_view(req.params@) == seq![(key_recurse(), Seq::<u8>::empty())]
                + optional_params(qo),
            req.body is None,
    {
        let mut params: Vec<(Vec<u8>, Vec<u8>)> = Vec::new();
        params.push((key_vec_recurse(), Vec::new()));
        proof {
            assert(params_view(params@) =~= seq![(key_recurse(), Seq::<u8>::empty())]);
        }
        apply_query_options(&mut params, qo);
        ClientRequest { method: Method::Get, path: kv_path_vec(prefix), params, body: None }
    }

    /// A KV key listing below `prefix`: GET with the `keys` marker first,
    /// then whatever the query option contributes.
    pub fn kv_keys(&self, prefix: &[u8], qo: Option<QueryOption>) -> (req: ClientRequest)
        ensures
            req.method == Method::Get,
            req.path@ == kv_path(prefix@),
            params_view(req.params@) == seq![(key_keys(), Seq::<u8>::empty())]
                + optional_params(qo),
            req.body is None,
    {
        let mut params: Vec<(Vec<u8>, Vec<u8>)> = Vec::new();
        params.push((key_vec_keys(), Vec::new()));
        proof {
            assert(params_view(params@) =~= seq![(key_keys(), Seq::<u8>::empty())]);
        }
        apply_query_options(&mut params, qo);
        ClientRequest { method: Method::Get, path: kv_path_vec(prefix), params, body: None }
    }

    /// A KV read at `prefix`: GET with only what the query option
    /// contributes.
    pub fn kv_get(&self, prefix: &[u8], qo: Option<QueryOption>) -> (req: ClientRequest)
        ensures
            req.method == Method::Get,
            req.path@ == kv_path(prefix@),
            params_view(req.params@) == optional_params(qo),
            req.body is None,
    {
        let mut params: Vec<(Vec<u8>, Vec<u8>)> = Vec::new();
        proof {
            assert(params_view(params@) =~= Seq::<(Seq<u8>, Seq<u8>)>::empty());
        }
        apply_query_options(&mut params, qo);
        ClientRequest { method: Method::Get, path: kv_path_vec(prefix), params, body: None }
    }

    /// An unconditional KV write: PUT of the raw value on the key's path.
    pub fn kv_put(&self, key: &[u8], value: &[u8]) -> (req: ClientRequest)
        ensures
            req.method == Method::Put,
            req.path@ == kv_path(key@),
            params_view(req.params@) == Seq::<(Seq<u8>, Seq<u8>)>::empty(),
            req.body matches Some(b) && b@ == value@,
    {
        let params: Vec<(Vec<u8>, Vec<u8>)> = Vec::new();
        proof {
            assert(params_view(params@) =~= Seq::<(Seq<u8>, Seq<u8>)>::empty());
        }
        ClientRequest {
            method: Method::Put,
            path: kv_path_vec(key),
            params,
            body: Some(slice_to_vec(value)),
        }
    }

    /// A compare-and-swap KV write: PUT of the raw value with the expected
    /// index as the single `cas` parameter.
    pub fn kv_cas(&self, key: &[u8], value: &[u8], idx: u64) -> (req: ClientRequest)
        ensures
            req.method == Method::Put,
            req.path@ == kv_path(key@),
            params_view(req.params@) == seq![(key_cas(), decimal_digits(idx as nat))],
            req.body matches Some(b) && b@ == value@,
    {
        let mut params: Vec<(Vec<u8>, Vec<u8>)> = Vec::new();
        params.push((key_vec_cas(), u64_to_decimal(idx)));
        proof {
            assert(params_view(params@) =~= seq![(key_cas(), decimal_digits(idx as nat))]);
        }
        ClientRequest {
            method: Method::Put,
            path: kv_path_vec(key),
            params,
            body: Some(slice_to_vec(value)),
        }
    }
}

} // verus!
