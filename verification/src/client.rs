//! The endpoint client: one request per operation of the remote API.

use vstd::prelude::*;
use vstd::slice::slice_to_vec;
use vstd::string::StringExecFns;
use crate::encoding::{decimal, decimal_string, hex_bytes, hex_encoding, lemma_hex_encoding_differs};
use crate::endpoint::{join, joined, pairs_view, queried, text, url_text, with_query};
use crate::error::{Error, ErrorView};
use crate::request::{Method, Request, RequestView};

verus! {

/// The headers of a GET: the API key alone.
pub open spec fn get_headers(api_key: Seq<char>) -> Seq<(Seq<char>, Seq<char>)> {
    seq![("project_id"@, api_key)]
}

/// The headers of a POST: the content type of the body, then the API key.
pub open spec fn post_headers(api_key: Seq<char>) -> Seq<(Seq<char>, Seq<char>)> {
    seq![("Content-Type"@, "application/cbor"@), ("project_id"@, api_key)]
}

/// The path of the genesis endpoint.
pub open spec fn genesis_path() -> Seq<char> {
    "./genesis"@
}

/// The path of the protocol parameters of an epoch.
pub open spec fn protocol_params_path(epoch: u32) -> Seq<char> {
    "./epochs/"@ + decimal(epoch as nat) + "/parameters"@
}

/// The path of the information on an address.
pub open spec fn address_info_path(address: Seq<char>) -> Seq<char> {
    "./addresses/"@ + address
}

/// The path of the UTxOs at an address.
pub open spec fn utxos_path(address: Seq<char>) -> Seq<char> {
    "./addresses/"@ + address + "/utxos"@
}

/// The query of a UTxO request: descending order, and the count where one is given.
pub open spec fn utxos_pairs(maybe_count: Option<usize>) -> Seq<(Seq<char>, Seq<char>)> {
    match maybe_count {
        Some(count) => seq![("order"@, "desc"@), ("count"@, decimal(count as nat))],
        None => seq![("order"@, "desc"@)],
    }
}

/// The path of the datum with a given hash.
pub open spec fn datum_path(datum_hash: Seq<char>) -> Seq<char> {
    "./scripts/datum/"@ + datum_hash
}

/// The path of the addresses associated with a stake address.
pub open spec fn assoc_addresses_path(stake_address: Seq<char>) -> Seq<char> {
    "./accounts/"@ + stake_address + "/addresses"@
}

/// The path of the total of the addresses associated with an account.
pub open spec fn account_associated_addresses_total_path(base_addr: Seq<char>) -> Seq<char> {
    "./accounts/"@ + base_addr + "/addresses/total"@
}

/// The path of the evaluation endpoint.
pub open spec fn execution_units_path() -> Seq<char> {
    "./utils/txs/evaluate"@
}

/// The path of the submission endpoint.
pub open spec fn submit_tx_path() -> Seq<char> {
    "./tx/submit"@
}

/// A client for one remote target: the base URL and the API key, both fixed
/// at construction.
pub struct BlockFrostHttp {
    parent_url: String,
    api_key: String,
}

/// What a [`BlockFrostHttp`] holds, as sequences of characters.
pub struct BlockFrostHttpView {
    pub parent_url: Seq<char>,
    pub api_key: Seq<char>,
}

impl BlockFrostHttpView {
    /// Whether `r` is what asking for the GET of `ext` with the query
    /// `pairs` gives: the request with the API key as its only header and
    /// no body, or a URL error where the base URL or the path is malformed
    /// or the URL would pass four gigabytes.
    pub open spec fn gets(
        self,
        ext: Seq<char>,
        pairs: Seq<(Seq<char>, Seq<char>)>,
        r: Result<Request, Error>,
    ) -> bool {
        match joined(self.parent_url, ext) {
            Err(e) => r matches Err(err) && err@ == ErrorView::Url(e),
            Ok(url) => match queried(url, pairs) {
                None => r matches Err(Error::Url(_)),
                Some(extended) => r matches Ok(request) && request@ == (RequestView {
                    method: Method::Get,
                    url: url_text(extended),
                    headers: get_headers(self.api_key),
                    body: None,
                }),
            },
        }
    }

    /// Whether `r` is what asking for the POST of `body` to `ext` gives: the
    /// request with the content type and the API key as headers, or a URL
    /// error where the base URL or the path is malformed.
    pub open spec fn posts(self, ext: Seq<char>, body: Seq<u8>, r: Result<Request, Error>) -> bool {
        match joined(self.parent_url, ext) {
            Err(e) => r matches Err(err) && err@ == ErrorView::Url(e),
            Ok(url) => r matches Ok(request) && request@ == (RequestView {
                method: Method::Post,
                url: url_text(url),
                headers: post_headers(self.api_key),
                body: Some(body),
            }),
        }
    }
}

/// The bodies of the two POST operations differ for the same bytes, unless
/// there are none: evaluation sends their hexadecimal text, twice as long,
/// submission sends the bytes themselves.
pub proof fn lemma_evaluation_and_submission_bodies_differ(
    client: BlockFrostHttpView,
    bytes: Seq<u8>,
    evaluation: Result<Request, Error>,
    submission: Result<Request, Error>,
)
    requires
        bytes.len() > 0,
        client.posts(execution_units_path(), hex_encoding(bytes), evaluation),
        client.posts(submit_tx_path(), bytes, submission),
    ensures
        evaluation matches Ok(evaluate) ==> evaluate@.body == Some(hex_encoding(bytes)),
        submission matches Ok(submit) ==> submit@.body == Some(bytes),
        evaluation matches Ok(evaluate) ==> (submission matches Ok(submit) ==> evaluate@.body
            != submit@.body),
{
    lemma_hex_encoding_differs(bytes);
}

impl View for BlockFrostHttp {
    type V = BlockFrostHttpView;

    closed spec fn view(&self) -> BlockFrostHttpView {
        BlockFrostHttpView { parent_url: self.parent_url@, api_key: self.api_key@ }
    }
}

impl BlockFrostHttp {
    /// A client for the service at `url`, with `key` as its API key. Nothing
    /// is checked here: a malformed URL shows at the first request, a wrong
    /// key in the service's answer.
    pub fn new(url: &str, key: &str) -> (r: Self)
        ensures
            r@ == (BlockFrostHttpView { parent_url: url@, api_key: key@ }),
    {
        let parent_url = String::from_str(url);
        let api_key = String::from_str(key);
        BlockFrostHttp { parent_url, api_key }
    }

    /// The GET request for the endpoint `ext`, without query parameters.
    pub fn get_endpoint(&self, ext: &str) -> (r: Result<Request, Error>)
        ensures
            self@.gets(ext@, Seq::empty(), r),
    {
        let params: Vec<(String, String)> = Vec::new();
        assert(pairs_view(params@) =~= Seq::empty());
        self.get_endpoint_with_params(ext, &params)
    }

    /// The GET request for the endpoint `ext` with the query parameters
    /// `params`, in their order.
    pub fn get_endpoint_with_params(&self, ext: &str, params: &Vec<(String, String)>) -> (r: Result<
        Request,
        Error,
    >)
        ensures
            self@.gets(ext@, pairs_view(params@), r),
    {
        let url = match join(self.parent_url.as_str(), ext) {
            Err(e) => { return Err(e); },
            Ok(url) => url,
        };
        let url = match with_query(url, params) {
            Err(e) => { return Err(e); },
            Ok(url) => url,
        };
        let mut headers: Vec<(String, String)> = Vec::new();
        headers.push((String::from_str("project_id"), self.api_key.clone()));
        assert(pairs_view(headers@) =~= get_headers(self@.api_key));
        Ok(Request { method: Method::Get, url: text(&url), headers, body: None })
    }

    /// The POST request that sends `body` to the endpoint `ext` as CBOR.
    pub fn post_endpoint(&self, ext: &str, body: Vec<u8>) -> (r: Result<Request, Error>)
        ensures
            self@.posts(ext@, body@, r),
    {
        let url = match join(self.parent_url.as_str(), ext) {
            Err(e) => { return Err(e); },
            Ok(url) => url,
        };
        let mut headers: Vec<(String, String)> = Vec::new();
        headers.push((String::from_str("Content-Type"), String::from_str("application/cbor")));
        headers.push((String::from_str("project_id"), self.api_key.clone()));
        assert(pairs_view(headers@) =~= post_headers(self@.api_key));
        Ok(Request { method: Method::Post, url: text(&url), headers, body: Some(body) })
    }

    /// The request for the genesis information.
    pub fn genesis_request(&self) -> (r: Result<Request, Error>)
        ensures
            self@.gets(genesis_path(), Seq::empty(), r),
    {
        let ext = "./genesis";
        self.get_endpoint(ext)
    }

    /// The request for the protocol parameters of `epoch`.
    pub fn protocol_params_request(&self, epoch: u32) -> (r: Result<Request, Error>)
        ensures
            self@.gets(protocol_params_path(epoch), Seq::empty(), r),
    {
        let ext = String::from_str("./epochs/").concat(decimal_string(epoch as u64).as_str()).concat(
            "/parameters",
        );
        self.get_endpoint(ext.as_str())
    }

    /// The request for the information on `address`.
    pub fn address_info_request(&self, address: &str) -> (r: Result<Request, Error>)
        ensures
            self@.gets(address_info_path(address@), Seq::empty(), r),
    {
        let ext = String::from_str("./addresses/").concat(address);
        self.get_endpoint(ext.as_str())
    }

    /// The request for the UTxOs at `address`, newest first: `count` of them
    /// where a count is given, the service's default page where none is.
    pub fn utxos_request(&self, address: &str, maybe_count: Option<usize>) -> (r: Result<Request, Error>)
        ensures
            self@.gets(utxos_path(address@), utxos_pairs(maybe_count), r),
    {
        let ext = String::from_str("./addresses/").concat(address).concat("/utxos");
        let mut params: Vec<(String, String)> = Vec::new();
        params.push((String::from_str("order"), String::from_str("desc")));
        if let Some(count) = maybe_count {
            let count_str = decimal_string(count as u64);
            params.push((String::from_str("count"), count_str));
        }
        assert(pairs_view(params@) =~= utxos_pairs(maybe_count));
        self.get_endpoint_with_params(ext.as_str(), &params)
    }

    /// The request for the datum with the hash `datum_hash`.
    pub fn datum_request(&self, datum_hash: &str) -> (r: Result<Request, Error>)
        ensures
            self@.gets(datum_path(datum_hash@), Seq::empty(), r),
    {
        let ext = String::from_str("./scripts/datum/").concat(datum_hash);
        self.get_endpoint(ext.as_str())
    }

    /// The request for the addresses associated with `stake_address`.
    pub fn assoc_addresses_request(&self, stake_address: &str) -> (r: Result<Request, Error>)
        ensures
            self@.gets(assoc_addresses_path(stake_address@), Seq::empty(), r),
    {
        let ext = String::from_str("./accounts/").concat(stake_address).concat("/addresses");
        self.get_endpoint(ext.as_str())
    }

    /// The request for the total of the addresses associated with `base_addr`.
    pub fn account_associated_addresses_total_request(&self, base_addr: &str) -> (r: Result<
        Request,
        Error,
    >)
        ensures
            self@.gets(account_associated_addresses_total_path(base_addr@), Seq::empty(), r),
    {
        let ext = String::from_str("./accounts/").concat(base_addr).concat("/addresses/total");
        self.get_endpoint(ext.as_str())
    }

    /// The request that asks for the execution units of the transaction
    /// `bytes`. The body is the lowercase hexadecimal text of `bytes`.
    pub fn execution_units_request(&self, bytes: &[u8]) -> (r: Result<Request, Error>)
        ensures
            self@.posts(execution_units_path(), hex_encoding(bytes@), r),
    {
        let ext = "./utils/txs/evaluate";
        let encoded = hex_bytes(bytes);
        self.post_endpoint(ext, encoded)
    }

    /// The request that submits the transaction `bytes`. The body is `bytes`
    /// as they are.
    pub fn submit_tx_request(&self, bytes: &[u8]) -> (r: Result<Request, Error>)
        ensures
            self@.posts(submit_tx_path(), bytes@, r),
    {
        let ext = "./tx/submit";
        self.post_endpoint(ext, slice_to_vec(bytes))
    }
}

} // verus!
