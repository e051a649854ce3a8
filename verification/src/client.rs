//! The client and its request pipeline: the one place through which every
//! resource sends a request. The client assembles the request that is to be
//! sent and rules on the response that came back; sending is the caller's
//! part.

use crate::credentials::Credentials;
use crate::errors::{classify, is_client_error, named_outcome, Error, Verdict};
use crate::headers::{lower_keys, Headers};
use crate::options::Options;
use crate::query::{distinct_keys, put, put_all, to_map, Pair, Query};
use crate::text::join;
use vstd::prelude::*;

verus! {

/// One entry of a query as it stands in a query string: `key=value`.
pub open spec fn rendered_pair(pair: Pair) -> Seq<char> {
    pair.0 + seq!['='] + pair.1
}

/// The entries of a query as they stand in a query string, in order.
pub open spec fn rendered(entries: Seq<Pair>) -> Seq<Seq<char>> {
    entries.map_values(|pair: Pair| rendered_pair(pair))
}

/// The query string of a list of entries: empty for no entry, otherwise `?`
/// and the entries as `key=value`, with `&` between neighbours.
pub open spec fn query_string(entries: Seq<Pair>) -> Seq<char> {
    if entries.len() == 0 {
        Seq::empty()
    } else {
        seq!['?'] + join(rendered(entries), seq!['&'])
    }
}

/// The path under which the API lives on every host.
pub open spec fn api_root() -> Seq<char> {
    seq!['/', 'r', 'e', 's', 't', '/']
}

/// The address of a request: host, API root, endpoint and query string.
pub open spec fn target(host: Seq<char>, endpoint: Seq<char>, query: Seq<Pair>) -> Seq<char> {
    host + api_root() + endpoint + query_string(query)
}

/// The entries of several queries folded into one, first to last: each
/// query's entries are written over what the earlier queries gave.
pub open spec fn merged(queries: Seq<Seq<Pair>>) -> Seq<Pair>
    decreases queries.len(),
{
    if queries.len() == 0 {
        Seq::empty()
    } else {
        put_all(merged(queries.drop_last()), queries.last())
    }
}

/// The mappings of a list folded into one, later mappings winning.
pub open spec fn merged_maps(maps: Seq<Map<Seq<char>, Seq<char>>>) -> Map<Seq<char>, Seq<char>>
    decreases maps.len(),
{
    if maps.len() == 0 {
        Map::empty()
    } else {
        merged_maps(maps.drop_last()).union_prefer_right(maps.last())
    }
}

/// What each option of a list contributes, in the order of the list.
pub open spec fn contributions(opts: Seq<&dyn Options>) -> Seq<Seq<Pair>> {
    opts.map_values(|o: &dyn Options| o.contribution())
}

/// What each option of a list contributes, as a mapping.
pub open spec fn contributed_maps(opts: Seq<&dyn Options>) -> Seq<Map<Seq<char>, Seq<char>>> {
    opts.map_values(|o: &dyn Options| to_map(o.contribution()))
}

/// The entries of each query of a list.
pub open spec fn all_entries(queries: Seq<Query>) -> Seq<Seq<Pair>> {
    queries.map_values(|q: Query| q.entries())
}

/// The mapping of each query of a list.
pub open spec fn all_maps(queries: Seq<Query>) -> Seq<Map<Seq<char>, Seq<char>>> {
    queries.map_values(|q: Query| q@)
}

/// The media type that every request declares for its body.
pub open spec fn json_media_type() -> Seq<char> {
    seq!['a', 'p', 'p', 'l', 'i', 'c', 'a', 't', 'i', 'o', 'n', '/', 'j', 's', 'o', 'n']
}

/// The lower-case name of the header that declares the media type.
pub open spec fn content_type() -> Seq<char> {
    seq!['c', 'o', 'n', 't', 'e', 'n', 't', '-', 't', 'y', 'p', 'e']
}

/// The text that is decoded as the payload of a response: the JSON literal
/// `null` for an empty body, the body itself otherwise.
pub open spec fn normalized(body: Seq<char>) -> Seq<char> {
    if body.len() == 0 {
        seq!['n', 'u', 'l', 'l']
    } else {
        body
    }
}

/// `request` is what `method` on `endpoint` comes to for a client with the
/// given host, credentials and header fields, with `query` as the whole
/// query and `body` as the body: the address is host, API root, endpoint
/// and query string, and the header fields are the given ones with
/// `content-type` set to `application/json`.
pub open spec fn is_request(
    request: Request,
    method: Method,
    host: Seq<char>,
    endpoint: Seq<char>,
    query: Seq<Pair>,
    credentials: Credentials,
    headers: Seq<Pair>,
    body: Option<Vec<u8>>,
) -> bool {
    &&& request.method == method
    &&& request.url@ == target(host, endpoint, query)
    &&& request.credentials == credentials
    &&& request.headers.fields() == put(headers, content_type(), json_media_type())
    &&& request.body == body
}

/// `request` is what `method` on `endpoint` comes to for `client` as it
/// stands, with `body` as the body.
pub open spec fn is_request_of(
    request: Request,
    client: Client,
    method: Method,
    endpoint: Seq<char>,
    body: Option<Vec<u8>>,
) -> bool {
    is_request(
        request,
        method,
        client.host@,
        endpoint,
        client.query.entries(),
        client.credentials,
        client.headers.fields(),
        body,
    )
}

/// The verb of a request.
#[derive(Debug, Clone, Copy, PartialEq, Eq, Structural)]
pub enum Method {
    /// Fetch; carries no body.
    Get,
    /// Replace; carries a body.
    Put,
    /// Create; carries a body.
    Post,
}

/// A request as it is to be sent: everything the transport needs, nothing
/// it has to decide.
#[derive(Debug)]
pub struct Request {
    /// The verb.
    pub method: Method,
    /// The full address, query string included.
    pub url: String,
    /// The credentials to authenticate with: user name and password as HTTP
    /// Basic authentication, a token as a bearer token.
    pub credentials: Credentials,
    /// The header fields to send beside the authentication.
    pub headers: Headers,
    /// The body as JSON bytes, where the verb carries one.
    pub body: Option<Vec<u8>>,
}

/// The envelope of a successful call: the decoded payload with the header
/// fields of the response.
#[derive(Debug)]
pub struct Resp<D> {
    /// The payload.
    pub data: D,
    /// The header fields of the response.
    pub headers: Headers,
}

/// What is to be done with a completed response.
#[derive(Debug)]
pub enum Reply {
    /// The call has failed with this error; the body is of no interest.
    Failed(Error),
    /// The call has failed with a fault of status `code`; `document` is the
    /// body, to be decoded as an error document.
    Fault { code: u16, document: String },
    /// The call has succeeded; `document` is the text to decode as the
    /// payload.
    Success { document: String },
}

/// The Jira client: the server it talks to, the credentials it uses, and
/// the header fields and query entries that go with every request.
#[derive(Debug)]
pub struct Client {
    /// The base address of the server.
    pub host: String,
    /// The credentials of every request.
    pub credentials: Credentials,
    /// The header fields of every request.
    pub headers: Headers,
    /// The query entries of every request.
    pub query: Query,
}

impl Clone for Client {
    /// A client that sends what this one sends.
    fn clone(&self) -> (copy: Client)
        ensures
            copy.host == self.host,
            copy.credentials == self.credentials,
            copy.headers.fields() == self.headers.fields(),
            copy.query.entries() == self.query.entries(),
    {
        Client {
            host: self.host.clone(),
            credentials: self.credentials.clone(),
            headers: self.headers.clone(),
            query: self.query.clone(),
        }
    }
}

impl Client {
    /// A client for the server at `host`, with no header field and no query
    /// entry of its own.
    pub fn new(host: String, credentials: Credentials) -> (client: Client)
        ensures
            client.host == host,
            client.credentials == credentials,
            client.headers.fields() == Seq::<Pair>::empty(),
            client.query.entries() == Seq::<Pair>::empty(),
    {
        Client { host, credentials, headers: Headers::new(), query: Query::new() }
    }

    /// Sets the given header fields on every request from now on; a field
    /// that the client had already takes the new value.
    pub fn add_headers(&mut self, headers: &Headers)
        ensures
            final(self).headers.fields() == put_all(old(self).headers.fields(), headers.fields()),
            final(self).headers@ == old(self).headers@.union_prefer_right(headers@),
            final(self).host == old(self).host,
            final(self).credentials == old(self).credentials,
            final(self).query == old(self).query,
    {
        self.headers.extend(headers);
    }

    /// Sets one header field on every request from now on, whatever the
    /// letter case of its name.
    pub fn add_header(&mut self, header: &str, value: String)
        ensures
            final(self).headers.fields() == put(
                old(self).headers.fields(),
                crate::headers::lower(header@),
                value@,
            ),
            final(self).headers@ == old(self).headers@.insert(
                crate::headers::lower(header@),
                value@,
            ),
            final(self).host == old(self).host,
            final(self).credentials == old(self).credentials,
            final(self).query == old(self).query,
    {
        self.headers.insert(header, value);
    }

    /// The client with the given entries added to the query of every
    /// request; an entry that the client had already takes the new value.
    pub fn add_query(self, query: Query) -> (client: Client)
        ensures
            client.query.entries() == put_all(self.query.entries(), query.entries()),
            client.query@ == self.query@.union_prefer_right(query@),
            client.host == self.host,
            client.credentials == self.credentials,
            client.headers == self.headers,
    {
        let mut client = self;
        client.query.extend(&query);
        client
    }

    /// Folds the contributions of a list of options into one query, first
    /// to last: where several options give a key, the value of the last of
    /// them stays, at the place where the key first stood.
    pub fn unpack_options(opts: Vec<&dyn Options>) -> (query: Query)
        ensures
            query.entries() == merged(contributions(opts@)),
            query@ == merged_maps(contributed_maps(opts@)),
            distinct_keys(query.entries()),
    {
        let mut given: Vec<Query> = Vec::new();
        let mut i: usize = 0;
        while i < opts.len()
            invariant
                i <= opts.len(),
                given.len() == i,
                forall|j: int|
                    0 <= j < i ==> (#[trigger] given@[j]).entries() == opts@[j].contribution(),
            decreases opts.len() - i,
        {
            given.push(opts[i].to_query());
            i = i + 1;
        }
        let query = Client::merge(&given);
        proof {
            assert(all_entries(given@) =~= contributions(opts@));
            assert(all_maps(given@) =~= contributed_maps(opts@));
        }
        query
    }

    /// Folds a list of queries into one, first to last: where several give
    /// a key, the value of the last of them stays, at the place where the
    /// key first stood.
    pub fn merge(queries: &Vec<Query>) -> (query: Query)
        ensures
            query.entries() == merged(all_entries(queries@)),
            query@ == merged_maps(all_maps(queries@)),
            distinct_keys(query.entries()),
    {
        let mut query = Query::new();
        let mut i: usize = 0;
        while i < queries.len()
            invariant
                i <= queries.len(),
                query.entries() == merged(all_entries(queries@.take(i as int))),
                query@ == merged_maps(all_maps(queries@.take(i as int))),
                distinct_keys(query.entries()),
            decreases queries.len() - i,
        {
            proof {
                let next = queries@.take(i as int + 1);
                let before = queries@.take(i as int);
                assert(all_entries(next).drop_last() == all_entries(before));
                assert(all_entries(next).last() == queries@[i as int].entries());
                assert(all_maps(next).drop_last() == all_maps(before));
                assert(all_maps(next).last() == queries@[i as int]@);
            }
            query.extend(&queries[i]);
            i = i + 1;
        }
        proof {
            assert(queries@.take(queries.len() as int) == queries@);
        }
        query
    }

    /// The query string of a query: empty for the empty query, otherwise
    /// `?` followed by the entries as `key=value` in their order, with `&`
    /// between neighbours and none at the end.
    pub fn unpack_query(query: &Query) -> (out: String)
        ensures
            out@ == query_string(query.entries()),
    {
        let mut out = String::new();
        let n = query.len();
        let mut i: usize = 0;
        proof {
            reveal_strlit("?");
            reveal_strlit("&");
            reveal_strlit("=");
        }
        while i < n
            invariant
                i <= n,
                n == query.entries().len(),
                "?"@ == seq!['?'],
                "&"@ == seq!['&'],
                "="@ == seq!['='],
                out@ == query_string(query.entries().take(i as int)),
            decreases n - i,
        {
            proof {
                let before = query.entries().take(i as int);
                let after = query.entries().take(i as int + 1);
                assert(rendered(after).drop_last() == rendered(before));
                assert(rendered(after).last() == rendered_pair(query.entries()[i as int]));
            }
            if i == 0 {
                out.append("?");
            } else {
                out.append("&");
            }
            match query.get_index(i) {
                Some((key, value)) => {
                    out.append(key.as_str());
                    out.append("=");
                    out.append(value.as_str());
                },
                None => {},
            }
            assert(out@ == query_string(query.entries().take(i as int + 1)));
            i = i + 1;
        }
        proof {
            assert(query.entries().take(n as int) == query.entries());
        }
        out
    }

    /// The request that `method` on the endpoint `url` comes to: addressed
    /// to host, API root, endpoint and the client's query; authenticated by
    /// the client's credentials; with the client's header fields, of which
    /// `content-type` is set to `application/json` whatever it was; and with
    /// `body` as it was given.
    pub fn request(&self, method: Method, url: &str, body: Option<Vec<u8>>) -> (request: Request)
        ensures
            is_request_of(request, *self, method, url@, body),
            request.headers@ == self.headers@.insert(content_type(), json_media_type()),
            distinct_keys(request.headers.fields()),
            lower_keys(request.headers.fields()),
    {
        proof {
            reveal_strlit("/rest/");
            reveal_strlit("content-type");
            reveal_strlit("application/json");
            assert("/rest/"@ =~= api_root());
            assert("content-type"@ =~= content_type());
            assert("application/json"@ =~= json_media_type());
            assert(crate::headers::lower(content_type()) =~= content_type());
        }
        let query = Client::unpack_query(&self.query);
        let mut address = self.host.clone();
        address.append("/rest/");
        address.append(url);
        address.append(query.as_str());
        let mut headers = self.headers.clone();
        headers.insert("content-type", String::from_str("application/json"));
        Request { method, url: address, credentials: self.credentials.clone(), headers, body }
    }

    /// The request that fetches the endpoint `url`; it carries no body.
    pub fn get(&self, url: &str) -> (request: Request)
        ensures
            is_request_of(request, *self, Method::Get, url@, None::<Vec<u8>>),
    {
        self.request(Method::Get, url, None)
    }

    /// The request that replaces what is at the endpoint `url` by `body`,
    /// which is the JSON text of the new value.
    pub fn put(&self, url: &str, body: Vec<u8>) -> (request: Request)
        ensures
            is_request_of(request, *self, Method::Put, url@, Some(body)),
    {
        self.request(Method::Put, url, Some(body))
    }

    /// The request that creates, at the endpoint `url`, what `body`
    /// describes, which is the JSON text of the new value.
    pub fn post(&self, url: &str, body: Vec<u8>) -> (request: Request)
        ensures
            is_request_of(request, *self, Method::Post, url@, Some(body)),
    {
        self.request(Method::Post, url, Some(body))
    }

    /// The body of a request, given what encoding the caller's value as
    /// JSON gave: the bytes, or the failure to encode as a serialization
    /// error.
    pub fn body(encoded: Result<Vec<u8>, String>) -> (body: Result<Vec<u8>, Error>)
        ensures
            match encoded {
                Ok(bytes) => body == Ok::<Vec<u8>, Error>(bytes),
                Err(cause) => body == Err::<Vec<u8>, Error>(Error::Serde(cause)),
            },
    {
        match encoded {
            Ok(bytes) => Ok(bytes),
            Err(cause) => Err(Error::Serde(cause)),
        }
    }

    /// Rules on a completed response by its status code. A code with a name
    /// fails the call under that name, whatever the body holds. Any other
    /// code from 400 to 499 is a fault, whose error document is the body as
    /// it is. Every other code is a success, whose payload is the body, or
    /// the JSON literal `null` where the body is empty.
    pub fn receive(status: u16, body: String) -> (reply: Reply)
        ensures
            status == 401 ==> reply == Reply::Failed(Error::Unauthorized),
            status == 403 ==> reply == Reply::Failed(Error::Forbidden),
            status == 404 ==> reply == Reply::Failed(Error::NotFound),
            status == 405 ==> reply == Reply::Failed(Error::MethodNotAllowed),
            status == 412 ==> reply == Reply::Failed(Error::PreconditionFailed),
            match named_outcome(status) {
                Some(error) => reply == Reply::Failed(error),
                None => if is_client_error(status) {
                    reply matches Reply::Fault { code, document } && code == status && document@
                        == body@
                } else {
                    reply matches Reply::Success { document } && document@ == normalized(body@)
                },
            },
    {
        match classify(status) {
            Verdict::Reject(error) => Reply::Failed(error),
            Verdict::Fault => Reply::Fault { code: status, document: body },
            Verdict::Accept => Reply::Success { document: normalize(body) },
        }
    }

    /// The result of a successful exchange, given what decoding the payload
    /// gave and the header fields of the response: the envelope of both, or
    /// the failure to decode.
    pub fn deliver<D>(decoded: Result<D, String>, headers: Headers) -> (result: Result<
        Resp<D>,
        Error,
    >)
        ensures
            match decoded {
                Ok(data) => result == Ok::<Resp<D>, Error>(Resp { data, headers }),
                Err(cause) => result == Err::<Resp<D>, Error>(Error::Serde(cause)),
            },
    {
        match decoded {
            Ok(data) => Ok(Resp { data, headers }),
            Err(cause) => Err(Error::Serde(cause)),
        }
    }
}

/// The text to decode as the payload of a response with this body: the JSON
/// literal `null` for an empty body, so that a response without content
/// decodes into an absent value; the body itself otherwise.
pub fn normalize(body: String) -> (text: String)
    ensures
        text@ == normalized(body@),
        body@.len() > 0 ==> text == body,
{
    if body.as_str().is_empty() {
        proof {
            reveal_strlit("null");
            assert("null"@ =~= normalized(body@));
        }
        String::from_str("null")
    } else {
        body
    }
}

/// What a joined text begins and ends with, where neither the first nor
/// the last part is empty: the first character of the first part and the
/// last character of the last part.
pub proof fn lemma_join_ends(parts: Seq<Seq<char>>, sep: Seq<char>)
    requires
        parts.len() > 0,
        parts.first().len() > 0,
        parts.last().len() > 0,
    ensures
        join(parts, sep).len() > 0,
        join(parts, sep).first() == parts.first().first(),
        join(parts, sep).last() == parts.last().last(),
{
    lemma_join_first(parts, sep);
    if parts.len() > 1 {
        let whole = join(parts.drop_last(), sep) + sep + parts.last();
        assert(join(parts, sep) == whole);
        assert(whole[whole.len() - 1] == parts.last()[parts.last().len() - 1]);
    }
}

/// What a joined text begins with, where the first part is not empty: the
/// first character of the first part.
pub proof fn lemma_join_first(parts: Seq<Seq<char>>, sep: Seq<char>)
    requires
        parts.len() > 0,
        parts.first().len() > 0,
    ensures
        join(parts, sep).len() > 0,
        join(parts, sep).first() == parts.first().first(),
    decreases parts.len(),
{
    if parts.len() > 1 {
        let front = parts.drop_last();
        assert(front.first() == parts.first());
        lemma_join_first(front, sep);
        let head = join(front, sep);
        let whole = head + sep + parts.last();
        assert(join(parts, sep) == whole);
        assert(whole[0] == head[0]);
    }
}

/// The query string of the empty query is the empty string; that of any
/// other query has at least two characters. So it is never a bare `?`.
pub proof fn lemma_query_string_empty(entries: Seq<Pair>)
    ensures
        entries.len() == 0 ==> query_string(entries) == Seq::<char>::empty(),
        entries.len() > 0 ==> query_string(entries).len() >= 2,
        query_string(entries) != seq!['?'],
{
    assert(seq!['?'].len() == 1);
    if entries.len() > 0 {
        let parts = rendered(entries);
        assert(parts.first() == rendered_pair(entries.first()));
        assert(parts.first().len() > 0);
        lemma_join_first(parts, seq!['&']);
    }
}

/// The query string of a query that is not empty begins with exactly one
/// `?` and does not end in `&`, provided that the first key does not itself
/// begin with `?` and the last value does not itself end in `&`.
pub proof fn lemma_query_string_shape(entries: Seq<Pair>)
    requires
        entries.len() > 0,
        !(entries.first().0.len() > 0 && entries.first().0.first() == '?'),
        !(entries.last().1.len() > 0 && entries.last().1.last() == '&'),
    ensures
        query_string(entries).len() >= 2,
        query_string(entries)[0] == '?',
        query_string(entries)[1] != '?',
        query_string(entries).last() != '&',
{
    let parts = rendered(entries);
    let body = join(parts, seq!['&']);
    let first = rendered_pair(entries.first());
    let last = rendered_pair(entries.last());
    assert(parts.first() == first);
    assert(parts.last() == last);
    lemma_rendered_pair_ends(entries.first());
    lemma_rendered_pair_ends(entries.last());
    lemma_join_ends(parts, seq!['&']);
    let whole = seq!['?'] + body;
    assert(query_string(entries) == whole);
    assert(whole[0] == '?');
    assert(whole[1] == body[0]);
    assert(whole[whole.len() - 1] == body[body.len() - 1]);
}

/// What `key=value` begins and ends with: the first character of the key,
/// or `=` for an empty key; the last character of the value, or `=` for an
/// empty value.
pub proof fn lemma_rendered_pair_ends(pair: Pair)
    ensures
        rendered_pair(pair).len() > 0,
        rendered_pair(pair).first() == if pair.0.len() > 0 {
            pair.0.first()
        } else {
            '='
        },
        rendered_pair(pair).last() == if pair.1.len() > 0 {
            pair.1.last()
        } else {
            '='
        },
{
    let text = pair.0 + seq!['='] + pair.1;
    assert(text.len() == pair.0.len() + 1 + pair.1.len());
    if pair.0.len() > 0 {
        assert(text[0] == pair.0[0]);
    } else {
        assert(text[0] == '=');
    }
    if pair.1.len() > 0 {
        assert(text[text.len() - 1] == pair.1[pair.1.len() - 1]);
    } else {
        assert(text[text.len() - 1] == '=');
    }
}

/// Where several mappings are folded into one, a key has the value of the
/// last mapping that holds it, and the keys are those of all the mappings.
pub proof fn lemma_merged_last_wins(
    maps: Seq<Map<Seq<char>, Seq<char>>>,
    at: int,
    key: Seq<char>,
)
    requires
        0 <= at < maps.len(),
        maps[at].contains_key(key),
        forall|later: int| at < later < maps.len() ==> !(#[trigger] maps[later]).contains_key(key),
    ensures
        merged_maps(maps).contains_key(key),
        merged_maps(maps)[key] == maps[at][key],
    decreases maps.len(),
{
    if at == maps.len() - 1 {
    } else {
        let front = maps.drop_last();
        assert(!maps[maps.len() - 1].contains_key(key));
        assert forall|later: int| at < later < front.len() implies !(#[trigger] front[later]).contains_key(
            key,
        ) by {
            assert(front[later] == maps[later]);
        }
        lemma_merged_last_wins(front, at, key);
    }
}

/// The keys of several mappings folded into one are the keys that some
/// mapping of the list holds.
pub proof fn lemma_merged_keys(maps: Seq<Map<Seq<char>, Seq<char>>>, key: Seq<char>)
    ensures
        merged_maps(maps).contains_key(key) <==> exists|at: int|
            0 <= at < maps.len() && (#[trigger] maps[at]).contains_key(key),
    decreases maps.len(),
{
    if maps.len() > 0 {
        let front = maps.drop_last();
        lemma_merged_keys(front, key);
        if merged_maps(maps).contains_key(key) {
            if maps.last().contains_key(key) {
                assert(maps[maps.len() - 1].contains_key(key));
            } else {
                let at = choose|at: int| 0 <= at < front.len() && (#[trigger] front[at]).contains_key(key);
                assert(maps[at].contains_key(key));
            }
        }
        if exists|at: int| 0 <= at < maps.len() && (#[trigger] maps[at]).contains_key(key) {
            let at = choose|at: int| 0 <= at < maps.len() && (#[trigger] maps[at]).contains_key(key);
            if at < front.len() {
                assert(front[at].contains_key(key));
            }
        }
    }
}

} // verus!
