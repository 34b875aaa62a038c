//! HTTP responses of navigations, and decoding of binary payloads.

use vstd::prelude::*;
use std::collections::HashMap;
use base64::Engine;
use crate::error::Error;
use crate::text::{owned, push_str};

verus! {

/// What the STANDARD base64 engine (padded, standard alphabet) decodes the
/// bytes of `input` to; `None` when it rejects them.
pub uninterp spec fn base64_standard_decoded(input: Seq<char>) -> Option<Seq<u8>>;

/// `base64::engine::general_purpose::STANDARD.decode`; a rejection comes back
/// as the engine's error text, of which nothing is stated.
#[verifier::external_body]
pub(crate) fn base64_decode(input: &str) -> (r: Result<Vec<u8>, String>)
    ensures
        r is Ok <==> base64_standard_decoded(input@) is Some,
        r matches Ok(v) ==> Some(v@) == base64_standard_decoded(input@),
{
    match base64::engine::general_purpose::STANDARD.decode(input) {
        Ok(v) => Ok(v),
        Err(e) => Err(e.to_string()),
    }
}

/// Decodes a base64 payload the server sent (a response body, a screenshot,
/// a PDF). A payload the engine rejects is a protocol error whose message is
/// `what` followed by `: ` and the engine's explanation.
pub fn decode_binary(payload: &str, what: &str) -> (r: Result<Vec<u8>, Error>)
    ensures
        r is Ok <==> base64_standard_decoded(payload@) is Some,
        r matches Ok(v) ==> Some(v@) == base64_standard_decoded(payload@),
        r matches Err(e) ==> e matches Error::ProtocolError(m) && m@.len() >= what@.len() + 2
            && m@.subrange(0, what@.len() + 2 as int) == what@ + ": "@,
{
    match base64_decode(payload) {
        Ok(v) => Ok(v),
        Err(text) => {
            let mut m = owned(what);
            push_str(&mut m, ": ");
            proof {
                reveal_strlit(": ");
            }
            let ghost head = m@;
            push_str(&mut m, text.as_str());
            assert(m@.subrange(0, what@.len() + 2 as int) =~= head);
            Err(Error::ProtocolError(m))
        },
    }
}

/// Decodes the base64 body of a response.
pub fn decode_response_body(binary: &str) -> (r: Result<Vec<u8>, Error>)
    ensures
        r is Ok <==> base64_standard_decoded(binary@) is Some,
        r matches Ok(v) ==> Some(v@) == base64_standard_decoded(binary@),
{
    decode_binary(binary, "Failed to decode response body from base64")
}

/// One raw response header.
#[derive(Debug, Clone)]
pub struct HeaderEntry {
    pub name: String,
    pub value: String,
}

/// A 2xx status.
pub open spec fn status_ok(status: u16) -> bool {
    200 <= status < 300
}

/// The response to a navigation (`goto`, `reload`, history moves).
#[derive(Debug, Clone)]
pub struct Response {
    url: String,
    status: u16,
    status_text: String,
    ok: bool,
    headers: HashMap<String, String>,
}

impl Response {
    pub closed spec fn url_spec(&self) -> Seq<char> {
        self.url@
    }

    pub closed spec fn status_spec(&self) -> u16 {
        self.status
    }

    pub closed spec fn status_text_spec(&self) -> Seq<char> {
        self.status_text@
    }

    pub closed spec fn ok_spec(&self) -> bool {
        self.ok
    }

    pub closed spec fn headers_spec(&self) -> HashMap<String, String> {
        self.headers
    }

    /// A response; it is ok exactly when the status is in `200..300`.
    pub fn new(url: String, status: u16, status_text: String, headers: HashMap<String, String>) -> (r:
        Response)
        ensures
            r.url_spec() == url@,
            r.status_spec() == status,
            r.status_text_spec() == status_text@,
            r.ok_spec() == status_ok(status),
            r.headers_spec() == headers,
    {
        let ok = 200 <= status && status < 300;
        Response { url, status, status_text, ok, headers }
    }

    /// The URL of the response.
    pub fn url(&self) -> (r: &str)
        ensures
            r@ == self.url_spec(),
    {
        self.url.as_str()
    }

    /// The HTTP status code.
    pub fn status(&self) -> (r: u16)
        ensures
            r == self.status_spec(),
    {
        self.status
    }

    /// The HTTP status text.
    pub fn status_text(&self) -> (r: &str)
        ensures
            r@ == self.status_text_spec(),
    {
        self.status_text.as_str()
    }

    /// Whether the status is in `200..300`.
    pub fn ok(&self) -> (r: bool)
        ensures
            r == self.ok_spec(),
    {
        self.ok
    }

    /// The response headers.
    pub fn headers(&self) -> (r: &HashMap<String, String>)
        ensures
            *r == self.headers_spec(),
    {
        &self.headers
    }
}

/// The header pairs of a raw header list, keeping (in order) the entries
/// that have both a name and a value.
pub open spec fn complete_pairs(entries: Seq<(Option<String>, Option<String>)>) -> Seq<(Seq<char>, Seq<char>)>
    decreases entries.len(),
{
    if entries.len() == 0 {
        Seq::empty()
    } else {
        let rest = complete_pairs(entries.drop_last());
        match entries.last() {
            (Some(n), Some(v)) => rest.push((n@, v@)),
            _ => rest,
        }
    }
}

/// A header entry with both a name and a value.
pub open spec fn is_complete_entry(e: (Option<String>, Option<String>)) -> bool {
    e.0 is Some && e.1 is Some
}

/// The (name, value) of a complete header entry.
pub open spec fn entry_pair(e: (Option<String>, Option<String>)) -> (Seq<char>, Seq<char>) {
    (e.0->0@, e.1->0@)
}

/// The header pairs are exactly the complete entries, in order, each with
/// its name first and its value second.
pub proof fn lemma_header_pairs_are_names_then_values(entries: Seq<(Option<String>, Option<String>)>)
    ensures
        complete_pairs(entries) == entries.filter(|e: (Option<String>, Option<String>)| is_complete_entry(e)).map_values(
            |e: (Option<String>, Option<String>)| entry_pair(e),
        ),
    decreases entries.len(),
{
    let p = |e: (Option<String>, Option<String>)| is_complete_entry(e);
    let f = |e: (Option<String>, Option<String>)| entry_pair(e);
    if entries.len() == 0 {
        assert(entries.filter(p) =~= Seq::<(Option<String>, Option<String>)>::empty()) by {
            reveal(Seq::filter);
        }
        assert(entries.filter(p).map_values(f) =~= Seq::<(Seq<char>, Seq<char>)>::empty());
    } else {
        let init = entries.drop_last();
        lemma_header_pairs_are_names_then_values(init);
        assert(entries.filter(p) == (if p(entries.last()) {
            init.filter(p).push(entries.last())
        } else {
            init.filter(p)
        })) by {
            reveal(Seq::filter);
            assert(entries =~= init.push(entries.last()));
        }
        if p(entries.last()) {
            assert(init.filter(p).push(entries.last()).map_values(f) =~= init.filter(p).map_values(
                f,
            ).push(f(entries.last())));
        }
    }
}

/// The view of a list of header pairs.
pub open spec fn pairs_view(v: Seq<(String, String)>) -> Seq<(Seq<char>, Seq<char>)> {
    v.map_values(|p: (String, String)| (p.0@, p.1@))
}

/// Keeps the header entries that have both a name and a value, in order.
pub fn complete_header_pairs(entries: Vec<(Option<String>, Option<String>)>) -> (r: Vec<
    (String, String),
>)
    ensures
        pairs_view(r@) == complete_pairs(entries@),
{
    let ghost orig = entries@;
    let n = entries.len();
    let mut rest = entries;
    let mut out: Vec<(String, String)> = Vec::new();
    let mut i: usize = 0;
    while i < n
        invariant
            n == orig.len(),
            i <= n,
            rest@ == orig.subrange(i as int, n as int),
            pairs_view(out@) == complete_pairs(orig.subrange(0, i as int)),
        decreases n - i,
    {
        let e = rest.remove(0);
        assert(rest@ =~= orig.subrange(i + 1, n as int));
        assert(orig.subrange(0, i + 1).drop_last() =~= orig.subrange(0, i as int));
        assert(orig.subrange(0, i + 1).last() == e);
        let ghost before = out@;
        match e {
            (Some(name), Some(value)) => {
                out.push((name, value));
                assert(pairs_view(out@) =~= pairs_view(before).push(
                    (out@.last().0@, out@.last().1@),
                ));
            },
            _ => {},
        }
        i = i + 1;
    }
    assert(orig.subrange(0, n as int) =~= orig);
    out
}

/// The parts of a navigation response read from its initializer: URL,
/// status (its low 16 bits), status text (empty when absent) and the
/// complete header pairs. A missing status, header list or URL is a
/// protocol error, checked in that order.
pub fn navigation_response_parts(
    url: Option<String>,
    status: Option<u64>,
    status_text: Option<String>,
    headers: Option<Vec<(Option<String>, Option<String>)>>,
) -> (r: Result<(String, u16, String, Vec<(String, String)>), Error>)
    ensures
        status is None ==> (r matches Err(Error::ProtocolError(m)) && m@
            == "Response missing status"@),
        status is Some && headers is None ==> (r matches Err(Error::ProtocolError(m)) && m@
            == "Response missing headers"@),
        status is Some && headers is Some && url is None ==> (r matches Err(
            Error::ProtocolError(m),
        ) && m@ == "Response missing url"@),
        status is Some && headers is Some && url is Some ==> (r matches Ok((u, s, t, h)) && u@
            == url->0@ && s == (status->0 % 65536) as u16 && t@ == (match status_text {
            Some(x) => x@,
            None => Seq::<char>::empty(),
        }) && pairs_view(h@) == complete_pairs(headers->0@)),
{
    let s = match status {
        Some(s) => (s % 65536) as u16,
        None => {
            return Err(Error::ProtocolError(owned("Response missing status")));
        },
    };
    let h = match headers {
        Some(h) => complete_header_pairs(h),
        None => {
            return Err(Error::ProtocolError(owned("Response missing headers")));
        },
    };
    let u = match url {
        Some(u) => u,
        None => {
            return Err(Error::ProtocolError(owned("Response missing url")));
        },
    };
    let t = match status_text {
        Some(t) => t,
        None => String::new(),
    };
    Ok((u, s, t, h))
}

/// The fields of a response object's initializer that a navigation reads,
/// each absent when the initializer lacks it or holds another type there.
#[derive(Debug, Clone)]
pub struct ResponseFields {
    pub url: Option<String>,
    pub status: Option<u64>,
    pub status_text: Option<String>,
    pub headers: Option<Vec<(Option<String>, Option<String>)>>,
}

/// What a history navigation (`reload`, `goBack`, `goForward`) answers: no
/// response when the server's reply names none (nothing to go back or
/// forward to), else the parts read from the response object's
/// initializer, with the errors of `navigation_response_parts`.
pub fn navigation_outcome(reply: Option<ResponseFields>) -> (r: Result<
    Option<(String, u16, String, Vec<(String, String)>)>,
    Error,
>)
    ensures
        match reply {
            None => r matches Ok(None),
            Some(f) => {
                &&& f.status is None ==> (r matches Err(Error::ProtocolError(m)) && m@
                    == "Response missing status"@)
                &&& f.status is Some && f.headers is None ==> (r matches Err(
                    Error::ProtocolError(m),
                ) && m@ == "Response missing headers"@)
                &&& f.status is Some && f.headers is Some && f.url is None ==> (r matches Err(
                    Error::ProtocolError(m),
                ) && m@ == "Response missing url"@)
                &&& f.status is Some && f.headers is Some && f.url is Some ==> (r matches Ok(
                    Some((u, s, t, h)),
                ) && u@ == f.url->0@ && s == (f.status->0 % 65536) as u16 && t@ == (match f.status_text {
                    Some(x) => x@,
                    None => Seq::<char>::empty(),
                }) && pairs_view(h@) == complete_pairs(f.headers->0@))
            },
        },
{
    match reply {
        None => Ok(None),
        Some(f) => match navigation_response_parts(f.url, f.status, f.status_text, f.headers) {
            Ok(parts) => Ok(Some(parts)),
            Err(e) => Err(e),
        },
    }
}

/// A response as the server described it: the fields of its initializer,
/// each absent when the initializer lacks it or holds another type.
#[derive(Debug, Clone)]
pub struct ResponseObject {
    status: Option<u64>,
    status_text: Option<String>,
    url: Option<String>,
}

impl ResponseObject {
    pub closed spec fn raw_status(&self) -> Option<u64> {
        self.status
    }

    pub closed spec fn raw_status_text(&self) -> Option<Seq<char>> {
        match self.status_text {
            Some(s) => Some(s@),
            None => None,
        }
    }

    pub closed spec fn raw_url(&self) -> Option<Seq<char>> {
        match self.url {
            Some(s) => Some(s@),
            None => None,
        }
    }

    /// Records the initializer fields.
    pub fn from_initializer(status: Option<u64>, status_text: Option<String>, url: Option<String>) -> (r:
        ResponseObject)
        ensures
            r.raw_status() == status,
            r.raw_status_text() == (match status_text {
                Some(s) => Some(s@),
                None => None::<Seq<char>>,
            }),
            r.raw_url() == (match url {
                Some(s) => Some(s@),
                None => None::<Seq<char>>,
            }),
    {
        ResponseObject { status, status_text, url }
    }

    /// The status code: 0 when absent, else the low 16 bits of the value.
    pub fn status(&self) -> (r: u16)
        ensures
            r == match self.raw_status() {
                Some(s) => (s % 65536) as u16,
                None => 0u16,
            },
    {
        match self.status {
            Some(s) => {
                let r = (s % 65536) as u16;
                r
            },
            None => 0,
        }
    }

    /// The status text, empty when absent.
    pub fn status_text(&self) -> (r: &str)
        ensures
            r@ == match self.raw_status_text() {
                Some(s) => s,
                None => Seq::<char>::empty(),
            },
    {
        match &self.status_text {
            Some(s) => s.as_str(),
            None => {
                proof {
                    reveal_strlit("");
                }
                ""
            },
        }
    }

    /// The URL, empty when absent.
    pub fn url(&self) -> (r: &str)
        ensures
            r@ == match self.raw_url() {
                Some(s) => s,
                None => Seq::<char>::empty(),
            },
    {
        match &self.url {
            Some(s) => s.as_str(),
            None => {
                proof {
                    reveal_strlit("");
                }
                ""
            },
        }
    }
}

} // verus!
