//! The rules of the web service clients: what a request must look like
//! before it is sent, and how an answer is read. Sending is left to the
//! caller.

use vstd::prelude::*;
use vstd::string::StringExecFns;
use crate::cmf_response_format::CmfResponseFormat;
use crate::errors::{ClientError, ClientFault};
use crate::response_format::{format_key, ResponseFormat};
use crate::text::{same_text, to_lowercase, trim, trimmed_of};

verus! {

/// Number of characters of a key that [`mask_api_key`] shows.
pub const MASK_SHOWN: usize = 5;

/// A status that reports success: 200 to 299.
pub open spec fn is_success(status: u16) -> bool {
    200 <= status && status <= 299
}

/// The view of a list of query parameters: names and values as sequences
/// of characters.
pub open spec fn query_view(query: Seq<(String, String)>) -> Seq<(Seq<char>, Seq<char>)> {
    Seq::new(query.len(), |i: int| (query[i].0@, query[i].1@))
}

/// The view of a result that holds a text.
pub open spec fn text_view(r: Result<String, ClientError>) -> Result<Seq<char>, ClientFault> {
    match r {
        Ok(s) => Ok(s@),
        Err(e) => Err(e@),
    }
}

/// What [`clean_api_key`] returns: the key without the white space around
/// it, unless nothing is left.
pub open spec fn api_key_outcome(api_key: Seq<char>) -> Result<Seq<char>, ClientFault> {
    if trimmed_of(api_key).len() == 0 {
        Err(ClientFault::EmptyApiKey)
    } else {
        Ok(trimmed_of(api_key))
    }
}

/// What [`request_url`] returns: the base address followed by the path
/// without the white space around it; the path must not be empty and must
/// start with a slash.
pub open spec fn url_outcome(base_url: Seq<char>, path: Seq<char>) -> Result<
    Seq<char>,
    ClientFault,
> {
    let p = trimmed_of(path);
    if p.len() == 0 {
        Err(ClientFault::EmptyPath)
    } else if p[0] != '/' {
        Err(ClientFault::InvalidPath)
    } else {
        Ok(base_url + p)
    }
}

/// What [`read_response`] returns: the body of a success, and an error
/// with status and body otherwise.
pub open spec fn response_outcome(status: u16, body: Seq<char>) -> Result<Seq<char>, ClientFault> {
    if is_success(status) {
        Ok(body)
    } else {
        Err(ClientFault::BadStatus { status, body })
    }
}

/// The parameter name that carries the key of the procurement service.
pub open spec fn ticket_name() -> Seq<char> {
    "ticket"@
}

/// The parameters of a request to the financial regulator's service: the
/// key, the format, then the caller's own.
pub open spec fn cmf_query_view(
    api_key: Seq<char>,
    format: CmfResponseFormat,
    params: Seq<(Seq<char>, Seq<char>)>,
) -> Seq<(Seq<char>, Seq<char>)> {
    seq![("apikey"@, api_key), ("formato"@, format.name())] + params
}

/// The parameters of a request to the procurement service: the key, then
/// the caller's own.
pub open spec fn market_query_view(ticket: Seq<char>, params: Seq<(Seq<char>, Seq<char>)>) -> Seq<
    (Seq<char>, Seq<char>),
> {
    seq![(ticket_name(), ticket)] + params
}

/// The masked form of a key: its first five characters, or all of it if it
/// has no more, and three dots. Characters are counted, not bytes, so a
/// key is never cut inside a character.
pub open spec fn masked(key: Seq<char>) -> Seq<char> {
    (if key.len() > MASK_SHOWN {
        key.take(MASK_SHOWN as int)
    } else {
        key
    }) + seq!['.', '.', '.']
}

/// Tells whether a status reports success.
pub fn status_is_success(status: u16) -> (ok: bool)
    ensures
        ok == is_success(status),
{
    200 <= status && status <= 299
}

/// Strips the white space around a key and refuses a key of which nothing
/// is left.
pub fn clean_api_key(api_key: &str) -> (out: Result<String, ClientError>)
    ensures
        text_view(out) == api_key_outcome(api_key@),
{
    let key = trim(api_key);
    if key.is_empty() {
        Err(ClientError::EmptyApiKey)
    } else {
        Ok(key.to_owned())
    }
}

/// The address of a request: `base_url` followed by `path`.
///
/// The white space around the path is dropped. An empty path is refused
/// with `EmptyPath`, one that does not start with a slash with
/// `InvalidPath`.
pub fn request_url(base_url: &str, path: &str) -> (out: Result<String, ClientError>)
    ensures
        text_view(out) == url_outcome(base_url@, path@),
{
    let p = trim(path);
    if p.is_empty() {
        return Err(ClientError::EmptyPath);
    }
    if p.get_char(0) != '/' {
        return Err(ClientError::InvalidPath);
    }
    let mut url = base_url.to_owned();
    url.append(p);
    Ok(url)
}

/// Reads an answer: the body of a success is handed on, anything else is
/// a `BadStatus` with the status and the body.
pub fn read_response(status: u16, body: String) -> (out: Result<String, ClientError>)
    ensures
        text_view(out) == response_outcome(status, body@),
{
    if status_is_success(status) {
        Ok(body)
    } else {
        Err(ClientError::BadStatus { status, body })
    }
}

/// Appends a copy of each of `params` to `query`.
fn extend_query(query: &mut Vec<(String, String)>, params: &Vec<(String, String)>)
    ensures
        query_view(final(query)@) == query_view(old(query)@) + query_view(params@),
{
    let mut i: usize = 0;
    while i < params.len()
        invariant
            i <= params@.len(),
            query_view(query@) == query_view(old(query)@) + query_view(params@.take(i as int)),
        decreases params@.len() - i,
    {
        let ghost before = query@;
        let name = params[i].0.clone();
        let value = params[i].1.clone();
        query.push((name, value));
        i = i + 1;
        proof {
            assert(query_view(before.push((name, value))) =~= query_view(before).push((name@, value@)));
            assert(query_view(params@.take(i as int)) =~= query_view(params@.take(i - 1)).push((name@, value@)));
            assert(query_view(query@) =~= query_view(old(query)@) + query_view(
                params@.take(i as int),
            ));
        }
    }
    proof {
        assert(params@.take(params@.len() as int) =~= params@);
    }
}

/// The parameters of a request to the financial regulator's service.
pub fn cmf_query(api_key: &str, format: CmfResponseFormat, params: &Vec<(String, String)>) -> (out:
    Vec<(String, String)>)
    ensures
        query_view(out@) == cmf_query_view(api_key@, format, query_view(params@)),
{
    let mut out: Vec<(String, String)> = Vec::new();
    out.push(("apikey".to_owned(), api_key.to_owned()));
    out.push(("formato".to_owned(), format.as_str().to_owned()));
    proof {
        assert(query_view(out@) =~= seq![("apikey"@, api_key@), ("formato"@, format.name())]);
    }
    extend_query(&mut out, params);
    out
}

/// The path of a request to the procurement service: the service takes the
/// format as an extension of the path.
pub fn market_path(path: &str, format: ResponseFormat) -> (out: String)
    ensures
        out@ == path@ + seq!['.'] + format.name(),
{
    let mut out = path.to_owned();
    out.push('.');
    out.append(format.as_str());
    proof {
        assert(out@ =~= path@ + seq!['.'] + format.name());
    }
    out
}

/// The parameters of a request to the procurement service.
pub fn market_query(ticket: &str, params: &Vec<(String, String)>) -> (out: Vec<(String, String)>)
    ensures
        query_view(out@) == market_query_view(ticket@, query_view(params@)),
{
    let mut out: Vec<(String, String)> = Vec::new();
    out.push(("ticket".to_owned(), ticket.to_owned()));
    proof {
        assert(query_view(out@) =~= seq![(ticket_name(), ticket@)]);
    }
    extend_query(&mut out, params);
    out
}

/// Tells whether a key, as [`format_key`] gives it, is the name of the
/// ticket parameter.
pub fn is_ticket_key(key: &str) -> (yes: bool)
    ensures
        yes == (key@ == ticket_name()),
{
    same_text(key, "ticket")
}

/// Tells whether a parameter name would replace the ticket: whether it is
/// `ticket`, whatever its case and the white space around it.
pub fn overrides_ticket(name: &str) -> (yes: bool)
    ensures
        yes == (format_key(name@) == ticket_name()),
{
    let lowered = to_lowercase(name);
    is_ticket_key(trim(lowered.as_str()))
}

/// The index of the first of `params` whose name would replace the ticket.
pub fn find_ticket_override(params: &Vec<(String, String)>) -> (out: Option<usize>)
    ensures
        match out {
            Some(i) => i < params@.len() && format_key(params@[i as int].0@) == ticket_name()
                && forall|j: int| 0 <= j < i ==> format_key(#[trigger] params@[j].0@) != ticket_name(),
            None => forall|j: int|
                0 <= j < params@.len() ==> format_key(#[trigger] params@[j].0@) != ticket_name(),
        },
{
    let mut i: usize = 0;
    while i < params.len()
        invariant
            i <= params@.len(),
            forall|j: int| 0 <= j < i ==> format_key(#[trigger] params@[j].0@) != ticket_name(),
        decreases params@.len() - i,
    {
        if overrides_ticket(params[i].0.as_str()) {
            return Some(i);
        }
        i = i + 1;
    }
    None
}

/// The form in which a key may be shown: its first five characters and
/// three dots.
///
/// The five are characters, not bytes: a key of ASCII characters shows its
/// first five bytes, and a key with other characters shows five whole
/// characters, however many bytes they take. Every key has a masked form.
pub fn mask_api_key(key: &str) -> (out: String)
    ensures
        out@ == masked(key@),
{
    let n: usize = key.unicode_len();
    let shown: usize = if n > MASK_SHOWN {
        MASK_SHOWN
    } else {
        n
    };
    let mut out = String::new();
    let mut i: usize = 0;
    while i < shown
        invariant
            n == key@.len(),
            shown <= n,
            i <= shown,
            out@ == key@.take(i as int),
        decreases shown - i,
    {
        out.push(key.get_char(i));
        i = i + 1;
        proof {
            assert(out@ =~= key@.take(i as int));
        }
    }
    out.push('.');
    out.push('.');
    out.push('.');
    proof {
        assert(key@.take(n as int) =~= key@);
        assert(out@ =~= masked(key@));
    }
    out
}

} // verus!
