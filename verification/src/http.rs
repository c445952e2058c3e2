//! A response as this crate decides it: a status, the headers in the order in
//! which they were set, and a body.
use vstd::prelude::*;
use crate::text::{decimal, decimal_string, same};

verus! {

/// One header line.
#[derive(Debug, Clone, PartialEq, Eq)]
pub struct Header {
    pub name: String,
    pub value: String,
}

/// A response to an HTTP request.
#[derive(Debug, Clone, PartialEq, Eq)]
pub struct Response {
    pub status: u16,
    pub headers: Vec<Header>,
    pub body: Vec<u8>,
}

/// The mathematical content of a [`Response`].
pub struct ResponseView {
    pub status: u16,
    pub headers: Seq<(Seq<char>, Seq<char>)>,
    pub body: Seq<u8>,
}

/// The header lines of `headers` as pairs of name and value.
pub open spec fn header_pairs(headers: Seq<Header>) -> Seq<(Seq<char>, Seq<char>)> {
    Seq::new(headers.len(), |i: int| (headers[i].name@, headers[i].value@))
}

impl View for Response {
    type V = ResponseView;

    open spec fn view(&self) -> ResponseView {
        ResponseView {
            status: self.status,
            headers: header_pairs(self.headers@),
            body: self.body@,
        }
    }
}

/// The value of the first header called `name`.
pub open spec fn first_value(headers: Seq<(Seq<char>, Seq<char>)>, name: Seq<char>) -> Option<
    Seq<char>,
>
    decreases headers.len(),
{
    if headers.len() == 0 {
        None
    } else if headers[0].0 == name {
        Some(headers[0].1)
    } else {
        first_value(headers.drop_first(), name)
    }
}

/// The three headers that forbid caching.
pub open spec fn no_cache_headers() -> Seq<(Seq<char>, Seq<char>)> {
    seq![
        ("Expires"@, "Fri, 01 Jan 1980 00:00:00 GMT"@),
        ("Pragma"@, "no-cache"@),
        ("Cache-Control"@, "no-cache, max-age=0, must-revalidate"@),
    ]
}

/// The seconds of one year, the time for which a cached object stays fresh.
pub const CACHE_SECONDS: u64 = 31536000;

/// The three headers that let a response be cached for a year, stamped at
/// `now`, in seconds since the epoch: the response expires as many seconds
/// after its date as it may be cached.
pub open spec fn cache_forever_headers(now: u64) -> Seq<(Seq<char>, Seq<char>)> {
    seq![
        ("Date"@, decimal(now as nat)),
        ("Expires"@, decimal((now + CACHE_SECONDS) as nat)),
        ("Cache-Control"@, "public, max-age=31536000"@),
    ]
}

impl Response {
    /// An empty response with the given status.
    pub fn new(status: u16) -> (r: Response)
        ensures
            r@ == (ResponseView { status, headers: Seq::empty(), body: Seq::empty() }),
    {
        let r = Response { status, headers: Vec::new(), body: Vec::new() };
        assert(r@.headers =~= Seq::empty());
        r
    }

    /// An empty response with status 200.
    pub fn ok() -> (r: Response)
        ensures
            r@ == (ResponseView { status: 200, headers: Seq::empty(), body: Seq::empty() }),
    {
        Response::new(200)
    }

    /// Adds the header `name: value` after those already set.
    pub fn header(self, name: &str, value: &str) -> (r: Response)
        ensures
            r@ == (ResponseView { headers: self@.headers.push((name@, value@)), ..self@ }),
    {
        let mut headers = self.headers;
        let ghost before = headers@;
        headers.push(Header { name: name.to_owned(), value: value.to_owned() });
        let r = Response { status: self.status, headers, body: self.body };
        assert(r@.headers =~= header_pairs(before).push((name@, value@)));
        r
    }

    /// Replaces the body.
    pub fn with_body(self, body: Vec<u8>) -> (r: Response)
        ensures
            r@ == (ResponseView { body: body@, ..self@ }),
    {
        Response { status: self.status, headers: self.headers, body }
    }

    /// The value of the first header called `name`.
    pub fn header_value(&self, name: &str) -> (v: Option<&str>)
        ensures
            match v {
                Some(s) => first_value(self@.headers, name@) == Some(s@),
                None => first_value(self@.headers, name@) is None,
            },
    {
        let mut i: usize = 0;
        assert(self@.headers.skip(0) =~= self@.headers);
        while i < self.headers.len()
            invariant
                i <= self.headers.len(),
                first_value(self@.headers, name@) == first_value(
                    self@.headers.skip(i as int),
                    name@,
                ),
            decreases self.headers.len() - i,
        {
            let ghost rest = self@.headers.skip(i as int);
            assert(rest[0] == self@.headers[i as int]);
            if same(self.headers[i].name.as_str(), name) {
                return Some(self.headers[i].value.as_str());
            }
            assert(rest.drop_first() =~= self@.headers.skip(i + 1));
            i += 1;
        }
        None
    }

    /// Forbids caching of this response.
    pub fn no_cache(self) -> (r: Response)
        ensures
            r@ == (ResponseView { headers: self@.headers + no_cache_headers(), ..self@ }),
    {
        let r = self.header("Expires", "Fri, 01 Jan 1980 00:00:00 GMT").header(
            "Pragma",
            "no-cache",
        ).header("Cache-Control", "no-cache, max-age=0, must-revalidate");
        assert(r@.headers =~= self@.headers + no_cache_headers());
        r
    }

    /// Lets this response be cached for a year from `now`, the time in
    /// seconds since the epoch.
    pub fn cache_forever(self, now: u64) -> (r: Response)
        ensures
            r@ == (ResponseView { headers: self@.headers + cache_forever_headers(now), ..self@ }),
    {
        let date = decimal_string(now as u128);
        let expires = decimal_string(now as u128 + CACHE_SECONDS as u128);
        let r = self.header("Date", date.as_str()).header("Expires", expires.as_str()).header(
            "Cache-Control",
            "public, max-age=31536000",
        );
        assert(r@.headers =~= self@.headers + cache_forever_headers(now));
        r
    }
}

} // verus!
