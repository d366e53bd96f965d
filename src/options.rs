use std::time::Duration;

use vstd::prelude::*;

use crate::errors::TrendingError;

verus! {

/// A proxy configuration of `reqwest`, carried through as an opaque value.
#[verifier::external_type_specification]
#[verifier::external_body]
pub struct ExProxy(reqwest::Proxy);

/// Whether `c` is a token character, the characters an HTTP header name is
/// made of.
pub open spec fn is_token_char(c: char) -> bool {
    ||| ('a' <= c && c <= 'z')
    ||| ('A' <= c && c <= 'Z')
    ||| ('0' <= c && c <= '9')
    ||| c == '!' || c == '#' || c == '$' || c == '%' || c == '&' || c == '\''
    ||| c == '*' || c == '+' || c == '-' || c == '.' || c == '^' || c == '_'
    ||| c == '`' || c == '|' || c == '~'
}

/// Whether `s` is a valid header name: 1 to 65535 token characters.
pub open spec fn valid_header_name(s: Seq<char>) -> bool {
    &&& 0 < s.len() <= 65535
    &&& forall|i: int| 0 <= i < s.len() ==> is_token_char(#[trigger] s[i])
}

/// Whether `s` is a valid header value: no control character but the tab, and
/// no DEL.
pub open spec fn valid_header_value(s: Seq<char>) -> bool {
    forall|i: int|
        0 <= i < s.len() ==> ((#[trigger] s[i] as u32) >= 32 && s[i] as u32 != 127) || s[i]
            == '\t'
}

/// `c` with an ASCII upper-case letter turned into lower case.
pub open spec fn lower_char(c: char) -> char {
    if 'A' <= c && c <= 'Z' {
        ((c as u32) + 32) as char
    } else {
        c
    }
}

/// `s` with its ASCII upper-case letters turned into lower case.
pub open spec fn lower_ascii(s: Seq<char>) -> Seq<char> {
    s.map_values(|c: char| lower_char(c))
}

/// The header map that a sequence of entries stands for: each entry sets its
/// name, and a later entry for a name replaces an earlier one.
pub open spec fn header_map(entries: Seq<(String, String)>) -> Map<Seq<char>, Seq<char>>
    decreases entries.len(),
{
    if entries.len() == 0 {
        Map::empty()
    } else {
        header_map(entries.drop_last()).insert(entries.last().0@, entries.last().1@)
    }
}

/// The header map `m` after setting each entry in turn, its name in lower case.
pub open spec fn headers_applied(
    m: Map<Seq<char>, Seq<char>>,
    entries: Seq<(String, String)>,
) -> Map<Seq<char>, Seq<char>>
    decreases entries.len(),
{
    if entries.len() == 0 {
        m
    } else {
        headers_applied(m, entries.drop_last()).insert(
            lower_ascii(entries.last().0@),
            entries.last().1@,
        )
    }
}

/// Whether every entry has a valid header name and a valid header value.
pub open spec fn all_headers_valid(entries: Seq<(String, String)>) -> bool {
    forall|i: int|
        0 <= i < entries.len() ==> valid_header_name((#[trigger] entries[i]).0@)
            && valid_header_value(entries[i].1@)
}

/// Whether `proxy` is accepted by `reqwest::Proxy::all`, which reads it as a url.
pub uninterp spec fn proxy_accepted(proxy: Seq<char>) -> bool;

/// Relies on `reqwest::header::HeaderName::from_str`: it accepts 1 to 65535
/// token bytes and keeps the name in lower case, which `as_str` returns.
#[verifier::external_body]
fn parse_header_name(name: &str) -> (r: Option<String>)
    ensures
        r is Some <==> valid_header_name(name@),
        r matches Some(n) ==> n@ == lower_ascii(name@),
{
    <reqwest::header::HeaderName as std::str::FromStr>::from_str(name).ok().map(
        |n| n.as_str().to_string(),
    )
}

/// Relies on `reqwest::header::HeaderValue::from_str`: it accepts a string
/// whose bytes are the tab or at least 32, but not 127.
#[verifier::external_body]
fn header_value_accepted(value: &str) -> (r: bool)
    ensures
        r == valid_header_value(value@),
{
    reqwest::header::HeaderValue::from_str(value).is_ok()
}

/// Relies on `reqwest::Proxy::all`: a proxy for all traffic when the
/// descriptor reads as a url; whether it does depends on the text alone.
#[verifier::external_body]
fn proxy_all(proxy: &str) -> (r: Result<reqwest::Proxy, reqwest::Error>)
    ensures
        r is Ok <==> proxy_accepted(proxy@),
{
    reqwest::Proxy::all(proxy)
}

/// The configuration of a client: default headers, an optional whole-request
/// timeout and an optional proxy. Header names are kept in lower case, so that
/// they match without regard to case.
#[derive(Debug)]
pub struct ClientOptions {
    headers: Vec<(String, String)>,
    timeout: Option<Duration>,
    proxy: Option<reqwest::Proxy>,
}

/// The headers, as a map from lower-case name to value.
impl View for ClientOptions {
    type V = Map<Seq<char>, Seq<char>>;

    closed spec fn view(&self) -> Map<Seq<char>, Seq<char>> {
        header_map(self.headers@)
    }
}

/// `header_map` holds a name exactly when some entry has it.
proof fn lemma_header_map_keys(entries: Seq<(String, String)>, k: Seq<char>)
    ensures
        header_map(entries).contains_key(k) <==> exists|i: int|
            0 <= i < entries.len() && (#[trigger] entries[i]).0@ == k,
    decreases entries.len(),
{
    if entries.len() > 0 {
        let rest = entries.drop_last();
        lemma_header_map_keys(rest, k);
        if exists|i: int| 0 <= i < rest.len() && (#[trigger] rest[i]).0@ == k {
            let i = choose|i: int| 0 <= i < rest.len() && (#[trigger] rest[i]).0@ == k;
            assert(entries[i] == rest[i]);
        }
        if exists|i: int| 0 <= i < entries.len() && (#[trigger] entries[i]).0@ == k {
            let i = choose|i: int| 0 <= i < entries.len() && (#[trigger] entries[i]).0@ == k;
            if i < rest.len() {
                assert(rest[i] == entries[i]);
            }
        }
    }
}

impl ClientOptions {
    /// The timeout.
    pub closed spec fn timeout_spec(&self) -> Option<Duration> {
        self.timeout
    }

    /// The proxy.
    pub closed spec fn proxy_spec(&self) -> Option<reqwest::Proxy> {
        self.proxy
    }

    /// Options with no header, no timeout and no proxy.
    pub fn new() -> (r: ClientOptions)
        ensures
            r@ == Map::<Seq<char>, Seq<char>>::empty(),
            r.timeout_spec() is None,
            r.proxy_spec() is None,
    {
        ClientOptions { headers: Vec::new(), timeout: None, proxy: None }
    }

    /// Sets the header `name` (in lower case) to `value`, replacing an earlier
    /// value of that name. The name is checked first, then the value.
    pub fn with_header(self, name: &str, value: &str) -> (r: Result<ClientOptions, TrendingError>)
        ensures
            !valid_header_name(name@) ==> (r matches Err(TrendingError::HeaderName { name: n })
                && n@ == name@),
            valid_header_name(name@) && !valid_header_value(value@) ==> (r matches Err(
                TrendingError::HeaderValue { value: v },
            ) && v@ == value@),
            valid_header_name(name@) && valid_header_value(value@) ==> (r matches Ok(o) && o@
                == self@.insert(lower_ascii(name@), value@) && o.timeout_spec()
                == self.timeout_spec() && o.proxy_spec() == self.proxy_spec()),
    {
        let key = match parse_header_name(name) {
            Some(k) => k,
            None => {
                return Err(TrendingError::HeaderName { name: String::from_str(name) });
            },
        };
        if !header_value_accepted(value) {
            return Err(TrendingError::HeaderValue { value: String::from_str(value) });
        }
        let ClientOptions { headers, timeout, proxy } = self;
        let mut kept: Vec<(String, String)> = Vec::new();
        let n = headers.len();
        for i in 0..n
            invariant
                n == headers@.len(),
                header_map(kept@) == header_map(headers@.take(i as int)).remove(key@),
        {
            assert(headers@.take(i + 1).drop_last() =~= headers@.take(i as int));
            let ghost before = kept@;
            if headers[i].0 != key {
                kept.push((headers[i].0.clone(), headers[i].1.clone()));
                assert(kept@.drop_last() == before);
                assert(header_map(kept@) =~= header_map(headers@.take(i + 1)).remove(key@));
            } else {
                assert(header_map(kept@) =~= header_map(headers@.take(i + 1)).remove(key@));
            }
        }
        assert(headers@.take(n as int) =~= headers@);
        let ghost before = kept@;
        kept.push((key, String::from_str(value)));
        assert(kept@.drop_last() == before);
        let r = ClientOptions { headers: kept, timeout, proxy };
        assert(r@ =~= self@.insert(lower_ascii(name@), value@));
        Ok(r)
    }

    /// Sets each header of `headers` in turn, as `with_header` does; fails on
    /// the first entry that is refused.
    pub fn with_headers(self, headers: Vec<(String, String)>) -> (r: Result<
        ClientOptions,
        TrendingError,
    >)
        ensures
            all_headers_valid(headers@) ==> (r matches Ok(o) && o@ == headers_applied(
                self@,
                headers@,
            ) && o.timeout_spec() == self.timeout_spec() && o.proxy_spec() == self.proxy_spec()),
            !all_headers_valid(headers@) ==> r is Err,
    {
        let ghost start = self;
        let mut cur = self;
        let n = headers.len();
        for i in 0..n
            invariant
                n == headers@.len(),
                cur@ == headers_applied(start@, headers@.take(i as int)),
                cur.timeout_spec() == start.timeout_spec(),
                cur.proxy_spec() == start.proxy_spec(),
                all_headers_valid(headers@.take(i as int)),
        {
            assert(headers@.take(i + 1).drop_last() =~= headers@.take(i as int));
            match cur.with_header(headers[i].0.as_str(), headers[i].1.as_str()) {
                Ok(o) => {
                    cur = o;
                    assert(all_headers_valid(headers@.take(i + 1)));
                },
                Err(e) => {
                    return Err(e);
                },
            }
        }
        assert(headers@.take(n as int) =~= headers@);
        Ok(cur)
    }

    /// Whether a header of this name is set, without regard to case. A string
    /// that is not a valid header name is never set.
    pub fn contains_header(&self, name: &str) -> (r: bool)
        ensures
            r == (valid_header_name(name@) && self@.contains_key(lower_ascii(name@))),
    {
        let key = match parse_header_name(name) {
            Some(k) => k,
            None => {
                return false;
            },
        };
        let n = self.headers.len();
        for i in 0..n
            invariant
                n == self.headers@.len(),
                forall|j: int| 0 <= j < i ==> (#[trigger] self.headers@[j]).0@ != key@,
                key@ == lower_ascii(name@),
                valid_header_name(name@),
        {
            if self.headers[i].0 == key {
                proof {
                    lemma_header_map_keys(self.headers@, key@);
                    assert(self.headers@[i as int].0@ == key@);
                }
                return true;
            }
        }
        proof {
            lemma_header_map_keys(self.headers@, key@);
        }
        false
    }

    /// Sets the whole-request timeout.
    pub fn with_timeout(self, timeout: Duration) -> (r: ClientOptions)
        ensures
            r@ == self@,
            r.timeout_spec() == Some(timeout),
            r.proxy_spec() == self.proxy_spec(),
    {
        ClientOptions { timeout: Some(timeout), ..self }
    }

    /// Routes all traffic through the proxy at the url `proxy`.
    pub fn with_proxy(self, proxy: &str) -> (r: Result<ClientOptions, TrendingError>)
        ensures
            proxy_accepted(proxy@) ==> (r matches Ok(o) && o@ == self@ && o.timeout_spec()
                == self.timeout_spec() && o.proxy_spec() is Some),
            !proxy_accepted(proxy@) ==> (r matches Err(TrendingError::Proxy { proxy: p, .. })
                && p@ == proxy@),
    {
        match proxy_all(proxy) {
            Ok(p) => Ok(ClientOptions { proxy: Some(p), ..self }),
            Err(e) => Err(TrendingError::Proxy { proxy: String::from_str(proxy), source: e }),
        }
    }

    /// Takes the options apart into their headers, timeout and proxy, for
    /// building a transport.
    pub fn into_parts(self) -> (r: (Vec<(String, String)>, Option<Duration>, Option<reqwest::Proxy>))
        ensures
            header_map(r.0@) == self@,
            r.1 == self.timeout_spec(),
            r.2 == self.proxy_spec(),
    {
        (self.headers, self.timeout, self.proxy)
    }
}

/// Once a header is set under some name, a lookup under any spelling of that
/// name that differs only in the case of ASCII letters finds it.
pub proof fn lemma_set_header_found_any_case(
    before: ClientOptions,
    after: ClientOptions,
    name: Seq<char>,
    value: Seq<char>,
    query: Seq<char>,
)
    requires
        valid_header_name(name),
        valid_header_value(value),
        after@ == before@.insert(lower_ascii(name), value),
        lower_ascii(query) == lower_ascii(name),
    ensures
        valid_header_name(query),
        after@.contains_key(lower_ascii(query)),
{
    assert(query.len() == lower_ascii(query).len());
    assert forall|i: int| 0 <= i < query.len() implies is_token_char(#[trigger] query[i]) by {
        assert(lower_ascii(query)[i] == lower_char(query[i]));
        assert(lower_ascii(name)[i] == lower_char(name[i]));
        assert(is_token_char(name[i]));
    }
}

} // verus!
