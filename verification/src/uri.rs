//! The resource locator: parsed once at construction into scheme, host,
//! port and path; the path is later split into wire-level options.
//!
//! The accepted grammar is `coap://` or `coaps://`, a nonempty host, an
//! optional `:` decimal port up to 65535, and an optional `/`-introduced
//! path. Anything else is rejected as invalid.

use crate::error::CoapError;
use crate::text::str_eq;
use vstd::prelude::*;
use vstd::string::StrSliceExecFns;

verus! {

/// A decimal digit.
pub open spec fn is_digit(c: char) -> bool {
    '0' <= c && c <= '9'
}

/// Every character of the sequence is a decimal digit.
pub open spec fn all_digits(s: Seq<char>) -> bool {
    forall|i: int| 0 <= i < s.len() ==> is_digit(#[trigger] s[i])
}

/// The number a digit sequence denotes, most significant digit first.
pub open spec fn dec_value(s: Seq<char>) -> int
    decreases s.len(),
{
    if s.len() == 0 {
        0
    } else {
        dec_value(s.drop_last()) * 10 + (s.last() as int - '0' as int)
    }
}

/// The first position at or after `from` holding `:` or `/`, or the end.
pub open spec fn seg_end(s: Seq<char>, from: int) -> int
    recommends
        0 <= from <= s.len(),
    decreases s.len() - from,
{
    if from < 0 || from >= s.len() {
        s.len() as int
    } else if s[from] == ':' || s[from] == '/' {
        from
    } else {
        seg_end(s, from + 1)
    }
}

/// The first position at or after `from` holding `/`, or the end.
pub open spec fn slash_end(s: Seq<char>, from: int) -> int
    recommends
        0 <= from <= s.len(),
    decreases s.len() - from,
{
    if from < 0 || from >= s.len() {
        s.len() as int
    } else if s[from] == '/' {
        from
    } else {
        slash_end(s, from + 1)
    }
}

/// The port a locator names when it names none itself.
pub open spec fn default_port(secure: bool) -> int {
    if secure {
        5684
    } else {
        5683
    }
}

/// The decomposition of a well-formed locator.
pub struct UriParts {
    pub secure: bool,
    pub host: Seq<char>,
    pub port: int,
    pub path: Seq<char>,
}

/// Parses what follows the scheme: a nonempty host, an optional decimal
/// port, an optional path.
pub open spec fn spec_parse_authority(rest: Seq<char>, secure: bool) -> Option<UriParts> {
    let he = seg_end(rest, 0);
    if he == 0 {
        None
    } else {
        let host = rest.take(he);
        if he == rest.len() {
            Some(UriParts { secure, host, port: default_port(secure), path: Seq::<char>::empty() })
        } else if rest[he] == '/' {
            Some(UriParts { secure, host, port: default_port(secure), path: rest.skip(he + 1) })
        } else {
            let pe = slash_end(rest, he + 1);
            let digits = rest.subrange(he + 1, pe);
            if digits.len() == 0 || !all_digits(digits) || dec_value(digits) > 65535 {
                None
            } else if pe == rest.len() {
                Some(UriParts { secure, host, port: dec_value(digits), path: Seq::<char>::empty() })
            } else {
                Some(UriParts { secure, host, port: dec_value(digits), path: rest.skip(pe + 1) })
            }
        }
    }
}

/// Parses a locator: scheme, then authority. Unknown schemes, empty
/// hosts and malformed or out-of-range ports yield nothing.
pub open spec fn spec_parse_uri(s: Seq<char>) -> Option<UriParts> {
    if s.len() >= 8 && s.take(8) == "coaps://"@ {
        spec_parse_authority(s.skip(8), true)
    } else if s.len() >= 7 && s.take(7) == "coap://"@ {
        spec_parse_authority(s.skip(7), false)
    } else {
        None
    }
}

proof fn lemma_dec_value_nonneg(s: Seq<char>)
    requires
        all_digits(s),
    ensures
        dec_value(s) >= 0,
    decreases s.len(),
{
    if s.len() > 0 {
        assert(all_digits(s.drop_last()));
        lemma_dec_value_nonneg(s.drop_last());
    }
}

proof fn lemma_dec_value_monotone(s: Seq<char>, i: int, j: int)
    requires
        all_digits(s),
        0 <= i <= j <= s.len(),
    ensures
        dec_value(s.take(i)) <= dec_value(s.take(j)),
    decreases j - i,
{
    if i < j {
        lemma_dec_value_monotone(s, i, j - 1);
        assert(s.take(j).drop_last() =~= s.take(j - 1));
        assert(all_digits(s.take(j - 1)));
        lemma_dec_value_nonneg(s.take(j - 1));
        assert(s.take(j).last() == s[j - 1]);
    }
}

proof fn lemma_seg_end_at(s: Seq<char>, from: int, i: int)
    requires
        0 <= from <= i <= s.len(),
        forall|j: int| from <= j < i ==> !(#[trigger] s[j] == ':' || s[j] == '/'),
        i == s.len() || s[i] == ':' || s[i] == '/',
    ensures
        seg_end(s, from) == i,
    decreases i - from,
{
    if from < i {
        lemma_seg_end_at(s, from + 1, i);
    }
}

pub(crate) proof fn lemma_slash_end_at(s: Seq<char>, from: int, i: int)
    requires
        0 <= from <= i <= s.len(),
        forall|j: int| from <= j < i ==> #[trigger] s[j] != '/',
        i == s.len() || s[i] == '/',
    ensures
        slash_end(s, from) == i,
    decreases i - from,
{
    if from < i {
        lemma_slash_end_at(s, from + 1, i);
    }
}

pub(crate) proof fn lemma_slash_end_bounds(s: Seq<char>, from: int)
    requires
        0 <= from <= s.len(),
    ensures
        from <= slash_end(s, from) <= s.len(),
        slash_end(s, from) < s.len() ==> s[slash_end(s, from)] == '/',
    decreases s.len() - from,
{
    if from < s.len() && s[from] != '/' {
        lemma_slash_end_bounds(s, from + 1);
    }
}

/// A parsed resource locator: the original text and its decomposition.
#[derive(Debug, Clone)]
pub struct CoapUri {
    uri: String,
    secure: bool,
    host: String,
    port: u16,
    path: String,
}

impl CoapUri {
    /// The original locator text.
    pub closed spec fn spec_uri(self) -> Seq<char> {
        self.uri@
    }

    /// Whether the locator names the secured scheme.
    pub closed spec fn spec_secure(self) -> bool {
        self.secure
    }

    /// The host component, used as the server name indication of the
    /// secured handshake.
    pub closed spec fn spec_host(self) -> Seq<char> {
        self.host@
    }

    /// The port component, or the scheme's default.
    pub closed spec fn spec_port(self) -> u16 {
        self.port
    }

    /// The path component, without its leading slash; empty when the
    /// locator has none.
    pub closed spec fn spec_path(self) -> Seq<char> {
        self.path@
    }

    /// Parses a locator. Returns the decomposed locator exactly when the
    /// text matches the grammar, and `InvalidUri` otherwise.
    #[verifier::loop_isolation(false)]
    pub fn new(uri: String) -> (r: Result<CoapUri, CoapError>)
        ensures
            spec_parse_uri(uri@) is Some ==> {
                &&& r is Ok
                &&& r->Ok_0.spec_uri() == uri@
                &&& r->Ok_0.spec_secure() == spec_parse_uri(uri@)->0.secure
                &&& r->Ok_0.spec_host() == spec_parse_uri(uri@)->0.host
                &&& r->Ok_0.spec_port() as int == spec_parse_uri(uri@)->0.port
                &&& r->Ok_0.spec_path() == spec_parse_uri(uri@)->0.path
            },
            spec_parse_uri(uri@) is None ==> r == Err::<CoapUri, CoapError>(CoapError::InvalidUri),
    {
        let n = uri.as_str().unicode_len();
        let secure: bool;
        let scheme_len: usize;
        if n >= 8 && str_eq(uri.as_str().substring_char(0, 8), "coaps://") {
            secure = true;
            scheme_len = 8;
        } else if n >= 7 && str_eq(uri.as_str().substring_char(0, 7), "coap://") {
            secure = false;
            scheme_len = 7;
        } else {
            return Err(CoapError::InvalidUri);
        }
        let rest = uri.as_str().substring_char(scheme_len, n);
        let rlen = n - scheme_len;
        proof {
            assert(rest@ =~= uri@.skip(scheme_len as int));
            assert(rest@.len() == rlen);
        }
        // Host: up to the first ':' or '/', or the end.
        let mut he: usize = 0;
        while he < rlen && rest.get_char(he) != ':' && rest.get_char(he) != '/'
            invariant
                0 <= he <= rlen,
                rlen == rest@.len(),
                forall|j: int| 0 <= j < he ==> !(#[trigger] rest@[j] == ':' || rest@[j] == '/'),
            decreases rlen - he,
        {
            he += 1;
        }
        proof {
            lemma_seg_end_at(rest@, 0, he as int);
        }
        if he == 0 {
            return Err(CoapError::InvalidUri);
        }
        let host: String = rest.substring_char(0, he).to_owned();
        proof {
            assert(host@ =~= rest@.take(he as int));
        }
        if he == rlen {
            return Ok(
                CoapUri { uri, secure, host, port: if secure { 5684 } else { 5683 }, path: String::new() },
            );
        }
        let sep = rest.get_char(he);
        if sep == '/' {
            let path: String = rest.substring_char(he + 1, rlen).to_owned();
            proof {
                assert(path@ =~= rest@.skip(he + 1));
            }
            return Ok(
                CoapUri { uri, secure, host, port: if secure { 5684 } else { 5683 }, path },
            );
        }
        // A ':' introduces the decimal port, running to the first '/' or
        // the end.
        let mut pe: usize = he + 1;
        while pe < rlen && rest.get_char(pe) != '/'
            invariant
                he + 1 <= pe <= rlen,
                rlen == rest@.len(),
                forall|j: int| he + 1 <= j < pe ==> #[trigger] rest@[j] != '/',
            decreases rlen - pe,
        {
            pe += 1;
        }
        proof {
            lemma_slash_end_at(rest@, he + 1, pe as int);
        }
        let dstr = rest.substring_char(he + 1, pe);
        let dlen = pe - (he + 1);
        proof {
            assert(dstr@ =~= rest@.subrange(he + 1, pe as int));
        }
        if dlen == 0 {
            return Err(CoapError::InvalidUri);
        }
        let mut acc: u32 = 0;
        let mut k: usize = 0;
        while k < dlen
            invariant
                0 <= k <= dlen,
                dlen == dstr@.len(),
                dstr@ == rest@.subrange(he + 1, pe as int),
                all_digits(dstr@.take(k as int)),
                acc == dec_value(dstr@.take(k as int)),
                acc <= 65535,
            decreases dlen - k,
        {
            let c = dstr.get_char(k);
            if c < '0' || c > '9' {
                proof {
                    assert(!is_digit(dstr@[k as int]));
                    assert(!all_digits(dstr@));
                }
                return Err(CoapError::InvalidUri);
            }
            let dv: u32 = (c as u32) - ('0' as u32);
            let next: u32 = acc * 10 + dv;
            proof {
                assert(dstr@.take(k + 1).drop_last() =~= dstr@.take(k as int));
                assert(dstr@.take(k + 1).last() == dstr@[k as int]);
                assert(all_digits(dstr@.take(k + 1)));
                assert(next == dec_value(dstr@.take(k + 1)));
            }
            if next > 65535 {
                proof {
                    if all_digits(dstr@) {
                        lemma_dec_value_monotone(dstr@, k + 1, dstr@.len() as int);
                        assert(dstr@.take(dstr@.len() as int) =~= dstr@);
                    }
                }
                return Err(CoapError::InvalidUri);
            }
            acc = next;
            k += 1;
        }
        proof {
            assert(dstr@.take(dlen as int) =~= dstr@);
        }
        let port: u16 = acc as u16;
        if pe == rlen {
            return Ok(CoapUri { uri, secure, host, port, path: String::new() });
        }
        let path: String = rest.substring_char(pe + 1, rlen).to_owned();
        proof {
            assert(path@ =~= rest@.skip(pe + 1));
        }
        Ok(CoapUri { uri, secure, host, port, path })
    }

    /// The original locator text.
    pub fn as_str(&self) -> (r: &String)
        ensures
            r@ == self.spec_uri(),
    {
        &self.uri
    }

    /// Whether the locator names the secured scheme.
    pub fn is_secure(&self) -> (r: bool)
        ensures
            r == self.spec_secure(),
    {
        self.secure
    }

    /// The host component.
    pub fn host(&self) -> (r: &String)
        ensures
            r@ == self.spec_host(),
    {
        &self.host
    }

    /// The port component, or the scheme's default.
    pub fn port(&self) -> (r: u16)
        ensures
            r == self.spec_port(),
    {
        self.port
    }

    /// The path component, without its leading slash.
    pub fn path(&self) -> (r: &String)
        ensures
            r@ == self.spec_path(),
    {
        &self.path
    }
}

} // verus!
