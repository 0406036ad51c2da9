//! Remote character-lookup API: the shape of its data and the URL of a search.
//!
//! The library never performs the network call itself; the surrounding
//! process sends the GET request and decodes the body, handing the library a
//! `Vec<Person>` or a [`SwapiError`] describing why it got neither.

use vstd::prelude::*;
use vstd::string::*;

verus! {

/// One candidate record from the remote search.
#[derive(Clone, Debug, PartialEq, Eq)]
pub struct Person {
    /// The record's own name; it may differ from the query in case or length.
    pub name: String,
    /// Height in centimeters as free text; the upstream source uses
    /// placeholders such as "unknown" where no height is recorded.
    pub height: String,
}

/// The decoded body of one search response.
#[derive(Clone, Debug, PartialEq, Eq)]
pub struct SearchResult {
    /// Candidates in the relevance order the remote assigned; the first
    /// element is the one this system trusts.
    pub results: Vec<Person>,
}

/// Transport-level reason a search request produced no response body.
#[derive(Clone, Copy, Debug, PartialEq, Eq)]
pub enum RequestFailure {
    /// The request did not complete within the configured timeout.
    Timeout,
    /// The connection could not be established.
    Connection,
    /// The remote answered with the given non-success status code.
    Status(u16),
}

/// Why a search yielded no candidate list.
#[derive(Clone, Copy, Debug, PartialEq, Eq)]
pub enum SwapiError {
    /// The request could not complete at all.
    RequestFailed(RequestFailure),
    /// A response arrived but its body was not the expected shape.
    DecodeFailed,
}

/// The characters a URL query value may carry unescaped: ASCII letters,
/// digits, and the four unreserved punctuation marks.
pub open spec fn is_unreserved(c: char) -> bool {
    ('A' as int <= c as int && c as int <= 'Z' as int) || ('a' as int <= c as int && c as int
        <= 'z' as int) || ('0' as int <= c as int && c as int <= '9' as int) || c == '-' || c == '.'
        || c == '_' || c == '~'
}

/// The hexadecimal digit of value `n`, upper case.
pub open spec fn hex_digit(n: int) -> char {
    "0123456789ABCDEF"@[n]
}

/// The "%XX" form of one byte.
pub open spec fn percent_encoded(b: u8) -> Seq<char> {
    seq!['%', hex_digit(b as int / 16), hex_digit(b as int % 16)]
}

/// The escaped form of one character: an unreserved character stands as
/// itself; every other character is written as one "%XX" per byte of its
/// UTF-8 encoding, whose bytes the arithmetic below spells out by the
/// character's codepoint range.
pub open spec fn escaped_char(c: char) -> Seq<char> {
    let cp = c as int;
    if is_unreserved(c) {
        seq![c]
    } else if cp < 0x80 {
        percent_encoded(cp as u8)
    } else if cp < 0x800 {
        percent_encoded((0xC0 + cp / 0x40) as u8) + percent_encoded((0x80 + cp % 0x40) as u8)
    } else if cp < 0x10000 {
        percent_encoded((0xE0 + cp / 0x1000) as u8) + percent_encoded(
            (0x80 + (cp / 0x40) % 0x40) as u8,
        ) + percent_encoded((0x80 + cp % 0x40) as u8)
    } else {
        percent_encoded((0xF0 + cp / 0x40000) as u8) + percent_encoded(
            (0x80 + (cp / 0x1000) % 0x40) as u8,
        ) + percent_encoded((0x80 + (cp / 0x40) % 0x40) as u8) + percent_encoded(
            (0x80 + cp % 0x40) as u8,
        )
    }
}

/// The percent-escaped form of a whole string.
pub open spec fn url_escaped(s: Seq<char>) -> Seq<char>
    decreases s.len(),
{
    if s.len() == 0 {
        Seq::empty()
    } else {
        url_escaped(s.drop_last()) + escaped_char(s.last())
    }
}

/// Appends the "%XX" form of `b` to `out`.
fn push_percent(out: &mut String, b: u8)
    ensures
        final(out)@ == old(out)@ + percent_encoded(b),
{
    let hex = "0123456789ABCDEF";
    proof {
        reveal_strlit("%");
        reveal_strlit("0123456789ABCDEF");
        assert(hex.is_ascii());
    }
    out.append("%");
    let hi = (b / 16) as usize;
    let h = hex.substring_ascii(hi, hi + 1);
    out.append(h);
    let lo = (b % 16) as usize;
    let l = hex.substring_ascii(lo, lo + 1);
    out.append(l);
    proof {
        assert(("%")@ =~= seq!['%']);
        assert(h@ =~= seq![hex_digit(b as int / 16)]);
        assert(l@ =~= seq![hex_digit(b as int % 16)]);
        assert(out@ =~= old(out)@ + percent_encoded(b));
    }
}

/// The percent-escaped form of `name`, fit to stand as a URL query value:
/// everything outside the unreserved set, separators and delimiters
/// included, is escaped, so the name cannot smuggle further query
/// parameters.
pub fn urlescape(name: &str) -> (r: String)
    ensures
        r@ == url_escaped(name@),
{
    let len = name.unicode_len();
    let mut out = String::new();
    proof {
        assert(name@.subrange(0, 0) =~= Seq::<char>::empty());
    }
    let mut i: usize = 0;
    while i < len
        invariant
            i <= len,
            len == name@.len(),
            out@ == url_escaped(name@.subrange(0, i as int)),
        decreases len - i,
    {
        let c = name.get_char(i);
        let ghost prefix = name@.subrange(0, i as int);
        let ghost q = name@.subrange(0, i as int + 1);
        proof {
            assert(q.drop_last() =~= prefix);
            assert(q.last() == c);
        }
        let cp = c as u32;
        let unreserved = (cp >= 'A' as u32 && cp <= 'Z' as u32) || (cp >= 'a' as u32 && cp <= 'z'
            as u32) || (cp >= '0' as u32 && cp <= '9' as u32) || c == '-' || c == '.' || c == '_'
            || c == '~';
        if unreserved {
            let piece = name.substring_char(i, i + 1);
            out.append(piece);
            proof {
                assert(piece@ =~= seq![c]);
                assert(out@ =~= url_escaped(q));
            }
        } else if cp < 0x80 {
            push_percent(&mut out, cp as u8);
            proof {
                assert(out@ =~= url_escaped(q));
            }
        } else if cp < 0x800 {
            push_percent(&mut out, (0xC0 + cp / 0x40) as u8);
            push_percent(&mut out, (0x80 + cp % 0x40) as u8);
            proof {
                assert(out@ =~= url_escaped(q));
            }
        } else if cp < 0x10000 {
            push_percent(&mut out, (0xE0 + cp / 0x1000) as u8);
            push_percent(&mut out, (0x80 + (cp / 0x40) % 0x40) as u8);
            push_percent(&mut out, (0x80 + cp % 0x40) as u8);
            proof {
                assert(out@ =~= url_escaped(q));
            }
        } else {
            push_percent(&mut out, (0xF0 + cp / 0x40000) as u8);
            push_percent(&mut out, (0x80 + (cp / 0x1000) % 0x40) as u8);
            push_percent(&mut out, (0x80 + (cp / 0x40) % 0x40) as u8);
            push_percent(&mut out, (0x80 + cp % 0x40) as u8);
            proof {
                assert(out@ =~= url_escaped(q));
            }
        }
        i = i + 1;
    }
    proof {
        assert(name@.subrange(0, len as int) =~= name@);
    }
    out
}

/// The URL a search for `name` is sent to, under the given base URL: the
/// fixed path and query parameter, with the name percent-escaped.
pub fn search_url(base_url: &str, name: &str) -> (url: String)
    ensures
        url@ == base_url@ + "/api/people/?search="@ + url_escaped(name@),
{
    let mut url = base_url.to_owned();
    url.append("/api/people/?search=");
    let escaped = urlescape(name);
    url.append(escaped.as_str());
    url
}

} // verus!
