//! The comparison policy: pick the first candidate, read its height, and
//! compare it to the reference height.

use vstd::prelude::*;
use vstd::string::*;

use crate::swapi::{Person, SwapiError};

verus! {

/// Reference height in centimeters against which every query is answered.
pub const YODA_HEIGHT: usize = 66;

/// Success payload of one query.
#[derive(Clone, Debug, PartialEq, Eq)]
pub struct YodaTallerOutcome {
    /// The name exactly as the caller queried it, not the matched record's
    /// own name.
    pub person: String,
    /// True when the matched height is strictly below
    /// [`YODA_HEIGHT`], i.e. when the reference person is strictly taller.
    pub taller: bool,
}

/// Why a query produced no answer.
#[derive(Clone, Debug, PartialEq, Eq)]
pub enum YodaTallerError {
    /// The remote search itself failed, in transport or in decoding.
    UnexpectedError(SwapiError),
    /// The search succeeded but returned no candidate at all.
    PersonNotFound,
    /// A candidate was found but its height is not a number.
    HeightNotFound,
}

/// Whether `c` is a decimal digit.
pub open spec fn is_ascii_digit(c: char) -> bool {
    '0' as int <= c as int && c as int <= '9' as int
}

/// The numeric value of the digit `c`.
pub open spec fn digit_value(c: char) -> int {
    c as int - '0' as int
}

/// Whether every character of `s` is a decimal digit.
pub open spec fn all_digits(s: Seq<char>) -> bool {
    forall|i: int| 0 <= i < s.len() ==> is_ascii_digit(s[i])
}

/// The value of `s` read as a decimal numeral, most significant digit first.
pub open spec fn digits_value(s: Seq<char>) -> int
    decreases s.len(),
{
    if s.len() == 0 {
        0
    } else {
        digits_value(s.drop_last()) * 10 + digit_value(s.last())
    }
}

/// `s` without its optional leading plus sign: the digits a height string
/// must consist of.
pub open spec fn height_digits(s: Seq<char>) -> Seq<char> {
    if s.len() > 0 && s[0] == '+' {
        s.subrange(1, s.len() as int)
    } else {
        s
    }
}

/// What a height string denotes: its digits read as a decimal number, if the
/// string is a non-empty run of digits after an optional leading plus sign
/// and the value fits the machine's word.
pub open spec fn parsed_height(s: Seq<char>) -> Option<usize> {
    let d = height_digits(s);
    if d.len() > 0 && all_digits(d) && digits_value(d) <= usize::MAX {
        Some(digits_value(d) as usize)
    } else {
        None
    }
}

/// A run of digits denotes a non-negative value.
proof fn lemma_digits_value_nonneg(s: Seq<char>)
    requires
        all_digits(s),
    ensures
        digits_value(s) >= 0,
    decreases s.len(),
{
    if s.len() > 0 {
        lemma_digits_value_nonneg(s.drop_last());
    }
}

/// Extending a run of digits never lowers its value: the whole numeral is at
/// least any of its prefixes.
proof fn lemma_digits_value_prefix_le(s: Seq<char>, k: int)
    requires
        all_digits(s),
        0 <= k <= s.len(),
    ensures
        digits_value(s.subrange(0, k)) <= digits_value(s),
    decreases s.len() - k,
{
    if k == s.len() {
        assert(s.subrange(0, k) =~= s);
    } else {
        let p = s.subrange(0, k);
        let q = s.subrange(0, k + 1);
        assert(q.drop_last() =~= p);
        lemma_digits_value_nonneg(p);
        lemma_digits_value_prefix_le(s, k + 1);
    }
}

/// Reads a height string as a non-negative number of centimeters.
///
/// Accepts an optional leading plus sign followed by one or more decimal
/// digits, provided the value fits; returns `None` for anything else, such
/// as the upstream placeholder "unknown".
pub fn parse_height(s: &str) -> (r: Option<usize>)
    ensures
        r == parsed_height(s@),
{
    let len = s.unicode_len();
    if len == 0 {
        return None;
    }
    let first = s.get_char(0);
    let start: usize = if first == '+' {
        1
    } else {
        0
    };
    let ghost d = height_digits(s@);
    proof {
        assert(d =~= s@.subrange(start as int, s@.len() as int));
    }
    if start == len {
        // The string is a lone sign with no digits.
        return None;
    }
    let mut i: usize = start;
    let mut acc: usize = 0;
    while i < len
        invariant
            start <= i <= len,
            len == s@.len(),
            d == height_digits(s@),
            d =~= s@.subrange(start as int, s@.len() as int),
            all_digits(d.subrange(0, i - start)),
            acc == digits_value(d.subrange(0, i - start)),
        decreases len - i,
    {
        let c = s.get_char(i);
        let cv = c as u32;
        if cv < '0' as u32 || ('9' as u32) < cv {
            proof {
                assert(!is_ascii_digit(d[i - start]));
            }
            return None;
        }
        let dv = (cv - '0' as u32) as usize;
        let ghost p = d.subrange(0, i - start);
        let ghost q = d.subrange(0, i - start + 1);
        proof {
            assert(q.drop_last() =~= p);
            assert(digits_value(q) == acc * 10 + dv);
        }
        let widened = match acc.checked_mul(10) {
            Some(w) => w,
            None => {
                proof {
                    lemma_overlarge_prefix(d, i - start + 1);
                }
                return None;
            },
        };
        let next = match widened.checked_add(dv) {
            Some(n) => n,
            None => {
                proof {
                    lemma_overlarge_prefix(d, i - start + 1);
                }
                return None;
            },
        };
        acc = next;
        i = i + 1;
        proof {
            assert(d.subrange(0, i - start) =~= q);
        }
    }
    proof {
        assert(d.subrange(0, i - start) =~= d);
    }
    Some(acc)
}

/// Once some prefix of the digit run is already too large for the machine's
/// word, the run denotes no representable height.
proof fn lemma_overlarge_prefix(d: Seq<char>, k: int)
    requires
        0 <= k <= d.len(),
        digits_value(d.subrange(0, k)) > usize::MAX,
    ensures
        !(all_digits(d) && digits_value(d) <= usize::MAX),
{
    if all_digits(d) {
        lemma_digits_value_prefix_le(d, k);
    }
}

/// The policy of the service, as a relation between the queried name, the
/// outcome of the remote search, and the answer `r`.
pub open spec fn taller_answer(
    name: Seq<char>,
    search: Result<Vec<Person>, SwapiError>,
    r: Result<YodaTallerOutcome, YodaTallerError>,
) -> bool {
    match search {
        Err(e) => r == Err::<YodaTallerOutcome, YodaTallerError>(
            YodaTallerError::UnexpectedError(e),
        ),
        Ok(people) => if people@.len() == 0 {
            r == Err::<YodaTallerOutcome, YodaTallerError>(YodaTallerError::PersonNotFound)
        } else {
            match parsed_height(people@[0].height@) {
                None => r == Err::<YodaTallerOutcome, YodaTallerError>(
                    YodaTallerError::HeightNotFound,
                ),
                Some(h) => r matches Ok(o) && o.person@ == name && o.taller == (h < YODA_HEIGHT),
            }
        },
    }
}

/// Answers whether the reference person is taller than the first candidate
/// the search returned for `name`.
///
/// The search outcome is passed in by the caller, which performed the remote
/// round trip. The answer follows the service's policy exactly:
/// - a failed search is surfaced as [`YodaTallerError::UnexpectedError`]
///   carrying the cause;
/// - an empty candidate list is [`YodaTallerError::PersonNotFound`];
/// - a first candidate whose height is not a number is
///   [`YodaTallerError::HeightNotFound`];
/// - otherwise the outcome echoes the queried name verbatim and reports the
///   strict comparison of the parsed height against [`YODA_HEIGHT`].
pub fn is_taller_than(name: &str, search: Result<Vec<Person>, SwapiError>) -> (r: Result<
    YodaTallerOutcome,
    YodaTallerError,
>)
    ensures
        taller_answer(name@, search, r),
        (r matches Ok(o) ==> o.person@ == name@),
{
    let people = match search {
        Ok(p) => p,
        Err(e) => {
            return Err(YodaTallerError::UnexpectedError(e));
        },
    };
    if people.len() == 0 {
        return Err(YodaTallerError::PersonNotFound);
    }
    let person = &people[0];
    let height = match parse_height(person.height.as_str()) {
        Some(h) => h,
        None => {
            return Err(YodaTallerError::HeightNotFound);
        },
    };
    Ok(YodaTallerOutcome { person: name.to_owned(), taller: height < YODA_HEIGHT })
}

} // verus!
