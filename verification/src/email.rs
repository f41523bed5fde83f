//! E-mail address normalization and validation.
//!
//! An address is normalized by lower-casing it and trimming surrounding
//! whitespace, and is then held to a plain ASCII mailbox grammar:
//! a non-empty local part of atom characters, one `@`, and a domain of
//! dot-separated labels of letters, digits and inner hyphens.

use vstd::prelude::*;
use vstd::string::StrSliceExecFns;

verus! {

/// What `str::to_lowercase` returns for a given character sequence.
pub uninterp spec fn lower_of(s: Seq<char>) -> Seq<char>;

/// What `str::trim` returns for a given character sequence.
pub uninterp spec fn trim_of(s: Seq<char>) -> Seq<char>;

/// The normal form of a raw address: lower-cased first, then trimmed.
pub open spec fn norm_of(s: Seq<char>) -> Seq<char> {
    trim_of(lower_of(s))
}

/// Relies on `str::to_lowercase`: the result is a function of the
/// characters alone (Unicode lowercasing, no locale involved).
#[verifier::external_body]
pub(crate) fn lowercase(s: &str) -> (r: String)
    ensures
        r@ == lower_of(s@),
{
    s.to_lowercase()
}

/// Relies on `str::trim`: the result is a function of the characters
/// alone (the slice left after shedding leading and trailing whitespace).
#[verifier::external_body]
pub(crate) fn trimmed(s: &str) -> (r: String)
    ensures
        r@ == trim_of(s@),
{
    s.trim().to_owned()
}

/// Lower-case an address and trim surrounding whitespace.
pub fn normalize_email(s: &str) -> (r: String)
    ensures
        r@ == norm_of(s@),
{
    let low = lowercase(s);
    trimmed(low.as_str())
}

/// A character the local part of an address may hold: a letter, a digit,
/// or one of the ASCII atom punctuation marks.
pub open spec fn is_local_char(c: char) -> bool {
    ||| ('a' <= c && c <= 'z')
    ||| ('A' <= c && c <= 'Z')
    ||| ('0' <= c && c <= '9')
    ||| c == '.' || c == '!' || c == '#' || c == '$' || c == '%' || c == '&'
    ||| c == '\'' || c == '*' || c == '+' || c == '/' || c == '=' || c == '?'
    ||| c == '^' || c == '_' || c == '`' || c == '{' || c == '|' || c == '}'
    ||| c == '~' || c == '-'
}

/// A character a domain may hold: a letter, a digit, a hyphen, or the dot
/// separating two labels.
pub open spec fn is_domain_char(c: char) -> bool {
    ||| ('a' <= c && c <= 'z')
    ||| ('A' <= c && c <= 'Z')
    ||| ('0' <= c && c <= '9')
    ||| c == '-' || c == '.'
}

/// A well-formed domain: non-empty, domain characters only, and every
/// dot-separated label non-empty, neither starting nor ending in a hyphen.
pub open spec fn valid_domain(d: Seq<char>) -> bool {
    &&& d.len() >= 1
    &&& (forall|i: int| 0 <= i < d.len() ==> is_domain_char(#[trigger] d[i]))
    &&& d[0] != '.' && d[0] != '-'
    &&& d[d.len() - 1] != '.' && d[d.len() - 1] != '-'
    &&& (forall|i: int|
        0 < i < d.len() && #[trigger] d[i] == '.' ==> d[i - 1] != '.' && d[i - 1] != '-')
    &&& (forall|i: int| 0 < i < d.len() && #[trigger] d[i] == '-' ==> d[i - 1] != '.')
}

/// A valid address: a non-empty local part of atom characters, one `@`,
/// and a well-formed domain.
pub open spec fn valid_email(s: Seq<char>) -> bool {
    exists|k: int|
        {
            &&& 1 <= k < s.len()
            &&& #[trigger] s[k] == '@'
            &&& (forall|i: int| 0 <= i < k ==> is_local_char(#[trigger] s[i]))
            &&& valid_domain(s.subrange(k + 1, s.len() as int))
        }
}

fn local_char(c: char) -> (r: bool)
    ensures
        r == is_local_char(c),
{
    ('a' <= c && c <= 'z') || ('A' <= c && c <= 'Z') || ('0' <= c && c <= '9') || c == '.'
        || c == '!' || c == '#' || c == '$' || c == '%' || c == '&' || c == '\'' || c == '*'
        || c == '+' || c == '/' || c == '=' || c == '?' || c == '^' || c == '_' || c == '`'
        || c == '{' || c == '|' || c == '}' || c == '~' || c == '-'
}

fn domain_char(c: char) -> (r: bool)
    ensures
        r == is_domain_char(c),
{
    ('a' <= c && c <= 'z') || ('A' <= c && c <= 'Z') || ('0' <= c && c <= '9') || c == '-'
        || c == '.'
}

/// No `@` anywhere: the grammar has no witness.
proof fn lemma_no_at(s: Seq<char>)
    requires
        forall|i: int| 0 <= i < s.len() ==> #[trigger] s[i] != '@',
    ensures
        !valid_email(s),
{
}

/// A character that is neither `@` nor a local character stands before
/// any `@`: the grammar has no witness.
proof fn lemma_bad_local(s: Seq<char>, k: int)
    requires
        0 <= k < s.len(),
        s[k] != '@',
        !is_local_char(s[k]),
        forall|i: int| 0 <= i < k ==> #[trigger] s[i] != '@',
    ensures
        !valid_email(s),
{
    assert forall|j: int| 1 <= j < s.len() && #[trigger] s[j] == '@' implies !(forall|i: int|
        0 <= i < j ==> is_local_char(#[trigger] s[i])) by {
        assert(j > k);
        assert(!is_local_char(s[k]));
    }
}

/// Before position `k` every character is a local character and `s[k]`
/// is `@`, so `k` is the only position an `@` witness can take; a
/// malformed domain after it therefore fails the whole grammar.
proof fn lemma_domain_decides(s: Seq<char>, k: int, d: Seq<char>)
    requires
        1 <= k < s.len(),
        s[k] == '@',
        forall|i: int| 0 <= i < k ==> is_local_char(#[trigger] s[i]) && s[i] != '@',
        d == s.subrange(k + 1, s.len() as int),
        !valid_domain(d),
    ensures
        !valid_email(s),
{
    assert forall|j: int|
        1 <= j < s.len() && #[trigger] s[j] == '@' && (forall|i: int|
            0 <= i < j ==> is_local_char(#[trigger] s[i])) implies !valid_domain(
        s.subrange(j + 1, s.len() as int),
    ) by {
        if j < k {
            assert(s[j] != '@');
        } else if j > k {
            assert(is_local_char(s[k]));
            assert(false);
        } else {
            assert(s.subrange(j + 1, s.len() as int) == d);
        }
    }
}

/// Decide whether an address meets the mailbox grammar.
pub fn is_valid_email(s: &str) -> (r: bool)
    ensures
        r == valid_email(s@),
{
    let n = s.unicode_len();

    // Scan the local part up to the first `@`.
    let mut k: usize = 0;
    while k < n
        invariant
            0 <= k <= n,
            n == s@.len(),
            forall|i: int| 0 <= i < k ==> is_local_char(#[trigger] s@[i]) && s@[i] != '@',
        ensures
            0 <= k <= n,
            n == s@.len(),
            forall|i: int| 0 <= i < k ==> is_local_char(#[trigger] s@[i]) && s@[i] != '@',
            k < n ==> s@[k as int] == '@',
        decreases n - k,
    {
        let c = s.get_char(k);
        if c == '@' {
            break ;
        }
        if !local_char(c) {
            proof {
                lemma_bad_local(s@, k as int);
            }
            return false;
        }
        k = k + 1;
    }

    if k == n {
        // No `@` at all.
        proof {
            lemma_no_at(s@);
        }
        return false;
    }
    if k == 0 {
        // Empty local part: any witness position would need `@` itself
        // to count as a local character.
        proof {
            assert forall|j: int| 1 <= j < s@.len() && #[trigger] s@[j] == '@' implies !(
            forall|i: int| 0 <= i < j ==> is_local_char(#[trigger] s@[i])) by {
                assert(!is_local_char(s@[0]));
            }
        }
        return false;
    }

    let start = k + 1;
    let ghost d = s@.subrange(start as int, n as int);
    if start == n {
        // Empty domain.
        proof {
            assert(d.len() == 0);
            lemma_domain_decides(s@, k as int, d);
        }
        return false;
    }

    // Check the domain character by character against its left neighbour.
    let mut i: usize = start;
    while i < n
        invariant
            1 <= start <= i <= n,
            start < n,
            n == s@.len(),
            d == s@.subrange(start as int, n as int),
            forall|j: int| 0 <= j < i - start ==> is_domain_char(#[trigger] d[j]),
            i > start ==> d[0] != '.' && d[0] != '-',
            forall|j: int|
                0 < j < i - start && #[trigger] d[j] == '.' ==> d[j - 1] != '.' && d[j - 1] != '-',
            forall|j: int| 0 < j < i - start && #[trigger] d[j] == '-' ==> d[j - 1] != '.',
            1 <= k < n,
            start == k + 1,
            s@[k as int] == '@',
            forall|x: int| 0 <= x < k ==> is_local_char(#[trigger] s@[x]) && s@[x] != '@',
        decreases n - i,
    {
        let c = s.get_char(i);
        proof {
            assert(d[i - start] == c);
        }
        if !domain_char(c) {
            proof {
                lemma_domain_decides(s@, k as int, d);
            }
            return false;
        }
        if c == '.' || c == '-' {
            if i == start {
                proof {
                    assert(d[0] == c);
                    lemma_domain_decides(s@, k as int, d);
                }
                return false;
            }
            let p = s.get_char(i - 1);
            proof {
                assert(d[i - start - 1] == p);
            }
            if c == '.' && (p == '.' || p == '-') {
                proof {
                    lemma_domain_decides(s@, k as int, d);
                }
                return false;
            }
            if c == '-' && p == '.' {
                proof {
                    lemma_domain_decides(s@, k as int, d);
                }
                return false;
            }
        }
        i = i + 1;
    }

    // The last character still must not close a label with a dot or a
    // hyphen.
    let last = s.get_char(n - 1);
    proof {
        assert(d[d.len() - 1] == last);
    }
    if last == '.' || last == '-' {
        proof {
            lemma_domain_decides(s@, k as int, d);
        }
        return false;
    }

    proof {
        assert(valid_domain(d));
        assert(s@[k as int] == '@');
        assert(valid_email(s@));
    }
    true
}

} // verus!
