//! Email address syntax: a non-empty local part of permitted characters,
//! one `@`, and a dotted domain with no empty label.

use vstd::prelude::*;

verus! {

/// Whether `c` is an ASCII letter or digit.
pub open spec fn is_ascii_alnum(c: char) -> bool {
    ('0' as u32 <= c as u32 && c as u32 <= '9' as u32)
        || ('A' as u32 <= c as u32 && c as u32 <= 'Z' as u32)
        || ('a' as u32 <= c as u32 && c as u32 <= 'z' as u32)
}

/// Whether `c` may stand in the local part: a letter, a digit, or one of
/// the marks `.` `_` `%` `+` `-`.
pub open spec fn is_local_char(c: char) -> bool {
    is_ascii_alnum(c) || c == '.' || c == '_' || c == '%' || c == '+' || c == '-'
}

/// Whether `c` may stand in the domain part: a letter, a digit, `-` or `.`.
pub open spec fn is_domain_char(c: char) -> bool {
    is_ascii_alnum(c) || c == '-' || c == '.'
}

/// The characters before position `k` form a non-empty local part.
pub open spec fn local_part_ok(s: Seq<char>, k: int) -> bool {
    &&& 1 <= k
    &&& forall|i: int| 0 <= i < k ==> is_local_char(#[trigger] s[i])
}

/// The characters after position `k` form a non-empty domain of permitted
/// characters that contains a dot and has no empty label: no leading dot,
/// no trailing dot, no two dots in a row.
pub open spec fn domain_part_ok(s: Seq<char>, k: int) -> bool {
    &&& k + 1 < s.len()
    &&& (forall|i: int| k < i < s.len() ==> is_domain_char(#[trigger] s[i]))
    &&& (exists|i: int| k < i < s.len() && #[trigger] s[i] == '.')
    &&& s[k + 1] != '.'
    &&& s[s.len() - 1] != '.'
    &&& (forall|i: int| k < i && i + 1 < s.len() ==> !(#[trigger] s[i] == '.' && s[i + 1] == '.'))
}

/// `s` splits at position `k` into `local@domain` with both sides well-formed.
pub open spec fn email_split_at(s: Seq<char>, k: int) -> bool {
    &&& 0 <= k < s.len()
    &&& s[k] == '@'
    &&& local_part_ok(s, k)
    &&& domain_part_ok(s, k)
}

/// An address is well-formed when some split position works. `@` is neither
/// a local nor a domain character, so at most one position can.
pub open spec fn valid_email(s: Seq<char>) -> bool {
    exists|k: int| #[trigger] email_split_at(s, k)
}

/// Only the first `@` of `s` can witness a valid split: an `@` inside the
/// local or the domain part is not a permitted character there.
proof fn lemma_split_at_first_at(s: Seq<char>, k: int)
    requires
        0 <= k < s.len(),
        s[k] == '@',
        forall|i: int| 0 <= i < k ==> #[trigger] s[i] != '@',
    ensures
        valid_email(s) <==> email_split_at(s, k),
{
    if valid_email(s) {
        let k2 = choose|k2: int| email_split_at(s, k2);
        if k2 < k {
            assert(s[k2] == '@');
            assert(false);
        } else if k2 > k {
            assert(is_local_char(s[k]));
            assert(false);
        }
        assert(email_split_at(s, k));
    }
}

/// Returns the position of the first `@` in `s`, if there is one.
fn first_at_sign(s: &str) -> (r: Option<usize>)
    ensures
        match r {
            Some(k) => k < s@.len() && s@[k as int] == '@' && (forall|i: int|
                0 <= i < k ==> #[trigger] s@[i] != '@'),
            None => forall|i: int| 0 <= i < s@.len() ==> #[trigger] s@[i] != '@',
        },
{
    let n = s.unicode_len();
    let mut j: usize = 0;
    while j < n
        invariant
            j <= n,
            n == s@.len(),
            forall|i: int| 0 <= i < j ==> #[trigger] s@[i] != '@',
        decreases n - j,
    {
        if s.get_char(j) == '@' {
            return Some(j);
        }
        j = j + 1;
    }
    None
}

/// Whether `c` is an ASCII letter or digit.
fn check_ascii_alnum(c: char) -> (r: bool)
    ensures
        r == is_ascii_alnum(c),
{
    let u = c as u32;
    (48 <= u && u <= 57) || (65 <= u && u <= 90) || (97 <= u && u <= 122)
}

/// Whether `c` may stand in the local part.
fn check_local_char(c: char) -> (r: bool)
    ensures
        r == is_local_char(c),
{
    check_ascii_alnum(c) || c == '.' || c == '_' || c == '%' || c == '+' || c == '-'
}

/// Whether `c` may stand in the domain part.
fn check_domain_char(c: char) -> (r: bool)
    ensures
        r == is_domain_char(c),
{
    check_ascii_alnum(c) || c == '-' || c == '.'
}

/// Checks the address syntax of `s`: exactly one `@`, a non-empty local
/// part of permitted characters, and a dotted domain with no empty label.
#[verifier::loop_isolation(false)]
pub fn is_valid_email(s: &str) -> (r: bool)
    ensures
        r == valid_email(s@),
{
    let n = s.unicode_len();
    let at: usize = match first_at_sign(s) {
        Some(k) => k,
        None => {
            proof {
                assert(!valid_email(s@)) by {
                    if valid_email(s@) {
                        let k = choose|k: int| email_split_at(s@, k);
                        assert(s@[k] == '@');
                    }
                }
            }
            return false;
        },
    };
    proof {
        lemma_split_at_first_at(s@, at as int);
    }
    if at == 0 {
        return false;
    }
    if at + 1 >= n {
        return false;
    }

    // local part
    let mut j: usize = 0;
    while j < at
        invariant
            j <= at,
            forall|i: int| 0 <= i < j ==> is_local_char(#[trigger] s@[i]),
        decreases at - j,
    {
        if !check_local_char(s.get_char(j)) {
            return false;
        }
        j = j + 1;
    }

    // domain part
    let mut has_dot = false;
    let mut j: usize = at + 1;
    while j < n
        invariant
            at + 1 <= j <= n,
            forall|i: int| at < i < j ==> is_domain_char(#[trigger] s@[i]),
            has_dot <==> (exists|i: int| at < i < j && #[trigger] s@[i] == '.'),
            j > at + 1 ==> s@[at + 1] != '.',
            forall|i: int| at < i && i + 1 < j ==> !(#[trigger] s@[i] == '.' && s@[i + 1] == '.'),
        decreases n - j,
    {
        let c = s.get_char(j);
        if !check_domain_char(c) {
            return false;
        }
        if c == '.' {
            if j == at + 1 {
                return false;
            }
            if s.get_char(j - 1) == '.' {
                return false;
            }
            has_dot = true;
        }
        j = j + 1;
    }
    if !has_dot {
        return false;
    }
    if s.get_char(n - 1) == '.' {
        return false;
    }

    proof {
        assert(email_split_at(s@, at as int));
    }
    true
}

} // verus!
