use vstd::prelude::*;
use crate::error::ServiceError;

verus! {

pub open spec fn is_digit(c: char) -> bool {
    '0' <= c && c <= '9'
}

pub open spec fn digit_value(c: char) -> nat {
    (c as u32 - '0' as u32) as nat
}

/// The number that a string of decimal digits denotes.
pub open spec fn digits_value(s: Seq<char>) -> nat
    decreases s.len(),
{
    if s.len() == 0 {
        0
    } else {
        digits_value(s.drop_last()) * 10 + digit_value(s.last())
    }
}

/// The `u32` that `s` denotes: an optional `+`, then one or more decimal
/// digits and no other character, with a value that fits.
pub open spec fn spec_parse_u32(s: Seq<char>) -> Option<nat> {
    if s.len() > 0 && s[0] == '+' {
        spec_parse_digits_u32(s.subrange(1, s.len() as int))
    } else {
        spec_parse_digits_u32(s)
    }
}

/// The `u32` that a string of one or more decimal digits denotes, if it fits.
pub open spec fn spec_parse_digits_u32(s: Seq<char>) -> Option<nat> {
    if s.len() > 0 && (forall|i: int| 0 <= i < s.len() ==> is_digit(#[trigger] s[i]))
        && digits_value(s) <= u32::MAX {
        Some(digits_value(s))
    } else {
        None
    }
}

proof fn lemma_digits_value_grows(s: Seq<char>, i: int)
    requires
        0 <= i <= s.len(),
    ensures
        digits_value(s.subrange(0, i)) <= digits_value(s),
    decreases s.len() - i,
{
    if i < s.len() {
        lemma_digits_value_grows(s, i + 1);
        let p = s.subrange(0, i + 1);
        assert(p.drop_last() == s.subrange(0, i));
    } else {
        assert(s.subrange(0, i) == s);
    }
}

/// Reads a `u32` from its decimal text, with an optional leading `+`.
pub fn parse_u32(s: &str) -> (r: Option<u32>)
    ensures
        match spec_parse_u32(s@) {
            Some(n) => r == Some(n as u32),
            None => r is None,
        },
{
    let n = s.unicode_len();
    if n > 0 && s.get_char(0) == '+' {
        parse_digits_u32(s.substring_char(1, n))
    } else {
        parse_digits_u32(s)
    }
}

fn parse_digits_u32(s: &str) -> (r: Option<u32>)
    ensures
        match spec_parse_digits_u32(s@) {
            Some(n) => r == Some(n as u32),
            None => r is None,
        },
{
    let n = s.unicode_len();
    if n == 0 {
        return None;
    }
    let mut acc: u64 = 0;
    let mut i: usize = 0;
    while i < n
        invariant
            n == s@.len(),
            i <= n,
            acc == digits_value(s@.subrange(0, i as int)),
            acc <= u32::MAX,
            forall|j: int| 0 <= j < i ==> is_digit(#[trigger] s@[j]),
        decreases n - i,
    {
        let c = s.get_char(i);
        if !('0' <= c && c <= '9') {
            return None;
        }
        let d = (c as u32 - '0' as u32) as u64;
        proof {
            let p = s@.subrange(0, i + 1);
            assert(p.drop_last() == s@.subrange(0, i as int));
            assert(p.last() == c);
        }
        acc = acc * 10 + d;
        if acc > u32::MAX as u64 {
            proof {
                lemma_digits_value_grows(s@, i + 1);
            }
            return None;
        }
        i += 1;
    }
    proof {
        assert(s@.subrange(0, n as int) == s@);
    }
    Some(acc as u32)
}

/// A window over a listing: skip `offset` items, then take at most `limit`
/// of them, or all that remain when `limit` is `None`.
#[derive(Debug, Clone, Copy, PartialEq, Eq, Default, Structural)]
pub struct Pagination {
    pub limit: Option<u32>,
    pub offset: u32,
}

/// Where the window starts within a listing of `len` items.
pub open spec fn window_start(len: nat, p: Pagination) -> nat {
    if p.offset >= len { len } else { p.offset as nat }
}

/// Where the window ends within a listing of `len` items.
pub open spec fn window_end(len: nat, p: Pagination) -> nat {
    match p.limit {
        None => len,
        Some(l) => if window_start(len, p) + l >= len { len } else { (window_start(len, p) + l) as nat },
    }
}

/// The items of `s` that the window shows, in their order.
pub open spec fn page<T>(s: Seq<T>, p: Pagination) -> Seq<T> {
    s.subrange(window_start(s.len(), p) as int, window_end(s.len(), p) as int)
}

/// The window that raw query parameters ask for, or why they ask for none.
pub open spec fn spec_extract_pagination(
    limit: Option<Seq<char>>,
    offset: Option<Seq<char>>,
) -> Result<Pagination, ServiceError> {
    let l = match limit {
        None => Some(None),
        Some(t) => match spec_parse_u32(t) {
            Some(v) => Some(Some(v as u32)),
            None => None,
        },
    };
    let o = match offset {
        None => Some(0u32),
        Some(t) => match spec_parse_u32(t) {
            Some(v) => Some(v as u32),
            None => None,
        },
    };
    match (l, o) {
        (Some(l), Some(o)) => Ok(Pagination { limit: l, offset: o }),
        _ => Err(ServiceError::InvalidPagination),
    }
}

pub open spec fn opt_view(s: Option<String>) -> Option<Seq<char>> {
    match s {
        Some(t) => Some(t@),
        None => None,
    }
}

/// Turns the raw `limit` and `offset` query parameters into a window: a
/// missing offset is 0, a missing limit is no limit, and anything but a
/// decimal `u32` is refused.
pub fn extract_pagination(limit: Option<String>, offset: Option<String>) -> (r: Result<
    Pagination,
    ServiceError,
>)
    ensures
        r == spec_extract_pagination(opt_view(limit), opt_view(offset)),
{
    let l = match &limit {
        None => None,
        Some(t) => match parse_u32(t.as_str()) {
            Some(v) => Some(v),
            None => return Err(ServiceError::InvalidPagination),
        },
    };
    let o = match &offset {
        None => 0,
        Some(t) => match parse_u32(t.as_str()) {
            Some(v) => v,
            None => return Err(ServiceError::InvalidPagination),
        },
    };
    Ok(Pagination { limit: l, offset: o })
}

} // verus!
