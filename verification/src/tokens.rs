//! Primitive tokenizers.
//!
//! A payload is a comma-separated list of fields.  A field decoder consumes
//! the field's text up to and including the next comma, or up to the end of
//! the input for the final field.  The cursor is a byte index into the
//! payload; the value `len + 1` is the exhausted cursor, meaning the previous
//! field ended at the end of the input and no further field exists (while
//! cursor `len` after a trailing comma still denotes one final empty field).
//!
//! An empty field is absence (`None`), never an error; a non-empty field
//! whose text does not have the expected shape is a malformed field; a
//! decoder run on the exhausted cursor reports a malformed field at offset
//! `len` with empty text (the length error of a too-short payload).

use vstd::prelude::*;
use vstd::slice::slice_subrange;
use vstd::slice::slice_to_vec;
use crate::errors::DecodeError;
use crate::errors::DecodeErrorV;
use crate::units::Dec;
use crate::units::dec_wf;
use crate::units::spec_dec;

verus! {

pub open spec fn is_digit(b: u8) -> bool {
    48 <= b && b <= 57
}

pub open spec fn digit_val(b: u8) -> nat {
    if is_digit(b) {
        (b - 48) as nat
    } else {
        0
    }
}

/// The first index in `[i, end)` holding the byte `x`, or `end` when there
/// is none.
pub open spec fn first_at(s: Seq<u8>, x: u8, i: int, end: int) -> int
    decreases end - i,
{
    if i >= end {
        end
    } else if s[i] == x {
        i
    } else {
        first_at(s, x, i + 1, end)
    }
}

pub proof fn lemma_first_at(s: Seq<u8>, x: u8, i: int, end: int)
    requires
        0 <= i <= end <= s.len(),
    ensures
        i <= first_at(s, x, i, end) <= end,
        first_at(s, x, i, end) < end ==> s[first_at(s, x, i, end)] == x,
        forall|k: int| i <= k < first_at(s, x, i, end) ==> s[k] != x,
    decreases end - i,
{
    if i < end && s[i] != x {
        lemma_first_at(s, x, i + 1, end);
    }
}

/// Scans `[i, end)` of the slice for the byte `x`.
pub fn find_byte(s: &[u8], x: u8, i: usize, end: usize) -> (j: usize)
    requires
        i <= end,
        end <= s@.len(),
    ensures
        j == first_at(s@, x, i as int, end as int),
{
    let mut k = i;
    loop
        invariant
            i <= k <= end <= s@.len(),
            first_at(s@, x, i as int, end as int) == first_at(s@, x, k as int, end as int),
        decreases end - k,
    {
        if k == end {
            return k;
        }
        if s[k] == x {
            return k;
        }
        k = k + 1;
    }
}

/// Where the field starting at cursor `c` ends: the next comma, or the end
/// of the input.
pub open spec fn tok_end(s: Seq<u8>, c: int) -> int {
    first_at(s, 44, c, s.len() as int)
}

/// The cursor after consuming the field starting at `c` together with its
/// delimiting comma.
pub open spec fn tok_next(s: Seq<u8>, c: int) -> int {
    if tok_end(s, c) < s.len() {
        tok_end(s, c) + 1
    } else {
        s.len() as int + 1
    }
}

/// What consuming one raw field yields: the new cursor and the field's text,
/// or the length error on the exhausted cursor.
pub open spec fn spec_scan_token(s: Seq<u8>, c: int) -> Result<(int, Seq<u8>), DecodeErrorV> {
    if c > s.len() {
        Err(DecodeErrorV::MalformedField(c - 1, Seq::empty()))
    } else {
        Ok((tok_next(s, c), s.subrange(c, tok_end(s, c))))
    }
}

/// Consumes one raw field: its text up to the next comma or the end of the
/// input, and the comma itself.
pub fn scan_token(s: &[u8], c: usize) -> (r: Result<(usize, Vec<u8>), DecodeError>)
    requires
        c <= s@.len() + 1,
        s@.len() < usize::MAX,
    ensures
        (match r {
            Ok((c2, t)) => spec_scan_token(s@, c as int) == Ok::<_, DecodeErrorV>((c2 as int, t@)),
            Err(e) => spec_scan_token(s@, c as int) == Err::<(int, Seq<u8>), _>(e@),
        }),
        (match r {
            Ok(p) => p.0 <= s@.len() + 1,
            _ => true,
        }),
{
    let n = s.len();
    if c > n {
        return Err(DecodeError::MalformedField(c - 1, Vec::new()));
    }
    let j = find_byte(s, 44, c, n);
    proof {
        lemma_first_at(s@, 44, c as int, n as int);
    }
    let c2 = if j < n {
        j + 1
    } else {
        n + 1
    };
    Ok((c2, slice_to_vec(slice_subrange(s, c, j))))
}

/// Digits of `t[a..b)` read as an integer, most significant first, skipping
/// the index `skip` (the decimal dot).
pub open spec fn digits_in(t: Seq<u8>, a: int, b: int, skip: int) -> nat
    decreases b - a,
{
    if a >= b {
        0
    } else {
        let x = digits_in(t, a, b - 1, skip);
        if b - 1 == skip {
            x
        } else {
            10 * x + digit_val(t[b - 1])
        }
    }
}

pub proof fn lemma_digits_in_monotonic(t: Seq<u8>, a: int, b1: int, b2: int, skip: int)
    requires
        a <= b1 <= b2,
    ensures
        digits_in(t, a, b1, skip) <= digits_in(t, a, b2, skip),
    decreases b2 - b1,
{
    if b1 < b2 {
        lemma_digits_in_monotonic(t, a, b1, b2 - 1, skip);
    }
}

/// Where the digits of a numeric token begin: past a leading sign.
pub open spec fn tok_body(t: Seq<u8>) -> int {
    if t.len() > 0 && (t[0] == 43 || t[0] == 45) {
        1
    } else {
        0
    }
}

/// Whether a numeric token denotes a negative value.
pub open spec fn tok_neg(t: Seq<u8>) -> bool {
    t.len() > 0 && t[0] == 45
}

/// The index of the decimal dot of a numeric token, or its length.
pub open spec fn tok_dot(t: Seq<u8>) -> int {
    first_at(t, 46, tok_body(t), t.len() as int)
}

/// The shape of a number: an optional sign, a non-empty run of digits, and
/// optionally one dot followed by at least one more digit.
pub open spec fn num_shape(t: Seq<u8>) -> bool {
    let b = tok_body(t);
    let d = tok_dot(t);
    b < t.len() && (forall|k: int| b <= k < t.len() && k != d ==> is_digit(t[k])) && (d == t.len()
        || (b < d && d + 1 < t.len()))
}

/// The digits of a numeric token read as an integer, the dot ignored.
pub open spec fn num_mant(t: Seq<u8>) -> nat {
    digits_in(t, tok_body(t), t.len() as int, tok_dot(t))
}

/// How many digits follow the dot.
pub open spec fn num_scale(t: Seq<u8>) -> nat {
    if tok_dot(t) == t.len() {
        0
    } else {
        (t.len() - 1 - tok_dot(t)) as nat
    }
}

/// The exact decimal a non-empty numeric token denotes, or `None` when the
/// token is not a number or is beyond the supported precision (a mantissa
/// over 64 bits, or more than 18 fractional digits).
pub open spec fn spec_dec_of_token(t: Seq<u8>) -> Option<Dec> {
    if num_shape(t) && num_mant(t) <= u64::MAX && num_scale(t) <= 18 {
        Some(spec_dec(tok_neg(t), num_mant(t) as u64, num_scale(t) as u32))
    } else {
        None
    }
}

/// Reads a non-empty token as an exact decimal.
pub fn dec_of_token(t: &[u8]) -> (r: Option<Dec>)
    requires
        t@.len() > 0,
    ensures
        r == spec_dec_of_token(t@),
        (match r {
            Some(d) => dec_wf(d) && d.scale <= 18,
            None => true,
        }),
{
    let n = t.len();
    let bstart: usize = if t[0] == 43 || t[0] == 45 {
        1
    } else {
        0
    };
    let neg = t[0] == 45;
    assert(bstart == tok_body(t@));
    assert(neg == tok_neg(t@));
    if bstart == n {
        return None;
    }
    let d = find_byte(t, 46, bstart, n);
    proof {
        lemma_first_at(t@, 46, bstart as int, n as int);
    }
    if d < n && !(bstart < d && d + 1 < n) {
        return None;
    }
    let mut m: u64 = 0;
    let mut k = bstart;
    while k < n
        invariant
            bstart <= k <= n == t@.len(),
            bstart == tok_body(t@),
            d == tok_dot(t@),
            d <= n,
            forall|q: int| bstart <= q < k && q != d ==> is_digit(t@[q]),
            m == digits_in(t@, bstart as int, k as int, d as int),
        decreases n - k,
    {
        if k != d {
            let b = t[k];
            if b < 48 || b > 57 {
                assert(!num_shape(t@));
                return None;
            }
            let dv = (b - 48) as u64;
            if m <= (u64::MAX - dv) / 10 {
                m = m * 10 + dv;
            } else {
                proof {
                    let mx = u64::MAX - dv;
                    assert(mx == 10 * ((mx as int) / 10) + (mx as int) % 10);
                    assert(digits_in(t@, bstart as int, (k + 1) as int, d as int) > u64::MAX);
                    lemma_digits_in_monotonic(t@, bstart as int, (k + 1) as int, n as int, d as int);
                    assert(num_mant(t@) > u64::MAX);
                }
                return None;
            }
        }
        k = k + 1;
    }
    let scale: usize = if d < n {
        n - 1 - d
    } else {
        0
    };
    assert(scale == num_scale(t@));
    if scale > 18 {
        return None;
    }
    assert(num_shape(t@));
    Some(Dec::new(neg, m, scale as u32))
}

/// What consuming one numeric field yields: absence for an empty field, the
/// exact decimal for a well-shaped number, the malformed-field error (with
/// the field's offset and raw text) otherwise.
pub open spec fn spec_scan_number(s: Seq<u8>, c: int) -> Result<(int, Option<Dec>), DecodeErrorV> {
    match spec_scan_token(s, c) {
        Err(e) => Err(e),
        Ok((c2, t)) => if t.len() == 0 {
            Ok((c2, None))
        } else {
            match spec_dec_of_token(t) {
                Some(d) => Ok((c2, Some(d))),
                None => Err(DecodeErrorV::MalformedField(c, t)),
            }
        },
    }
}

/// Consumes one numeric field.
pub fn scan_number(s: &[u8], c: usize) -> (r: Result<(usize, Option<Dec>), DecodeError>)
    requires
        c <= s@.len() + 1,
        s@.len() < usize::MAX,
    ensures
        (match r {
            Ok((c2, v)) => spec_scan_number(s@, c as int) == Ok::<_, DecodeErrorV>((
                c2 as int,
                v,
            )),
            Err(e) => spec_scan_number(s@, c as int) == Err::<(int, Option<Dec>), _>(e@),
        }),
        (match r {
            Ok((c2, Some(d))) => dec_wf(d) && d.scale <= 18,
            _ => true,
        }),
{
    let (c2, t) = match scan_token(s, c) {
        Ok(x) => x,
        Err(e) => {
            return Err(e);
        },
    };
    if t.len() == 0 {
        return Ok((c2, None));
    }
    match dec_of_token(t.as_slice()) {
        Some(d) => Ok((c2, Some(d))),
        None => Err(DecodeError::MalformedField(c, t)),
    }
}

/// The value of an all-digit token fitting a byte, if that is what `t` is.
pub open spec fn spec_u8_of_token(t: Seq<u8>) -> Option<u8> {
    if (forall|k: int| 0 <= k < t.len() ==> is_digit(t[k])) && digits_in(t, 0, t.len() as int, -1)
        <= 255 {
        Some(digits_in(t, 0, t.len() as int, -1) as u8)
    } else {
        None
    }
}

/// Reads a non-empty token as an unsigned byte.
pub fn u8_of_token(t: &[u8]) -> (r: Option<u8>)
    ensures
        r == spec_u8_of_token(t@),
{
    let n = t.len();
    let mut m: u64 = 0;
    let mut k: usize = 0;
    while k < n
        invariant
            0 <= k <= n == t@.len(),
            m <= 255,
            forall|q: int| 0 <= q < k ==> is_digit(t@[q]),
            m == digits_in(t@, 0, k as int, -1),
        decreases n - k,
    {
        let b = t[k];
        if b < 48 || b > 57 {
            assert(!(forall|q: int| 0 <= q < t@.len() ==> is_digit(t@[q])));
            return None;
        }
        m = m * 10 + ((b - 48) as u64);
        if m > 255 {
            proof {
                lemma_digits_in_monotonic(t@, 0, (k + 1) as int, n as int, -1);
            }
            return None;
        }
        k = k + 1;
    }
    Some(m as u8)
}

/// What consuming one byte-valued field yields.
pub open spec fn spec_scan_u8(s: Seq<u8>, c: int) -> Result<(int, Option<u8>), DecodeErrorV> {
    match spec_scan_token(s, c) {
        Err(e) => Err(e),
        Ok((c2, t)) => if t.len() == 0 {
            Ok((c2, None))
        } else {
            match spec_u8_of_token(t) {
                Some(v) => Ok((c2, Some(v))),
                None => Err(DecodeErrorV::MalformedField(c, t)),
            }
        },
    }
}

/// Consumes one field holding an unsigned byte in decimal.
pub fn scan_u8(s: &[u8], c: usize) -> (r: Result<(usize, Option<u8>), DecodeError>)
    requires
        c <= s@.len() + 1,
        s@.len() < usize::MAX,
    ensures
        (match r {
            Ok((c2, v)) => spec_scan_u8(s@, c as int) == Ok::<_, DecodeErrorV>((c2 as int, v)),
            Err(e) => spec_scan_u8(s@, c as int) == Err::<(int, Option<u8>), _>(e@),
        }),
        (match r {
            Ok(p) => p.0 <= s@.len() + 1,
            _ => true,
        }),
{
    let (c2, t) = match scan_token(s, c) {
        Ok(x) => x,
        Err(e) => {
            return Err(e);
        },
    };
    if t.len() == 0 {
        return Ok((c2, None));
    }
    match u8_of_token(t.as_slice()) {
        Some(v) => Ok((c2, Some(v))),
        None => Err(DecodeError::MalformedField(c, t)),
    }
}

} // verus!
