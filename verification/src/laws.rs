//! Properties of the decoder, stated and proved over the specification
//! functions that the executable contracts are pinned to.

use vstd::prelude::*;
use crate::errors::DecodeErrorV;
use crate::fields::identity::MessageType;
use crate::sentence::parser::spec_dispatch;
use crate::sentence::parser::spec_parse_sentence;
use crate::sentence::parser::xor_fold;
use crate::sentence::parser::hex_val;
use crate::sentence::structs::SentenceV;
use crate::tokens::first_at;
use crate::tokens::lemma_first_at;
use crate::tokens::is_digit;
use crate::tokens::num_shape;
use crate::tokens::spec_scan_number;
use crate::tokens::tok_body;
use crate::tokens::tok_dot;
use crate::tokens::tok_end;
use crate::tokens::tok_next;
use crate::units::Dec;

verus! {

/// Where the `*` delimiter stands in the span after the envelope character.
pub open spec fn star_pos(s: Seq<u8>) -> int {
    let rest = s.subrange(1, s.len() as int);
    first_at(rest, 42, 0, rest.len() as int)
}

/// The checksummed data span of a sentence: everything between the
/// envelope character and the `*` delimiter.
pub open spec fn data_span(s: Seq<u8>) -> Seq<u8> {
    let rest = s.subrange(1, s.len() as int);
    rest.subrange(0, star_pos(s))
}

/// The transmitted checksum: the two hexadecimal digits after the `*`.
pub open spec fn sent_checksum(s: Seq<u8>) -> u8 {
    let rest = s.subrange(1, s.len() as int);
    let star = star_pos(s);
    (16 * hex_val(rest[star + 1]) + hex_val(rest[star + 2])) as u8
}

/// Decode succeeds only if the XOR-fold of the data span equals the
/// transmitted checksum.
pub proof fn lemma_decode_checksum(s: Seq<u8>)
    requires
        spec_parse_sentence(s) is Ok,
    ensures
        star_pos(s) < s.len() - 1,
        xor_fold(data_span(s)) == sent_checksum(s),
{
}

/// Decode succeeds only if the selected message decoder consumed the whole
/// payload: no bytes are left between the last field and the `*` delimiter.
pub proof fn lemma_decode_consumes_payload(s: Seq<u8>)
    requires
        spec_parse_sentence(s) is Ok,
    ensures
        ({
            let rest = s.subrange(1, s.len() as int);
            let payload = rest.subrange(6, star_pos(s));
            let mt = MessageType { c0: rest[2], c1: rest[3], c2: rest[4] };
            &&& spec_dispatch(mt, payload) is Ok
            &&& spec_dispatch(mt, payload)->Ok_0.0 >= payload.len()
        }),
{
}

/// `first_at` is pinned down by its witness: the index where the byte
/// stands with none before it.
proof fn lemma_first_at_char(s: Seq<u8>, x: u8, i: int, end: int, j: int)
    requires
        0 <= i <= j <= end <= s.len(),
        j == end || s[j] == x,
        forall|q: int| i <= q < j ==> s[q] != x,
    ensures
        first_at(s, x, i, end) == j,
    decreases j - i,
{
    if i < j {
        lemma_first_at_char(s, x, i + 1, end, j);
    }
}

/// Overwriting one byte folds its old and new value into the XOR of the
/// whole span.
proof fn lemma_xor_fold_update(s: Seq<u8>, k: int, b: u8)
    requires
        0 <= k < s.len(),
    ensures
        xor_fold(s.update(k, b)) == xor_fold(s) ^ s[k] ^ b,
    decreases s.len(),
{
    let a = s[k];
    if k == s.len() - 1 {
        assert(s.update(k, b).drop_last() =~= s.drop_last());
        assert(s.update(k, b).last() == b);
        let x = xor_fold(s.drop_last());
        assert(x ^ b == ((x ^ a) ^ a) ^ b) by (bit_vector);
    } else {
        assert(s.update(k, b).drop_last() =~= s.drop_last().update(k, b));
        assert(s.update(k, b).last() == s.last());
        lemma_xor_fold_update(s.drop_last(), k, b);
        let x = xor_fold(s.drop_last());
        let l = s.last();
        assert((((x ^ a) ^ b) ^ l) == (((x ^ l) ^ a) ^ b)) by (bit_vector);
    }
}

/// Flipping any single byte of the data span of a sentence that decodes
/// successfully, without updating the checksum, makes decoding fail with
/// the checksum-mismatch error — as long as the new byte is not the `*`
/// delimiter itself, which would move the end of the data span.
pub proof fn lemma_checksum_flip(s: Seq<u8>, k: int, b: u8)
    requires
        spec_parse_sentence(s) is Ok,
        1 <= k < 1 + star_pos(s),
        b != s[k],
        b != 42,
    ensures
        spec_parse_sentence(s.update(k, b)) == Err::<SentenceV, DecodeErrorV>(
            DecodeErrorV::ChecksumMismatch,
        ),
{
    let n = s.len() as int;
    let rest = s.subrange(1, n);
    let star = star_pos(s);
    lemma_first_at(rest, 42, 0, rest.len() as int);
    let s2 = s.update(k, b);
    let rest2 = s2.subrange(1, n);
    assert(rest2 =~= rest.update(k - 1, b));
    assert(forall|q: int| 0 <= q < star ==> rest2[q] != 42);
    assert(rest2[star] == 42);
    lemma_first_at_char(rest2, 42, 0, rest2.len() as int, star);
    assert(star_pos(s2) == star);
    lemma_xor_fold_update(rest.subrange(0, star), k - 1, b);
    assert(rest2.subrange(0, star) =~= rest.subrange(0, star).update(k - 1, b));
    let x = xor_fold(rest.subrange(0, star));
    let a = s[k];
    assert(a != b ==> ((x ^ a) ^ b) != x) by (bit_vector);
    assert(xor_fold(rest2.subrange(0, star)) != x);
}

/// The empty-field law: wherever a field exists and is empty (two adjacent
/// commas, or a trailing comma then the end of the input), the numeric
/// field decoder yields absence, never an error.
pub proof fn lemma_empty_field_none(s: Seq<u8>, c: int)
    requires
        0 <= c <= s.len(),
        tok_end(s, c) == c,
    ensures
        spec_scan_number(s, c) == Ok::<(int, Option<Dec>), DecodeErrorV>((tok_next(s, c), None)),
{
    assert(s.subrange(c, c) =~= Seq::<u8>::empty());
}

/// The malformed-field law: a non-empty field holding any byte that cannot
/// occur in a number (no digit, sign or dot) makes the numeric field
/// decoder fail with the malformed-field error carrying the field's offset
/// and raw text — it never yields absence or a value.
pub proof fn lemma_malformed_field(s: Seq<u8>, c: int, w: int)
    requires
        0 <= c <= s.len(),
        c <= w < tok_end(s, c),
        !is_digit(s[w]),
        s[w] != 43,
        s[w] != 45,
        s[w] != 46,
    ensures
        spec_scan_number(s, c) == Err::<(int, Option<Dec>), DecodeErrorV>(
            DecodeErrorV::MalformedField(c, s.subrange(c, tok_end(s, c))),
        ),
{
    let j = tok_end(s, c);
    lemma_first_at(s, 44, c, s.len() as int);
    let t = s.subrange(c, j);
    assert(t.len() > 0);
    let kk = w - c;
    assert(t[kk] == s[w]);
    lemma_first_at(t, 46, tok_body(t), t.len() as int);
    assert(kk != tok_dot(t));
    assert(tok_body(t) <= kk);
    assert(!num_shape(t));
}

} // verus!
