//! The wide-text encoding the native host consumes: UTF-16 code units.
//!
//! `wide_of` is the mathematical encoding; the executable conversions call
//! into the `widestring` crate and are specified against it. The injectivity
//! lemma below is what makes the marshaling round trip exact: a request built
//! from a configuration determines the configuration's text.

use vstd::prelude::*;

verus! {

/// A leading (high) surrogate code unit: the first unit of a two-unit
/// character encoding, and never a valid one-unit encoding.
pub open spec fn is_high_surrogate(w: u16) -> bool {
    0xD800 <= w <= 0xDBFF
}

/// A trailing (low) surrogate code unit.
pub open spec fn is_low_surrogate(w: u16) -> bool {
    0xDC00 <= w <= 0xDFFF
}

/// The UTF-16 code units of one character: the code point itself below
/// 0x10000, otherwise a surrogate pair carrying the offset above 0x10000.
pub open spec fn wide_units(c: char) -> Seq<u16> {
    let u = c as u32;
    if u < 0x10000 {
        seq![u as u16]
    } else {
        seq![
            (0xD800 + (u - 0x10000) / 0x400) as u16,
            (0xDC00 + (u - 0x10000) % 0x400) as u16,
        ]
    }
}

/// The UTF-16 code units of a character sequence, in order.
pub open spec fn wide_of(s: Seq<char>) -> Seq<u16>
    decreases s.len(),
{
    if s.len() == 0 {
        Seq::empty()
    } else {
        wide_units(s[0]) + wide_of(s.drop_first())
    }
}

/// Well-formed UTF-16: the unit sequence is the encoding of some text.
pub open spec fn is_wide_encoding(u: Seq<u16>) -> bool {
    exists|t: Seq<char>| u == wide_of(t)
}

/// Relies on widestring::U16String::from_str, whose result is the text
/// re-encoded as its UTF-16 code units (str::encode_utf16), without a
/// terminator.
#[verifier::external_body]
pub(crate) fn encode_wide(s: &str) -> (r: Vec<u16>)
    ensures
        r@ == wide_of(s@),
{
    widestring::U16String::from_str(s).into_vec()
}

/// Relies on widestring::U16Str::to_string, which decodes well-formed UTF-16
/// text and fails exactly on malformed input (an unpaired surrogate).
#[verifier::external_body]
pub(crate) fn decode_wide(units: &[u16]) -> (r: Option<String>)
    ensures
        r matches Some(s) ==> units@ == wide_of(s@),
        is_wide_encoding(units@) ==> r is Some,
{
    widestring::U16Str::from_slice(units).to_string().ok()
}

/// Every character encodes to one unit or two: one non-surrogate unit for
/// code points below 0x10000, otherwise a high surrogate then a low one.
pub proof fn lemma_wide_units_shape(c: char)
    ensures
        1 <= wide_units(c).len() <= 2,
        wide_units(c).len() == 2 <==> c as u32 >= 0x10000,
        wide_units(c).len() == 1 ==> !is_high_surrogate(wide_units(c)[0])
            && !is_low_surrogate(wide_units(c)[0]),
        wide_units(c).len() == 2 ==> is_high_surrogate(wide_units(c)[0])
            && is_low_surrogate(wide_units(c)[1]),
{
    vstd::utf8::char_is_scalar(c);
    let u = c as u32;
    if u >= 0x10000 {
        assert(u <= 0x10FFFF);
        assert((u - 0x10000) / 0x400 <= 0x3FF);
        assert(0 <= (u - 0x10000) % 0x400 < 0x400);
    }
}

/// Two characters with the same code units are the same character.
proof fn lemma_wide_units_injective(c1: char, c2: char)
    requires
        wide_units(c1) == wide_units(c2),
    ensures
        c1 == c2,
{
    lemma_wide_units_shape(c1);
    lemma_wide_units_shape(c2);
    let u1 = c1 as u32;
    let u2 = c2 as u32;
    if wide_units(c1).len() == 1 {
        assert(wide_units(c1)[0] == wide_units(c2)[0]);
        assert(u1 == u2);
    } else {
        assert(wide_units(c1)[0] == wide_units(c2)[0]);
        assert(wide_units(c1)[1] == wide_units(c2)[1]);
        assert((u1 - 0x10000) / 0x400 == (u2 - 0x10000) / 0x400);
        assert((u1 - 0x10000) % 0x400 == (u2 - 0x10000) % 0x400);
        vstd::arithmetic::div_mod::lemma_fundamental_div_mod(u1 - 0x10000, 0x400);
        vstd::arithmetic::div_mod::lemma_fundamental_div_mod(u2 - 0x10000, 0x400);
        assert(u1 == u2);
    }
    vstd::utf8::char_u32_cast(c1, u1);
    vstd::utf8::char_u32_cast(c2, u2);
}

/// The encoding of a nonempty text is nonempty.
pub proof fn lemma_wide_of_nonempty(s: Seq<char>)
    requires
        s.len() > 0,
    ensures
        wide_of(s).len() > 0,
{
    lemma_wide_units_shape(s[0]);
}

/// The encoding is one-to-one: equal unit sequences come from equal text.
/// This is the round-trip guarantee of the marshaling layer — the wide
/// buffers in a native request preserve the configured text exactly.
pub proof fn lemma_wide_of_injective(a: Seq<char>, b: Seq<char>)
    requires
        wide_of(a) == wide_of(b),
    ensures
        a == b,
    decreases a.len(),
{
    if a.len() == 0 || b.len() == 0 {
        if a.len() > 0 {
            lemma_wide_of_nonempty(a);
        }
        if b.len() > 0 {
            lemma_wide_of_nonempty(b);
        }
        assert(a =~= b);
    } else {
        let ua = wide_units(a[0]);
        let ub = wide_units(b[0]);
        lemma_wide_units_shape(a[0]);
        lemma_wide_units_shape(b[0]);
        assert(wide_of(a)[0] == ua[0]);
        assert(wide_of(b)[0] == ub[0]);
        if ua.len() != ub.len() {
            // One head is a high surrogate and the other is not, yet both
            // stand first in the same unit sequence.
            assert(ua[0] == ub[0]);
            assert(false);
        }
        assert forall|i: int| 0 <= i < ua.len() implies ua[i] == ub[i] by {
            assert(wide_of(a)[i] == ua[i]);
            assert(wide_of(b)[i] == ub[i]);
        }
        assert(ua =~= ub);
        lemma_wide_units_injective(a[0], b[0]);
        let ra = wide_of(a.drop_first());
        let rb = wide_of(b.drop_first());
        assert(wide_of(a).len() == ua.len() + ra.len());
        assert(wide_of(b).len() == ub.len() + rb.len());
        assert(ra.len() == rb.len());
        assert forall|i: int| 0 <= i < ra.len() implies ra[i] == rb[i] by {
            assert(wide_of(a)[ua.len() + i] == ra[i]);
            assert(wide_of(b)[ub.len() + i] == rb[i]);
        }
        assert(ra =~= rb);
        lemma_wide_of_injective(a.drop_first(), b.drop_first());
        assert forall|i: int| 0 <= i < a.len() implies a[i] == b[i] by {
            if i > 0 {
                assert(a.drop_first()[i - 1] == a[i]);
                assert(b.drop_first()[i - 1] == b[i]);
            }
        }
        assert(a =~= b);
    }
}

/// Zero-terminated wide text is as one-to-one as the bare encoding.
pub proof fn lemma_wide_z_injective(a: Seq<char>, b: Seq<char>)
    requires
        wide_of(a).push(0) == wide_of(b).push(0),
    ensures
        a == b,
{
    assert(wide_of(a) =~= wide_of(a).push(0).drop_last());
    assert(wide_of(b) =~= wide_of(b).push(0).drop_last());
    lemma_wide_of_injective(a, b);
}

} // verus!
