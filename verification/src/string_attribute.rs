use vstd::prelude::*;

use crate::text::push_char;

verus! {

/// The error code of a Media Foundation attribute lookup that found no such
/// attribute (`MF_E_ATTRIBUTENOTFOUND`, `0xC00D36E6`).
pub const MF_E_ATTRIBUTENOTFOUND: i32 = -1072875802;

/// A failed string lookup means that the attribute is absent (and not that
/// the lookup itself failed).
pub fn is_attribute_not_found(code: i32) -> (b: bool)
    ensures
        b == (code == MF_E_ATTRIBUTENOTFOUND),
{
    code == MF_E_ATTRIBUTENOTFOUND
}

/// The number of UTF-16 units to allocate for a string attribute of
/// `length` units: one more, for the terminating zero.
pub fn string_buffer_len(length: u32) -> (n: usize)
    requires
        length < u32::MAX,
    ensures
        n == length + 1,
{
    (length + 1) as usize
}

/// `units` cut or padded with zeros to `length` units.
pub open spec fn resized_units(units: Seq<u16>, length: nat) -> Seq<u16> {
    Seq::new(length, |i: int| if i < units.len() { units[i] } else { 0u16 })
}

/// A high (leading) surrogate.
pub open spec fn is_high_surrogate(u: u16) -> bool {
    0xd800 <= u <= 0xdbff
}

/// A low (trailing) surrogate.
pub open spec fn is_low_surrogate(u: u16) -> bool {
    0xdc00 <= u <= 0xdfff
}

/// The text that the UTF-16 units spell, or `None` where a surrogate is not
/// part of a high-low pair (as `String::from_utf16`).
pub open spec fn utf16_text(units: Seq<u16>) -> Option<Seq<char>>
    decreases units.len(),
{
    if units.len() == 0 {
        Some(Seq::<char>::empty())
    } else if !(0xd800 <= units[0] <= 0xdfff) {
        match utf16_text(units.drop_first()) {
            Some(rest) => Some(seq![(units[0] as u32) as char] + rest),
            None => None,
        }
    } else if is_high_surrogate(units[0]) && units.len() >= 2 && is_low_surrogate(units[1]) {
        let scalar = 0x10000 + (units[0] - 0xd800) * 0x400 + (units[1] - 0xdc00);
        match utf16_text(units.subrange(2, units.len() as int)) {
            Some(rest) => Some(seq![(scalar as u32) as char] + rest),
            None => None,
        }
    } else {
        None
    }
}

/// `prefix` followed by the decoded `rest`, if it decodes.
pub open spec fn after(prefix: Seq<char>, rest: Option<Seq<char>>) -> Option<Seq<char>> {
    match rest {
        Some(t) => Some(prefix + t),
        None => None,
    }
}

/// The character with scalar value `n` (`char::from_u32` of the standard
/// library, which returns it for every Unicode scalar value).
#[verifier::external_body]
fn char_from_scalar(n: u32) -> (c: char)
    requires
        n < 0xd800 || (0xe000 <= n && n <= 0x10ffff),
    ensures
        c == n as char,
{
    char::from_u32(n).unwrap()
}

/// Decodes UTF-16 units as `String::from_utf16` does.
pub fn decode_utf16(units: &Vec<u16>) -> (text: Option<String>)
    ensures
        match text {
            Some(t) => utf16_text(units@) == Some(t@),
            None => utf16_text(units@) is None,
        },
{
    let mut out = String::new();
    let mut i: usize = 0;
    proof {
        assert(units@.skip(0) =~= units@);
        assert(out@ + Seq::<char>::empty() =~= out@);
    }
    while i < units.len()
        invariant
            0 <= i <= units.len(),
            utf16_text(units@) == after(out@, utf16_text(units@.skip(i as int))),
        decreases units.len() - i,
    {
        let u = units[i];
        let ghost rest = units@.skip(i as int);
        if u < 0xd800 || u > 0xdfff {
            let c = char_from_scalar(u as u32);
            proof {
                assert(rest.drop_first() =~= units@.skip(i + 1));
                let ghost next = utf16_text(units@.skip(i + 1));
                if next is Some {
                    assert(out@ + (seq![c] + next->0) =~= out@.push(c) + next->0);
                }
            }
            push_char(&mut out, c);
            i = i + 1;
        } else if u <= 0xdbff && i + 1 < units.len() && 0xdc00 <= units[i + 1] && units[i + 1]
            <= 0xdfff {
            let low = units[i + 1];
            let scalar: u32 = 0x10000 + (u as u32 - 0xd800) * 0x400 + (low as u32 - 0xdc00);
            let c = char_from_scalar(scalar);
            proof {
                assert(rest[0] == u && rest[1] == low);
                assert(rest.subrange(2, rest.len() as int) =~= units@.skip(i + 2));
                let ghost next = utf16_text(units@.skip(i + 2));
                if next is Some {
                    assert(out@ + (seq![c] + next->0) =~= out@.push(c) + next->0);
                }
            }
            push_char(&mut out, c);
            i = i + 2;
        } else {
            proof {
                assert(rest[0] == u);
                if i + 1 < units.len() {
                    assert(rest[1] == units@[i + 1]);
                }
            }
            return None;
        }
    }
    proof {
        assert(units@.skip(i as int) =~= Seq::<u16>::empty());
        assert(out@ + Seq::<char>::empty() =~= out@);
    }
    Some(out)
}

/// The text of a string attribute: the lookup's buffer cut (or padded with
/// zeros) to the `length` that the lookup reported, decoded as UTF-16.
/// `None` when the units are not valid UTF-16.
pub fn decode_attribute_text(buffer: &Vec<u16>, length: u32) -> (text: Option<String>)
    ensures
        match text {
            Some(t) => utf16_text(resized_units(buffer@, length as nat)) == Some(t@),
            None => utf16_text(resized_units(buffer@, length as nat)) is None,
        },
{
    let mut units: Vec<u16> = Vec::new();
    let mut i: u32 = 0;
    while i < length
        invariant
            0 <= i <= length,
            units@ == resized_units(buffer@, length as nat).take(i as int),
        decreases length - i,
    {
        let k = i as usize;
        if k < buffer.len() {
            units.push(buffer[k]);
        } else {
            units.push(0u16);
        }
        proof {
            assert(units@ =~= resized_units(buffer@, length as nat).take(i + 1));
        }
        i = i + 1;
    }
    proof {
        assert(units@ =~= resized_units(buffer@, length as nat));
    }
    decode_utf16(&units)
}

/// Units outside the surrogate range each decode to the character with
/// their value.
pub proof fn lemma_utf16_without_surrogates(units: Seq<u16>)
    requires
        forall|k: int| 0 <= k < units.len() ==> !(0xd800 <= #[trigger] units[k] <= 0xdfff),
    ensures
        utf16_text(units) == Some(units.map_values(|u: u16| (u as u32) as char)),
    decreases units.len(),
{
    if units.len() > 0 {
        let rest = units.drop_first();
        assert forall|k: int| 0 <= k < rest.len() implies !(0xd800 <= #[trigger] rest[k] <= 0xdfff) by {
            assert(rest[k] == units[k + 1]);
        }
        lemma_utf16_without_surrogates(rest);
        assert(units.map_values(|u: u16| (u as u32) as char) =~= seq![(units[0] as u32) as char]
            + rest.map_values(|u: u16| (u as u32) as char));
    } else {
        assert(units.map_values(|u: u16| (u as u32) as char) =~= Seq::<char>::empty());
    }
}

/// The UTF-16 units of one character: itself below `0x10000`, else its
/// high and low surrogates.
pub open spec fn utf16_units_of(c: char) -> Seq<u16> {
    let n = c as u32;
    if n < 0x10000 {
        seq![n as u16]
    } else {
        seq![
            (0xd800 + (n - 0x10000) / 0x400) as u16,
            (0xdc00 + (n - 0x10000) % 0x400) as u16,
        ]
    }
}

/// The UTF-16 encoding of a text (as `str::encode_utf16`).
pub open spec fn utf16_encode(text: Seq<char>) -> Seq<u16>
    decreases text.len(),
{
    if text.len() == 0 {
        Seq::<u16>::empty()
    } else {
        utf16_units_of(text[0]) + utf16_encode(text.drop_first())
    }
}

/// Decoding the UTF-16 encoding of a text gives the text back.
pub proof fn lemma_utf16_round_trip(text: Seq<char>)
    ensures
        utf16_text(utf16_encode(text)) == Some(text),
    decreases text.len(),
{
    if text.len() > 0 {
        let c = text[0];
        let rest = text.drop_first();
        lemma_utf16_round_trip(rest);
        let head = utf16_units_of(c);
        let units = utf16_encode(text);
        assert(units == head + utf16_encode(rest));
        let n = c as u32;
        vstd::utf8::char_is_scalar(c);
        vstd::utf8::char_u32_cast(c, n);
        assert(n < 0xd800 || (0xe000 <= n && n <= 0x10ffff));
        if n < 0x10000 {
            assert(units[0] == n as u16);
            assert(units.drop_first() =~= utf16_encode(rest));
            assert(((n as u16) as u32) as char == c);
            assert(seq![c] + rest =~= text);
        } else {
            let hi = (0xd800 + (n - 0x10000) / 0x400) as u16;
            let lo = (0xdc00 + (n - 0x10000) % 0x400) as u16;
            assert(units[0] == hi && units[1] == lo);
            assert(is_high_surrogate(hi) && is_low_surrogate(lo));
            assert(0x10000 + (hi - 0xd800) * 0x400 + (lo - 0xdc00) == n) by (nonlinear_arith)
                requires
                    0x10000 <= n <= 0x10ffff,
                    hi == 0xd800 + (n - 0x10000) / 0x400,
                    lo == 0xdc00 + (n - 0x10000) % 0x400,
            ;
            assert(units.subrange(2, units.len() as int) =~= utf16_encode(rest));
            assert(seq![c] + rest =~= text);
        }
    }
}

/// A string attribute reads back as the text that was stored: when the
/// lookup's buffer starts with the text's UTF-16 encoding and reports its
/// length, the decoded text is the stored text.
pub proof fn lemma_stored_text_reads_back(text: Seq<char>, buffer: Seq<u16>, length: u32)
    requires
        length == utf16_encode(text).len(),
        buffer.len() >= length,
        buffer.take(length as int) == utf16_encode(text),
    ensures
        utf16_text(resized_units(buffer, length as nat)) == Some(text),
{
    assert(resized_units(buffer, length as nat) =~= buffer.take(length as int));
    lemma_utf16_round_trip(text);
}

} // verus!
