use vstd::prelude::*;

verus! {

/// Whether a UTF-16 code unit is a leading (high) surrogate.
pub open spec fn is_high_surrogate(u: u16) -> bool {
    0xD800 <= u && u <= 0xDBFF
}

/// Whether a UTF-16 code unit is a trailing (low) surrogate.
pub open spec fn is_low_surrogate(u: u16) -> bool {
    0xDC00 <= u && u <= 0xDFFF
}

/// Whether a UTF-16 code unit is a surrogate of either kind.
pub open spec fn is_surrogate(u: u16) -> bool {
    0xD800 <= u && u <= 0xDFFF
}

/// Whether a number is a Unicode scalar value, that is, a `char`.
pub open spec fn is_scalar_value(v: u32) -> bool {
    v <= 0x10FFFF && !(0xD800 <= v && v <= 0xDFFF)
}

/// The code point that a surrogate pair stands for.
pub open spec fn pair_code_point(high: u16, low: u16) -> u32 {
    (0x10000 + (high - 0xD800) * 1024 + (low - 0xDC00)) as u32
}

/// The text that UTF-16 code units stand for, read from the front: a surrogate
/// pair gives one character, a surrogate that is not part of a pair gives the
/// replacement character U+FFFD, any other unit gives the character it encodes.
pub open spec fn decode_utf16_lossy(units: Seq<u16>) -> Seq<char>
    decreases units.len(),
{
    if units.len() == 0 {
        Seq::empty()
    } else if units.len() >= 2 && is_high_surrogate(units[0]) && is_low_surrogate(units[1]) {
        seq![pair_code_point(units[0], units[1]) as char] + decode_utf16_lossy(
            units.subrange(2, units.len() as int),
        )
    } else if is_surrogate(units[0]) {
        seq!['\u{FFFD}'] + decode_utf16_lossy(units.subrange(1, units.len() as int))
    } else {
        seq![units[0] as char] + decode_utf16_lossy(units.subrange(1, units.len() as int))
    }
}

/// `char::from_u32` of std: the `char` whose value is `v`, or `None` when `v` is
/// not a Unicode scalar value (a surrogate, or above U+10FFFF).
#[verifier::external_body]
fn char_from_u32(v: u32) -> (c: Option<char>)
    ensures
        is_scalar_value(v) ==> c == Some(v as char),
        !is_scalar_value(v) ==> c is None,
{
    char::from_u32(v)
}

/// `String::push` of std: appends the character to the end of the string.
#[verifier::external_body]
fn push_char(s: &mut String, c: char)
    ensures
        final(s)@ == old(s)@.push(c),
{
    s.push(c)
}

/// The text of a wide (UTF-16) string, given its code units without the
/// terminating zero. Surrogates that are not part of a pair are replaced by
/// U+FFFD.
pub fn stringw_from_wide(units: &[u16]) -> (s: String)
    ensures
        s@ == decode_utf16_lossy(units@),
{
    let mut s = String::new();
    let n: usize = units.len();
    let mut i: usize = 0;
    assert(units@.subrange(0, n as int) =~= units@);
    while i < n
        invariant
            i <= n,
            n == units@.len(),
            s@ + decode_utf16_lossy(units@.subrange(i as int, n as int)) == decode_utf16_lossy(
                units@,
            ),
        decreases n - i,
    {
        let ghost rest = units@.subrange(i as int, n as int);
        let u: u16 = units[i];
        assert(rest[0] == u);
        if 0xD800 <= u && u <= 0xDBFF && i + 1 < n && 0xDC00 <= units[i + 1] && units[i + 1]
            <= 0xDFFF {
            let low: u16 = units[i + 1];
            assert(rest[1] == low);
            let cp: u32 = 0x10000 + ((u - 0xD800) as u32) * 1024 + ((low - 0xDC00) as u32);
            assert(cp == pair_code_point(u, low));
            assert(is_scalar_value(cp));
            push_char(&mut s, char_from_u32(cp).unwrap());
            assert(rest.subrange(2, rest.len() as int) =~= units@.subrange(i + 2, n as int));
            i = i + 2;
        } else if 0xD800 <= u && u <= 0xDFFF {
            push_char(&mut s, '\u{FFFD}');
            assert(rest.subrange(1, rest.len() as int) =~= units@.subrange(i + 1, n as int));
            i = i + 1;
        } else {
            push_char(&mut s, char_from_u32(u as u32).unwrap());
            assert(rest.subrange(1, rest.len() as int) =~= units@.subrange(i + 1, n as int));
            i = i + 1;
        }
    }
    assert(units@.subrange(n as int, n as int) =~= Seq::<u16>::empty());
    assert(s@ + Seq::<char>::empty() =~= s@);
    s
}

/// Text without surrogates keeps one character per code unit: each character is
/// the one its unit encodes.
pub proof fn lemma_decode_without_surrogates(units: Seq<u16>)
    requires
        forall|i: int| 0 <= i < units.len() ==> !is_surrogate(#[trigger] units[i]),
    ensures
        decode_utf16_lossy(units).len() == units.len(),
        forall|i: int|
            0 <= i < units.len() ==> decode_utf16_lossy(units)[i] == (#[trigger] units[i]) as char,
    decreases units.len(),
{
    if units.len() > 0 {
        let rest = units.subrange(1, units.len() as int);
        assert forall|i: int| 0 <= i < rest.len() implies !is_surrogate(#[trigger] rest[i]) by {
            assert(rest[i] == units[i + 1]);
        }
        lemma_decode_without_surrogates(rest);
        assert forall|i: int| 0 <= i < units.len() implies decode_utf16_lossy(units)[i] == (
        #[trigger] units[i]) as char by {
            if i > 0 {
                assert(rest[i - 1] == units[i]);
            }
        }
    }
}

/// Decoding never gives more characters than there are code units.
pub proof fn lemma_decode_len_bound(units: Seq<u16>)
    ensures
        decode_utf16_lossy(units).len() <= units.len(),
    decreases units.len(),
{
    if units.len() >= 2 && is_high_surrogate(units[0]) && is_low_surrogate(units[1]) {
        lemma_decode_len_bound(units.subrange(2, units.len() as int));
    } else if units.len() > 0 {
        lemma_decode_len_bound(units.subrange(1, units.len() as int));
    }
}


/// Every character above the basic plane, written as UTF-16 (a leading surrogate
/// for its high ten bits above 0x10000, a trailing one for its low ten bits),
/// decodes back to that character.
pub proof fn lemma_decode_surrogate_pair_roundtrip(v: u32)
    requires
        0x10000 <= v <= 0x10FFFF,
    ensures
        decode_utf16_lossy(
            seq![(0xD800 + (v - 0x10000) / 1024) as u16, (0xDC00 + (v - 0x10000) % 1024) as u16],
        ) == seq![v as char],
{
    let d: int = v - 0x10000;
    let q: int = d / 1024;
    let r: int = d % 1024;
    assert(0 <= q < 1024 && 0 <= r < 1024 && q * 1024 + r == d) by (nonlinear_arith)
        requires
            0 <= d <= 0xFFFFF,
            q == d / 1024,
            r == d % 1024,
    ;
    let hi: u16 = (0xD800 + q) as u16;
    let lo: u16 = (0xDC00 + r) as u16;
    let s = seq![hi, lo];
    assert(is_high_surrogate(s[0]) && is_low_surrogate(s[1]));
    assert(pair_code_point(hi, lo) == v);
    assert(s.subrange(2, 2) =~= Seq::<u16>::empty());
    assert(decode_utf16_lossy(Seq::<u16>::empty()) =~= Seq::<char>::empty());
    assert(decode_utf16_lossy(s) =~= seq![v as char]);
}

/// A character of the basic plane decodes from its own code unit; a surrogate
/// with nothing after it decodes to U+FFFD.
pub proof fn lemma_decode_single_unit(u: u16)
    ensures
        !is_surrogate(u) ==> decode_utf16_lossy(seq![u]) == seq![u as char],
        is_surrogate(u) ==> decode_utf16_lossy(seq![u]) == seq!['\u{FFFD}'],
{
    let s = seq![u];
    assert(s.subrange(1, 1) =~= Seq::<u16>::empty());
    assert(decode_utf16_lossy(Seq::<u16>::empty()) =~= Seq::<char>::empty());
    assert(decode_utf16_lossy(s) =~= seq![if is_surrogate(u) { '\u{FFFD}' } else { u as char }]);
}

} // verus!
