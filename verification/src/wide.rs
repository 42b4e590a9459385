//! Text as Windows takes it: UTF-16, with a zero at its end.

use vstd::prelude::*;

use crate::text::characters;

verus! {

/// The UTF-16 units of a character: one, or the two of a surrogate pair.
pub open spec fn utf16_units(c: char) -> Seq<u16> {
    let n = c as u32;
    if n < 0x10000 {
        seq![n as u16]
    } else {
        seq![(0xd800 + (n - 0x10000) / 0x400) as u16, (0xdc00 + (n - 0x10000) % 0x400) as u16]
    }
}

/// A text in UTF-16.
pub open spec fn utf16(s: Seq<char>) -> Seq<u16>
    decreases s.len(),
{
    if s.len() == 0 {
        Seq::empty()
    } else {
        utf16(s.drop_last()) + utf16_units(s.last())
    }
}

/// A text in UTF-16 with a zero at its end.
pub fn wide(value: &str) -> (units: Vec<u16>)
    ensures
        units@ == utf16(value@).push(0),
{
    let list = characters(value);
    let mut units: Vec<u16> = Vec::new();
    let mut k: usize = 0;
    while k < list.len()
        invariant
            list@ == value@,
            k <= list.len(),
            units@ == utf16(value@.take(k as int)),
        decreases list.len() - k,
    {
        let n: u32 = list[k] as u32;
        proof {
            let next = value@.take(k + 1);
            assert(next.drop_last() =~= value@.take(k as int));
            assert(next.last() == value@[k as int]);
        }
        if n < 0x10000 {
            units.push(n as u16);
        } else {
            let rest: u32 = n - 0x10000;
            units.push((0xd800 + rest / 0x400) as u16);
            units.push((0xdc00 + rest % 0x400) as u16);
        }
        assert(units@ =~= utf16(value@.take(k as int)) + utf16_units(list@[k as int]));
        k += 1;
    }
    assert(value@.take(value@.len() as int) =~= value@);
    units.push(0);
    units
}

/// Whether a unit is the first of a surrogate pair.
pub open spec fn is_high_surrogate(unit: u16) -> bool {
    0xd800 <= unit <= 0xdbff
}

/// Whether a unit is the second of a surrogate pair.
pub open spec fn is_low_surrogate(unit: u16) -> bool {
    0xdc00 <= unit <= 0xdfff
}

/// The character of a surrogate pair.
pub open spec fn pair_character(high: u16, low: u16) -> char {
    (0x10000 + (high - 0xd800) * 0x400 + (low - 0xdc00)) as u32 as char
}

/// The text of UTF-16 units; a surrogate without its partner becomes U+FFFD.
pub open spec fn from_utf16(units: Seq<u16>) -> Seq<char>
    decreases units.len(),
{
    if units.len() == 0 {
        Seq::empty()
    } else if is_high_surrogate(units[0]) && units.len() > 1 && is_low_surrogate(units[1]) {
        seq![pair_character(units[0], units[1])] + from_utf16(units.skip(2))
    } else if is_high_surrogate(units[0]) || is_low_surrogate(units[0]) {
        seq!['\u{fffd}'] + from_utf16(units.skip(1))
    } else {
        seq![units[0] as u32 as char] + from_utf16(units.skip(1))
    }
}

/// The units before the first zero, or all of them.
pub open spec fn before_zero(units: Seq<u16>) -> Seq<u16>
    decreases units.len(),
{
    if units.len() == 0 || units[0] == 0 {
        Seq::empty()
    } else {
        seq![units[0]] + before_zero(units.skip(1))
    }
}

/// The text that stands in a buffer up to its first zero.
pub fn text_of_wide(buffer: &Vec<u16>) -> (text: String)
    ensures
        text@ == from_utf16(before_zero(buffer@)),
{
    let mut length: usize = 0;
    assert(before_zero(buffer@) =~= buffer@.take(0) + before_zero(buffer@.skip(0))) by {
        assert(buffer@.skip(0) =~= buffer@);
    }
    while length < buffer.len() && buffer[length] != 0
        invariant
            length <= buffer.len(),
            before_zero(buffer@) == buffer@.take(length as int) + before_zero(
                buffer@.skip(length as int),
            ),
        decreases buffer.len() - length,
    {
        proof {
            let rest = buffer@.skip(length as int);
            assert(rest[0] == buffer@[length as int]);
            assert(rest.skip(1) =~= buffer@.skip(length + 1));
            assert(buffer@.take(length as int) + (seq![rest[0]] + before_zero(rest.skip(1)))
                =~= buffer@.take(length + 1) + before_zero(buffer@.skip(length + 1)));
        }
        length += 1;
    }
    let ghost units = before_zero(buffer@);
    assert(units =~= buffer@.take(length as int)) by {
        if length < buffer.len() {
            assert(buffer@.skip(length as int)[0] == buffer@[length as int]);
        }
    }
    let mut text = String::new();
    assert(from_utf16(units) =~= text@ + from_utf16(units.skip(0))) by {
        assert(units.skip(0) =~= units);
    }
    let mut k: usize = 0;
    while k < length
        invariant
            k <= length <= buffer.len(),
            units == buffer@.take(length as int),
            from_utf16(units) == text@ + from_utf16(units.skip(k as int)),
        decreases length - k,
    {
        let unit: u16 = buffer[k];
        let ghost rest = units.skip(k as int);
        assert(rest[0] == unit);
        if unit >= 0xd800 && unit <= 0xdbff && k + 1 < length && buffer[k + 1] >= 0xdc00
            && buffer[k + 1] <= 0xdfff {
            let code: u32 = 0x10000 + (unit as u32 - 0xd800) * 0x400 + (buffer[k + 1] as u32
                - 0xdc00);
            proof {
                assert(rest[1] == buffer@[k + 1]);
                assert(rest.skip(2) =~= units.skip(k + 2));
                assert(text@ + (seq![pair_character(rest[0], rest[1])] + from_utf16(rest.skip(2)))
                    =~= text@.push(pair_character(rest[0], rest[1])) + from_utf16(
                    units.skip(k + 2),
                ));
            }
            if let Some(c) = char::from_u32(code) {
                text.push(c);
            }
            k += 2;
        } else {
            proof {
                if k + 1 < length {
                    assert(rest[1] == buffer@[k + 1]);
                }
                assert(rest.skip(1) =~= units.skip(k + 1));
                assert(text@ + (seq!['\u{fffd}'] + from_utf16(rest.skip(1))) =~= text@.push(
                    '\u{fffd}',
                ) + from_utf16(units.skip(k + 1)));
                assert(text@ + (seq![unit as u32 as char] + from_utf16(rest.skip(1)))
                    =~= text@.push(unit as u32 as char) + from_utf16(units.skip(k + 1)));
            }
            if unit >= 0xd800 && unit <= 0xdfff {
                text.push('\u{fffd}');
            } else if let Some(c) = char::from_u32(unit as u32) {
                text.push(c);
            }
            k += 1;
        }
    }
    assert(text@ + from_utf16(units.skip(k as int)) =~= text@);
    text
}

/// The units of a text, from its first character on.
proof fn lemma_utf16_front(s: Seq<char>)
    requires
        s.len() > 0,
    ensures
        utf16(s) == utf16_units(s[0]) + utf16(s.drop_first()),
    decreases s.len(),
{
    if s.len() == 1 {
        assert(s.drop_last() =~= Seq::<char>::empty());
        assert(s.drop_first() =~= Seq::<char>::empty());
        assert(utf16(s) =~= utf16_units(s[0]) + utf16(s.drop_first()));
    } else {
        lemma_utf16_front(s.drop_last());
        assert(s.drop_last().drop_first() =~= s.drop_first().drop_last());
        assert(utf16(s) =~= utf16_units(s[0]) + utf16(s.drop_first()));
    }
}

/// The units of one character are read back as that character.
proof fn lemma_character_is_read_back(c: char)
    ensures
        utf16_units(c).len() == 1 ==> {
            let unit = utf16_units(c)[0];
            &&& !is_high_surrogate(unit) && !is_low_surrogate(unit)
            &&& unit as u32 as char == c
            &&& c != '\0' ==> unit != 0
        },
        utf16_units(c).len() != 1 ==> {
            let units = utf16_units(c);
            &&& units.len() == 2
            &&& is_high_surrogate(units[0]) && is_low_surrogate(units[1])
            &&& pair_character(units[0], units[1]) == c
        },
{
}

/// A text that holds no zero is read back from its UTF-16 form.
pub proof fn law_wide_text_is_read_back(s: Seq<char>)
    requires
        forall|i: int| 0 <= i < s.len() ==> #[trigger] s[i] != '\0',
    ensures
        from_utf16(before_zero(utf16(s).push(0))) == s,
    decreases s.len(),
{
    if s.len() == 0 {
        assert(utf16(s).push(0)[0] == 0);
        assert(before_zero(utf16(s).push(0)) =~= Seq::<u16>::empty());
        assert(from_utf16(Seq::<u16>::empty()) =~= s);
    } else {
        let rest = s.drop_first();
        assert forall|i: int| 0 <= i < rest.len() implies #[trigger] rest[i] != '\0' by {
            assert(rest[i] == s[i + 1]);
        }
        law_wide_text_is_read_back(rest);
        lemma_utf16_front(s);
        let units = utf16(s).push(0);
        let front = utf16_units(s[0]);
        let tail = utf16(rest).push(0);
        lemma_character_is_read_back(s[0]);
        assert(units =~= front + tail);
        if front.len() == 1 {
            assert(units[0] == front[0]);
            assert(units.skip(1) =~= tail);
            let all = before_zero(units);
            assert(all =~= seq![units[0]] + before_zero(tail));
            assert(all.skip(1) =~= before_zero(tail));
            assert(from_utf16(all) =~= seq![s[0]] + from_utf16(before_zero(tail)));
        } else {
            let high = front[0];
            let low = front[1];
            assert(units[0] == high && units[1] == low);
            assert(units.skip(1) =~= seq![low] + tail);
            assert(units.skip(1).skip(1) =~= tail);
            assert(units.skip(1)[0] == low);
            let all = before_zero(units);
            assert(before_zero(units.skip(1)) =~= seq![low] + before_zero(tail));
            assert(all =~= seq![high, low] + before_zero(tail));
            assert(all.skip(2) =~= before_zero(tail));
            assert(from_utf16(all) =~= seq![s[0]] + from_utf16(before_zero(tail)));
        }
        assert(s =~= seq![s[0]] + rest);
    }
}

/// The text of two parts is the text of one behind that of the other. A character is its
/// own unit, or a high and a low surrogate that give its number beyond the first 65536,
/// ten bits each.
pub proof fn law_characters_become_their_units(front: Seq<char>, c: char, back: Seq<char>)
    ensures
        utf16(front + back) == utf16(front) + utf16(back),
        (c as u32) < 0x10000 ==> utf16(seq![c]).len() == 1 && utf16(seq![c])[0] == c as u32,
        c as u32 >= 0x10000 ==> {
            let units = utf16(seq![c]);
            &&& units.len() == 2
            &&& 0xd800 <= units[0] <= 0xdbff && 0xdc00 <= units[1] <= 0xdfff
            &&& 0x10000 + (units[0] - 0xd800) * 0x400 + (units[1] - 0xdc00) == c as u32
        },
    decreases back.len(),
{
    reveal_with_fuel(utf16, 2);
    assert(seq![c].drop_last() =~= Seq::<char>::empty());
    assert(Seq::<u16>::empty() + utf16_units(c) =~= utf16_units(c));
    if back.len() == 0 {
        assert(front + back =~= front);
        assert(utf16(front) + Seq::<u16>::empty() =~= utf16(front));
    } else {
        law_characters_become_their_units(front, c, back.drop_last());
        assert((front + back).drop_last() =~= front + back.drop_last());
        assert(utf16(front) + utf16(back.drop_last()) + utf16_units(back.last()) =~= utf16(front)
            + (utf16(back.drop_last()) + utf16_units(back.last())));
    }
}

/// A surrogate without its other half is read as the replacement character, and what
/// follows it is read all the same.
pub proof fn law_lone_surrogates_are_replaced(unit: u16, rest: Seq<u16>)
    requires
        0xd800 <= unit <= 0xdfff,
        0xdc00 <= unit || rest.len() == 0 || rest[0] < 0xdc00 || rest[0] > 0xdfff,
    ensures
        from_utf16(seq![unit] + rest) == seq!['\u{fffd}'] + from_utf16(rest),
{
    assert((seq![unit] + rest).skip(1) =~= rest);
}

/// A text goes up to its first zero.
pub proof fn law_text_ends_at_the_first_zero(units: Seq<u16>, i: int)
    ensures
        before_zero(units).len() <= units.len(),
        0 <= i < before_zero(units).len() ==> before_zero(units)[i] == units[i] && units[i] != 0,
        before_zero(units).len() < units.len() ==> units[before_zero(units).len() as int] == 0,
    decreases units.len(),
{
    if units.len() > 0 && units[0] != 0 {
        law_text_ends_at_the_first_zero(units.skip(1), i - 1);
        if before_zero(units.skip(1)).len() < units.skip(1).len() {
            assert(units.skip(1)[before_zero(units.skip(1)).len() as int] == 0);
        }
    }
}

} // verus!
