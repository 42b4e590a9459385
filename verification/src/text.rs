//! Text as sequences of characters: what the host uses of std's strings, and
//! decimal numbers.

use vstd::prelude::*;

verus! {

/// Whether a character has Unicode's `White_Space` property.
pub open spec fn is_white_space(c: char) -> bool {
    let n = c as u32;
    ||| 0x09 <= n <= 0x0d
    ||| n == 0x20
    ||| n == 0x85
    ||| n == 0xa0
    ||| n == 0x1680
    ||| 0x2000 <= n <= 0x200a
    ||| n == 0x2028
    ||| n == 0x2029
    ||| n == 0x202f
    ||| n == 0x205f
    ||| n == 0x3000
}

/// A text without its leading and trailing white space.
pub open spec fn trimmed(s: Seq<char>) -> Seq<char>
    decreases s.len(),
{
    if s.len() == 0 {
        s
    } else if is_white_space(s[0]) {
        trimmed(s.drop_first())
    } else if is_white_space(s.last()) {
        trimmed(s.drop_last())
    } else {
        s
    }
}

/// `str::trim` removes leading and trailing characters that have Unicode's
/// `White_Space` property.
pub assume_specification[ str::trim ](s: &str) -> (r: &str)
    ensures
        r@ == trimmed(s@),
;

/// `String::push` appends one character.
pub assume_specification[ String::push ](s: &mut String, c: char)
    ensures
        final(s)@ == old(s)@.push(c),
;

/// `String::pop` removes and returns the last character, if there is one.
pub assume_specification[ String::pop ](s: &mut String) -> (r: Option<char>)
    ensures
        old(s)@.len() == 0 ==> r is None && final(s)@ == old(s)@,
        old(s)@.len() > 0 ==> r == Some(old(s)@.last()) && final(s)@ == old(s)@.drop_last(),
;

/// `String::clear` removes every character.
pub assume_specification[ String::clear ](s: &mut String)
    ensures
        final(s)@ == Seq::<char>::empty(),
;

/// `String::push_str` appends a text.
pub assume_specification[ String::push_str ](s: &mut String, t: &str)
    ensures
        final(s)@ == old(s)@ + t@,
;

/// The character of a decimal digit.
pub open spec fn digit(n: nat) -> char
    recommends
        n < 10,
{
    ('0' as u32 + n) as char
}

/// A number in decimal, without leading zeros.
pub open spec fn decimal(n: nat) -> Seq<char>
    decreases n,
{
    if n < 10 {
        seq![digit(n)]
    } else {
        decimal(n / 10).push(digit(n % 10))
    }
}

/// Appends a number in decimal.
pub fn push_decimal(s: &mut String, n: u64)
    ensures
        final(s)@ == old(s)@ + decimal(n as nat),
    decreases n,
{
    if n >= 10 {
        push_decimal(s, n / 10);
    }
    let rest: u64 = n % 10;
    let last = match rest {
        0 => '0',
        1 => '1',
        2 => '2',
        3 => '3',
        4 => '4',
        5 => '5',
        6 => '6',
        7 => '7',
        8 => '8',
        _ => '9',
    };
    proof {
        assert(last == digit(rest as nat));
    }
    s.push(last);
    assert(s@ =~= old(s)@ + decimal(n as nat));
}

/// Whether a character is a control code, Unicode's general category `Cc`.
pub open spec fn is_control_code(c: char) -> bool {
    c as u32 <= 0x1f || 0x7f <= c as u32 <= 0x9f
}

/// `char::is_control` tells the control codes apart.
pub assume_specification[ char::is_control ](c: char) -> (r: bool)
    ensures
        r == is_control_code(c),
;

/// Whether a number is a Unicode scalar value.
pub open spec fn is_scalar_value(n: u32) -> bool {
    n <= 0xd7ff || 0xe000 <= n <= 0x10ffff
}

/// `char::from_u32` converts a Unicode scalar value and rejects other numbers.
pub assume_specification[ char::from_u32 ](n: u32) -> (r: Option<char>)
    ensures
        r is Some <==> is_scalar_value(n),
        r matches Some(c) ==> c as u32 == n && c == n as char,
;

/// A letter of ASCII in upper case; any other character as it is.
pub open spec fn ascii_upper(c: char) -> char {
    if 'a' <= c && c <= 'z' {
        ((c as u32) - 32) as char
    } else {
        c
    }
}

/// `char::to_ascii_uppercase` changes the 26 small letters of ASCII only.
pub assume_specification[ char::to_ascii_uppercase ](c: &char) -> (r: char)
    ensures
        r == ascii_upper(*c),
;

/// A trimmed text has no white space at its ends.
pub proof fn lemma_trimmed_ends(s: Seq<char>)
    ensures
        trimmed(s).len() <= s.len(),
        trimmed(s).len() > 0 ==> !is_white_space(trimmed(s)[0]) && !is_white_space(
            trimmed(s).last(),
        ),
        trimmed(trimmed(s)) == trimmed(s),
    decreases s.len(),
{
    if s.len() > 0 {
        if is_white_space(s[0]) {
            lemma_trimmed_ends(s.drop_first());
        } else if is_white_space(s.last()) {
            lemma_trimmed_ends(s.drop_last());
        }
    }
}

/// A letter of ASCII in lower case; any other character as it is.
pub open spec fn ascii_lower(c: char) -> char {
    if 'A' <= c && c <= 'Z' {
        ((c as u32) + 32) as char
    } else {
        c
    }
}

/// A text with the letters of ASCII in lower case.
pub open spec fn ascii_lowercase(s: Seq<char>) -> Seq<char> {
    s.map_values(|c: char| ascii_lower(c))
}

/// Whether a text has characters of ASCII only.
pub open spec fn is_ascii_text(s: Seq<char>) -> bool {
    forall|i: int| 0 <= i < s.len() ==> (#[trigger] s[i]) as u32 <= 0x7f
}

/// `str::to_ascii_lowercase` changes the 26 capital letters of ASCII only.
pub assume_specification[ str::to_ascii_lowercase ](s: &str) -> (r: String)
    ensures
        r@ == ascii_lowercase(s@),
;

/// `str::eq_ignore_ascii_case` compares two texts as they are in lower case, where
/// only the letters of ASCII change.
pub assume_specification[ str::eq_ignore_ascii_case ](s: &str, other: &str) -> (r: bool)
    ensures
        r == (ascii_lowercase(s@) == ascii_lowercase(other@)),
;

/// What `str::to_lowercase` makes of a text: its lower case by Unicode's rules.
pub uninterp spec fn unicode_lowercase(s: Seq<char>) -> Seq<char>;

/// A text in lower case.
pub open spec fn lowercase(s: Seq<char>) -> Seq<char> {
    if is_ascii_text(s) {
        ascii_lowercase(s)
    } else {
        unicode_lowercase(s)
    }
}

/// `str::to_lowercase` returns the lower case of a text by Unicode's rules, which
/// are too long to state; on a text of ASCII they change the 26 capital letters
/// only.
pub assume_specification[ str::to_lowercase ](s: &str) -> (r: String)
    ensures
        is_ascii_text(s@) ==> r@ == ascii_lowercase(s@),
        !is_ascii_text(s@) ==> r@ == unicode_lowercase(s@),
;

/// A trimmed text of ASCII in lower case stays as it is when it is trimmed and put in
/// lower case again.
pub proof fn lemma_ascii_lowercase_is_kept(s: Seq<char>)
    requires
        is_ascii_text(s),
    ensures
        lowercase(trimmed(lowercase(trimmed(s)))) == lowercase(trimmed(s)),
{
    lemma_trimmed_ends(s);
    lemma_trimmed_is_ascii(s);
    let short = trimmed(s);
    let low = ascii_lowercase(short);
    assert forall|i: int| 0 <= i < short.len() implies is_white_space(#[trigger] low[i])
        == is_white_space(short[i]) && low[i] as u32 <= 0x7f && ascii_lower(low[i]) == low[i] by {
        assert(short[i] as u32 <= 0x7f);
        assert(low[i] == ascii_lower(short[i]));
    }
    assert(is_ascii_text(low));
    assert(trimmed(low) == low);
    assert(ascii_lowercase(low) =~= low);
}

/// A text of ASCII has none but characters of ASCII when it is trimmed.
proof fn lemma_trimmed_is_ascii(s: Seq<char>)
    requires
        is_ascii_text(s),
    ensures
        is_ascii_text(trimmed(s)),
    decreases s.len(),
{
    if s.len() > 0 {
        if is_white_space(s[0]) {
            let rest = s.drop_first();
            assert forall|i: int| 0 <= i < rest.len() implies (#[trigger] rest[i]) as u32
                <= 0x7f by {
                assert(rest[i] == s[i + 1]);
            }
            lemma_trimmed_is_ascii(rest);
        } else if is_white_space(s.last()) {
            lemma_trimmed_is_ascii(s.drop_last());
        }
    }
}

/// The texts of a list.
pub open spec fn texts(list: Seq<String>) -> Seq<Seq<char>> {
    list.map_values(|s: String| s@)
}

/// The characters of a text.
pub fn characters(s: &str) -> (list: Vec<char>)
    ensures
        list@ == s@,
{
    let mut list: Vec<char> = Vec::new();
    for c in iter: s.chars()
        invariant
            iter.seq() == s@,
            list@ == iter.seq().take(iter.index()),
    {
        list.push(c);
        assert(iter.seq().take(iter.index() + 1) =~= iter.seq().take(iter.index()).push(c));
    }
    assert(s@.take(s@.len() as int) =~= s@);
    list
}

/// Whether two texts are the same.
pub fn same_text(a: &str, b: &str) -> (same: bool)
    ensures
        same == (a@ == b@),
{
    a.to_owned() == b.to_owned()
}

/// The number that digits spell.
pub open spec fn number_of(digits: Seq<char>) -> nat
    decreases digits.len(),
{
    if digits.len() == 0 {
        0
    } else {
        number_of(digits.drop_last()) * 10 + (digits.last() as u32 - '0' as u32) as nat
    }
}

/// A number in decimal digits is the number that they spell, and begins with a zero only
/// where it is zero.
pub proof fn law_decimals_are_read_back(value: nat)
    ensures
        number_of(decimal(value)) == value,
        decimal(value).len() >= 1,
        decimal(value)[0] == '0' ==> value == 0,
        forall|i: int| 0 <= i < decimal(value).len() ==> '0' <= #[trigger] decimal(value)[i] <= '9',
    decreases value,
{
    reveal_with_fuel(number_of, 2);
    let digits = decimal(value);
    if value >= 10 {
        law_decimals_are_read_back(value / 10);
        assert(digits.drop_last() =~= decimal(value / 10));
    } else {
        assert(digits.drop_last() =~= Seq::<char>::empty());
    }
}

/// Trimming takes white space from both ends of a text until there is none, and nothing
/// else: what is left is the part that has none at its ends and nothing else around it.
pub proof fn law_trimming_takes_white_space_alone(s: Seq<char>, from: int, to: int)
    requires
        is_core_of(s, from, to),
    ensures
        trimmed(s) == s.subrange(from, to),
    decreases s.len(),
{
    if s.len() == 0 {
        assert(s.subrange(from, to) =~= s);
    } else if is_white_space(s[0]) {
        let rest = s.drop_first();
        assert forall|i: int| 0 <= i < rest.len() implies #[trigger] rest[i] == s[i + 1] by {}
        if from == to {
            assert(is_core_of(rest, 0, 0));
            law_trimming_takes_white_space_alone(rest, 0, 0);
            assert(rest.subrange(0, 0) =~= s.subrange(from, to));
        } else {
            assert(rest[from - 1] == s[from] && rest[to - 2] == s[to - 1]);
            law_trimming_takes_white_space_alone(rest, from - 1, to - 1);
            assert(rest.subrange(from - 1, to - 1) =~= s.subrange(from, to));
        }
    } else if is_white_space(s.last()) {
        let rest = s.drop_last();
        assert(from < to) by {
            if from == to {
                assert(is_white_space(s[0]));
            }
        }
        assert(to < s.len());
        assert forall|i: int| 0 <= i < rest.len() implies #[trigger] rest[i] == s[i] by {}
        law_trimming_takes_white_space_alone(rest, from, to);
        assert(rest.subrange(from, to) =~= s.subrange(from, to));
    } else {
        assert(from == 0);
        assert(to == s.len());
        assert(s.subrange(from, to) =~= s);
    }
}

/// Whether a part of a text has no white space at its ends, and nothing but white space
/// around it.
pub open spec fn is_core_of(s: Seq<char>, from: int, to: int) -> bool {
    &&& 0 <= from <= to <= s.len()
    &&& from < to ==> !is_white_space(s[from]) && !is_white_space(s[to - 1])
    &&& forall|i: int| 0 <= i < from || to <= i < s.len() ==> is_white_space(#[trigger] s[i])
}

/// The letters of ASCII have one another as upper and lower case, 32 apart, and every
/// other character stays as it is.
pub proof fn law_letters_have_two_cases(c: char)
    ensures
        'A' <= c <= 'Z' ==> ascii_lower(c) as u32 == c as u32 + 32 && ascii_upper(ascii_lower(c))
            == c,
        'a' <= c <= 'z' ==> ascii_upper(c) as u32 == c as u32 - 32 && ascii_lower(ascii_upper(c))
            == c,
        !('A' <= c <= 'Z') ==> ascii_lower(c) == c,
        !('a' <= c <= 'z') ==> ascii_upper(c) == c,
{
}

/// A text of ASCII is brought to lower case letter by letter.
pub proof fn law_plain_text_is_lowered_by_letters(s: Seq<char>, i: int)
    requires
        forall|k: int| 0 <= k < s.len() ==> (#[trigger] s[k]) as u32 <= 0x7f,
    ensures
        lowercase(s).len() == s.len(),
        0 <= i < s.len() ==> lowercase(s)[i] == ascii_lower(s[i]),
{
}

} // verus!
