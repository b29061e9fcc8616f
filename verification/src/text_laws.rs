//! What texts come to, stated by their positions.

use vstd::prelude::*;

use crate::outside::hex_text;
use crate::table::texts;
use crate::text::{
    all_digits, ascii_lower, decimal, digits_value, first_index, is_ascii_alphanumeric,
    is_white_space, lemma_decimal, lex_lt, number_in, same_ignoring_ascii_case, signed_decimal,
    strip_prefix, strip_suffix, trim, trim_end, trim_start, without_plus,
};

verus! {

/// The white space consists of 25 characters.
pub proof fn law_white_space_characters(c: char)
    ensures
        is_white_space(c) <==> set![
            9int,
            10,
            11,
            12,
            13,
            32,
            133,
            160,
            5760,
            8192,
            8193,
            8194,
            8195,
            8196,
            8197,
            8198,
            8199,
            8200,
            8201,
            8202,
            8232,
            8233,
            8239,
            8287,
            12288,
        ].contains(c as int),
{
}

/// White space before a text is taken off.
proof fn lemma_trim_start(before: Seq<char>, rest: Seq<char>)
    requires
        forall|i: int| 0 <= i < before.len() ==> is_white_space(#[trigger] before[i]),
        rest.len() == 0 || !is_white_space(rest[0]),
    ensures
        trim_start(before + rest) == rest,
    decreases before.len(),
{
    if before.len() == 0 {
        assert(before + rest =~= rest);
    } else {
        assert(is_white_space(before[0]));
        let less = before.drop_first();
        assert forall|i: int| 0 <= i < less.len() implies is_white_space(#[trigger] less[i]) by {
            assert(less[i] == before[i + 1]);
        }
        assert((before + rest).drop_first() =~= less + rest);
        lemma_trim_start(less, rest);
    }
}

/// White space after a text is taken off.
proof fn lemma_trim_end(rest: Seq<char>, after: Seq<char>)
    requires
        forall|i: int| 0 <= i < after.len() ==> is_white_space(#[trigger] after[i]),
        rest.len() == 0 || !is_white_space(rest.last()),
    ensures
        trim_end(rest + after) == rest,
    decreases after.len(),
{
    if after.len() == 0 {
        assert(rest + after =~= rest);
    } else {
        assert(is_white_space(after[after.len() - 1]));
        let less = after.drop_last();
        assert forall|i: int| 0 <= i < less.len() implies is_white_space(#[trigger] less[i]) by {
            assert(less[i] == after[i]);
        }
        assert((rest + after).drop_last() =~= rest + less);
        lemma_trim_end(rest, less);
    }
}

/// Trimming takes all white space off both ends and nothing else.
pub proof fn law_trim_takes_white_space_off_the_ends(
    before: Seq<char>,
    middle: Seq<char>,
    after: Seq<char>,
)
    requires
        forall|i: int| 0 <= i < before.len() ==> is_white_space(#[trigger] before[i]),
        forall|i: int| 0 <= i < after.len() ==> is_white_space(#[trigger] after[i]),
        middle.len() > 0,
        !is_white_space(middle[0]),
        !is_white_space(middle.last()),
    ensures
        trim(before + middle + after) == middle,
        trim_start(before + middle + after) == middle + after,
{
    assert(before + middle + after =~= before + (middle + after));
    lemma_trim_start(before, middle + after);
    lemma_trim_end(middle, after);
}

/// Nothing is left of white space.
pub proof fn law_trimmed_white_space_is_empty(s: Seq<char>)
    requires
        forall|i: int| 0 <= i < s.len() ==> is_white_space(#[trigger] s[i]),
    ensures
        trim(s) == Seq::<char>::empty(),
        trim_start(s) == Seq::<char>::empty(),
{
    lemma_trim_start(s, Seq::empty());
    assert(s + Seq::<char>::empty() =~= s);
}

/// The first position of a character is the one before which it does not occur.
pub proof fn law_first_index_is_first(s: Seq<char>, c: char, i: int)
    requires
        0 <= i <= s.len(),
        forall|j: int| 0 <= j < i ==> s[j] != c,
        i < s.len() ==> s[i] == c,
    ensures
        first_index(s, c) == i,
    decreases s.len(),
{
    if i > 0 {
        assert(s[0] != c);
        let rest = s.drop_first();
        assert forall|j: int| 0 <= j < i - 1 implies rest[j] != c by {
            assert(rest[j] == s[j + 1]);
        }
        law_first_index_is_first(rest, c, i - 1);
    }
}

/// Where two texts share a prefix, the character after it decides which stands
/// before the other.
pub proof fn law_first_difference_orders_texts(a: Seq<char>, b: Seq<char>, i: int)
    requires
        0 <= i < a.len(),
        i < b.len(),
        forall|j: int| 0 <= j < i ==> a[j] == b[j],
        a[i] < b[i],
    ensures
        lex_lt(a, b),
        !lex_lt(b, a),
    decreases i,
{
    if i > 0 {
        assert(a[0] == b[0]);
        assert forall|j: int| 0 <= j < i - 1 implies a.drop_first()[j] == b.drop_first()[j] by {
            assert(a[j + 1] == b[j + 1]);
        }
        law_first_difference_orders_texts(a.drop_first(), b.drop_first(), i - 1);
    }
}

/// Where one text begins with the other, the shorter one stands before.
pub proof fn law_shorter_text_stands_before(a: Seq<char>, b: Seq<char>)
    requires
        a.len() < b.len(),
        forall|j: int| 0 <= j < a.len() ==> a[j] == b[j],
    ensures
        lex_lt(a, b),
        !lex_lt(b, a),
    decreases a.len(),
{
    if a.len() > 0 {
        assert(a[0] == b[0]);
        assert forall|j: int| 0 <= j < a.drop_first().len() implies a.drop_first()[j]
            == b.drop_first()[j] by {
            assert(a[j + 1] == b[j + 1]);
        }
        law_shorter_text_stands_before(a.drop_first(), b.drop_first());
    }
}

/// A digit more makes ten times the number, and the digit.
pub proof fn law_digits_count_by_ten(s: Seq<char>, d: char)
    requires
        '0' <= d <= '9',
    ensures
        digits_value(Seq::<char>::empty()) == 0,
        digits_value(s.push(d)) == 10 * digits_value(s) + (d as int - '0' as int),
{
    assert(s.push(d).drop_last() =~= s);
}

/// The decimal numeral of a number has at least one digit, nothing but digits
/// and no needless zero before them, and stands for the number.
pub proof fn law_decimal_stands_for_its_number(n: nat)
    ensures
        decimal(n).len() > 0,
        forall|i: int| 0 <= i < decimal(n).len() ==> '0' <= #[trigger] decimal(n)[i] <= '9',
        decimal(n)[0] == '0' ==> n == 0 && decimal(n).len() == 1,
        digits_value(decimal(n)) == n,
    decreases n,
{
    lemma_decimal(n);
    assert forall|i: int| 0 <= i < decimal(n).len() implies '0' <= #[trigger] decimal(n)[i]
        <= '9' by {
        assert(crate::text::is_digit(decimal(n)[i]));
    }
    if n >= 10 {
        law_decimal_stands_for_its_number(n / 10);
        assert(decimal(n)[0] == decimal(n / 10)[0]);
    }
}

/// Different numbers have different numerals.
pub proof fn law_signed_decimals_differ(a: int, b: int)
    ensures
        signed_decimal(a) == signed_decimal(b) ==> a == b,
        a < 0 ==> signed_decimal(a) == seq!['-'] + decimal((-a) as nat),
        a >= 0 ==> signed_decimal(a) == decimal(a as nat),
{
    let x = if a < 0 {
        -a
    } else {
        a
    };
    let y = if b < 0 {
        -b
    } else {
        b
    };
    law_decimal_stands_for_its_number(x as nat);
    law_decimal_stands_for_its_number(y as nat);
    if signed_decimal(a) == signed_decimal(b) {
        assert('0' <= decimal(x as nat)[0] <= '9');
        assert('0' <= decimal(y as nat)[0] <= '9');
        assert(a < 0 ==> signed_decimal(a)[0] == '-');
        assert(b < 0 ==> signed_decimal(b)[0] == '-');
        if a < 0 && b < 0 {
            assert(signed_decimal(a).drop_first() =~= decimal(x as nat));
            assert(signed_decimal(b).drop_first() =~= decimal(y as nat));
        }
    }
}

/// One or more digits spell the number that they stand for, if it is not too
/// great, with a plus sign before them or without.
pub proof fn law_digits_spell_a_number(s: Seq<char>, max: nat)
    requires
        s.len() > 0,
        forall|i: int| 0 <= i < s.len() ==> '0' <= #[trigger] s[i] <= '9',
    ensures
        digits_value(s) <= max ==> number_in(s, max) == Some(digits_value(s)),
        digits_value(s) > max ==> number_in(s, max) is None,
        number_in(seq!['+'] + s, max) == number_in(s, max),
{
    assert('0' <= s[0] <= '9');
    assert(without_plus(s) == s);
    assert(without_plus(seq!['+'] + s) =~= s);
    assert(all_digits(s));
}

/// Nothing else spells a number: not the empty text, and no text with a
/// character that is no digit, save a plus sign before a digit.
pub proof fn law_other_characters_spell_nothing(s: Seq<char>, i: int, max: nat)
    requires
        s.len() == 0 || (0 <= i < s.len() && !('0' <= s[i] <= '9') && !(i == 0 && s[0] == '+'
            && s.len() > 1)),
    ensures
        number_in(s, max) is None,
{
    if s.len() > 0 {
        let digits = without_plus(s);
        if s.len() > 1 && s[0] == '+' {
            assert(digits[i - 1] == s[i]);
            assert(!crate::text::is_digit(digits[i - 1]));
        } else {
            assert(!crate::text::is_digit(digits[i]));
        }
    }
}

/// Two texts are the same but for case if and only if they are equally long and
/// at every position hold the same character or the two cases of one ASCII
/// letter.
pub proof fn law_case_is_ignored_of_ascii_letters_only(a: Seq<char>, b: Seq<char>)
    ensures
        same_ignoring_ascii_case(a, b) <==> a.len() == b.len() && forall|i: int|
            0 <= i < a.len() ==> {
                ||| #[trigger] a[i] == b[i]
                ||| 'A' <= a[i] <= 'Z' && b[i] as int - a[i] as int == 32
                ||| 'A' <= b[i] <= 'Z' && a[i] as int - b[i] as int == 32
            },
{
    let x = a.map_values(|c: char| ascii_lower(c));
    let y = b.map_values(|c: char| ascii_lower(c));
    if same_ignoring_ascii_case(a, b) {
        assert(x.len() == y.len());
        assert forall|i: int| 0 <= i < a.len() implies ({
            ||| #[trigger] a[i] == b[i]
            ||| 'A' <= a[i] <= 'Z' && b[i] as int - a[i] as int == 32
            ||| 'A' <= b[i] <= 'Z' && a[i] as int - b[i] as int == 32
        }) by {
            assert(x[i] == y[i]);
        }
    }
    if a.len() == b.len() && forall|i: int|
        0 <= i < a.len() ==> {
            ||| #[trigger] a[i] == b[i]
            ||| 'A' <= a[i] <= 'Z' && b[i] as int - a[i] as int == 32
            ||| 'A' <= b[i] <= 'Z' && a[i] as int - b[i] as int == 32
        } {
        assert forall|i: int| 0 <= i < x.len() implies x[i] == y[i] by {
            assert(a[i] == a[i]);
        }
        assert(x =~= y);
    }
}

/// What is left without a prefix is what followed it, and a text without the
/// prefix gives nothing.
pub proof fn law_prefixes_come_off(s: Seq<char>, prefix: Seq<char>, rest: Seq<char>)
    ensures
        strip_prefix(prefix + rest, prefix) == Some(rest),
        strip_prefix(s, prefix) matches Some(t) ==> s == prefix + t,
{
    assert(prefix.is_prefix_of(prefix + rest));
    assert((prefix + rest).skip(prefix.len() as int) =~= rest);
    if strip_prefix(s, prefix) is Some {
        assert(s =~= prefix + s.skip(prefix.len() as int));
    }
}

/// What is left without a suffix is what stood before it, and a text without the
/// suffix gives nothing.
pub proof fn law_suffixes_come_off(s: Seq<char>, suffix: Seq<char>, rest: Seq<char>)
    ensures
        strip_suffix(rest + suffix, suffix) == Some(rest),
        strip_suffix(s, suffix) matches Some(t) ==> s == t + suffix,
{
    assert(suffix.is_suffix_of(rest + suffix)) by {
        assert((rest + suffix).subrange(rest.len() as int, (rest + suffix).len() as int)
            =~= suffix);
    }
    assert((rest + suffix).take((rest + suffix).len() - suffix.len()) =~= rest);
    if strip_suffix(s, suffix) is Some {
        assert(s =~= s.take(s.len() - suffix.len()) + suffix);
    }
}

/// The ASCII letters and digits are the code points 48 to 57, 65 to 90 and 97 to
/// 122.
pub proof fn law_ascii_alphanumerics_by_code(c: char)
    ensures
        is_ascii_alphanumeric(c) <==> {
            ||| 48 <= c as u32 <= 57
            ||| 65 <= c as u32 <= 90
            ||| 97 <= c as u32 <= 122
        },
{
}

/// A list of texts holds the text of each string, in order.
pub proof fn law_texts_by_position(list: Seq<String>)
    ensures
        texts(list).len() == list.len(),
        forall|i: int| 0 <= i < list.len() ==> #[trigger] texts(list)[i] == list[i]@,
{
}

/// A byte in hexadecimal is two digits, each of which stands in the row of
/// digits at the place that half of the byte counts, the higher half first.
pub proof fn law_hex_digits_by_halves(bytes: Seq<u8>, k: int)
    requires
        0 <= k < bytes.len(),
    ensures
        hex_text(bytes, 'a').len() == 2 * bytes.len(),
        hex_text(bytes, 'A').len() == 2 * bytes.len(),
        hex_text(bytes, 'a')[2 * k] == "0123456789abcdef"@[bytes[k] as int / 16],
        hex_text(bytes, 'a')[2 * k + 1] == "0123456789abcdef"@[bytes[k] as int % 16],
        hex_text(bytes, 'A')[2 * k] == "0123456789ABCDEF"@[bytes[k] as int / 16],
        hex_text(bytes, 'A')[2 * k + 1] == "0123456789ABCDEF"@[bytes[k] as int % 16],
{
    reveal_strlit("0123456789abcdef");
    reveal_strlit("0123456789ABCDEF");
    let high = bytes[k] as int / 16;
    let low = bytes[k] as int % 16;
    assert((2 * k) / 2 == k && (2 * k + 1) / 2 == k);
    assert(0 <= high < 16 && 0 <= low < 16);
}

} // verus!
