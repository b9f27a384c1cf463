//! What trimming, splitting and spelling do, said of the characters of a text.

use vstd::prelude::*;
use crate::color::{parse_rgb_spec, rgb_body, rgb_digit, Rgb};
use crate::text::{
    ascii_lower, ascii_lowercase, decimal, decimal_digit, hex_byte, hex_char, hex_value, hex_word,
    strip_leading, trim, trim_end, trim_start, two_digits, white_space, words, words_from,
};

verus! {

/// Whether a text is white space only.
pub open spec fn blank(s: Seq<char>) -> bool {
    forall|i: int| 0 <= i < s.len() ==> white_space(#[trigger] s[i])
}

/// White space is the tab, the line ends, the blank and the wide blanks; no letter,
/// digit or sign of ASCII is.
pub proof fn law_letters_are_no_white_space(c: char)
    ensures
        '!' <= c <= '~' ==> !white_space(c),
        c == ' ' || c == '\t' || c == '\n' || c == '\r' || c == '\u{a0}' || c == '\u{2003}' || c
            == '\u{3000}' ==> white_space(c),
        c == '\u{200b}' || c == '\u{8}' || c == '\u{e}' || c == '\u{feff}' ==> !white_space(c),
{
}

proof fn lemma_trim_start(lead: Seq<char>, s: Seq<char>)
    requires
        blank(lead),
    ensures
        trim_start(lead + s) == trim_start(s),
    decreases lead.len(),
{
    if lead.len() > 0 {
        let rest = lead.skip(1);
        assert forall|i: int| 0 <= i < rest.len() implies white_space(#[trigger] rest[i]) by {
            assert(rest[i] == lead[i + 1]);
        }
        lemma_trim_start(rest, s);
        assert((lead + s)[0] == lead[0]);
        assert((lead + s).skip(1) =~= rest + s);
    } else {
        assert(lead + s =~= s);
    }
}

proof fn lemma_trim_end(s: Seq<char>, tail: Seq<char>)
    requires
        blank(tail),
    ensures
        trim_end(s + tail) == trim_end(s),
    decreases tail.len(),
{
    if tail.len() > 0 {
        let rest = tail.drop_last();
        assert forall|i: int| 0 <= i < rest.len() implies white_space(#[trigger] rest[i]) by {
            assert(rest[i] == tail[i]);
        }
        lemma_trim_end(s, rest);
        assert((s + tail).last() == tail.last());
        assert((s + tail).drop_last() =~= s + rest);
    } else {
        assert(s + tail =~= s);
    }
}

/// Trimming takes white space away around a text that neither starts nor ends with
/// it, all of it, and nothing else.
pub proof fn law_trimming_takes_the_white_space_around(
    lead: Seq<char>,
    s: Seq<char>,
    tail: Seq<char>,
)
    requires
        blank(lead),
        blank(tail),
        s.len() > 0 ==> !white_space(s[0]) && !white_space(s.last()),
    ensures
        trim(lead + s + tail) == s,
{
    assert(lead + s + tail =~= lead + (s + tail));
    lemma_trim_start(lead, s + tail);
    if s.len() > 0 {
        assert((s + tail)[0] == s[0]);
        lemma_trim_end(s, tail);
    } else {
        assert(s + tail =~= tail + Seq::<char>::empty());
        lemma_trim_start(tail, Seq::empty());
    }
}

/// Every text is what trimming leaves of it, with white space around.
pub proof fn law_trimming_leaves_the_middle(s: Seq<char>)
    ensures
        trim(s).len() > 0 ==> !white_space(trim(s)[0]) && !white_space(trim(s).last()),
        exists|a: int, b: int|
            0 <= a <= b <= s.len() && trim(s) == #[trigger] s.subrange(a, b) && blank(
                s.subrange(0, a),
            ) && blank(s.subrange(b, s.len() as int)),
{
    lemma_start_is_a_suffix(s);
    let a = choose|a: int|
        0 <= a <= s.len() && trim_start(s) == #[trigger] s.skip(a) && blank(s.subrange(0, a));
    let middle = trim_start(s);
    lemma_end_is_a_prefix(middle);
    let n = choose|n: int|
        0 <= n <= middle.len() && trim_end(middle) == #[trigger] middle.take(n) && blank(
            middle.skip(n),
        );
    let b = a + n;
    assert(trim(s) =~= s.subrange(a, b));
    assert(s.subrange(b, s.len() as int) =~= middle.skip(n));
    if trim(s).len() > 0 {
        assert(trim(s)[0] == middle[0]);
    }
}

proof fn lemma_start_is_a_suffix(s: Seq<char>)
    ensures
        exists|a: int|
            0 <= a <= s.len() && trim_start(s) == #[trigger] s.skip(a) && blank(s.subrange(0, a)),
        trim_start(s).len() > 0 ==> !white_space(trim_start(s)[0]),
    decreases s.len(),
{
    if s.len() > 0 && white_space(s[0]) {
        let rest = s.skip(1);
        lemma_start_is_a_suffix(rest);
        let a = choose|a: int|
            0 <= a <= rest.len() && trim_start(rest) == #[trigger] rest.skip(a) && blank(
                rest.subrange(0, a),
            );
        assert(s.skip(a + 1) =~= rest.skip(a));
        assert forall|i: int| 0 <= i < s.subrange(0, a + 1).len() implies white_space(
            #[trigger] s.subrange(0, a + 1)[i],
        ) by {
            if i > 0 {
                assert(rest.subrange(0, a)[i - 1] == s[i]);
            }
        }
    } else {
        assert(s.skip(0) =~= s);
        assert(s.subrange(0, 0).len() == 0);
    }
}

proof fn lemma_end_is_a_prefix(s: Seq<char>)
    ensures
        exists|n: int|
            0 <= n <= s.len() && trim_end(s) == #[trigger] s.take(n) && blank(s.skip(n)),
        trim_end(s).len() > 0 ==> !white_space(trim_end(s).last()),
    decreases s.len(),
{
    if s.len() > 0 && white_space(s.last()) {
        let rest = s.drop_last();
        lemma_end_is_a_prefix(rest);
        let n = choose|n: int|
            0 <= n <= rest.len() && trim_end(rest) == #[trigger] rest.take(n) && blank(
                rest.skip(n),
            );
        assert(s.take(n) =~= rest.take(n));
        assert forall|i: int| 0 <= i < s.skip(n).len() implies white_space(
            #[trigger] s.skip(n)[i],
        ) by {
            if i < rest.len() - n {
                assert(rest.skip(n)[i] == s[n + i]);
            }
        }
    } else {
        assert(s.take(s.len() as int) =~= s);
        assert(s.skip(s.len() as int).len() == 0);
    }
}

/// Stripping a sign takes the whole run of it in front, and nothing else.
pub proof fn law_stripping_takes_the_leading_run(run: Seq<char>, s: Seq<char>, c: char)
    requires
        forall|i: int| 0 <= i < run.len() ==> #[trigger] run[i] == c,
        s.len() > 0 ==> s[0] != c,
    ensures
        strip_leading(run + s, c) == s,
    decreases run.len(),
{
    if run.len() > 0 {
        let rest = run.skip(1);
        assert forall|i: int| 0 <= i < rest.len() implies #[trigger] rest[i] == c by {
            assert(rest[i] == run[i + 1]);
        }
        law_stripping_takes_the_leading_run(rest, s, c);
        assert((run + s)[0] == run[0]);
        assert((run + s).skip(1) =~= rest + s);
    } else {
        assert(run + s =~= s);
    }
}

/// A hexadecimal digit is worth what it spells, small or capital; every digit that
/// is written is a small one, and nothing else is worth anything.
pub proof fn law_hexadecimal_digits_read_back(d: int, c: char)
    requires
        0 <= d < 16,
    ensures
        hex_value(hex_char(d)) == Some(d as u8),
        d >= 10 ==> hex_value((hex_char(d) as int - 32) as char) == Some(d as u8),
        ('0' <= hex_char(d) <= '9') || ('a' <= hex_char(d) <= 'f'),
        hex_value(c) is Some ==> ('0' <= c <= '9') || ('a' <= c <= 'f') || ('A' <= c <= 'F'),
        hex_value(c) matches Some(v) ==> v < 16,
{
}

/// The number that hexadecimal digits spell.
pub open spec fn hex_number(s: Seq<char>) -> int
    decreases s.len(),
{
    if s.len() == 0 {
        0
    } else {
        hex_number(s.drop_last()) * 16 + (hex_value(s.last())->0 as int)
    }
}

/// A number in the base sixteen reads back: with four digits, or without a zero in
/// front.
pub proof fn law_hexadecimal_numbers_read_back(n: u16, b: u8)
    ensures
        hex_word(n).len() == 4,
        hex_number(hex_word(n)) == n,
        hex_number(hex_byte(b)) == b,
        1 <= hex_byte(b).len() <= 2,
        b >= 16 ==> hex_byte(b).len() == 2 && hex_byte(b)[0] != '0',
{
    reveal_with_fuel(hex_number, 5);
    let w = hex_word(n);
    assert(w.drop_last().drop_last().drop_last().drop_last() =~= Seq::<char>::empty());
    assert(w.drop_last().drop_last().drop_last().last() == hex_char(n as int / 4096));
    assert(w.drop_last().drop_last().last() == hex_char(n as int / 256 % 16));
    assert(w.drop_last().last() == hex_char(n as int / 16 % 16));
    assert(w.last() == hex_char(n as int % 16));
    law_hexadecimal_digits_read_back(n as int / 4096, '0');
    law_hexadecimal_digits_read_back(n as int / 256 % 16, '0');
    law_hexadecimal_digits_read_back(n as int / 16 % 16, '0');
    law_hexadecimal_digits_read_back(n as int % 16, '0');
    let v = hex_byte(b);
    law_hexadecimal_digits_read_back(b as int % 16, '0');
    law_hexadecimal_digits_read_back(b as int / 16, '0');
    if b < 16 {
        assert(v.drop_last() =~= Seq::<char>::empty());
        assert(v.last() == hex_char(b as int));
    } else {
        assert(v.drop_last().drop_last() =~= Seq::<char>::empty());
        assert(v.drop_last().last() == hex_char(b as int / 16));
        assert(v.last() == hex_char(b as int % 16));
    }
}

/// The number that decimal digits spell.
pub open spec fn decimal_number(s: Seq<char>) -> int
    decreases s.len(),
{
    if s.len() == 0 {
        0
    } else {
        decimal_number(s.drop_last()) * 10 + (s.last() as int - '0' as int)
    }
}

/// A number in decimal is digits only, reads back, and has no zero in front except
/// that zero is one.
pub proof fn law_decimal_numbers_read_back(n: nat)
    ensures
        decimal(n).len() > 0,
        forall|i: int| 0 <= i < decimal(n).len() ==> '0' <= #[trigger] decimal(n)[i] <= '9',
        decimal_number(decimal(n)) == n,
        n > 0 ==> decimal(n)[0] != '0',
        n == 0 ==> decimal(n) == seq!['0'],
    decreases n,
{
    if n < 10 {
        assert(decimal(n) == seq![decimal_digit(n)]);
        assert(decimal(n).drop_last() =~= Seq::<char>::empty());
        assert(decimal(n).last() == decimal_digit(n));
        assert(decimal_number(decimal(n).drop_last()) == 0);
    } else {
        law_decimal_numbers_read_back(n / 10);
        let front = decimal(n / 10);
        assert(decimal(n).drop_last() =~= front);
        assert(decimal(n).last() == decimal_digit(n % 10));
        assert(decimal(n)[0] == front[0]);
        assert forall|i: int| 0 <= i < decimal(n).len() implies '0' <= #[trigger] decimal(n)[i]
            <= '9' by {
            if i < front.len() {
                assert(decimal(n)[i] == front[i]);
            }
        }
    }
}

/// A number with at least two digits reads back, and is padded with one zero where
/// it needs it.
pub proof fn law_padded_numbers_read_back(n: nat)
    ensures
        decimal_number(two_digits(n)) == n,
        two_digits(n).len() >= 2,
        n < 10 ==> two_digits(n).len() == 2 && two_digits(n)[0] == '0',
        n >= 10 ==> two_digits(n) == decimal(n),
{
    law_decimal_numbers_read_back(n);
    if n < 10 {
        reveal_with_fuel(decimal_number, 3);
        let text = two_digits(n);
        assert(text.drop_last().drop_last() =~= Seq::<char>::empty());
        assert(text.drop_last().last() == '0');
        assert(text.last() == decimal_digit(n));
    } else {
        law_decimal_numbers_read_back(n / 10);
    }
}

/// Making ASCII small changes the capitals alone, each to its small letter, and
/// does so once.
pub proof fn law_ascii_capitals_become_small(s: Seq<char>, i: int)
    requires
        0 <= i < s.len(),
    ensures
        ascii_lowercase(s).len() == s.len(),
        s[i] == 'A' ==> ascii_lowercase(s)[i] == 'a',
        s[i] == 'Z' ==> ascii_lowercase(s)[i] == 'z',
        'A' <= s[i] <= 'Z' ==> ascii_lowercase(s)[i] as int - 'a' as int == s[i] as int - 'A' as int,
        !('A' <= s[i] <= 'Z') ==> ascii_lowercase(s)[i] == s[i],
        ascii_lowercase(ascii_lowercase(s)) == ascii_lowercase(s),
{
    let small = ascii_lowercase(s);
    assert forall|k: int| 0 <= k < s.len() implies ascii_lower(#[trigger] small[k]) == small[k] by {}
    assert(ascii_lowercase(small) =~= small);
}

proof fn lemma_words_from(word: Seq<char>, front: Seq<char>, c: char, back: Seq<char>)
    requires
        white_space(c),
    ensures
        words_from(word, front.push(c) + back) == words_from(word, front) + words_from(
            Seq::empty(),
            back,
        ),
    decreases front.len(),
{
    let all = front.push(c) + back;
    if front.len() == 0 {
        assert(all[0] == c);
        assert(all.skip(1) =~= back);
    } else {
        let rest = front.skip(1);
        assert(all[0] == front[0]);
        assert(all.skip(1) =~= rest.push(c) + back);
        if white_space(front[0]) {
            lemma_words_from(Seq::empty(), rest, c, back);
            let ended = if word.len() == 0 {
                Seq::empty()
            } else {
                seq![word]
            };
            assert(ended + (words_from(Seq::empty(), rest) + words_from(Seq::empty(), back)) =~= (
            ended + words_from(Seq::empty(), rest)) + words_from(Seq::empty(), back));
        } else {
            lemma_words_from(word.push(front[0]), rest, c, back);
        }
    }
}

proof fn lemma_one_word(word: Seq<char>, rest: Seq<char>)
    requires
        forall|i: int| 0 <= i < rest.len() ==> !white_space(#[trigger] rest[i]),
        word.len() + rest.len() > 0,
    ensures
        words_from(word, rest) == seq![word + rest],
    decreases rest.len(),
{
    if rest.len() == 0 {
        assert(word + rest =~= word);
    } else {
        let tail = rest.skip(1);
        assert forall|i: int| 0 <= i < tail.len() implies !white_space(#[trigger] tail[i]) by {
            assert(tail[i] == rest[i + 1]);
        }
        lemma_one_word(word.push(rest[0]), tail);
        assert(word.push(rest[0]) + tail =~= word + rest);
    }
}

/// White space parts words: the words of two texts with white space between are
/// those of the first and then those of the second, a text without white space is
/// one word, and an empty text has none.
pub proof fn law_white_space_parts_words(front: Seq<char>, c: char, back: Seq<char>)
    requires
        white_space(c),
    ensures
        words(front.push(c) + back) == words(front) + words(back),
        back.len() > 0 && (forall|i: int| 0 <= i < back.len() ==> !white_space(#[trigger] back[i]))
            ==> words(back) == seq![back],
        back.len() == 0 ==> words(back).len() == 0,
{
    lemma_words_from(Seq::empty(), front, c, back);
    if back.len() > 0 && (forall|i: int|
        0 <= i < back.len() ==> !white_space(#[trigger] back[i])) {
        lemma_one_word(Seq::empty(), back);
        assert(Seq::<char>::empty() + back =~= back);
    }
}

/// A color spelled as six hexadecimal digits behind any number of `#` signs, with
/// any white space around, reads back: red first, then green, then blue.
pub proof fn law_a_spelled_color_reads_back(
    lead: Seq<char>,
    signs: Seq<char>,
    red: u8,
    green: u8,
    blue: u8,
    tail: Seq<char>,
)
    requires
        blank(lead),
        blank(tail),
        forall|i: int| 0 <= i < signs.len() ==> #[trigger] signs[i] == '#',
    ensures
        ({
            let digits = seq![
                hex_char(red as int / 16),
                hex_char(red as int % 16),
                hex_char(green as int / 16),
                hex_char(green as int % 16),
                hex_char(blue as int / 16),
                hex_char(blue as int % 16),
            ];
            parse_rgb_spec(lead + (signs + digits) + tail) == Some(Rgb::spec_new(red, green, blue))
        }),
{
    let digits = seq![
        hex_char(red as int / 16),
        hex_char(red as int % 16),
        hex_char(green as int / 16),
        hex_char(green as int % 16),
        hex_char(blue as int / 16),
        hex_char(blue as int % 16),
    ];
    let text = signs + digits;
    law_hexadecimal_digits_read_back(red as int / 16, '0');
    law_hexadecimal_digits_read_back(red as int % 16, '0');
    law_hexadecimal_digits_read_back(green as int / 16, '0');
    law_hexadecimal_digits_read_back(green as int % 16, '0');
    law_hexadecimal_digits_read_back(blue as int / 16, '0');
    law_hexadecimal_digits_read_back(blue as int % 16, '0');
    assert(text.last() == digits[5]);
    if signs.len() > 0 {
        assert(text[0] == signs[0]);
    } else {
        assert(text[0] == digits[0]);
    }
    law_trimming_takes_the_white_space_around(lead, text, tail);
    law_stripping_takes_the_leading_run(signs, digits, '#');
    let body = rgb_body(lead + text + tail);
    assert(body == digits);
    assert forall|i: int| 0 <= i < 6 implies (#[trigger] rgb_digit(body, i)) is Some by {
        assert(i == 0 || i == 1 || i == 2 || i == 3 || i == 4 || i == 5);
    }
    assert(rgb_digit(body, 0)->0 == red / 16 && rgb_digit(body, 1)->0 == red % 16);
    assert(rgb_digit(body, 2)->0 == green / 16 && rgb_digit(body, 3)->0 == green % 16);
    assert(rgb_digit(body, 4)->0 == blue / 16 && rgb_digit(body, 5)->0 == blue % 16);
}

/// A text that leaves another number of characters than six, or one that is no
/// hexadecimal digit (but for a plus in front), is no color.
pub proof fn law_other_texts_are_no_color(value: Seq<char>, i: int)
    ensures
        strip_leading(trim(value), '#').len() != 6 ==> parse_rgb_spec(value) is None,
        0 < i < strip_leading(trim(value), '#').len() && hex_value(
            strip_leading(trim(value), '#')[i],
        ) is None ==> parse_rgb_spec(value) is None,
        strip_leading(trim(value), '#').len() == 6 && strip_leading(trim(value), '#')[0] != '+'
            && hex_value(strip_leading(trim(value), '#')[0]) is None ==> parse_rgb_spec(value)
            is None,
{
    let body = rgb_body(value);
    if 0 < i < body.len() {
        assert(rgb_digit(body, i) == hex_value(body[i]));
    }
    assert(rgb_digit(body, 0) == rgb_digit(body, 0));
}

} // verus!
