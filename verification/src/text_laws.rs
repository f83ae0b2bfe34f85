//! What the text helpers do, said of the characters that go in and come out.

use crate::text::{
    all_digits, blank, byte_value, decimal, digit_value, hex_pair, hex_value, lemma_decimal,
    lemma_first_word, lower, lowered, number, occurs, occurs_at, right_aligned, signed, trimmed,
    trimmed_end, trimmed_start, with_sign, words,
};
use crate::paths::path_in;
use vstd::prelude::*;

verus! {

/// The capital letters of ASCII become the small ones at the same place of the
/// alphabet; every other character stays as it is.
pub proof fn law_lower_case_goes_by_the_alphabet(i: int, c: char)
    ensures
        "ABCDEFGHIJKLMNOPQRSTUVWXYZ"@.len() == 26,
        0 <= i < 26 ==> lower("ABCDEFGHIJKLMNOPQRSTUVWXYZ"@[i])
            == "abcdefghijklmnopqrstuvwxyz"@[i],
        !"ABCDEFGHIJKLMNOPQRSTUVWXYZ"@.contains(c) ==> lower(c) == c,
{
    reveal_strlit("ABCDEFGHIJKLMNOPQRSTUVWXYZ");
    reveal_strlit("abcdefghijklmnopqrstuvwxyz");
    if 'A' <= c && c <= 'Z' {
        assert("ABCDEFGHIJKLMNOPQRSTUVWXYZ"@[(c as u32) - 65] == c);
    }
}

/// The case of a text is changed character by character.
pub proof fn law_lower_case_keeps_the_places(a: Seq<char>, b: Seq<char>)
    ensures
        lowered(a).len() == a.len(),
        lowered(a + b) == lowered(a) + lowered(b),
        lowered(lowered(a)) == lowered(a),
{
    assert(lowered(a + b) =~= lowered(a) + lowered(b));
    assert(lowered(lowered(a)) =~= lowered(a));
}

/// A text is found wherever it stands, and only where it does.
pub proof fn law_text_is_found_where_it_stands(
    front: Seq<char>,
    needle: Seq<char>,
    back: Seq<char>,
    hay: Seq<char>,
)
    ensures
        occurs(front + needle + back, needle),
        occurs(hay, needle) ==> exists|a: Seq<char>, b: Seq<char>| hay == #[trigger] (a + needle + b),
        hay.len() < needle.len() ==> !occurs(hay, needle),
{
    let all = front + needle + back;
    let at = front.len() as int;
    assert(all.subrange(at, at + needle.len()) =~= needle);
    assert(occurs_at(all, needle, at));
    if occurs(hay, needle) {
        let i = choose|i: int| occurs_at(hay, needle, i);
        let a = hay.take(i);
        let b = hay.skip(i + needle.len());
        assert(hay =~= a + needle + b) by {
            assert forall|k: int| 0 <= k < hay.len() implies hay[k] == (a + needle + b)[k] by {
                if i <= k < i + needle.len() {
                    assert(hay.subrange(i, i + needle.len())[k - i] == hay[k]);
                }
            }
        }
    }
}

/// The white space of Unicode.
pub proof fn law_white_space(c: char)
    ensures
        blank(c) <==> c == '\t' || c == '\n' || c == '\u{b}' || c == '\u{c}' || c == '\r' || c
            == ' ' || c == '\u{85}' || c == '\u{a0}' || c == '\u{1680}' || c == '\u{2000}' || c
            == '\u{2001}' || c == '\u{2002}' || c == '\u{2003}' || c == '\u{2004}' || c
            == '\u{2005}' || c == '\u{2006}' || c == '\u{2007}' || c == '\u{2008}' || c
            == '\u{2009}' || c == '\u{200a}' || c == '\u{2028}' || c == '\u{2029}' || c
            == '\u{202f}' || c == '\u{205f}' || c == '\u{3000}',
{
}

/// The text is white space.
pub open spec fn all_blank(s: Seq<char>) -> bool {
    forall|i: int| 0 <= i < s.len() ==> blank(#[trigger] s[i])
}

/// Trimming takes nothing but white space off the two ends, and leaves none there.
pub proof fn law_trimming_takes_off_the_white_space(front: Seq<char>, s: Seq<char>, back: Seq<char>)
    requires
        all_blank(front),
        all_blank(back),
        s.len() > 0 ==> !blank(s[0]) && !blank(s.last()),
    ensures
        trimmed(front + s + back) == s,
{
    lemma_trimmed_start(front, s + back);
    assert(front + s + back =~= front + (s + back));
    if s.len() == 0 {
        assert(s + back =~= back);
        lemma_all_blank_start(back);
        assert(trimmed_end(Seq::<char>::empty()) =~= Seq::<char>::empty());
        assert(trimmed(front + s + back) =~= s);
    } else {
        assert((s + back)[0] == s[0]);
        lemma_trimmed_end(s, back);
    }
}

proof fn lemma_all_blank_start(s: Seq<char>)
    requires
        all_blank(s),
    ensures
        trimmed_start(s) == Seq::<char>::empty(),
    decreases s.len(),
{
    if s.len() > 0 {
        assert(forall|i: int| 0 <= i < s.drop_first().len() ==> s.drop_first()[i] == s[i + 1]);
        lemma_all_blank_start(s.drop_first());
    } else {
        assert(s =~= Seq::<char>::empty());
    }
}

proof fn lemma_trimmed_start(front: Seq<char>, s: Seq<char>)
    requires
        all_blank(front),
    ensures
        trimmed_start(front + s) == trimmed_start(s),
    decreases front.len(),
{
    if front.len() == 0 {
        assert(front + s =~= s);
    } else {
        assert((front + s)[0] == front[0]);
        assert((front + s).drop_first() =~= front.drop_first() + s);
        assert(forall|i: int|
            0 <= i < front.drop_first().len() ==> front.drop_first()[i] == front[i + 1]);
        lemma_trimmed_start(front.drop_first(), s);
    }
}

proof fn lemma_trimmed_end(s: Seq<char>, back: Seq<char>)
    requires
        all_blank(back),
        s.len() > 0 && !blank(s.last()),
    ensures
        trimmed_end(s + back) == s,
    decreases back.len(),
{
    if back.len() == 0 {
        assert(s + back =~= s);
    } else {
        assert((s + back).last() == back.last());
        assert((s + back).drop_last() =~= s + back.drop_last());
        assert(forall|i: int|
            0 <= i < back.drop_last().len() ==> back.drop_last()[i] == back[i]);
        lemma_trimmed_end(s, back.drop_last());
    }
}

/// The text is a word: not empty, and without white space.
pub open spec fn is_word(s: Seq<char>) -> bool {
    &&& s.len() > 0
    &&& forall|i: int| 0 <= i < s.len() ==> !blank(#[trigger] s[i])
}

/// The texts one after another, each with its own white space in front.
pub open spec fn spaced(parts: Seq<(Seq<char>, Seq<char>)>) -> Seq<char>
    decreases parts.len(),
{
    if parts.len() == 0 {
        Seq::empty()
    } else {
        parts[0].0 + parts[0].1 + spaced(parts.drop_first())
    }
}

/// Words that stand apart by white space are told apart, however much of it there
/// is between them, in front of them and behind them.
pub proof fn law_words_are_told_apart(parts: Seq<(Seq<char>, Seq<char>)>, back: Seq<char>)
    requires
        all_blank(back),
        forall|i: int|
            0 <= i < parts.len() ==> {
                &&& all_blank((#[trigger] parts[i]).0)
                &&& is_word(parts[i].1)
                &&& i > 0 ==> parts[i].0.len() > 0
            },
    ensures
        words(spaced(parts) + back) == parts.map_values(|part: (Seq<char>, Seq<char>)| part.1),
    decreases parts.len(),
{
    if parts.len() == 0 {
        assert(spaced(parts) + back =~= back);
        lemma_no_words(back);
        assert(words(back) =~= parts.map_values(|part: (Seq<char>, Seq<char>)| part.1));
    } else {
        let rest = parts.drop_first();
        let tail = spaced(rest) + back;
        let (front, word) = parts[0];
        assert(spaced(parts) + back =~= front + (word + tail));
        lemma_leading_space(front, word + tail);
        assert(forall|i: int| 0 <= i < rest.len() ==> rest[i] == parts[i + 1]);
        law_words_are_told_apart(rest, back);
        if tail.len() == 0 {
            assert(word + tail =~= word);
            lemma_one_word(word);
            assert(words(tail) =~= Seq::<Seq<char>>::empty());
        } else {
            if rest.len() > 0 {
                assert(rest[0] == parts[1]);
                assert(tail[0] == rest[0].0[0]);
            } else {
                assert(tail =~= back);
            }
            lemma_first_word(word, tail);
        }
        assert(words(word + tail) =~= seq![word] + words(tail));
        assert(parts.map_values(|part: (Seq<char>, Seq<char>)| part.1) =~= seq![word]
            + rest.map_values(|part: (Seq<char>, Seq<char>)| part.1));
    }
}

proof fn lemma_no_words(s: Seq<char>)
    requires
        all_blank(s),
    ensures
        words(s) == Seq::<Seq<char>>::empty(),
    decreases s.len(),
{
    if s.len() > 0 {
        assert(forall|i: int| 0 <= i < s.drop_first().len() ==> s.drop_first()[i] == s[i + 1]);
        lemma_no_words(s.drop_first());
    }
}

proof fn lemma_leading_space(front: Seq<char>, s: Seq<char>)
    requires
        all_blank(front),
    ensures
        words(front + s) == words(s),
    decreases front.len(),
{
    if front.len() == 0 {
        assert(front + s =~= s);
    } else {
        assert((front + s)[0] == front[0]);
        assert((front + s).drop_first() =~= front.drop_first() + s);
        assert(forall|i: int|
            0 <= i < front.drop_first().len() ==> front.drop_first()[i] == front[i + 1]);
        lemma_leading_space(front.drop_first(), s);
    }
}

proof fn lemma_one_word(word: Seq<char>)
    requires
        is_word(word),
    ensures
        words(word) == seq![word],
{
    lemma_whole_length(word);
    assert(word.take(word.len() as int) =~= word);
    assert(word.skip(word.len() as int) =~= Seq::<char>::empty());
    assert(words(Seq::<char>::empty()) =~= Seq::<Seq<char>>::empty());
    assert(words(word) =~= seq![word]);
}

proof fn lemma_whole_length(s: Seq<char>)
    requires
        forall|i: int| 0 <= i < s.len() ==> !blank(#[trigger] s[i]),
    ensures
        crate::text::word_length(s) == s.len(),
    decreases s.len(),
{
    if s.len() > 0 {
        assert(forall|i: int| 0 <= i < s.drop_first().len() ==> s.drop_first()[i] == s[i + 1]);
        lemma_whole_length(s.drop_first());
    }
}

/// The ten digits, by their places.
pub proof fn law_digits_have_their_value(d: int, c: char)
    ensures
        "0123456789"@.len() == 10,
        0 <= d < 10 ==> digit_value("0123456789"@[d]) == Some(d as nat),
        0 <= d < 10 ==> decimal(d as nat) == seq!["0123456789"@[d]],
        !"0123456789"@.contains(c) ==> digit_value(c) is None,
{
    reveal_strlit("0123456789");
    if digit_value(c) is Some {
        assert("0123456789"@[(c as u32) - 48] == c);
    }
}

/// A number in decimal consists of digits that stand for it, the first of which is
/// no zero unless the number is.
pub proof fn law_decimal_numbers_stand_for_themselves(n: nat)
    ensures
        all_digits(decimal(n)),
        number(decimal(n)) == n,
        decimal(n).len() > 0,
        n > 0 ==> decimal(n)[0] != '0',
    decreases n,
{
    lemma_decimal(n);
    if n >= 10 {
        law_decimal_numbers_stand_for_themselves(n / 10);
        assert(decimal(n)[0] == decimal(n / 10)[0]);
    }
}

/// The last digit counts once, and what stands in front of it ten times.
pub proof fn law_digits_count_by_their_place(s: Seq<char>, d: int)
    requires
        0 <= d < 10,
    ensures
        number(s.push("0123456789"@[d])) == 10 * number(s) + d,
        number(Seq::<char>::empty()) == 0,
{
    law_digits_have_their_value(d, '0');
    let longer = s.push("0123456789"@[d]);
    assert(longer.drop_last() =~= s);
}

/// A signed number is a sign and the digits of its magnitude. The plus sign is
/// written only where a sign is wanted in every case.
pub proof fn law_signs_are_those_of_the_number(n: int)
    ensures
        n < 0 ==> signed(n) == seq!['-'] + decimal((-n) as nat) && with_sign(n) == signed(n),
        n >= 0 ==> signed(n) == decimal(n as nat) && with_sign(n) == seq!['+'] + signed(n),
        number(with_sign(n).skip(1)) == (if n < 0 {
            -n
        } else {
            n
        }),
{
    let magnitude = (if n < 0 {
        -n
    } else {
        n
    }) as nat;
    lemma_decimal(magnitude);
    assert(with_sign(n).skip(1) =~= decimal(magnitude));
}

/// An aligned text ends with the text, has nothing but spaces in front of it, and
/// is as wide as asked for unless the text is wider.
pub proof fn law_aligned_texts_end_with_the_text(s: Seq<char>, width: nat, i: int)
    ensures
        ({
            let aligned = right_aligned(s, width);
            &&& aligned.len() == (if s.len() > width {
                s.len()
            } else {
                width
            })
            &&& aligned.skip(aligned.len() - s.len()) == s
            &&& 0 <= i < aligned.len() - s.len() ==> aligned[i] == ' '
        }),
{
    let aligned = right_aligned(s, width);
    assert(aligned.skip(aligned.len() - s.len()) =~= s);
}

/// A byte is written with two of the sixteen digits, the higher one first. The
/// digits are read in either case, and nothing else is one.
pub proof fn law_hexadecimal_digits(byte: u8, d: int, c: char)
    ensures
        hex_pair(byte) == seq![
            "0123456789ABCDEF"@[byte as int / 16],
            "0123456789ABCDEF"@[byte as int % 16],
        ],
        0 <= d < 16 ==> hex_value("0123456789ABCDEF"@[d]) == Some(d as nat),
        0 <= d < 16 ==> hex_value("0123456789abcdef"@[d]) == Some(d as nat),
        hex_value(c) is Some ==> "0123456789ABCDEF"@.contains(c) || "0123456789abcdef"@.contains(c),
{
    reveal_strlit("0123456789ABCDEF");
    reveal_strlit("0123456789abcdef");
    assert(hex_pair(byte)[0] == "0123456789ABCDEF"@[byte as int / 16]);
    assert(hex_pair(byte)[1] == "0123456789ABCDEF"@[byte as int % 16]);
    assert(hex_pair(byte) =~= seq![
        "0123456789ABCDEF"@[byte as int / 16],
        "0123456789ABCDEF"@[byte as int % 16],
    ]);
    if let Some(value) = hex_value(c) {
        assert("0123456789ABCDEF"@[value as int] == c || "0123456789abcdef"@[value as int] == c);
    }
}

/// A number is read as a byte exactly if it fits; a plus sign in front of it makes
/// no difference. A minus sign, another character or no digit at all makes it no
/// byte.
pub proof fn law_bytes_are_read_from_decimal_numbers(n: nat, s: Seq<char>, i: int)
    ensures
        byte_value(decimal(n)) == (if n < 256 {
            Some(n as u8)
        } else {
            None
        }),
        byte_value(seq!['+'] + decimal(n)) == byte_value(decimal(n)),
        byte_value(Seq::<char>::empty()) is None,
        byte_value(seq!['+']) is None,
        0 <= i < s.len() && !"0123456789"@.contains(s[i]) && !(i == 0 && s[i] == '+')
            ==> byte_value(s) is None,
{
    lemma_decimal(n);
    let digits = decimal(n);
    assert(digit_value(digits[0]) is Some);
    assert((seq!['+'] + digits).skip(1) =~= digits);
    assert(seq!['+'].skip(1) =~= Seq::<char>::empty());
    if 0 <= i < s.len() && !"0123456789"@.contains(s[i]) && !(i == 0 && s[i] == '+') {
        law_digits_have_their_value(0, s[i]);
        if s[0] == '+' {
            assert(s.skip(1)[i - 1] == s[i]);
        }
    }
}

/// A path in a directory begins with the directory and ends with the path, with one
/// separator between the two. An absolute path stands for itself, and so does a
/// path in no directory.
pub proof fn law_paths_are_joined_by_one_separator(base: Seq<u8>, part: Seq<u8>)
    ensures
        part.len() > 0 && part[0] == '/' as u8 ==> path_in(base, part) == part,
        base.len() == 0 ==> path_in(base, part) == part,
        base.len() > 0 && base.last() != '/' as u8 && (part.len() == 0 || part[0] != '/' as u8)
            ==> path_in(base, part) == base + seq!['/' as u8] + part && path_in(
            base.push('/' as u8),
            part,
        ) == path_in(base, part),
{
    assert('/' as u8 == 0x2f);
    if base.len() == 0 {
        assert(base + part =~= part);
    }
    assert(base.push(0x2f) + part =~= base + seq![0x2fu8] + part);
}

} // verus!
