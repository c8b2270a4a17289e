//! What the texts that are made and taken apart say: numbers, trimmed text, ids and paths.
use crate::path_text::{absolute, joined, segment_len, starts_with_name};
use crate::text::{decimal, signed_decimal, trimmed, trimmed_end, trimmed_start, white_space};
use crate::thread_id::{hex_digits, id_text, short_id_text, ThreadId};
use vstd::prelude::*;

verus! {

/// The number that a text of decimal digits is read as.
pub open spec fn read_decimal(text: Seq<char>) -> int
    decreases text.len(),
{
    if text.len() == 0 {
        0
    } else {
        read_decimal(text.drop_last()) * 10 + (text.last() as u32 - 48)
    }
}

/// The number that a text of decimal digits, with or without a `-` before them, is read as.
pub open spec fn read_signed(text: Seq<char>) -> int {
    if text.len() > 0 && text[0] == '-' {
        -read_decimal(text.skip(1))
    } else {
        read_decimal(text)
    }
}

/// Whether a text holds nothing but decimal digits, and at least one of them.
pub open spec fn all_digits(text: Seq<char>) -> bool {
    text.len() > 0 && forall|i: int| 0 <= i < text.len() ==> '0' <= #[trigger] text[i] <= '9'
}

/// A number is written so that it reads back as itself, with digits only, and without a zero
/// before it.
pub proof fn law_decimal_reads_back(n: nat)
    ensures
        read_decimal(decimal(n)) == n,
        all_digits(decimal(n)),
        decimal(n)[0] == '0' ==> n == 0 && decimal(n).len() == 1,
    decreases n,
{
    if n >= 10 {
        law_decimal_reads_back(n / 10);
        let head = decimal(n / 10);
        assert(decimal(n).drop_last() =~= head);
        assert(decimal(n)[0] == head[0]);
        assert forall|i: int| 0 <= i < decimal(n).len() implies '0' <= #[trigger] decimal(n)[i]
            <= '9' by {
            if i < head.len() {
                assert(decimal(n)[i] == head[i]);
            }
        }
    } else {
        assert(decimal(n).drop_last() =~= Seq::<char>::empty());
        assert(read_decimal(decimal(n).drop_last()) == 0);
    }
}

/// A number with a sign is written so that it reads back as itself: a negative one with a `-`
/// before the digits of its size, any other with its digits alone.
pub proof fn law_signed_decimal_reads_back(n: int)
    ensures
        read_signed(signed_decimal(n)) == n,
        n < 0 <==> signed_decimal(n)[0] == '-',
        n >= 0 ==> all_digits(signed_decimal(n)),
        n < 0 ==> all_digits(signed_decimal(n).skip(1)),
        signed_decimal(n).len() > 0,
        n > 0 ==> signed_decimal(n)[0] != '0',
        n < 0 ==> signed_decimal(n)[1] != '0',
        n == 0 ==> signed_decimal(n).len() == 1,
{
    if n < 0 {
        law_decimal_reads_back((-n) as nat);
        let digits = decimal((-n) as nat);
        assert(signed_decimal(n).skip(1) =~= digits);
        assert(signed_decimal(n)[1] == digits[0]);
    } else {
        law_decimal_reads_back(n as nat);
        assert('0' <= decimal(n as nat)[0]);
    }
}

/// White space is the blank, the tab, the ends of lines and pages, and the spaces of other scripts;
/// no letter, digit or mark is.
pub proof fn law_which_characters_are_white_space(c: char)
    ensures
        white_space(c) <==> c == ' ' || c == '\t' || c == '\n' || c == '\u{b}' || c == '\u{c}' || c
            == '\r' || c == '\u{85}' || c == '\u{a0}' || c == '\u{1680}' || c == '\u{2000}' || c
            == '\u{2001}' || c == '\u{2002}' || c == '\u{2003}' || c == '\u{2004}' || c == '\u{2005}'
            || c == '\u{2006}' || c == '\u{2007}' || c == '\u{2008}' || c == '\u{2009}' || c
            == '\u{200a}' || c == '\u{2028}' || c == '\u{2029}' || c == '\u{202f}' || c
            == '\u{205f}' || c == '\u{3000}',
{
}

/// Whether a text holds nothing but white space.
pub open spec fn blank(text: Seq<char>) -> bool {
    forall|i: int| 0 <= i < text.len() ==> white_space(#[trigger] text[i])
}

/// What is left of a text behind its leading white space is all of it, and starts with something
/// else.
pub proof fn law_trimming_the_start_drops_white_space_only(s: Seq<char>)
    ensures
        trimmed_start(s).len() <= s.len(),
        trimmed_start(s) == s.skip(s.len() - trimmed_start(s).len()),
        blank(s.take(s.len() - trimmed_start(s).len())),
        trimmed_start(s).len() > 0 ==> !white_space(trimmed_start(s)[0]),
    decreases s.len(),
{
    if s.len() > 0 && white_space(s[0]) {
        let rest = s.drop_first();
        law_trimming_the_start_drops_white_space_only(rest);
        let n = rest.len() - trimmed_start(rest).len();
        assert(s.skip(n + 1) =~= rest.skip(n));
        assert forall|i: int| 0 <= i < n + 1 implies white_space(#[trigger] s.take(n + 1)[i]) by {
            if i > 0 {
                assert(rest.take(n)[i - 1] == s[i]);
            }
        }
    } else {
        assert(s.skip(0) =~= s);
    }
}

proof fn lemma_trimmed_end(s: Seq<char>)
    ensures
        trimmed_end(s).len() <= s.len(),
        trimmed_end(s) == s.take(trimmed_end(s).len() as int),
        blank(s.skip(trimmed_end(s).len() as int)),
        trimmed_end(s).len() > 0 ==> !white_space(trimmed_end(s).last()),
    decreases s.len(),
{
    if s.len() > 0 && white_space(s.last()) {
        let rest = s.drop_last();
        lemma_trimmed_end(rest);
        let n = trimmed_end(rest).len() as int;
        assert(s.take(n) =~= rest.take(n));
        assert forall|i: int| 0 <= i < s.len() - n implies white_space(#[trigger] s.skip(n)[i]) by {
            if i < rest.len() - n {
                assert(rest.skip(n)[i] == s[n + i]);
            }
        }
    } else {
        assert(s.take(s.len() as int) =~= s);
    }
}

/// A trimmed text is a stretch of the text with nothing but white space on either side of it, and
/// neither starts nor ends with white space. So blank text, and no other, becomes empty.
pub proof fn law_trimming_drops_white_space_only(s: Seq<char>)
    ensures
        exists|from: int, to: int|
            0 <= from <= to <= s.len() && #[trigger] s.subrange(from, to) == trimmed(s) && blank(
                s.take(from),
            ) && blank(s.skip(to)),
        trimmed(s).len() > 0 ==> !white_space(trimmed(s)[0]) && !white_space(trimmed(s).last()),
        trimmed(s).len() == 0 <==> blank(s),
{
    let rest = trimmed_start(s);
    law_trimming_the_start_drops_white_space_only(s);
    lemma_trimmed_end(rest);
    let from = s.len() - rest.len();
    let to = from + trimmed(s).len();
    assert(s.subrange(from, to) =~= trimmed(s));
    assert forall|i: int| 0 <= i < s.len() - to implies white_space(#[trigger] s.skip(to)[i]) by {
        assert(rest.skip(trimmed(s).len() as int)[i] == s[to + i]);
    }
    if trimmed(s).len() > 0 {
        assert(trimmed(s)[0] == rest[0]);
        assert(s[from] == rest[0]);
    } else {
        assert forall|i: int| 0 <= i < s.len() implies white_space(#[trigger] s[i]) by {
            if i < from {
                assert(s.take(from)[i] == s[i]);
            } else {
                assert(s.skip(to)[i - to] == s[i]);
            }
        }
    }
}

/// The number that a lower case hexadecimal digit is read as.
pub open spec fn read_hex_digit(c: char) -> int {
    if '0' <= c <= '9' {
        c as u32 - 48
    } else {
        c as u32 - 87
    }
}

/// The number that a text of lower case hexadecimal digits is read as.
pub open spec fn read_hex(text: Seq<char>) -> int
    decreases text.len(),
{
    if text.len() == 0 {
        0
    } else {
        read_hex(text.drop_last()) * 16 + read_hex_digit(text.last())
    }
}

/// Whether a character is a lower case hexadecimal digit.
pub open spec fn is_hex(c: char) -> bool {
    '0' <= c <= '9' || 'a' <= c <= 'f'
}

proof fn lemma_hex_reads_back(n: nat, len: nat)
    ensures
        hex_digits(n, len).len() == len,
        forall|i: int| 0 <= i < len ==> is_hex(#[trigger] hex_digits(n, len)[i]),
        n < vstd::arithmetic::power::pow(16, len) ==> read_hex(hex_digits(n, len)) == n,
    decreases len,
{
    reveal(vstd::arithmetic::power::pow);
    if len > 0 {
        let rest = (len - 1) as nat;
        lemma_hex_reads_back(n / 16, rest);
        let head = hex_digits(n / 16, rest);
        let all = hex_digits(n, len);
        assert(all.drop_last() =~= head);
        assert forall|i: int| 0 <= i < len implies is_hex(#[trigger] all[i]) by {
            if i < rest {
                assert(all[i] == head[i]);
            }
        }
        if n < vstd::arithmetic::power::pow(16, len) {
            assert(vstd::arithmetic::power::pow(16, len) == 16 * vstd::arithmetic::power::pow(
                16,
                rest,
            ));
        }
    }
}

/// The text of an id is its number in hexadecimal: eight, four, four, four and twelve digits with
/// hyphens between them, which read back as the number. The short text is the first eight.
pub proof fn law_id_text_reads_back(id: ThreadId)
    ensures
        id_text(id).len() == 36,
        forall|i: int|
            0 <= i < 36 ==> if i == 8 || i == 13 || i == 18 || i == 23 {
                #[trigger] id_text(id)[i] == '-'
            } else {
                is_hex(id_text(id)[i])
            },
        read_hex(
            id_text(id).subrange(0, 8) + id_text(id).subrange(9, 13) + id_text(id).subrange(14, 18)
                + id_text(id).subrange(19, 23) + id_text(id).subrange(24, 36),
        ) == id.value,
        short_id_text(id) == id_text(id).subrange(0, 8),
{
    lemma_hex_reads_back(id.value as nat, 32);
    let digits = hex_digits(id.value as nat, 32);
    let text = id_text(id);
    assert(vstd::arithmetic::power::pow(16, 32) > u128::MAX) by {
        reveal(vstd::arithmetic::power::pow);
        reveal_with_fuel(vstd::arithmetic::power::pow, 33);
    }
    assert(text.subrange(0, 8) + text.subrange(9, 13) + text.subrange(14, 18) + text.subrange(
        19,
        23,
    ) + text.subrange(24, 36) =~= digits);
    assert forall|i: int| 0 <= i < 36 implies if i == 8 || i == 13 || i == 18 || i == 23 {
        #[trigger] text[i] == '-'
    } else {
        is_hex(text[i])
    } by {
        if i < 8 {
            assert(text[i] == digits[i]);
        } else if 8 < i < 13 {
            assert(text[i] == digits[i - 1]);
        } else if 13 < i < 18 {
            assert(text[i] == digits[i - 2]);
        } else if 18 < i < 23 {
            assert(text[i] == digits[i - 3]);
        } else if 23 < i {
            assert(text[i] == digits[i - 4]);
        }
    }
}

/// A path that starts at the root stays as it is, from whatever directory it is seen; any other
/// is put below the directory, with one separator in between.
pub proof fn law_joined_path_lies_below_the_directory(base: Seq<char>, rest: Seq<char>)
    ensures
        rest.len() > 0 && rest[0] == '/' ==> joined(base, rest) == rest,
        (rest.len() == 0 || rest[0] != '/') && base.len() > 0 && base.last() != '/' ==> joined(
            base,
            rest,
        ) == base + seq!['/'] + rest,
        (rest.len() == 0 || rest[0] != '/') && base.len() > 0 && base.last() == '/' ==> joined(
            base,
            rest,
        ) == base + rest,
        base.len() == 0 ==> joined(base, rest) == rest,
        absolute(rest) <==> rest.len() > 0 && rest[0] == '/',
{
    if base.len() > 0 {
        assert(base.push('/') =~= base + seq!['/']);
    }
}

proof fn lemma_segment(name: Seq<char>, rest: Seq<char>)
    requires
        forall|i: int| 0 <= i < name.len() ==> #[trigger] name[i] != '/',
        rest.len() == 0 || rest[0] == '/',
    ensures
        segment_len(name + rest) == name.len(),
    decreases name.len(),
{
    if name.len() > 0 {
        let tail = name.drop_first();
        assert forall|i: int| 0 <= i < tail.len() implies #[trigger] tail[i] != '/' by {
            assert(tail[i] == name[i + 1]);
        }
        lemma_segment(tail, rest);
        assert((name + rest).drop_first() =~= tail + rest);
        assert((name + rest)[0] == name[0]);
    } else {
        assert(name + rest =~= rest);
    }
}

/// Whether a path starts with the name of an entry is told by what stands before its first
/// separator: it must be there, and be neither `.` nor `..`.
pub proof fn law_first_name_decides(name: Seq<char>, rest: Seq<char>)
    requires
        forall|i: int| 0 <= i < name.len() ==> #[trigger] name[i] != '/',
        rest.len() == 0 || rest[0] == '/',
    ensures
        starts_with_name(name + rest) <==> name.len() > 0 && name != seq!['.'] && name != seq![
            '.',
            '.',
        ],
{
    lemma_segment(name, rest);
    assert((name + rest).take(name.len() as int) =~= name);
}

} // verus!
