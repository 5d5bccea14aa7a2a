//! Text handling shared by the configuration reader and the error bodies:
//! unsigned decimal numbers in both directions and comma-separated lists.

use vstd::prelude::*;
use vstd::string::*;

verus! {

broadcast use vstd::string::group_string_axioms;

/// Whether `c` is one of the ten ASCII decimal digits.
pub open spec fn is_digit(c: char) -> bool {
    '0' <= c && c <= '9'
}

/// The number a decimal digit stands for.
pub open spec fn digit_value(c: char) -> nat {
    (c as u32 - '0' as u32) as nat
}

/// Whether every character of `s` is a decimal digit.
pub open spec fn all_digits(s: Seq<char>) -> bool {
    forall|i: int| 0 <= i < s.len() ==> is_digit(#[trigger] s[i])
}

/// The number written by a run of decimal digits, most significant first.
pub open spec fn digits_value(s: Seq<char>) -> nat
    decreases s.len(),
{
    if s.len() == 0 {
        0
    } else {
        10 * digits_value(s.drop_last()) + digit_value(s.last())
    }
}

/// `s` without its leading plus sign, if it has one.
pub open spec fn without_sign(s: Seq<char>) -> Seq<char> {
    if s.len() > 0 && s[0] == '+' {
        s.subrange(1, s.len() as int)
    } else {
        s
    }
}

/// The number that `s` writes: an optional `+` followed by one or more
/// decimal digits and nothing else. `None` for every other text.
pub open spec fn unsigned_value(s: Seq<char>) -> Option<nat> {
    let digits = without_sign(s);
    if digits.len() > 0 && all_digits(digits) {
        Some(digits_value(digits))
    } else {
        None
    }
}

/// The number that `s` writes, provided that it is at most `max`.
pub open spec fn bounded_value(s: Seq<char>, max: nat) -> Option<nat> {
    match unsigned_value(s) {
        Some(v) => if v <= max {
            Some(v)
        } else {
            None
        },
        None => None,
    }
}

/// A longer run of digits never writes a smaller number than one of its
/// prefixes.
pub proof fn lemma_digits_value_prefix(s: Seq<char>, k: int)
    requires
        0 <= k <= s.len(),
    ensures
        digits_value(s.subrange(0, k)) <= digits_value(s),
    decreases s.len(),
{
    if k == s.len() {
        assert(s.subrange(0, k) =~= s);
    } else {
        lemma_digits_value_prefix(s.drop_last(), k);
        assert(s.drop_last().subrange(0, k) =~= s.subrange(0, k));
    }
}

/// A text with a character outside ASCII writes no number.
proof fn lemma_non_ascii_has_no_value(s: Seq<char>)
    requires
        !vstd::utf8::is_ascii_chars(s),
    ensures
        unsigned_value(s) is None,
{
    let j = choose|j: int| 0 <= j < s.len() && !('\0' <= #[trigger] s[j] && s[j] <= '\u{7f}');
    let digits = without_sign(s);
    if digits.len() > 0 && all_digits(digits) {
        if s[0] == '+' {
            assert(j != 0);
            assert(is_digit(digits[j - 1]));
        } else {
            assert(is_digit(digits[j]));
        }
    }
}

/// Reads an unsigned decimal number of at most `max` from `text`.
///
/// The text is an optional `+` and then digits only: no blanks, no
/// underscores, no minus sign. A number above `max` is refused like a
/// malformed one.
pub fn parse_unsigned(text: &str, max: u64) -> (parsed: Option<u64>)
    ensures
        parsed is Some <==> bounded_value(text@, max as nat) is Some,
        parsed matches Some(v) ==> bounded_value(text@, max as nat) == Some(v as nat),
{
    if !text.is_ascii() {
        proof {
            lemma_non_ascii_has_no_value(text@);
        }
        return None;
    }
    let n = text.as_bytes().len();
    assert(n == text@.len());
    let mut i: usize = 0;
    if n > 0 && text.get_ascii(0) == 43u8 {
        i = 1;
    }
    let start = i;
    let ghost digits = without_sign(text@);
    assert(digits =~= text@.subrange(start as int, n as int));
    if i == n {
        return None;
    }
    let mut acc: u64 = 0;
    while i < n
        invariant
            text.is_ascii(),
            n == text@.len(),
            start <= i <= n,
            start < n,
            digits == without_sign(text@),
            digits == text@.subrange(start as int, n as int),
            all_digits(digits.subrange(0, i - start)),
            acc == digits_value(digits.subrange(0, i - start)),
            acc <= max,
        decreases n - i,
    {
        let b = text.get_ascii(i);
        let ghost prefix = digits.subrange(0, i - start);
        let ghost longer = digits.subrange(0, i + 1 - start);
        proof {
            assert(longer.drop_last() =~= prefix);
            assert(longer.last() == text@[i as int]);
        }
        if b < 48u8 || b > 57u8 {
            assert(!is_digit(digits[i - start]));
            return None;
        }
        let d: u64 = (b - 48u8) as u64;
        assert(d == digit_value(text@[i as int]));
        if d > max || acc > (max - d) / 10 {
            proof {
                assert(digits_value(longer) > max);
                lemma_digits_value_prefix(digits, i + 1 - start);
            }
            return None;
        }
        acc = acc * 10 + d;
        i = i + 1;
        proof {
            assert forall|k: int| 0 <= k < longer.len() implies is_digit(#[trigger] longer[k]) by {
                if k < prefix.len() {
                    assert(longer[k] == prefix[k]);
                }
            }
        }
    }
    assert(digits.subrange(0, n - start) =~= digits);
    Some(acc)
}

/// The pieces of `s` between occurrences of `sep`: one more piece than
/// there are separators, each possibly empty, in the order they stand.
pub open spec fn split_on(s: Seq<char>, sep: char) -> Seq<Seq<char>>
    decreases s.len(),
{
    if s.len() == 0 {
        seq![Seq::<char>::empty()]
    } else {
        let before = split_on(s.drop_last(), sep);
        if s.last() == sep {
            before.push(Seq::<char>::empty())
        } else {
            before.drop_last().push(before.last().push(s.last()))
        }
    }
}

/// The pieces written one after the other with `sep` between each two.
pub open spec fn join(pieces: Seq<Seq<char>>, sep: char) -> Seq<char>
    decreases pieces.len(),
{
    if pieces.len() == 0 {
        Seq::<char>::empty()
    } else if pieces.len() == 1 {
        pieces[0]
    } else {
        join(pieces.drop_last(), sep).push(sep) + pieces.last()
    }
}

/// Splitting loses nothing and leaves no separator behind: there is at
/// least one piece, no piece holds the separator, and the pieces joined by
/// the separator are the text again.
pub proof fn lemma_split_joins_back(s: Seq<char>, sep: char)
    ensures
        split_on(s, sep).len() >= 1,
        forall|i: int| 0 <= i < split_on(s, sep).len() ==> !(#[trigger] split_on(s, sep)[i]).contains(sep),
        join(split_on(s, sep), sep) == s,
    decreases s.len(),
{
    if s.len() > 0 {
        let head = s.drop_last();
        let before = split_on(head, sep);
        let pieces = split_on(s, sep);
        lemma_split_joins_back(head, sep);
        assert(head.push(s.last()) =~= s);
        if s.last() == sep {
            assert(pieces.drop_last() =~= before);
            assert(join(pieces, sep) =~= s);
        } else {
            let grown = before.last().push(s.last());
            assert(pieces.last() == grown);
            assert forall|k: int| 0 <= k < grown.len() implies grown[k] != sep by {
                if k < before.last().len() {
                    assert(before.last().contains(grown[k]));
                }
            }
            if before.len() == 1 {
                assert(join(pieces, sep) =~= s);
            } else {
                assert(pieces.drop_last() =~= before.drop_last());
                assert(join(pieces, sep) =~= s);
            }
        }
    }
}

/// The texts that a list of strings holds.
pub open spec fn texts_of(v: Seq<String>) -> Seq<Seq<char>> {
    Seq::new(v.len(), |i: int| v[i]@)
}

/// Cuts `text` at every comma.
pub fn split_commas(text: &str) -> (parts: Vec<String>)
    ensures
        texts_of(parts@) == split_on(text@, ','),
{
    let n = text.unicode_len();
    let mut parts: Vec<String> = Vec::new();
    let mut start: usize = 0;
    let mut pos: usize = 0;
    assert(text@.subrange(0, 0) =~= Seq::<char>::empty());
    assert(texts_of(parts@).push(text@.subrange(0, 0)) =~= split_on(text@.subrange(0, 0), ','));
    while pos < n
        invariant
            n == text@.len(),
            start <= pos <= n,
            texts_of(parts@).push(text@.subrange(start as int, pos as int)) == split_on(
                text@.subrange(0, pos as int),
                ',',
            ),
        decreases n - pos,
    {
        let c = text.get_char(pos);
        let ghost seen = text@.subrange(0, pos as int);
        let ghost next = text@.subrange(0, pos + 1);
        let ghost piece = text@.subrange(start as int, pos as int);
        let ghost done = texts_of(parts@);
        proof {
            assert(next.drop_last() =~= seen);
            assert(next.last() == c);
            assert(done.push(piece).drop_last() =~= done);
        }
        if c == ',' {
            parts.push(String::from_str(text.substring_char(start, pos)));
            start = pos + 1;
            proof {
                assert(texts_of(parts@) =~= done.push(piece));
                assert(text@.subrange(start as int, pos + 1) =~= Seq::<char>::empty());
            }
        } else {
            proof {
                assert(text@.subrange(start as int, pos + 1) =~= piece.push(c));
            }
        }
        pos = pos + 1;
    }
    assert(text@.subrange(0, n as int) =~= text@);
    let ghost done = texts_of(parts@);
    let ghost piece = text@.subrange(start as int, n as int);
    parts.push(String::from_str(text.substring_char(start, n)));
    assert(texts_of(parts@) =~= done.push(piece));
    parts
}

/// The character that writes a digit below ten.
pub open spec fn digit_char(d: nat) -> char {
    if d == 0 {
        '0'
    } else if d == 1 {
        '1'
    } else if d == 2 {
        '2'
    } else if d == 3 {
        '3'
    } else if d == 4 {
        '4'
    } else if d == 5 {
        '5'
    } else if d == 6 {
        '6'
    } else if d == 7 {
        '7'
    } else if d == 8 {
        '8'
    } else {
        '9'
    }
}

/// The decimal digits of `n`, most significant first, without leading zeros.
pub open spec fn decimal_text(n: nat) -> Seq<char>
    decreases n,
{
    if n < 10 {
        seq![digit_char(n)]
    } else {
        decimal_text(n / 10).push(digit_char(n % 10))
    }
}

/// The one-character text of a digit.
fn digit_str(d: u64) -> (s: &'static str)
    requires
        d < 10,
    ensures
        s@ == seq![digit_char(d as nat)],
{
    proof {
        reveal_strlit("0");
        reveal_strlit("1");
        reveal_strlit("2");
        reveal_strlit("3");
        reveal_strlit("4");
        reveal_strlit("5");
        reveal_strlit("6");
        reveal_strlit("7");
        reveal_strlit("8");
        reveal_strlit("9");
    }
    let s = if d == 0 {
        "0"
    } else if d == 1 {
        "1"
    } else if d == 2 {
        "2"
    } else if d == 3 {
        "3"
    } else if d == 4 {
        "4"
    } else if d == 5 {
        "5"
    } else if d == 6 {
        "6"
    } else if d == 7 {
        "7"
    } else if d == 8 {
        "8"
    } else {
        "9"
    };
    assert(s@ =~= seq![digit_char(d as nat)]);
    s
}

/// Writes `n` in decimal.
pub fn render_decimal(n: u64) -> (text: String)
    ensures
        text@ == decimal_text(n as nat),
    decreases n,
{
    if n < 10 {
        String::from_str(digit_str(n))
    } else {
        let mut text = render_decimal(n / 10);
        text.append(digit_str(n % 10));
        assert(text@ =~= decimal_text((n / 10) as nat).push(digit_char((n % 10) as nat)));
        text
    }
}

/// What `render_decimal` writes reads back as the same number.
pub proof fn lemma_decimal_round_trip(n: nat)
    ensures
        decimal_text(n).len() > 0,
        all_digits(decimal_text(n)),
        digits_value(decimal_text(n)) == n,
        unsigned_value(decimal_text(n)) == Some(n),
    decreases n,
{
    let text = decimal_text(n);
    if n < 10 {
        assert(text.drop_last() =~= Seq::<char>::empty());
        assert(digits_value(text.drop_last()) == 0);
    } else {
        lemma_decimal_round_trip(n / 10);
        let head = decimal_text(n / 10);
        assert(text.drop_last() =~= head);
        assert forall|i: int| 0 <= i < text.len() implies is_digit(#[trigger] text[i]) by {
            if i < head.len() {
                assert(text[i] == head[i]);
            }
        }
    }
    assert(text[0] != '+');
}

} // verus!
