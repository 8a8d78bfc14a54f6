//! Writing JSON text: string literals (written by `serde_json`) and
//! non-negative integers in decimal.
use vstd::prelude::*;

verus! {

/// A character that a JSON string literal cannot hold as it is: a quote, a
/// backslash or a control character below U+0020.
pub open spec fn needs_escape(c: char) -> bool {
    c == '"' || c == '\\' || (c as u32) < 0x20
}

/// The lower-case hexadecimal digit of `d`.
pub open spec fn hex_digit(d: int) -> char {
    if d < 10 {
        digit_char(d)
    } else if d == 10 {
        'a'
    } else if d == 11 {
        'b'
    } else if d == 12 {
        'c'
    } else if d == 13 {
        'd'
    } else if d == 14 {
        'e'
    } else {
        'f'
    }
}

/// How a character stands in a JSON string literal: a quote and a backslash
/// behind a backslash; backspace, tab, line feed, form feed and carriage return
/// as `\b \t \n \f \r`; another control character as `\u00` and two
/// lower-case hexadecimal digits; any other character as it is.
pub open spec fn escaped_char(c: char) -> Seq<char> {
    let n = c as u32;
    if c == '"' {
        seq!['\\', '"']
    } else if c == '\\' {
        seq!['\\', '\\']
    } else if n == 0x08 {
        seq!['\\', 'b']
    } else if n == 0x09 {
        seq!['\\', 't']
    } else if n == 0x0a {
        seq!['\\', 'n']
    } else if n == 0x0c {
        seq!['\\', 'f']
    } else if n == 0x0d {
        seq!['\\', 'r']
    } else if n < 0x20 {
        seq!['\\', 'u', '0', '0', hex_digit((n / 16) as int), hex_digit((n % 16) as int)]
    } else {
        seq![c]
    }
}

/// The characters of `text`, each as it stands in a JSON string literal.
pub open spec fn escaped(text: Seq<char>) -> Seq<char>
    decreases text.len(),
{
    if text.len() == 0 {
        Seq::empty()
    } else {
        escaped(text.drop_last()) + escaped_char(text.last())
    }
}

/// The JSON string literal for `text`: its escaped characters between quotes.
pub open spec fn json_quoted(text: Seq<char>) -> Seq<char> {
    seq!['"'] + escaped(text) + seq!['"']
}

/// Calls `serde_json::to_string` on a `str`. Its contract: the result is the
/// literal `json_quoted(text)`, as `format_escaped_str` writes it (a quote,
/// the text with the bytes that its `ESCAPE` table marks escaped by
/// `write_char_escape`, a quote); writing into memory cannot fail.
#[verifier::external_body]
pub(crate) fn quote(text: &str) -> (quoted: String)
    ensures
        quoted@ == json_quoted(text@),
{
    serde_json::to_string(text).unwrap_or_default()
}

proof fn lemma_plain_text_unescaped(text: Seq<char>)
    requires
        forall|i: int| 0 <= i < text.len() ==> !needs_escape(#[trigger] text[i]),
    ensures
        escaped(text) == text,
    decreases text.len(),
{
    if text.len() > 0 {
        let rest = text.drop_last();
        assert forall|i: int| 0 <= i < rest.len() implies !needs_escape(#[trigger] rest[i]) by {
            assert(rest[i] == text[i]);
        }
        lemma_plain_text_unescaped(rest);
        assert(!needs_escape(text[text.len() - 1]));
        assert(escaped_char(text.last()) == seq![text.last()]);
        assert(rest + seq![text.last()] =~= text);
    } else {
        assert(text =~= Seq::<char>::empty());
    }
}

/// A text without quote, backslash or control character is written as it is,
/// between two quotes.
pub proof fn law_plain_text_is_quoted_as_is(text: Seq<char>)
    requires
        forall|i: int| 0 <= i < text.len() ==> !needs_escape(#[trigger] text[i]),
    ensures
        json_quoted(text) == seq!['"'] + text + seq!['"'],
{
    lemma_plain_text_unescaped(text);
}

proof fn lemma_escaped_append(a: Seq<char>, b: Seq<char>)
    ensures
        escaped(a + b) == escaped(a) + escaped(b),
    decreases b.len(),
{
    if b.len() == 0 {
        assert(a + b =~= a);
        assert(escaped(a) + escaped(b) =~= escaped(a));
    } else {
        lemma_escaped_append(a, b.drop_last());
        assert((a + b).drop_last() =~= a + b.drop_last());
        assert((a + b).last() == b.last());
        assert(escaped(a + b) =~= escaped(a) + escaped(b));
    }
}

proof fn lemma_escaped_single(c: char)
    ensures
        escaped(seq![c]) == escaped_char(c),
{
    let single = seq![c];
    assert(single.drop_last() =~= Seq::<char>::empty());
    assert(escaped(single) == escaped(single.drop_last()) + escaped_char(single.last()));
    assert(escaped(single) =~= escaped_char(c));
}

proof fn lemma_hex_digit_injective(d: int, e: int)
    requires
        0 <= d < 16,
        0 <= e < 16,
        hex_digit(d) == hex_digit(e),
    ensures
        d == e,
{
}

/// No character's escape is the start of another's: the first characters of
/// an escaped text tell which character it begins with, and the rest.
proof fn lemma_escape_prefix_free(c: char, d: char, x: Seq<char>, y: Seq<char>)
    requires
        escaped_char(c) + x == escaped_char(d) + y,
    ensures
        c == d,
        x == y,
{
    let e = escaped_char(c);
    let f = escaped_char(d);
    let s = e + x;
    assert(s[0] == e[0]);
    assert(s[0] == f[0]);
    if e.len() >= 2 && f.len() >= 2 {
        assert(s[1] == e[1]);
        assert(s[1] == f[1]);
        if e.len() == 6 && f.len() == 6 {
            assert(s[4] == e[4] && s[4] == f[4]);
            assert(s[5] == e[5] && s[5] == f[5]);
            let n = c as u32;
            let m = d as u32;
            lemma_hex_digit_injective((n / 16) as int, (m / 16) as int);
            lemma_hex_digit_injective((n % 16) as int, (m % 16) as int);
            assert(n == m);
        }
    }
    assert(c == d);
    assert(x =~= s.skip(e.len() as int));
    assert(y =~= s.skip(f.len() as int));
}

proof fn lemma_escaped_len(text: Seq<char>)
    ensures
        escaped(text).len() >= text.len(),
    decreases text.len(),
{
    if text.len() > 0 {
        lemma_escaped_len(text.drop_last());
    }
}

proof fn lemma_escaped_injective(a: Seq<char>, b: Seq<char>)
    requires
        escaped(a) == escaped(b),
    ensures
        a == b,
    decreases a.len(),
{
    if a.len() == 0 {
        lemma_escaped_len(b);
        assert(b.len() == 0);
        assert(a =~= b);
    } else if b.len() == 0 {
        lemma_escaped_len(a);
    } else {
        let ra = a.drop_first();
        let rb = b.drop_first();
        assert(seq![a[0]] + ra =~= a);
        assert(seq![b[0]] + rb =~= b);
        lemma_escaped_append(seq![a[0]], ra);
        lemma_escaped_append(seq![b[0]], rb);
        lemma_escaped_single(a[0]);
        lemma_escaped_single(b[0]);
        lemma_escape_prefix_free(a[0], b[0], escaped(ra), escaped(rb));
        lemma_escaped_injective(ra, rb);
    }
}

/// Different texts are written as different literals: the literal gives back
/// the whole text it was written from.
pub proof fn law_json_quoted_injective(a: Seq<char>, b: Seq<char>)
    requires
        json_quoted(a) == json_quoted(b),
    ensures
        a == b,
{
    let qa = json_quoted(a);
    let qb = json_quoted(b);
    assert(qa.len() == qb.len());
    assert(escaped(a) =~= qa.subrange(1, qa.len() - 1));
    assert(escaped(b) =~= qb.subrange(1, qb.len() - 1));
    lemma_escaped_injective(a, b);
}

/// The literal holds every character of the text, and the two quotes.
pub proof fn law_json_quoted_keeps_every_character(text: Seq<char>)
    ensures
        json_quoted(text).len() >= text.len() + 2,
{
    lemma_escaped_len(text);
}

/// The character of a decimal digit.
pub open spec fn digit_char(d: int) -> char {
    if d == 0 {
        '0'
    } else if d == 1 {
        '1'
    } else if d == 2 {
        '2'
    } else if d == 3 {
        '3'
    } else if d == 4 {
        '4'
    } else if d == 5 {
        '5'
    } else if d == 6 {
        '6'
    } else if d == 7 {
        '7'
    } else if d == 8 {
        '8'
    } else {
        '9'
    }
}

/// The decimal digits of `n`, most significant first, without leading zeros.
pub open spec fn decimal(n: nat) -> Seq<char>
    decreases n,
{
    if n < 10 {
        seq![digit_char(n as int)]
    } else {
        decimal(n / 10) + seq![digit_char((n % 10) as int)]
    }
}

/// The number that a string of decimal digits stands for, most significant
/// first.
pub open spec fn digits_value(digits: Seq<char>) -> int
    decreases digits.len(),
{
    if digits.len() == 0 {
        0
    } else {
        digits_value(digits.drop_last()) * 10 + ((digits.last() as u32) - ('0' as u32))
    }
}

proof fn lemma_digit_char_value(d: int)
    requires
        0 <= d < 10,
    ensures
        (digit_char(d) as u32) - ('0' as u32) == d,
        '0' <= digit_char(d) <= '9',
{
}

/// Written in decimal, `n` reads back as `n`: every character is a digit,
/// there is at least one, and only zero starts with `0`.
pub proof fn law_decimal_reads_back(n: nat)
    ensures
        digits_value(decimal(n)) == n,
        decimal(n).len() >= 1,
        forall|i: int| 0 <= i < decimal(n).len() ==> '0' <= #[trigger] decimal(n)[i] <= '9',
        decimal(n)[0] == '0' ==> n == 0,
    decreases n,
{
    lemma_digit_char_value((n % 10) as int);
    if n < 10 {
        lemma_digit_char_value(n as int);
        assert(decimal(n) == seq![digit_char(n as int)]);
        let d = decimal(n);
        assert(d.drop_last() =~= Seq::<char>::empty());
        assert(digits_value(d.drop_last()) == 0);
        assert(d.last() == digit_char(n as int));
        assert(digits_value(d) == digits_value(d.drop_last()) * 10 + ((d.last() as u32) - ('0' as u32)));
    } else {
        law_decimal_reads_back(n / 10);
        assert(n == (n / 10) * 10 + n % 10) by (nonlinear_arith);
        let d = decimal(n);
        assert(d.drop_last() =~= decimal(n / 10));
        assert(d.last() == digit_char((n % 10) as int));
        assert(digits_value(d) == digits_value(d.drop_last()) * 10 + ((d.last() as u32) - ('0' as u32)));
        assert(d[0] == decimal(n / 10)[0]);
        assert forall|i: int| 0 <= i < d.len() implies '0' <= #[trigger] d[i] <= '9' by {
            if i < d.len() - 1 {
                assert(d[i] == decimal(n / 10)[i]);
            }
        }
    }
}

/// Different numbers are written differently.
pub proof fn law_decimal_injective(m: nat, n: nat)
    requires
        decimal(m) == decimal(n),
    ensures
        m == n,
{
    law_decimal_reads_back(m);
    law_decimal_reads_back(n);
}

fn digit_text(d: u64) -> (s: &'static str)
    requires
        d < 10,
    ensures
        s@ == seq![digit_char(d as int)],
{
    if d == 0 {
        proof { reveal_strlit("0"); }
        "0"
    } else if d == 1 {
        proof { reveal_strlit("1"); }
        "1"
    } else if d == 2 {
        proof { reveal_strlit("2"); }
        "2"
    } else if d == 3 {
        proof { reveal_strlit("3"); }
        "3"
    } else if d == 4 {
        proof { reveal_strlit("4"); }
        "4"
    } else if d == 5 {
        proof { reveal_strlit("5"); }
        "5"
    } else if d == 6 {
        proof { reveal_strlit("6"); }
        "6"
    } else if d == 7 {
        proof { reveal_strlit("7"); }
        "7"
    } else if d == 8 {
        proof { reveal_strlit("8"); }
        "8"
    } else {
        proof { reveal_strlit("9"); }
        "9"
    }
}

/// Writes `n` in decimal, as JSON writes an unsigned integer.
pub fn decimal_text(n: u64) -> (text: String)
    ensures
        text@ == decimal(n as nat),
    decreases n,
{
    if n < 10 {
        String::from_str(digit_text(n))
    } else {
        let mut text = decimal_text(n / 10);
        text.append(digit_text(n % 10));
        text
    }
}

} // verus!
