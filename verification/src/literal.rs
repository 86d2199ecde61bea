//! Numbers and strings as they are written in source text.

use vstd::prelude::*;
use vstd::string::StringExecFns;

verus! {

/// `String::push` of the standard library appends the given character to the end of the
/// string.
pub assume_specification[ String::push ](text: &mut String, c: char)
    ensures
        final(text)@ == old(text)@.push(c),
;

/// The character that writes a digit below sixteen.
pub open spec fn digit(d: nat) -> char {
    if d == 0 {
        '0'
    } else if d == 1 {
        '1'
    } else if d == 2 {
        '2'
    } else if d == 3 {
        '3'
    } else if d == 4 {
        '4'
    } else if d == 5 {
        '5'
    } else if d == 6 {
        '6'
    } else if d == 7 {
        '7'
    } else if d == 8 {
        '8'
    } else if d == 9 {
        '9'
    } else if d == 10 {
        'a'
    } else if d == 11 {
        'b'
    } else if d == 12 {
        'c'
    } else if d == 13 {
        'd'
    } else if d == 14 {
        'e'
    } else {
        'f'
    }
}

/// `n` written in base `base`, most significant digit first, without leading zeros.
pub open spec fn numeral(n: nat, base: nat) -> Seq<char>
    recommends
        2 <= base <= 16,
    decreases n,
    when 2 <= base
    via numeral_decreases
{
    if n < base {
        seq![digit(n)]
    } else {
        numeral(n / base, base).push(digit(n % base))
    }
}

#[via_fn]
proof fn numeral_decreases(n: nat, base: nat) {
    if n >= base {
        lemma_quotient_is_smaller(n, base);
    }
}

/// Dividing by two or more makes a positive number smaller, and the remainder is below the
/// divisor.
pub proof fn lemma_quotient_is_smaller(n: nat, base: nat)
    requires
        2 <= base <= n,
    ensures
        n / base < n,
        n % base < base,
{
    assert(n / base < n && n % base < base) by (nonlinear_arith)
        requires
            2 <= base <= n,
    ;
}

/// `n` in decimal.
pub open spec fn decimal(n: nat) -> Seq<char> {
    numeral(n, 10)
}

/// `n` in hexadecimal, with lower-case letters.
pub open spec fn hexadecimal(n: nat) -> Seq<char> {
    numeral(n, 16)
}

/// How one character of a string is written between the quotes of a literal.
///
/// The quote and the backslash get a backslash in front; line feed, carriage return and tab
/// are written `\n`, `\r` and `\t`; the other printable ASCII characters and the space stand
/// for themselves; every other character is written `\u{..}` with its scalar value in
/// hexadecimal.
pub open spec fn escaped_char(c: char) -> Seq<char> {
    if c == '"' {
        seq!['\\', '"']
    } else if c == '\\' {
        seq!['\\', '\\']
    } else if c == '\n' {
        seq!['\\', 'n']
    } else if c == '\r' {
        seq!['\\', 'r']
    } else if c == '\t' {
        seq!['\\', 't']
    } else if ' ' <= c <= '~' {
        seq![c]
    } else {
        seq!['\\', 'u', '{'] + hexadecimal(c as nat) + seq!['}']
    }
}

/// The characters of a string as they are written between the quotes of a literal.
pub open spec fn escaped(text: Seq<char>) -> Seq<char>
    decreases text.len(),
{
    if text.len() == 0 {
        Seq::empty()
    } else {
        escaped(text.drop_last()) + escaped_char(text.last())
    }
}

/// The string literal that denotes `text`.
pub open spec fn string_literal(text: Seq<char>) -> Seq<char> {
    seq!['"'] + escaped(text) + seq!['"']
}

/// The number that a digit stands for; sixteen for a character that is no digit. Letters
/// count in either case.
pub open spec fn digit_value(c: char) -> nat {
    if c == '0' {
        0
    } else if c == '1' {
        1
    } else if c == '2' {
        2
    } else if c == '3' {
        3
    } else if c == '4' {
        4
    } else if c == '5' {
        5
    } else if c == '6' {
        6
    } else if c == '7' {
        7
    } else if c == '8' {
        8
    } else if c == '9' {
        9
    } else if c == 'a' || c == 'A' {
        10
    } else if c == 'b' || c == 'B' {
        11
    } else if c == 'c' || c == 'C' {
        12
    } else if c == 'd' || c == 'D' {
        13
    } else if c == 'e' || c == 'E' {
        14
    } else if c == 'f' || c == 'F' {
        15
    } else {
        16
    }
}

/// The number that a run of digits denotes in base `base`.
pub open spec fn numeral_value(text: Seq<char>, base: nat) -> nat
    decreases text.len(),
{
    if text.len() == 0 {
        0
    } else {
        numeral_value(text.drop_last(), base) * base + digit_value(text.last())
    }
}

/// The character that the letter after a backslash stands for.
pub open spec fn short_escape(c: char) -> char {
    if c == 'n' {
        '\n'
    } else if c == 'r' {
        '\r'
    } else if c == 't' {
        '\t'
    } else {
        c
    }
}

/// The longest run of hexadecimal digits at the start of `text`.
pub open spec fn hex_run(text: Seq<char>) -> Seq<char>
    decreases text.len(),
{
    if text.len() > 0 && digit_value(text[0]) < 16 {
        seq![text[0]] + hex_run(text.drop_first())
    } else {
        Seq::empty()
    }
}

/// `first` in front of what was read.
pub open spec fn preceded(first: char, read: (Seq<char>, Seq<char>)) -> (Seq<char>, Seq<char>) {
    (seq![first] + read.0, read.1)
}

/// Reads the inside of a string literal up to its closing quote: the string that it
/// denotes, and the text that follows the quote.
///
/// A backslash takes the next character with it: `\u` opens a scalar value in hexadecimal
/// between braces, `\n`, `\r` and `\t` are line feed, carriage return and tab, and any
/// other character after a backslash stands for itself. A quote without a backslash ends
/// the literal.
pub open spec fn read_literal_body(text: Seq<char>) -> (Seq<char>, Seq<char>)
    decreases text.len(),
{
    if text.len() == 0 {
        (Seq::empty(), Seq::empty())
    } else if text[0] == '"' {
        (Seq::empty(), text.drop_first())
    } else if text[0] != '\\' || text.len() < 2 {
        preceded(text[0], read_literal_body(text.drop_first()))
    } else if text[1] == 'u' {
        let digits = hex_run(text.skip(3));
        let consumed = 3 + digits.len() + 1;
        if text.len() >= 3 && consumed <= text.len() {
            preceded(
                numeral_value(digits, 16) as char,
                read_literal_body(text.skip(consumed as int)),
            )
        } else {
            (Seq::empty(), Seq::empty())
        }
    } else {
        preceded(short_escape(text[1]), read_literal_body(text.skip(2)))
    }
}

/// Reads a string literal at the start of `text`: the string that it denotes, and the text
/// that follows it.
pub open spec fn read_literal(text: Seq<char>) -> (Seq<char>, Seq<char>) {
    if text.len() > 0 && text[0] == '"' {
        read_literal_body(text.drop_first())
    } else {
        (Seq::empty(), text)
    }
}

/// A digit stands for the number it was written for.
pub proof fn lemma_digit_reads_back(d: nat)
    requires
        d < 16,
    ensures
        digit_value(digit(d)) == d,
        ' ' <= digit(d) <= '~',
        digit(d) != '"',
        digit(d) != '\\',
        digit(d) != '}',
{
}

/// A numeral is a run of digits of its base, and denotes the number it was written for.
pub proof fn lemma_numeral_reads_back(n: nat, base: nat)
    requires
        2 <= base <= 16,
    ensures
        numeral(n, base).len() >= 1,
        forall|i: int|
            0 <= i < numeral(n, base).len() ==> digit_value(#[trigger] numeral(n, base)[i]) < base,
        numeral_value(numeral(n, base), base) == n,
    decreases n,
{
    if n < base {
        lemma_digit_reads_back(n);
        let text = numeral(n, base);
        assert(text.drop_last() =~= Seq::<char>::empty());
        assert(numeral_value(text.drop_last(), base) == 0);
        assert(numeral_value(text, base) == 0 * base + digit_value(text.last()));
    } else {
        lemma_quotient_is_smaller(n, base);
        lemma_numeral_reads_back(n / base, base);
        lemma_digit_reads_back(n % base);
        let shorter = numeral(n / base, base);
        let text = numeral(n, base);
        assert(text == shorter.push(digit(n % base)));
        assert(text.drop_last() =~= shorter);
        assert(numeral_value(text, base) == (n / base) * base + n % base);
        assert((n / base) * base + n % base == n) by (nonlinear_arith)
            requires
                base > 0,
        ;
    }
}

/// Escaping goes character by character: the first character's escape comes first.
pub proof fn lemma_escaped_first(first: char, rest: Seq<char>)
    ensures
        escaped(seq![first] + rest) == escaped_char(first) + escaped(rest),
    decreases rest.len(),
{
    let text = seq![first] + rest;
    if rest.len() == 0 {
        assert(text.drop_last() =~= Seq::<char>::empty());
        assert(text.last() == first);
        assert(escaped(text.drop_last()) =~= Seq::<char>::empty());
        assert(escaped(rest) =~= Seq::<char>::empty());
        assert(escaped(text) =~= escaped_char(first) + escaped(rest));
    } else {
        assert(text.drop_last() =~= seq![first] + rest.drop_last());
        assert(text.last() == rest.last());
        lemma_escaped_first(first, rest.drop_last());
        assert(escaped(text) =~= escaped_char(first) + escaped(rest));
    }
}

/// A run of hexadecimal digits that ends at a character that is none is found whole.
pub proof fn lemma_hex_run_finds(digits: Seq<char>, rest: Seq<char>)
    requires
        forall|i: int| 0 <= i < digits.len() ==> digit_value(#[trigger] digits[i]) < 16,
        rest.len() == 0 || digit_value(rest[0]) >= 16,
    ensures
        hex_run(digits + rest) == digits,
    decreases digits.len(),
{
    let text = digits + rest;
    if digits.len() == 0 {
        assert(text =~= rest);
        assert(hex_run(text) =~= digits);
    } else {
        assert(text[0] == digits[0]);
        assert(text.drop_first() =~= digits.drop_first() + rest);
        assert forall|i: int| 0 <= i < digits.drop_first().len() implies digit_value(
            #[trigger] digits.drop_first()[i],
        ) < 16 by {
            assert(digits.drop_first()[i] == digits[i + 1]);
        }
        lemma_hex_run_finds(digits.drop_first(), rest);
        assert(hex_run(text) =~= digits);
    }
}

/// What a character is escaped to reads back as that character, whatever follows.
pub proof fn lemma_escaped_char_reads_back(c: char, rest: Seq<char>)
    ensures
        read_literal_body(escaped_char(c) + rest) == preceded(c, read_literal_body(rest)),
{
    let text = escaped_char(c) + rest;
    if c == '"' || c == '\\' || c == '\n' || c == '\r' || c == '\t' {
        assert(text[0] == '\\');
        assert(text.skip(2) =~= rest);
    } else if ' ' <= c <= '~' {
        assert(text[0] == c);
        assert(text.drop_first() =~= rest);
    } else {
        let digits = hexadecimal(c as nat);
        lemma_numeral_reads_back(c as nat, 16);
        assert(text =~= seq!['\\', 'u', '{'] + digits + seq!['}'] + rest);
        assert(text[0] == '\\');
        assert(text[1] == 'u');
        assert(text.skip(3) =~= digits + (seq!['}'] + rest));
        assert((seq!['}'] + rest)[0] == '}');
        lemma_hex_run_finds(digits, seq!['}'] + rest);
        let consumed = 3 + digits.len() + 1;
        assert(text.skip(consumed as int) =~= rest);
        assert(numeral_value(digits, 16) as char == c);
    }
}

/// What a string is escaped to reads back as that string, up to the first quote that
/// follows it.
pub proof fn lemma_escaped_reads_back(text: Seq<char>, rest: Seq<char>)
    ensures
        read_literal_body(escaped(text) + rest) == (
            text + read_literal_body(rest).0,
            read_literal_body(rest).1,
        ),
    decreases text.len(),
{
    if text.len() == 0 {
        assert(escaped(text) + rest =~= rest);
        assert(text + read_literal_body(rest).0 =~= read_literal_body(rest).0);
    } else {
        let first = text[0];
        let later = text.drop_first();
        assert(text =~= seq![first] + later);
        lemma_escaped_first(first, later);
        assert(escaped(text) + rest =~= escaped_char(first) + (escaped(later) + rest));
        lemma_escaped_char_reads_back(first, escaped(later) + rest);
        lemma_escaped_reads_back(later, rest);
        assert(seq![first] + (later + read_literal_body(rest).0) =~= text + read_literal_body(
            rest,
        ).0);
    }
}

/// A string literal denotes the string it was written for, and ends where it was closed:
/// reading it back gives the string and exactly the text that follows the literal.
pub proof fn lemma_string_literal_reads_back(text: Seq<char>, rest: Seq<char>)
    ensures
        read_literal(string_literal(text) + rest) == (text, rest),
{
    let whole = string_literal(text) + rest;
    let closing = seq!['"'] + rest;
    assert(whole[0] == '"');
    assert(whole.drop_first() =~= escaped(text) + closing);
    lemma_escaped_reads_back(text, closing);
    assert(closing[0] == '"');
    assert(closing.drop_first() =~= rest);
    assert(read_literal_body(closing) == (Seq::<char>::empty(), rest));
    assert(text + Seq::<char>::empty() =~= text);
}

/// The character of a digit.
fn digit_char(d: u32) -> (c: char)
    requires
        d < 16,
    ensures
        c == digit(d as nat),
{
    if d == 0 {
        '0'
    } else if d == 1 {
        '1'
    } else if d == 2 {
        '2'
    } else if d == 3 {
        '3'
    } else if d == 4 {
        '4'
    } else if d == 5 {
        '5'
    } else if d == 6 {
        '6'
    } else if d == 7 {
        '7'
    } else if d == 8 {
        '8'
    } else if d == 9 {
        '9'
    } else if d == 10 {
        'a'
    } else if d == 11 {
        'b'
    } else if d == 12 {
        'c'
    } else if d == 13 {
        'd'
    } else if d == 14 {
        'e'
    } else {
        'f'
    }
}

/// Appends `n`, written in base `base`, to `out`.
pub fn push_numeral(out: &mut String, n: u32, base: u32)
    requires
        2 <= base <= 16,
    ensures
        final(out)@ == old(out)@ + numeral(n as nat, base as nat),
    decreases n,
{
    if n >= base {
        proof {
            lemma_quotient_is_smaller(n as nat, base as nat);
        }
        push_numeral(out, n / base, base);
        out.push(digit_char(n % base));
        assert(out@ =~= old(out)@ + numeral(n as nat, base as nat));
    } else {
        out.push(digit_char(n));
        assert(out@ =~= old(out)@ + numeral(n as nat, base as nat));
    }
}

/// Appends one character of a string, as a literal writes it, to `out`.
pub fn push_escaped_char(out: &mut String, c: char)
    ensures
        final(out)@ == old(out)@ + escaped_char(c),
{
    if c == '"' {
        out.push('\\');
        out.push('"');
    } else if c == '\\' {
        out.push('\\');
        out.push('\\');
    } else if c == '\n' {
        out.push('\\');
        out.push('n');
    } else if c == '\r' {
        out.push('\\');
        out.push('r');
    } else if c == '\t' {
        out.push('\\');
        out.push('t');
    } else if ' ' <= c && c <= '~' {
        out.push(c);
    } else {
        out.push('\\');
        out.push('u');
        out.push('{');
        push_numeral(out, c as u32, 16);
        out.push('}');
    }
    assert(out@ =~= old(out)@ + escaped_char(c));
}

/// Appends the string literal that denotes `text` to `out`.
pub fn push_string_literal(out: &mut String, text: &str)
    ensures
        final(out)@ == old(out)@ + string_literal(text@),
{
    out.push('"');
    let ghost opened = out@;
    for c in it: text.chars()
        invariant
            it.seq() == text@,
            opened == old(out)@.push('"'),
            out@ == opened + escaped(text@.take(it.index() as int)),
    {
        proof {
            let k = it.index() as int;
            assert(text@.take(k + 1).drop_last() =~= text@.take(k));
            assert(opened + escaped(text@.take(k)) + escaped_char(c) =~= opened + escaped(
                text@.take(k + 1),
            ));
        }
        push_escaped_char(out, c);
    }
    proof {
        assert(text@.take(text@.len() as int) =~= text@);
    }
    out.push('"');
    assert(out@ =~= old(out)@ + string_literal(text@));
}

/// `n` written in decimal.
pub fn decimal_text(n: u16) -> (text: String)
    ensures
        text@ == decimal(n as nat),
{
    let mut out = String::new();
    push_numeral(&mut out, n as u32, 10);
    assert(out@ =~= decimal(n as nat));
    out
}

/// The string literal that denotes `text`.
pub fn string_literal_text(text: &str) -> (literal: String)
    ensures
        literal@ == string_literal(text@),
{
    let mut out = String::new();
    push_string_literal(&mut out, text);
    assert(out@ =~= string_literal(text@));
    out
}

} // verus!
