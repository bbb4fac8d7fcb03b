//! Writing JSON text: string literals with escapes, and decimal numbers.
use vstd::prelude::*;
use vstd::string::*;

verus! {

/// The sixteen hexadecimal digits, in order.
pub const HEX_DIGITS: &'static str = "0123456789abcdef";

/// The one-character text for digit `d` of `HEX_DIGITS`.
pub open spec fn digit_text(d: int) -> Seq<char> {
    HEX_DIGITS@.subrange(d, d + 1)
}

/// How one character stands inside a JSON string literal.
pub open spec fn escape_char(c: char) -> Seq<char> {
    if c == '"' {
        "\\\""@
    } else if c == '\\' {
        "\\\\"@
    } else if (c as u32) < 0x20 {
        "\\u00"@ + digit_text((c as u32) as int / 16) + digit_text((c as u32) as int % 16)
    } else {
        seq![c]
    }
}

/// The characters of `s`, each escaped.
pub open spec fn escaped(s: Seq<char>) -> Seq<char>
    decreases s.len(),
{
    if s.len() == 0 {
        Seq::empty()
    } else {
        escaped(s.drop_last()) + escape_char(s.last())
    }
}

/// The JSON string literal whose value is `s`.
pub open spec fn json_string(s: Seq<char>) -> Seq<char> {
    "\""@ + escaped(s) + "\""@
}

/// The decimal numeral of `n`, without leading zeros.
pub open spec fn decimal(n: nat) -> Seq<char>
    decreases n,
{
    if n < 10 {
        digit_text(n as int)
    } else {
        decimal(n / 10) + digit_text((n % 10) as int)
    }
}

proof fn lemma_hex_digits_len()
    ensures
        HEX_DIGITS@.len() == 16,
{
    reveal_strlit("0123456789abcdef");
}

/// Appends the one-character text for digit `d`.
fn append_digit(out: &mut String, d: u32)
    requires
        d < 16,
    ensures
        final(out)@ == old(out)@ + digit_text(d as int),
{
    proof {
        lemma_hex_digits_len();
    }
    let du = d as usize;
    out.append(HEX_DIGITS.substring_char(du, du + 1));
}

/// Appends the decimal numeral of `n`.
pub fn append_decimal(out: &mut String, n: u64)
    ensures
        final(out)@ == old(out)@ + decimal(n as nat),
    decreases n,
{
    if n >= 10 {
        append_decimal(out, n / 10);
    }
    append_digit(out, (n % 10) as u32);
    proof {
        if n >= 10 {
            assert(final(out)@ =~= old(out)@ + decimal(n as nat));
        }
    }
}

/// Appends how `c` stands inside a JSON string literal.
fn append_escaped_char(out: &mut String, s: &str, i: usize, c: char)
    requires
        i < s@.len() <= usize::MAX,
        s@[i as int] == c,
    ensures
        final(out)@ == old(out)@ + escape_char(c),
{
    if c == '"' {
        out.append("\\\"");
    } else if c == '\\' {
        out.append("\\\\");
    } else if (c as u32) < 0x20 {
        out.append("\\u00");
        append_digit(out, (c as u32) / 16);
        append_digit(out, (c as u32) % 16);
        assert(final(out)@ =~= old(out)@ + escape_char(c));
    } else {
        let one = s.substring_char(i, i + 1);
        assert(one@ =~= seq![c]);
        out.append(one);
    }
}

/// Appends the JSON string literal whose value is `s`.
pub fn append_json_string(out: &mut String, s: &str)
    ensures
        final(out)@ == old(out)@ + json_string(s@),
{
    let ghost start = out@;
    out.append("\"");
    let n = s.unicode_len();
    let mut i: usize = 0;
    while i < n
        invariant
            n == s@.len(),
            i <= n,
            out@ == start + "\""@ + escaped(s@.subrange(0, i as int)),
        decreases n - i,
    {
        let c = s.get_char(i);
        append_escaped_char(out, s, i, c);
        proof {
            let next = s@.subrange(0, i + 1);
            assert(next.drop_last() =~= s@.subrange(0, i as int));
            assert(next.last() == c);
        }
        i = i + 1;
    }
    assert(s@.subrange(0, n as int) =~= s@);
    out.append("\"");
    assert(out@ =~= start + json_string(s@));
}

} // verus!
