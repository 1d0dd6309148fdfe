//! Character-level text rendering: decimal and fixed-width hexadecimal
//! numerals and space padding, each with a spec-level model that pins the
//! rendered characters down exactly.

use vstd::prelude::*;
use vstd::string::StringExecFns;

verus! {

/// The single decimal digit character for `d` (`d < 10`).
pub open spec fn digit_text(d: nat) -> Seq<char> {
    if d == 0 {
        "0"@
    } else if d == 1 {
        "1"@
    } else if d == 2 {
        "2"@
    } else if d == 3 {
        "3"@
    } else if d == 4 {
        "4"@
    } else if d == 5 {
        "5"@
    } else if d == 6 {
        "6"@
    } else if d == 7 {
        "7"@
    } else if d == 8 {
        "8"@
    } else {
        "9"@
    }
}

/// The single lowercase hexadecimal digit character for `d` (`d < 16`).
pub open spec fn hex_digit_text(d: nat) -> Seq<char> {
    if d < 10 {
        digit_text(d)
    } else if d == 10 {
        "a"@
    } else if d == 11 {
        "b"@
    } else if d == 12 {
        "c"@
    } else if d == 13 {
        "d"@
    } else if d == 14 {
        "e"@
    } else {
        "f"@
    }
}

/// The decimal numeral of `n`, most significant digit first, no padding.
pub open spec fn dec_text(n: nat) -> Seq<char>
    decreases n,
{
    if n < 10 {
        digit_text(n)
    } else {
        dec_text(n / 10) + digit_text(n % 10)
    }
}

/// Exactly `width` hexadecimal digits of `n`, most significant first,
/// zero-padded on the left; digits above the field width are dropped.
pub open spec fn hex_fixed_text(n: nat, width: nat) -> Seq<char>
    decreases width,
{
    if width == 0 {
        Seq::<char>::empty()
    } else {
        hex_fixed_text(n / 16, (width - 1) as nat) + hex_digit_text(n % 16)
    }
}

/// `n` space characters.
pub open spec fn spaces(n: nat) -> Seq<char>
    decreases n,
{
    if n == 0 {
        Seq::<char>::empty()
    } else {
        spaces((n - 1) as nat) + " "@
    }
}

/// `s` right-aligned in a field of `width` characters: space padding on the
/// left when `s` is shorter, `s` unchanged when it already fills the field.
pub open spec fn pad_left(s: Seq<char>, width: nat) -> Seq<char> {
    if s.len() >= width {
        s
    } else {
        spaces((width - s.len()) as nat) + s
    }
}

/// Every decimal digit renders as exactly one character.
pub proof fn lemma_digit_text_len(d: nat)
    requires
        d < 10,
    ensures
        digit_text(d).len() == 1,
{
    reveal_strlit("0");
    reveal_strlit("1");
    reveal_strlit("2");
    reveal_strlit("3");
    reveal_strlit("4");
    reveal_strlit("5");
    reveal_strlit("6");
    reveal_strlit("7");
    reveal_strlit("8");
    reveal_strlit("9");
}

/// How many characters the decimal numeral of `n` has, for the field widths
/// the report layout distinguishes.
pub proof fn lemma_dec_text_len(n: nat)
    ensures
        n < 10 ==> dec_text(n).len() == 1,
        10 <= n < 100 ==> dec_text(n).len() == 2,
        100 <= n < 1000 ==> dec_text(n).len() == 3,
        1000 <= n ==> dec_text(n).len() >= 4,
    decreases n,
{
    if n < 10 {
        lemma_digit_text_len(n);
    } else {
        lemma_digit_text_len(n % 10);
        lemma_dec_text_len(n / 10);
    }
}

/// Appends one decimal digit character.
fn append_digit(out: &mut String, d: u64)
    requires
        d < 10,
    ensures
        final(out)@ == old(out)@ + digit_text(d as nat),
{
    let s: &str = if d == 0 {
        "0"
    } else if d == 1 {
        "1"
    } else if d == 2 {
        "2"
    } else if d == 3 {
        "3"
    } else if d == 4 {
        "4"
    } else if d == 5 {
        "5"
    } else if d == 6 {
        "6"
    } else if d == 7 {
        "7"
    } else if d == 8 {
        "8"
    } else {
        "9"
    };
    out.append(s);
}

/// Appends one lowercase hexadecimal digit character.
fn append_hex_digit(out: &mut String, d: u64)
    requires
        d < 16,
    ensures
        final(out)@ == old(out)@ + hex_digit_text(d as nat),
{
    if d < 10 {
        append_digit(out, d);
    } else {
        let s: &str = if d == 10 {
            "a"
        } else if d == 11 {
            "b"
        } else if d == 12 {
            "c"
        } else if d == 13 {
            "d"
        } else if d == 14 {
            "e"
        } else {
            "f"
        };
        out.append(s);
    }
}

/// Appends the decimal numeral of `n`, most significant digit first.
pub fn append_dec_u64(out: &mut String, n: u64)
    ensures
        final(out)@ == old(out)@ + dec_text(n as nat),
    decreases n,
{
    if n < 10 {
        append_digit(out, n);
    } else {
        append_dec_u64(out, n / 10);
        append_digit(out, n % 10);
        assert(out@ =~= old(out)@ + dec_text(n as nat));
    }
}

/// Appends exactly `width` hexadecimal digits of `n`, zero-padded.
pub fn append_hex_fixed(out: &mut String, n: u64, width: usize)
    ensures
        final(out)@ == old(out)@ + hex_fixed_text(n as nat, width as nat),
    decreases width,
{
    if width == 0 {
        assert(out@ =~= old(out)@ + hex_fixed_text(n as nat, 0));
    } else {
        append_hex_fixed(out, n / 16, width - 1);
        append_hex_digit(out, n % 16);
        assert(out@ =~= old(out)@ + hex_fixed_text(n as nat, width as nat));
    }
}

/// Appends `n` space characters.
pub fn append_spaces(out: &mut String, n: usize)
    ensures
        final(out)@ == old(out)@ + spaces(n as nat),
{
    let mut i: usize = 0;
    assert(out@ =~= old(out)@ + spaces(0));
    while i < n
        invariant
            i <= n,
            out@ == old(out)@ + spaces(i as nat),
        decreases n - i,
    {
        out.append(" ");
        i = i + 1;
        assert(out@ =~= old(out)@ + spaces(i as nat));
    }
}

/// Appends the decimal numeral of `n` right-aligned in a four-character
/// field, as the frame-index column of the stack block asks.
pub fn append_dec_padded4(out: &mut String, n: u64)
    ensures
        final(out)@ == old(out)@ + pad_left(dec_text(n as nat), 4),
{
    proof {
        lemma_dec_text_len(n as nat);
    }
    if n < 10 {
        append_spaces(out, 3);
    } else if n < 100 {
        append_spaces(out, 2);
    } else if n < 1000 {
        append_spaces(out, 1);
    }
    append_dec_u64(out, n);
    assert(out@ =~= old(out)@ + pad_left(dec_text(n as nat), 4));
}

} // verus!
