//! Decimal text: digit strings, repetition and padding, and the decimal
//! rendering of fixed-point values. Each builder mirrors a spec-level
//! sequence function, appended in the same order the code appends.

use crate::fixed::{fx_abs, Fx, FX_SCALE};
use vstd::prelude::*;
use vstd::string::StringExecFns;

verus! {

/// The character of one decimal digit.
pub open spec fn dec_digit(d: int) -> char {
    if d == 0 {
        '0'
    } else if d == 1 {
        '1'
    } else if d == 2 {
        '2'
    } else if d == 3 {
        '3'
    } else if d == 4 {
        '4'
    } else if d == 5 {
        '5'
    } else if d == 6 {
        '6'
    } else if d == 7 {
        '7'
    } else if d == 8 {
        '8'
    } else {
        '9'
    }
}

/// The decimal rendering of a natural number, most significant digit
/// first, with no leading zeros (zero itself is "0").
pub open spec fn dec_str_v(n: nat) -> Seq<char>
    decreases n,
{
    if n < 10 {
        seq![dec_digit(n as int)]
    } else {
        dec_str_v(n / 10) + seq![dec_digit((n % 10) as int)]
    }
}

/// A decimal rendering has at most one character per unit of the number:
/// a crude bound, but enough to rule arithmetic overflow out when
/// lengths are tracked alongside strings.
pub proof fn lemma_dec_len_bound(n: nat)
    ensures
        1 <= dec_str_v(n).len() <= n + 1,
    decreases n,
{
    if n >= 10 {
        lemma_dec_len_bound(n / 10);
        vstd::arithmetic::div_mod::lemma_div_is_strictly_smaller(n as int, 10);
    }
}

/// `n` copies of a piece of text.
pub open spec fn seq_repeat_v(s: Seq<char>, n: nat) -> Seq<char>
    decreases n,
{
    if n == 0 {
        Seq::<char>::empty()
    } else {
        seq_repeat_v(s, (n - 1) as nat) + s
    }
}

/// `s` padded with spaces on the left to at least `w` characters.
pub open spec fn pad_left_v(s: Seq<char>, w: int) -> Seq<char> {
    if s.len() >= w {
        s
    } else {
        seq_repeat_v(" "@, (w - s.len()) as nat) + s
    }
}

/// The fractional digits of `r / FX_SCALE`, for `0 <= r < FX_SCALE`:
/// repeatedly scale by ten and emit the integer part, until the remainder
/// is gone (the fuel of sixteen digits always suffices for this scale).
pub open spec fn frac_str_v(r: nat, fuel: nat) -> Seq<char>
    decreases fuel,
{
    if r == 0 || fuel == 0 {
        Seq::<char>::empty()
    } else {
        seq![dec_digit(((r * 10) / (FX_SCALE as nat)) as int)] + frac_str_v(
            (r * 10) % (FX_SCALE as nat),
            (fuel - 1) as nat,
        )
    }
}

/// The decimal rendering of a fixed-point value: sign, integer part, and
/// the fractional digits when there are any.
pub open spec fn fx_text_v(v: int) -> Seq<char> {
    let m = fx_abs(v);
    let sign = if v < 0 {
        "-"@
    } else {
        Seq::<char>::empty()
    };
    let ip = sign + dec_str_v((m / (FX_SCALE as int)) as nat);
    let fr = frac_str_v((m % (FX_SCALE as int)) as nat, 16);
    if fr.len() == 0 {
        ip
    } else {
        (ip + "."@) + fr
    }
}

/// The single-character string of one decimal digit.
pub fn digit_str(d: u64) -> (r: &'static str)
    requires
        d < 10,
    ensures
        r@ == seq![dec_digit(d as int)],
{
    proof {
        reveal_strlit("0");
        reveal_strlit("1");
        reveal_strlit("2");
        reveal_strlit("3");
        reveal_strlit("4");
        reveal_strlit("5");
        reveal_strlit("6");
        reveal_strlit("7");
        reveal_strlit("8");
        reveal_strlit("9");
    }
    let r = match d {
        0 => "0",
        1 => "1",
        2 => "2",
        3 => "3",
        4 => "4",
        5 => "5",
        6 => "6",
        7 => "7",
        8 => "8",
        _ => "9",
    };
    proof {
        assert(r@ =~= seq![dec_digit(d as int)]);
    }
    r
}

/// Render a number in decimal, returning the text and its length.
pub fn format_u64_len(n: u64) -> (r: (String, u64))
    ensures
        r.0@ == dec_str_v(n as nat),
        r.1 as int == r.0@.len(),
    decreases n,
{
    if n < 10 {
        (String::from_str(digit_str(n)), 1)
    } else {
        let (mut s, l) = format_u64_len(n / 10);
        proof {
            lemma_dec_len_bound((n / 10) as nat);
        }
        s.append(digit_str(n % 10));
        (s, l + 1)
    }
}

/// Render a number in decimal.
pub fn format_u64(n: u64) -> (r: String)
    ensures
        r@ == dec_str_v(n as nat),
{
    let (s, _len) = format_u64_len(n);
    s
}

/// Append `k` copies of `piece` to `s`.
pub fn append_repeat(s: &mut String, piece: &str, k: u64)
    ensures
        final(s)@ == old(s)@ + seq_repeat_v(piece@, k as nat),
{
    let mut i: u64 = 0;
    proof {
        assert(old(s)@ + seq_repeat_v(piece@, 0) =~= old(s)@);
    }
    while i < k
        invariant
            i <= k,
            s@ == old(s)@ + seq_repeat_v(piece@, i as nat),
        decreases k - i,
    {
        s.append(piece);
        proof {
            assert((old(s)@ + seq_repeat_v(piece@, i as nat)) + piece@ =~= old(s)@
                + seq_repeat_v(piece@, (i + 1) as nat));
        }
        i = i + 1;
    }
}

/// Pad text of known length with spaces on the left to width `w`.
pub fn pad_left(s: String, len: u64, w: u64) -> (r: String)
    requires
        len as int == s@.len(),
    ensures
        r@ == pad_left_v(s@, w as int),
{
    if len >= w {
        s
    } else {
        let mut sp = String::new();
        append_repeat(&mut sp, " ", w - len);
        proof {
            assert(Seq::<char>::empty() + seq_repeat_v(" "@, (w - len) as nat) =~= seq_repeat_v(
                " "@,
                (w - len) as nat,
            ));
        }
        sp.concat(s.as_str())
    }
}

/// The fractional digits of `r / FX_SCALE`.
fn frac_str(r: u64, fuel: u32) -> (out: String)
    requires
        r < FX_SCALE as u64,
    ensures
        out@ == frac_str_v(r as nat, fuel as nat),
    decreases fuel,
{
    if r == 0 || fuel == 0 {
        String::new()
    } else {
        let d = (r * 10) / (FX_SCALE as u64);
        let mut s = String::from_str(digit_str(d));
        let rest = frac_str((r * 10) % (FX_SCALE as u64), fuel - 1);
        s.append(rest.as_str());
        s
    }
}

/// Render a fixed-point value in decimal.
pub fn fx_to_text(v: Fx) -> (r: String)
    ensures
        r@ == fx_text_v(v@),
{
    let m: u64 = if v.raw >= 0 {
        v.raw as u64
    } else {
        (-(v.raw as i128)) as u64
    };
    let mut s = if v.raw < 0 {
        String::from_str("-")
    } else {
        String::new()
    };
    proof {
        if v.raw >= 0 {
            assert(s@ + dec_str_v(((m as int) / (FX_SCALE as int)) as nat) =~= dec_str_v(
                ((m as int) / (FX_SCALE as int)) as nat,
            ));
        }
    }
    let ip = format_u64(m / (FX_SCALE as u64));
    s.append(ip.as_str());
    let r0 = m % (FX_SCALE as u64);
    if r0 != 0 {
        s.append(".");
        let fr = frac_str(r0, 16);
        s.append(fr.as_str());
    }
    s
}

} // verus!
