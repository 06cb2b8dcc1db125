//! The textual progress bar: a snapshot of work done over work expected,
//! rendered as one terminal line with a spinner, a percentage, a bar of
//! box-drawing characters, and grouped counts.
//!
//! Drawing the line to a terminal, and the shared atomic counter workers
//! increment, live with the caller; this module owns only the pure text.

use crate::text::{
    dec_digit, dec_str_v, format_u64_len, lemma_dec_len_bound, pad_left, pad_left_v, seq_repeat_v,
    append_repeat,
};
use vstd::arithmetic::div_mod::{
    lemma_div_is_ordered, lemma_div_is_strictly_smaller, lemma_div_multiples_vanish,
    lemma_fundamental_div_mod, lemma_multiply_divide_lt,
};
use vstd::prelude::*;
use vstd::string::StringExecFns;

verus! {

/// The decimal rendering of a count with a comma between each group of
/// three digits.
pub open spec fn comma_number_v(n: nat) -> Seq<char>
    decreases n,
{
    if n < 1000 {
        dec_str_v(n)
    } else {
        comma_number_v(n / 1000) + ","@ + seq![dec_digit(((n % 1000) / 100) as int)] + seq![
            dec_digit((((n % 1000) / 10) % 10) as int),
        ] + seq![dec_digit(((n % 1000) % 10) as int)]
    }
}

/// As for plain decimal text, one character per unit bounds the length.
pub proof fn lemma_comma_len_bound(n: nat)
    ensures
        1 <= comma_number_v(n).len() <= n + 1,
    decreases n,
{
    if n < 1000 {
        lemma_dec_len_bound(n);
    } else {
        reveal_strlit(",");
        lemma_comma_len_bound(n / 1000);
        lemma_div_is_strictly_smaller(n as int, 1000);
        lemma_fundamental_div_mod(n as int, 1000);
        lemma_div_is_ordered(1000, n as int, 1000);
        lemma_div_multiples_vanish(1, 1000);
    }
}

/// One frame of the spinner.
pub open spec fn spinner_char_v(i: int) -> Seq<char> {
    if i == 0 {
        "\u{280b}"@
    } else if i == 1 {
        "\u{2819}"@
    } else if i == 2 {
        "\u{2839}"@
    } else if i == 3 {
        "\u{2838}"@
    } else if i == 4 {
        "\u{283c}"@
    } else if i == 5 {
        "\u{2834}"@
    } else if i == 6 {
        "\u{2826}"@
    } else if i == 7 {
        "\u{2827}"@
    } else if i == 8 {
        "\u{2807}"@
    } else {
        "\u{280f}"@
    }
}

/// The whole progress line. Work done is clamped to the expected total
/// for the percentage and the bar geometry (an empty total counts as
/// done); the raw counts are shown as grouped numbers, the current one
/// padded to the total's width.
pub open spec fn bar_v(cur: nat, max: nat, frame: nat) -> Seq<char> {
    let c = if cur <= max {
        cur
    } else {
        max
    };
    let percent = if max == 0 {
        100 as nat
    } else {
        (100 * c) / max
    };
    let filled = if max == 0 {
        48 as nat
    } else {
        (96 * c + max) / (2 * max)
    };
    let spinner = if percent == 100 {
        Seq::<char>::empty()
    } else {
        "\u{1b}[1m\u{1b}[36m"@ + spinner_char_v((frame % 10) as int) + "\u{1b}[0m"@
    };
    spinner + pad_left_v(dec_str_v(percent), 3) + "%"@ + " "@ + seq_repeat_v("\u{2501}"@, filled)
        + "\u{1b}[90m"@ + seq_repeat_v("\u{2500}"@, (48 - filled) as nat) + "\u{1b}[0m"@ + " "@
        + pad_left_v(comma_number_v(cur), comma_number_v(max).len() as int) + " / "@
        + comma_number_v(max) + " "@
}

/// A snapshot of the progress counter: work done so far out of the total
/// expected.
#[derive(Clone, Copy, Debug, PartialEq, Eq, Structural)]
pub struct State {
    pub cur: usize,
    pub max: usize,
}

/// Render a count with comma-grouped digits.
pub fn format_number(value: usize) -> (r: String)
    ensures
        r@ == comma_number_v(value as nat),
{
    let (s, _len) = comma_number_len(value as u64);
    s
}

/// Render a count with comma-grouped digits, returning the text and its
/// length.
fn comma_number_len(n: u64) -> (r: (String, u64))
    ensures
        r.0@ == comma_number_v(n as nat),
        r.1 as int == r.0@.len(),
    decreases n,
{
    if n < 1000 {
        format_u64_len(n)
    } else {
        let (mut s, l) = comma_number_len(n / 1000);
        proof {
            reveal_strlit(",");
            lemma_comma_len_bound((n / 1000) as nat);
        }
        let m = n % 1000;
        s.append(",");
        s.append(crate::text::digit_str(m / 100));
        s.append(crate::text::digit_str((m / 10) % 10));
        s.append(crate::text::digit_str(m % 10));
        (s, l + 4)
    }
}

/// One frame of the spinner.
fn spinner_char(frame: usize) -> (r: &'static str)
    ensures
        r@ == spinner_char_v((frame % 10) as int),
{
    match frame % 10 {
        0 => "\u{280b}",
        1 => "\u{2819}",
        2 => "\u{2839}",
        3 => "\u{2838}",
        4 => "\u{283c}",
        5 => "\u{2834}",
        6 => "\u{2826}",
        7 => "\u{2827}",
        8 => "\u{2807}",
        _ => "\u{280f}",
    }
}

impl State {
    /// The progress line for this snapshot at a given spinner frame.
    pub fn bar(&self, frame: usize) -> (r: String)
        ensures
            r@ == bar_v(self.cur as nat, self.max as nat, frame as nat),
    {
        let c: u64 = if self.cur <= self.max {
            self.cur as u64
        } else {
            self.max as u64
        };
        let max: u64 = self.max as u64;
        let (percent, filled): (u64, u64) = if max == 0 {
            (100, 48)
        } else {
            proof {
                lemma_div_is_ordered(100 * (c as int), 100 * (max as int), max as int);
                lemma_div_multiples_vanish(100, max as int);
                assert((2 * (max as int)) * 49 == 98 * (max as int)) by (nonlinear_arith);
                lemma_multiply_divide_lt(
                    96 * (c as int) + max as int,
                    2 * (max as int),
                    49,
                );
            }
            let p = ((100 as u128 * c as u128) / (max as u128)) as u64;
            let f = (((96 as u128) * (c as u128) + (max as u128)) / (2 * (max as u128))) as u64;
            (p, f)
        };

        let mut s = if percent == 100 {
            String::new()
        } else {
            let mut t = String::from_str("\u{1b}[1m\u{1b}[36m");
            t.append(spinner_char(frame));
            t.append("\u{1b}[0m");
            t
        };
        let (ptxt, plen) = format_u64_len(percent);
        let padded_percent = pad_left(ptxt, plen, 3);
        s.append(padded_percent.as_str());
        s.append("%");
        s.append(" ");
        append_repeat(&mut s, "\u{2501}", filled);
        s.append("\u{1b}[90m");
        append_repeat(&mut s, "\u{2500}", 48 - filled);
        s.append("\u{1b}[0m");
        s.append(" ");
        let (max_txt, max_len) = comma_number_len(max);
        let (cur_txt, cur_len) = comma_number_len(self.cur as u64);
        let padded_cur = pad_left(cur_txt, cur_len, max_len);
        s.append(padded_cur.as_str());
        s.append(" / ");
        s.append(max_txt.as_str());
        s.append(" ");
        s
    }
}

} // verus!
