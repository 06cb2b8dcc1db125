//! Encoding a pixel buffer as an ASCII portable pixmap.
//!
//! The format: three header lines — `P3`, `<width> <height>`, and the
//! largest channel value `255` — then one line per pixel of three
//! space-separated integers, row-major starting top-left. Writing the
//! text to disk belongs to the caller.

use crate::color::{color_text_v, Color, COLOR_MAX_VALUE};
use crate::text::{dec_str_v, format_u64};
use vstd::prelude::*;
use vstd::string::StringExecFns;

verus! {

/// The pixel lines of the first `n` pixels, one per line.
pub open spec fn pixel_lines_v(pixels: Seq<Color>, n: int) -> Seq<char>
    decreases n,
{
    if n <= 0 {
        Seq::<char>::empty()
    } else {
        pixel_lines_v(pixels, n - 1) + color_text_v(pixels[n - 1]@) + "\n"@
    }
}

/// The whole pixmap text: header lines, then every pixel's line.
pub open spec fn ppm_text_v(width: nat, height: nat, pixels: Seq<Color>) -> Seq<char> {
    "P3\n"@ + dec_str_v(width) + " "@ + dec_str_v(height) + "\n"@ + dec_str_v(
        COLOR_MAX_VALUE as nat,
    ) + "\n"@ + pixel_lines_v(pixels, pixels.len() as int)
}

/// A pixel buffer with its dimensions, ready to encode.
#[derive(Debug)]
pub struct V3 {
    pub width: usize,
    pub height: usize,
    pub pixels: Vec<Color>,
}

impl V3 {
    /// The pixmap text of this buffer.
    pub fn encode(&self) -> (r: String)
        ensures
            r@ == ppm_text_v(self.width as nat, self.height as nat, self.pixels@),
    {
        let mut s = String::from_str("P3\n");
        s.append(format_u64(self.width as u64).as_str());
        s.append(" ");
        s.append(format_u64(self.height as u64).as_str());
        s.append("\n");
        s.append(format_u64(COLOR_MAX_VALUE as u64).as_str());
        s.append("\n");
        let ghost header = s@;
        proof {
            assert(header + pixel_lines_v(self.pixels@, 0) =~= header);
        }
        let n = self.pixels.len();
        let mut i: usize = 0;
        while i < n
            invariant
                n == self.pixels@.len(),
                i <= n,
                s@ == header + pixel_lines_v(self.pixels@, i as int),
                header == "P3\n"@ + dec_str_v(self.width as nat) + " "@ + dec_str_v(
                    self.height as nat,
                ) + "\n"@ + dec_str_v(COLOR_MAX_VALUE as nat) + "\n"@,
            decreases n - i,
        {
            let line = self.pixels[i].to_text();
            s.append(line.as_str());
            s.append("\n");
            proof {
                assert(((header + pixel_lines_v(self.pixels@, i as int)) + color_text_v(
                    self.pixels@[i as int]@,
                )) + "\n"@ =~= header + pixel_lines_v(self.pixels@, i as int + 1));
            }
            i = i + 1;
        }
        s
    }
}

} // verus!
