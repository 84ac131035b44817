//! Tunables of the re-encode step, and the closed set of update operations
//! that an interactive option builder applies to them.

use vstd::prelude::*;
use crate::text::{append_u64, chars_of, dec_digits, int_literal_val, parse_i32_chars, parses_as_i32};

verus! {

/// Tunables of the re-encode step, shared read-only across a batch.
#[derive(Debug)]
pub struct ConversionOptions {
    pub scale: (u32, u32),
    pub quality: u32,
    pub compression_level: u32,
    pub preset: i32,
    pub delay_ms: u32,
    pub fps: u32,
    pub lossless: bool,
    pub loop_count: u32,
}

/// The scale-and-pad video filter for a given output canvas: fit the image
/// inside the canvas keeping its aspect ratio, then pad with transparency.
pub open spec fn video_filter_of(w: nat, h: nat) -> Seq<char> {
    "scale=w="@ + dec_digits(w) + ":h="@ + dec_digits(h)
        + ":force_original_aspect_ratio=decrease,pad="@ + dec_digits(w) + ":"@ + dec_digits(h)
        + ":-1:-1:color=0x00000000"@
}

impl ConversionOptions {
    /// The ffmpeg video filter string for these options' scale.
    pub fn video_filter(&self) -> (r: String)
        ensures
            r@ == video_filter_of(self.scale.0 as nat, self.scale.1 as nat),
    {
        let mut s = String::new();
        s.append("scale=w=");
        append_u64(&mut s, self.scale.0 as u64);
        s.append(":h=");
        append_u64(&mut s, self.scale.1 as u64);
        s.append(":force_original_aspect_ratio=decrease,pad=");
        append_u64(&mut s, self.scale.0 as u64);
        s.append(":");
        append_u64(&mut s, self.scale.1 as u64);
        s.append(":-1:-1:color=0x00000000");
        proof {
            assert(s@ =~= video_filter_of(self.scale.0 as nat, self.scale.1 as nat));
        }
        s
    }
}

impl Default for ConversionOptions {
    /// Defaults: full sticker canvas, mid quality, no preset, ten frames a
    /// second, lossy, loop forever.
    fn default() -> (r: Self)
        ensures
            r.scale == (512u32, 512u32),
            r.quality == 75u32,
            r.compression_level == 4u32,
            r.preset == -1i32,
            r.delay_ms == 100u32,
            r.fps == 10u32,
            r.lossless == false,
            r.loop_count == 0u32,
    {
        ConversionOptions {
            scale: (512, 512),
            quality: 75,
            compression_level: 4,
            preset: -1,
            delay_ms: 100,
            fps: 10,
            lossless: false,
            loop_count: 0,
        }
    }
}

/// One update of a `ConversionOptions` record: the closed set of choices an
/// interactive builder offers before the sentinel "finish".
#[derive(Debug, Clone, Copy, PartialEq, Eq, Structural)]
pub enum Options {
    Scale(u32, u32),
    Quality(u32),
    CompressionLevel(u32),
    Preset(i32),
    Delay(u32),
    Fps(u32),
    Lossless(bool),
    LoopCount(u32),
}

/// Index of the first colon in `s`, or `s.len()` when there is none.
pub open spec fn first_colon(s: Seq<char>) -> nat
    decreases s.len(),
{
    if s.len() == 0 {
        0
    } else if s[0] == ':' {
        0
    } else {
        1 + first_colon(s.skip(1))
    }
}

pub proof fn lemma_first_colon_charac(s: Seq<char>, k: nat)
    requires
        k <= s.len(),
        forall|i: int| 0 <= i < k ==> s[i] != ':',
        k < s.len() ==> s[k as int] == ':',
    ensures
        first_colon(s) == k,
    decreases s.len(),
{
    if s.len() > 0 && s[0] != ':' {
        lemma_first_colon_charac(s.skip(1), (k - 1) as nat);
    }
}

/// The result a numeric prompt validator owes for `input` under bounds
/// `min..=max`: an `i32`-literal in range, "invalid syntax" for anything
/// unreadable, "out of range" for a readable value outside the bounds.
pub open spec fn parse_u32_result(r: Result<i32, &'static str>, input: Seq<char>, min: int, max: int)
    -> bool {
    match r {
        Result::Ok(v) => parses_as_i32(input) && min <= v <= max && v == int_literal_val(input),
        Result::Err(m) => {
            ||| (!parses_as_i32(input) && m@ == "invalid syntax"@)
            ||| (parses_as_i32(input) && !(min <= int_literal_val(input) <= max) && m@
                == "out of range"@)
        },
    }
}

impl Options {
    /// Reads a bounded number from prompt input: an integer literal whose
    /// value lies in `min..=max`.
    pub fn parse_u32(input: &str, min: i32, max: i32) -> (r: Result<i32, &'static str>)
        ensures
            parse_u32_result(r, input@, min as int, max as int),
    {
        let v = chars_of(input);
        proof {
            assert(v@.subrange(0, v@.len() as int) =~= input@);
        }
        match parse_i32_chars(&v, 0, v.len()) {
            Option::None => Err("invalid syntax"),
            Option::Some(x) => {
                if x < min || x > max {
                    Err("out of range")
                } else {
                    Ok(x)
                }
            },
        }
    }

    /// Reads a bounded number from prompt input, with the range's own
    /// wording.
    pub fn parse_in_range(min: i32, max: i32, input: &str) -> (r: Result<i32, &'static str>)
        ensures
            match r {
                Result::Ok(v) => parses_as_i32(input@) && min <= v <= max && v == int_literal_val(
                    input@,
                ),
                Result::Err(m) => {
                    ||| (!parses_as_i32(input@) && m@ == "invalid_syntax"@)
                    ||| (parses_as_i32(input@) && !(min <= int_literal_val(input@) <= max) && m@
                        == "value out of range"@)
                },
            },
    {
        let v = chars_of(input);
        proof {
            assert(v@.subrange(0, v@.len() as int) =~= input@);
        }
        match parse_i32_chars(&v, 0, v.len()) {
            Option::None => Err("invalid_syntax"),
            Option::Some(x) => {
                if x < min || x > max {
                    Err("value out of range")
                } else {
                    Ok(x)
                }
            },
        }
    }

    /// Reads a `w:h` scale from prompt input: two numbers between 64 and
    /// 512 around the first colon.
    pub fn parse_scale(input: &str) -> (r: Result<(u32, u32), &'static str>)
        ensures
            ({
                let s = input@;
                let c = first_colon(s) as int;
                let left = s.take(c);
                let right = s.skip(c + 1);
                match r {
                    Result::Ok(wh) => {
                        &&& c < s.len()
                        &&& parses_as_i32(left) && 64 <= int_literal_val(left) <= 512
                        &&& parses_as_i32(right) && 64 <= int_literal_val(right) <= 512
                        &&& wh.0 == int_literal_val(left)
                        &&& wh.1 == int_literal_val(right)
                    },
                    Result::Err(m) => {
                        ||| (c == s.len() && m@ == "invalid syntax"@)
                        ||| (c < s.len() && !parses_as_i32(left) && m@ == "invalid syntax"@)
                        ||| (c < s.len() && parses_as_i32(left) && !(64 <= int_literal_val(left)
                            <= 512) && m@ == "out of range"@)
                        ||| (c < s.len() && parses_as_i32(left) && 64 <= int_literal_val(left)
                            <= 512 && !parses_as_i32(right) && m@ == "invalid syntax"@)
                        ||| (c < s.len() && parses_as_i32(left) && 64 <= int_literal_val(left)
                            <= 512 && parses_as_i32(right) && !(64 <= int_literal_val(right)
                            <= 512) && m@ == "out of range"@)
                    },
                }
            }),
    {
        let v = chars_of(input);
        let mut c: usize = 0;
        while c < v.len() && v[c] != ':'
            invariant
                c <= v@.len(),
                forall|i: int| 0 <= i < c ==> v@[i] != ':',
            decreases v@.len() - c,
        {
            c = c + 1;
        }
        proof {
            lemma_first_colon_charac(v@, c as nat);
        }
        if c == v.len() {
            return Err("invalid syntax");
        }
        proof {
            assert(v@.subrange(0, c as int) =~= input@.take(c as int));
            assert(v@.subrange(c + 1, v@.len() as int) =~= input@.skip(c + 1));
        }
        let w = match parse_i32_chars(&v, 0, c) {
            Option::None => {
                return Err("invalid syntax");
            },
            Option::Some(x) => {
                if x < 64 || x > 512 {
                    return Err("out of range");
                }
                x
            },
        };
        let h = match parse_i32_chars(&v, c + 1, v.len()) {
            Option::None => {
                return Err("invalid syntax");
            },
            Option::Some(x) => {
                if x < 64 || x > 512 {
                    return Err("out of range");
                }
                x
            },
        };
        Ok((w as u32, h as u32))
    }

    /// Overwrites the one field this update names and leaves the rest.
    pub fn apply(self, opt: &mut ConversionOptions)
        ensures
            final(opt).scale == (match self {
                Options::Scale(w, h) => (w, h),
                _ => old(opt).scale,
            }),
            final(opt).quality == (match self {
                Options::Quality(q) => q,
                _ => old(opt).quality,
            }),
            final(opt).compression_level == (match self {
                Options::CompressionLevel(m) => m,
                _ => old(opt).compression_level,
            }),
            final(opt).preset == (match self {
                Options::Preset(p) => p,
                _ => old(opt).preset,
            }),
            final(opt).delay_ms == (match self {
                Options::Delay(d) => d,
                _ => old(opt).delay_ms,
            }),
            final(opt).fps == (match self {
                Options::Fps(f) => f,
                _ => old(opt).fps,
            }),
            final(opt).lossless == (match self {
                Options::Lossless(l) => l,
                _ => old(opt).lossless,
            }),
            final(opt).loop_count == (match self {
                Options::LoopCount(c) => c,
                _ => old(opt).loop_count,
            }),
    {
        match self {
            Options::Scale(w, h) => {
                opt.scale = (w, h);
            },
            Options::Quality(q) => {
                opt.quality = q;
            },
            Options::CompressionLevel(m) => {
                opt.compression_level = m;
            },
            Options::Preset(p) => {
                opt.preset = p;
            },
            Options::Delay(d) => {
                opt.delay_ms = d;
            },
            Options::Fps(f) => {
                opt.fps = f;
            },
            Options::Lossless(l) => {
                opt.lossless = l;
            },
            Options::LoopCount(c) => {
                opt.loop_count = c;
            },
        }
    }
}

} // verus!
