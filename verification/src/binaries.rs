//! Typed wrappers around the wrapped external tools: each one knows its
//! binary's location and builds the fixed argument list for one invocation.
//! Running the processes is the caller's business; a non-zero exit is
//! classified here into a structured failure.

use vstd::prelude::*;
use crate::convert::{ConversionOptions, video_filter_of};
use crate::text::{dec_digits, dec_str, decimal_i64, decimal_u64};

verus! {

/// An external process exited non-zero: the program, the arguments it was
/// given, and what it wrote on its error stream.
#[derive(Debug)]
pub struct ToolFailure {
    pub program: String,
    pub args: Vec<String>,
    pub stderr: String,
}

/// Classifies one finished process: exit code zero is success, anything
/// else a `ToolFailure` carrying the whole invocation.
pub fn command_outcome(program: String, args: Vec<String>, exit_ok: bool, stderr: String) -> (r:
    Result<(), ToolFailure>)
    ensures
        match r {
            Result::Ok(()) => exit_ok,
            Result::Err(f) => !exit_ok && f.program == program && f.args == args && f.stderr
                == stderr,
        },
{
    if exit_ok {
        Ok(())
    } else {
        Err(ToolFailure { program, args, stderr })
    }
}

/// View of an argument vector as a sequence of character sequences.
pub open spec fn args_view(args: Seq<String>) -> Seq<Seq<char>> {
    args.map_values(|s: String| s@)
}

/// The probe binary: reports frame durations and canvas size as text.
#[derive(Debug)]
pub struct WebpInfo(pub String);

impl WebpInfo {
    pub fn new(str: &str) -> (r: Self)
        ensures
            r.0@ == str@,
    {
        WebpInfo(str.to_owned())
    }

    pub fn path(&self) -> (r: &String)
        ensures
            r@ == self.0@,
    {
        &self.0
    }

    /// Arguments to probe one file: the file alone.
    pub fn info_args(&self, webp: &String) -> (r: Vec<String>)
        ensures
            args_view(r@) =~= seq![webp@],
    {
        let mut args: Vec<String> = Vec::new();
        args.push(webp.clone());
        args
    }
}

/// The frame-dump binary: writes one numbered image file per frame.
#[derive(Debug)]
pub struct AnimDump(pub String);

impl AnimDump {
    pub fn new(str: &str) -> (r: Self)
        ensures
            r.0@ == str@,
    {
        AnimDump(str.to_owned())
    }

    pub fn path(&self) -> (r: &String)
        ensures
            r@ == self.0@,
    {
        &self.0
    }

    /// Arguments to dump `webp`'s frames into `dst`: unprefixed numbered
    /// files in that folder.
    pub fn dump_frames_args(&self, webp: &String, dst: &String) -> (r: Vec<String>)
        ensures
            args_view(r@) =~= seq!["-prefix"@, ""@, "-folder"@, dst@, webp@],
    {
        let mut args: Vec<String> = Vec::new();
        args.push(String::from_str("-prefix"));
        args.push(String::from_str(""));
        args.push(String::from_str("-folder"));
        args.push(dst.clone());
        args.push(webp.clone());
        args
    }
}

/// The fixed resize filter: fit into the sticker canvas, pad the rest.
pub const RESIZE_VIDEO_FILTER: &'static str =
    "scale=w=512:h=512:force_original_aspect_ratio=decrease,pad=512:512:-1:-1:color=0x00000000";

/// The ffmpeg binary: resizes frame sequences and encodes animations.
#[derive(Debug)]
pub struct Ffmpeg(pub String);

impl Ffmpeg {
    pub fn new(str: &str) -> (r: Self)
        ensures
            r.0@ == str@,
    {
        Ffmpeg(str.to_owned())
    }

    pub fn path(&self) -> (r: &String)
        ensures
            r@ == self.0@,
    {
        &self.0
    }

    /// Arguments to resize a whole numbered sequence (`input` and `output`
    /// are printf-style patterns) onto the fixed sticker canvas.
    pub fn resize_images_args(&self, input: &String, output: &String) -> (r: Vec<String>)
        ensures
            args_view(r@) =~= seq!["-i"@, input@, "-vf"@, RESIZE_VIDEO_FILTER@, "-y"@, output@],
    {
        let mut args: Vec<String> = Vec::new();
        args.push(String::from_str("-i"));
        args.push(input.clone());
        args.push(String::from_str("-vf"));
        args.push(String::from_str(RESIZE_VIDEO_FILTER));
        args.push(String::from_str("-y"));
        args.push(output.clone());
        args
    }

    /// Arguments to encode a numbered image sequence into one animated WebP
    /// under the given conversion options.
    pub fn webp_from_images_args(&self, opt: &ConversionOptions, input: &String, output: &String)
        -> (r: Vec<String>)
        ensures
            args_view(r@) =~= seq![
                "-i"@,
                input@,
                "-pix_fmt"@,
                "yuva420p"@,
                "-compression_level"@,
                dec_digits(opt.compression_level as nat),
                "-preset"@,
                dec_str(opt.preset as int),
                "-quality"@,
                dec_digits(opt.quality as nat),
                "-loop"@,
                dec_digits(opt.loop_count as nat),
                "-lossless"@,
                (if opt.lossless {
                    "1"@
                } else {
                    "0"@
                }),
                "-vf"@,
                video_filter_of(opt.scale.0 as nat, opt.scale.1 as nat),
                "-fps_mode"@,
                "vfr"@,
                "-an"@,
                "-y"@,
                output@,
            ],
    {
        let mut args: Vec<String> = Vec::new();
        args.push(String::from_str("-i"));
        args.push(input.clone());
        args.push(String::from_str("-pix_fmt"));
        args.push(String::from_str("yuva420p"));
        args.push(String::from_str("-compression_level"));
        args.push(decimal_u64(opt.compression_level as u64));
        args.push(String::from_str("-preset"));
        args.push(decimal_i64(opt.preset as i64));
        args.push(String::from_str("-quality"));
        args.push(decimal_u64(opt.quality as u64));
        args.push(String::from_str("-loop"));
        args.push(decimal_u64(opt.loop_count as u64));
        args.push(String::from_str("-lossless"));
        if opt.lossless {
            args.push(String::from_str("1"));
        } else {
            args.push(String::from_str("0"));
        }
        args.push(String::from_str("-vf"));
        args.push(opt.video_filter());
        args.push(String::from_str("-fps_mode"));
        args.push(String::from_str("vfr"));
        args.push(String::from_str("-an"));
        args.push(String::from_str("-y"));
        args.push(output.clone());
        args
    }
}

/// One row of a frame-encode job: the frame file, how long it is shown,
/// and the compression applied to it in the current attempt.
#[derive(Debug)]
pub struct Img2WebpFrame {
    pub path: String,
    pub duration: i32,
    pub compression_quality: i32,
    pub compression_method: i32,
}

impl Img2WebpFrame {
    pub fn new(path: String, duration: i32, compression_quality: i32, compression_method: i32)
        -> (r: Img2WebpFrame)
        ensures
            r.path == path,
            r.duration == duration,
            r.compression_quality == compression_quality,
            r.compression_method == compression_method,
    {
        Img2WebpFrame { path, duration, compression_quality, compression_method }
    }
}

/// The argument group contributed by one frame: duration, quality, method,
/// then the frame file itself.
pub open spec fn frame_args_of(f: Img2WebpFrame) -> Seq<Seq<char>> {
    seq![
        "-d"@,
        dec_str(f.duration as int),
        "-q"@,
        dec_str(f.compression_quality as int),
        "-m"@,
        dec_str(f.compression_method as int),
        f.path@,
    ]
}

/// The argument groups of all frames, in order.
pub open spec fn frames_args_of(fs: Seq<Img2WebpFrame>) -> Seq<Seq<char>>
    decreases fs.len(),
{
    if fs.len() == 0 {
        Seq::<Seq<char>>::empty()
    } else {
        frames_args_of(fs.drop_last()) + frame_args_of(fs.last())
    }
}

/// The multi-frame encoder binary: one argument group per frame.
#[derive(Debug)]
pub struct Img2Webp(pub String);

impl Img2Webp {
    pub fn new(str: &str) -> (r: Self)
        ensures
            r.0@ == str@,
    {
        Img2Webp(str.to_owned())
    }

    pub fn path(&self) -> (r: &String)
        ensures
            r@ == self.0@,
    {
        &self.0
    }

    /// Arguments to encode the frames into one animated file: the output
    /// and loop count, then each frame's duration, quality, method and
    /// path, in frame order.
    pub fn webp_from_images_args(
        &self,
        opt: &ConversionOptions,
        output: &String,
        frames: &Vec<Img2WebpFrame>,
    ) -> (r: Vec<String>)
        ensures
            args_view(r@) =~= seq!["-o"@, output@, "-loop"@, dec_digits(opt.loop_count as nat)]
                + frames_args_of(frames@),
    {
        let ghost prefix: Seq<Seq<char>> = seq![
            "-o"@,
            output@,
            "-loop"@,
            dec_digits(opt.loop_count as nat),
        ];
        let mut args: Vec<String> = Vec::new();
        args.push(String::from_str("-o"));
        args.push(output.clone());
        args.push(String::from_str("-loop"));
        args.push(decimal_u64(opt.loop_count as u64));
        proof {
            assert(args_view(args@) =~= prefix + frames_args_of(frames@.take(0)));
        }
        let mut i: usize = 0;
        while i < frames.len()
            invariant
                i <= frames@.len(),
                prefix == seq!["-o"@, output@, "-loop"@, dec_digits(opt.loop_count as nat)],
                args_view(args@) == prefix + frames_args_of(frames@.take(i as int)),
            decreases frames@.len() - i,
        {
            let ghost prev = args_view(args@);
            let f = &frames[i];
            args.push(String::from_str("-d"));
            args.push(decimal_i64(f.duration as i64));
            args.push(String::from_str("-q"));
            args.push(decimal_i64(f.compression_quality as i64));
            args.push(String::from_str("-m"));
            args.push(decimal_i64(f.compression_method as i64));
            args.push(f.path.clone());
            proof {
                assert(frames@.take(i + 1).drop_last() =~= frames@.take(i as int));
                assert(frames@.take(i + 1).last() == frames@[i as int]);
                assert(args_view(args@) =~= prev + frame_args_of(frames@[i as int]));
                assert(frames_args_of(frames@.take(i + 1)) == frames_args_of(
                    frames@.take(i as int),
                ) + frame_args_of(frames@[i as int]));
                assert(args_view(args@) =~= prefix + frames_args_of(frames@.take(i + 1)));
            }
            i = i + 1;
        }
        proof {
            assert(frames@.take(frames@.len() as int) =~= frames@);
        }
        args
    }
}

/// The single-image converter binary: one image onto the sticker canvas.
#[derive(Debug)]
pub struct Magick(pub String);

impl Magick {
    pub fn new(str: &str) -> (r: Self)
        ensures
            r.0@ == str@,
    {
        Magick(str.to_owned())
    }

    pub fn path(&self) -> (r: &String)
        ensures
            r@ == self.0@,
    {
        &self.0
    }

    /// Arguments to convert one image onto the fixed canvas, centred on a
    /// transparent background, optionally lossless.
    pub fn convert_args(&self, input: &String, output: &String, lossless: bool) -> (r: Vec<
        String,
    >)
        ensures
            args_view(r@) =~= (if lossless {
                seq![
                    "-size"@,
                    "512x512"@,
                    "-background"@,
                    "none"@,
                    input@,
                    "-gravity"@,
                    "center"@,
                    "-extent"@,
                    "512x512"@,
                    "-define"@,
                    "webp:lossless=true"@,
                    output@,
                ]
            } else {
                seq![
                    "-size"@,
                    "512x512"@,
                    "-background"@,
                    "none"@,
                    input@,
                    "-gravity"@,
                    "center"@,
                    "-extent"@,
                    "512x512"@,
                    output@,
                ]
            }),
    {
        let mut args: Vec<String> = Vec::new();
        args.push(String::from_str("-size"));
        args.push(String::from_str("512x512"));
        args.push(String::from_str("-background"));
        args.push(String::from_str("none"));
        args.push(input.clone());
        args.push(String::from_str("-gravity"));
        args.push(String::from_str("center"));
        args.push(String::from_str("-extent"));
        args.push(String::from_str("512x512"));
        if lossless {
            args.push(String::from_str("-define"));
            args.push(String::from_str("webp:lossless=true"));
        }
        args.push(output.clone());
        proof {
            if lossless {
                assert(args_view(args@) =~= seq![
                    "-size"@,
                    "512x512"@,
                    "-background"@,
                    "none"@,
                    input@,
                    "-gravity"@,
                    "center"@,
                    "-extent"@,
                    "512x512"@,
                    "-define"@,
                    "webp:lossless=true"@,
                    output@,
                ]);
            } else {
                assert(args_view(args@) =~= seq![
                    "-size"@,
                    "512x512"@,
                    "-background"@,
                    "none"@,
                    input@,
                    "-gravity"@,
                    "center"@,
                    "-extent"@,
                    "512x512"@,
                    output@,
                ]);
            }
        }
        args
    }
}

/// The viewer binary: shows one file.
#[derive(Debug)]
pub struct VWebp(pub String);

impl VWebp {
    pub fn new(str: &str) -> (r: Self)
        ensures
            r.0@ == str@,
    {
        VWebp(str.to_owned())
    }

    pub fn path(&self) -> (r: &String)
        ensures
            r@ == self.0@,
    {
        &self.0
    }

    /// Arguments to view one file: the file alone.
    pub fn view_webp_args(&self, input: &String) -> (r: Vec<String>)
        ensures
            args_view(r@) =~= seq![input@],
    {
        let mut args: Vec<String> = Vec::new();
        args.push(input.clone());
        args
    }
}

/// The locations of all wrapped binaries.
#[derive(Debug)]
pub struct Binaries {
    pub anim_dump: AnimDump,
    pub webp_info: WebpInfo,
    pub ffmpeg: Ffmpeg,
    pub magick: Magick,
    pub img_2_webp: Img2Webp,
    pub v_webp: VWebp,
}

} // verus!
