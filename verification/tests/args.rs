use convertoid::binaries::{
    AnimDump, Binaries, Ffmpeg, Img2Webp, Img2WebpFrame, Magick, VWebp, WebpInfo, command_outcome,
};
use convertoid::convert::ConversionOptions;

fn s(v: &str) -> String {
    v.to_string()
}

#[test]
fn tool_paths_are_kept() {
    let bin = Binaries {
        anim_dump: AnimDump::new("/opt/anim_dump"),
        webp_info: WebpInfo::new("/opt/webpinfo"),
        ffmpeg: Ffmpeg::new("/opt/ffmpeg"),
        magick: Magick::new("/opt/magick"),
        img_2_webp: Img2Webp::new("/opt/img2webp"),
        v_webp: VWebp::new("/opt/vwebp"),
    };
    assert_eq!(bin.anim_dump.path(), "/opt/anim_dump");
    assert_eq!(bin.webp_info.path(), "/opt/webpinfo");
    assert_eq!(bin.ffmpeg.path(), "/opt/ffmpeg");
    assert_eq!(bin.magick.path(), "/opt/magick");
    assert_eq!(bin.img_2_webp.path(), "/opt/img2webp");
    assert_eq!(bin.v_webp.path(), "/opt/vwebp");
}

#[test]
fn probe_and_viewer_take_the_file_alone() {
    assert_eq!(WebpInfo::new("w").info_args(&s("dl/a.webp")), vec![s("dl/a.webp")]);
    assert_eq!(VWebp::new("v").view_webp_args(&s("out/a.webp")), vec![s("out/a.webp")]);
}

#[test]
fn frame_dumping_names_the_folder_and_the_source() {
    let args = AnimDump::new("d").dump_frames_args(&s("dl/a.webp"), &s("raw/a"));
    assert_eq!(args, vec![s("-prefix"), s(""), s("-folder"), s("raw/a"), s("dl/a.webp")]);
}

#[test]
fn resizing_runs_over_the_whole_pattern() {
    let args = Ffmpeg::new("f").resize_images_args(&s("raw/a/%04d.png"), &s("rs/a/%04d.png"));
    assert_eq!(
        args,
        vec![
            s("-i"),
            s("raw/a/%04d.png"),
            s("-vf"),
            s("scale=w=512:h=512:force_original_aspect_ratio=decrease,pad=512:512:-1:-1:color=0x00000000"),
            s("-y"),
            s("rs/a/%04d.png"),
        ]
    );
}

#[test]
fn the_animated_ffmpeg_encode_carries_every_option() {
    let opt = ConversionOptions::default();
    let args = Ffmpeg::new("f").webp_from_images_args(&opt, &s("in/%04d.png"), &s("out.webp"));
    assert_eq!(
        args,
        vec![
            s("-i"),
            s("in/%04d.png"),
            s("-pix_fmt"),
            s("yuva420p"),
            s("-compression_level"),
            s("4"),
            s("-preset"),
            s("-1"),
            s("-quality"),
            s("75"),
            s("-loop"),
            s("0"),
            s("-lossless"),
            s("0"),
            s("-vf"),
            s("scale=w=512:h=512:force_original_aspect_ratio=decrease,pad=512:512:-1:-1:color=0x00000000"),
            s("-fps_mode"),
            s("vfr"),
            s("-an"),
            s("-y"),
            s("out.webp"),
        ]
    );
}

#[test]
fn the_multi_frame_encoder_gets_one_group_per_frame() {
    let opt = ConversionOptions::default();
    let frames = vec![
        Img2WebpFrame::new(s("rs/0001.png"), 40, 75, 4),
        Img2WebpFrame::new(s("rs/0002.png"), 120, 75, 4),
    ];
    let args = Img2Webp::new("i").webp_from_images_args(&opt, &s("out.webp"), &frames);
    assert_eq!(
        args,
        vec![
            s("-o"),
            s("out.webp"),
            s("-loop"),
            s("0"),
            s("-d"),
            s("40"),
            s("-q"),
            s("75"),
            s("-m"),
            s("4"),
            s("rs/0001.png"),
            s("-d"),
            s("120"),
            s("-q"),
            s("75"),
            s("-m"),
            s("4"),
            s("rs/0002.png"),
        ]
    );
}

#[test]
fn the_static_converter_centres_on_the_canvas() {
    let args = Magick::new("m").convert_args(&s("rs/0001.png"), &s("out.webp"), false);
    assert_eq!(
        args,
        vec![
            s("-size"),
            s("512x512"),
            s("-background"),
            s("none"),
            s("rs/0001.png"),
            s("-gravity"),
            s("center"),
            s("-extent"),
            s("512x512"),
            s("out.webp"),
        ]
    );
    let lossless = Magick::new("m").convert_args(&s("a"), &s("b"), true);
    assert_eq!(lossless.len(), 12);
    assert_eq!(lossless[9], s("-define"));
    assert_eq!(lossless[10], s("webp:lossless=true"));
}

#[test]
fn non_zero_exits_carry_the_whole_invocation() {
    let ok = command_outcome(s("ffmpeg"), vec![s("-y")], true, String::new());
    assert!(ok.is_ok());
    let err = command_outcome(s("ffmpeg"), vec![s("-y")], false, s("boom")).unwrap_err();
    assert_eq!(err.program, "ffmpeg");
    assert_eq!(err.args, vec![s("-y")]);
    assert_eq!(err.stderr, "boom");
}
