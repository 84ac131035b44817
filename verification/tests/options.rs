use convertoid::convert::{ConversionOptions, Options};

#[test]
fn numbers_are_parsed_and_bounded() {
    assert_eq!(Options::parse_u32("42", 0, 100), Ok(42));
    assert_eq!(Options::parse_u32("0", 0, 100), Ok(0));
    assert_eq!(Options::parse_u32("100", 0, 100), Ok(100));
    assert_eq!(Options::parse_u32("101", 0, 100), Err("out of range"));
    assert_eq!(Options::parse_u32("-1", 0, 100), Err("out of range"));
    assert_eq!(Options::parse_u32("-1", -5, 100), Ok(-1));
    assert_eq!(Options::parse_u32("+7", 0, 100), Ok(7));
    assert_eq!(Options::parse_u32("", 0, 100), Err("invalid syntax"));
    assert_eq!(Options::parse_u32("4x", 0, 100), Err("invalid syntax"));
    assert_eq!(Options::parse_u32("--4", 0, 100), Err("invalid syntax"));
    assert_eq!(
        Options::parse_u32("99999999999", 0, 100),
        Err("invalid syntax")
    );
}

#[test]
fn range_parsing_uses_its_own_wording() {
    assert_eq!(Options::parse_in_range(5, 1000, "250"), Ok(250));
    assert_eq!(Options::parse_in_range(5, 1000, "abc"), Err("invalid_syntax"));
    assert_eq!(
        Options::parse_in_range(5, 1000, "4"),
        Err("value out of range")
    );
}

#[test]
fn scales_are_two_bounded_numbers_around_a_colon() {
    assert_eq!(Options::parse_scale("512:512"), Ok((512, 512)));
    assert_eq!(Options::parse_scale("64:128"), Ok((64, 128)));
    assert_eq!(Options::parse_scale("512512"), Err("invalid syntax"));
    assert_eq!(Options::parse_scale("63:512"), Err("out of range"));
    assert_eq!(Options::parse_scale("512:513"), Err("out of range"));
    assert_eq!(Options::parse_scale("x:512"), Err("invalid syntax"));
    assert_eq!(Options::parse_scale("512:"), Err("invalid syntax"));
}

#[test]
fn each_update_overwrites_exactly_one_field() {
    let mut opt = ConversionOptions::default();
    Options::Quality(30).apply(&mut opt);
    assert_eq!(opt.quality, 30);
    assert_eq!(opt.scale, (512, 512));
    Options::Scale(128, 256).apply(&mut opt);
    assert_eq!(opt.scale, (128, 256));
    assert_eq!(opt.quality, 30);
    Options::CompressionLevel(6).apply(&mut opt);
    Options::Preset(2).apply(&mut opt);
    Options::Delay(50).apply(&mut opt);
    Options::Fps(24).apply(&mut opt);
    Options::Lossless(true).apply(&mut opt);
    Options::LoopCount(3).apply(&mut opt);
    assert_eq!(opt.compression_level, 6);
    assert_eq!(opt.preset, 2);
    assert_eq!(opt.delay_ms, 50);
    assert_eq!(opt.fps, 24);
    assert!(opt.lossless);
    assert_eq!(opt.loop_count, 3);
}

#[test]
fn defaults_describe_a_full_canvas_lossy_loop() {
    let opt = ConversionOptions::default();
    assert_eq!(opt.scale, (512, 512));
    assert_eq!(opt.quality, 75);
    assert_eq!(opt.compression_level, 4);
    assert_eq!(opt.preset, -1);
    assert_eq!(opt.delay_ms, 100);
    assert_eq!(opt.fps, 10);
    assert!(!opt.lossless);
    assert_eq!(opt.loop_count, 0);
}

#[test]
fn the_video_filter_renders_the_scale() {
    let mut opt = ConversionOptions::default();
    Options::Scale(320, 240).apply(&mut opt);
    assert_eq!(
        opt.video_filter(),
        "scale=w=320:h=240:force_original_aspect_ratio=decrease,pad=320:240:-1:-1:color=0x00000000"
    );
}
