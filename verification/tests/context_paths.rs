use convertoid::binaries::{AnimDump, Binaries, Ffmpeg, Img2Webp, Magick, VWebp, WebpInfo};
use convertoid::context::Context;
use convertoid::emote_ext::{BttvId, EmoteId, EmoteIdExt, SevenTvId};
use convertoid::opt::Opt;

const SEVEN: &str = "0123456789abcdef01234567";
const BTTV: &str = "aaaaaaaaaaaaaaaaaaaaaaaa";

fn test_context() -> Context {
    let opt = Opt {
        seven_tv_ids: vec![SevenTvId::parse_id(SEVEN).unwrap()],
        bttv_ids: vec![BttvId::parse_id(BTTV).unwrap()],
        svg_names: vec![],
        download_dir: "dl".to_string(),
        raw_frames_dir: "frames/raw/".to_string(),
        resized_frames_dir: "frames/resized".to_string(),
        out_static_dir: "out-static".to_string(),
        out_anim_dir: "out-anim".to_string(),
        force: false,
        dry_run: false,
        download: false,
    };
    let bin = Binaries {
        anim_dump: AnimDump::new("anim_dump"),
        webp_info: WebpInfo::new("webpinfo"),
        ffmpeg: Ffmpeg::new("ffmpeg"),
        magick: Magick::new("magick"),
        img_2_webp: Img2Webp::new("img2webp"),
        v_webp: VWebp::new("vwebp"),
    };
    Context::new(opt, bin)
}

#[test]
fn per_emote_paths_follow_the_layout() {
    let ctx = test_context();
    let id = EmoteId::SevenTv(SevenTvId::parse_id(SEVEN).unwrap());
    assert_eq!(ctx.download_path(id), format!("dl/{}.webp", SEVEN));
    // A configured directory that already ends in a separator gets no
    // second one.
    assert_eq!(ctx.raw_frames_path(id), format!("frames/raw/{}", SEVEN));
    assert_eq!(ctx.resized_frames_path(id), format!("frames/resized/{}", SEVEN));
    assert_eq!(ctx.static_out_path(id), format!("out-static/{}.webp", SEVEN));
    assert_eq!(ctx.anim_out_path(id), format!("out-anim/{}.webp", SEVEN));
}

#[test]
fn the_batch_input_lists_every_configured_id_once() {
    let ctx = test_context();
    let ids = ctx.to_emote_ids();
    assert_eq!(ids.len(), 2);
    assert_eq!(ids[0], EmoteId::Bttv(BttvId::parse_id(BTTV).unwrap()));
    assert_eq!(ids[1], EmoteId::SevenTv(SevenTvId::parse_id(SEVEN).unwrap()));
    assert_eq!(ctx.as_seven_tv_ids().len(), 1);
    assert_eq!(ctx.as_bttv_ids().len(), 1);
}
