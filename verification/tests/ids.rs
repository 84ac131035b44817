use convertoid::emote_ext::{BttvId, EmoteId, EmoteIdExt, SevenTvId};
use convertoid::opt::parse_id_lines;

const ID: &str = "0123456789abcdef01234567";

#[test]
fn parsing_and_rendering_round_trip() {
    let id = SevenTvId::parse_id(ID).unwrap();
    assert_eq!(id.hex_string(), ID);
    let id = BttvId::parse_id(ID).unwrap();
    assert_eq!(id.hex_string(), ID);
}

#[test]
fn the_rendered_id_agrees_with_the_hex_crate() {
    // parse_id accepts uppercase digits but renders lowercase, exactly as
    // the underlying encoder does.
    let id = SevenTvId::parse_id("ABCDEF0123456789ABCDEF01").unwrap();
    assert_eq!(id.hex_string(), "abcdef0123456789abcdef01");
    assert_eq!(
        id.hex_string(),
        hex::encode(hex::decode("ABCDEF0123456789ABCDEF01").unwrap())
    );
}

#[test]
fn invalid_ids_are_rejected() {
    assert!(SevenTvId::parse_id("").is_err());
    assert!(SevenTvId::parse_id("0123").is_err());
    assert!(SevenTvId::parse_id("0123456789abcdef0123456z").is_err());
    assert!(SevenTvId::parse_id("0123456789abcdef012345678").is_err());
    assert!(BttvId::parse_id("not hex at all, not 24 ch").is_err());
}

#[test]
fn urls_follow_the_provider() {
    let seven = SevenTvId::parse_id(ID).unwrap();
    assert_eq!(
        seven.to_url(),
        format!("https://cdn.7tv.app/emote/{}/4x.webp", ID)
    );
    let bttv = BttvId::parse_id(ID).unwrap();
    assert_eq!(
        bttv.to_url(),
        format!("https://cdn.betterttv.net/emote/{}/3x.webp", ID)
    );
    assert_eq!(EmoteId::SevenTv(seven).to_url(), seven.to_url());
    assert_eq!(EmoteId::Bttv(bttv).to_url(), bttv.to_url());
}

#[test]
fn file_names_are_the_id_with_the_webp_extension() {
    let seven = SevenTvId::parse_id(ID).unwrap();
    assert_eq!(seven.to_file_name(), format!("{}.webp", ID));
    let bttv = BttvId::parse_id(ID).unwrap();
    assert_eq!(bttv.to_file_name(), format!("{}.webp", ID));
    assert_eq!(EmoteId::Bttv(bttv).to_file_name(), format!("{}.webp", ID));
}

#[test]
fn id_files_keep_matching_lines_in_order() {
    let text = format!(
        "{}\nnot an id\n{}\r\nABCDEF0123456789ABCDEF01\n\n{}",
        "0123456789abcdef01234567", "aaaaaaaaaaaaaaaaaaaaaaaa", "bbbbbbbbbbbbbbbbbbbbbbbb"
    );
    let ids = parse_id_lines(&text);
    assert_eq!(
        ids,
        vec![
            "0123456789abcdef01234567".to_string(),
            "aaaaaaaaaaaaaaaaaaaaaaaa".to_string(),
            "bbbbbbbbbbbbbbbbbbbbbbbb".to_string(),
        ]
    );
    // Uppercase lines do not match the id grammar.
    assert!(!ids.contains(&"abcdef0123456789abcdef01".to_string()));
}

#[test]
fn url_helpers_take_textual_ids() {
    assert_eq!(
        convertoid::seven_tv::make_url_webp(ID),
        format!("https://cdn.7tv.app/emote/{}/4x.webp", ID)
    );
    assert_eq!(
        convertoid::bttv::make_url_webp(ID),
        format!("https://cdn.betterttv.net/emote/{}/3x.webp", ID)
    );
    assert_eq!(convertoid::seven_tv::make_file_name_webp(ID), format!("{}.webp", ID));
    assert_eq!(convertoid::bttv::make_file_name_webp(ID), format!("{}.webp", ID));
}
