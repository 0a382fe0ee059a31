use rosu_np::data::{GameData, PartialGameData};
use rosu_np::render::{render_pp, FormatError};
use rosu_np::text::{signed_text, strip_commas, unsigned_text};

fn record(map_id: u32) -> GameData {
    let mut s = GameData::default();
    let mut p = PartialGameData::default();
    p.artist = Some("A".to_string());
    p.title = Some("B".to_string());
    p.version = Some("C".to_string());
    p.creator = Some("D".to_string());
    p.map_id = Some(map_id);
    s.update(p);
    s
}

#[test]
fn template_substitution_without_link() {
    let s = record(0);
    let r = s.get_formatted_string("{artist} - {title} [{version}] by {creator}").unwrap();
    assert_eq!(r, "A - B [C] by D");
    let r = s.get_formatted_string("{artist} - {title} [{version}] by {creator} {link}").unwrap();
    assert_eq!(r, "A - B [C] by D ");
}

#[test]
fn template_substitution_with_link() {
    let s = record(123);
    let r = s.get_formatted_string("{title} {link}").unwrap();
    assert!(r.contains("https://osu.ppy.sh/b/123"));
    assert_eq!(r, "B https://osu.ppy.sh/b/123");
    assert_eq!(s.get_beatmap_link(), "https://osu.ppy.sh/b/123");
    assert_eq!(record(0).get_beatmap_link(), "");
}

#[test]
fn unknown_placeholder_is_an_error() {
    let s = record(0);
    assert!(matches!(s.get_formatted_string("{nope}"), Err(FormatError::KeyError(_))));
}

#[test]
fn malformed_template_is_an_error() {
    let s = record(0);
    assert!(matches!(s.get_formatted_string("{artist"), Err(FormatError::Invalid(_))));
}

#[test]
fn numbers_and_mode_render() {
    let mut s = record(5);
    let mut p = PartialGameData::default();
    p.stars = Some(7);
    p.pp_99 = Some(-3);
    p.gamemode = Some(rosu_np::mode::GameMode::Catch);
    s.update(p);
    let r = s.get_formatted_string("{stars}* {pp_99}pp {map_id} {gamemode}").unwrap();
    assert_eq!(r, "7* -3pp 5 catch");
}

#[test]
fn modifier_list_is_joined() {
    let mut s = record(0);
    assert_eq!(s.get_mods(), "");
    let mut p = PartialGameData::default();
    p.mods = Some("HD,DT".to_string());
    s.update(p);
    assert_eq!(s.get_mods(), "+HDDT");
    assert_eq!(strip_commas(",a,,b,"), "ab");
}

#[test]
fn equal_performance_collapses() {
    assert_eq!(render_pp(300, 300, "HD,DT"), "300");
    assert_eq!(render_pp(300, 250, "HD,DT"), "250 (300 +HDDT)");
    assert_eq!(render_pp(300, 250, ""), "250 (300)");
}

#[test]
fn performance_placeholders_collapse() {
    let mut s = record(0);
    let mut p = PartialGameData::default();
    p.mods = Some("HR".to_string());
    p.pp_98 = Some(410);
    p.pp_98_nomod = Some(380);
    p.pp_99 = Some(450);
    p.pp_99_nomod = Some(450);
    s.update(p);
    let r = s.get_formatted_string("{pp_98_text} | {pp_99_text} | {pp_ss_text}").unwrap();
    assert_eq!(r, "380 (410 +HR) | 450 | 0");
}

#[test]
fn decimal_text() {
    assert_eq!(unsigned_text(0), "0");
    assert_eq!(unsigned_text(1234567890), "1234567890");
    assert_eq!(unsigned_text(u64::MAX), u64::MAX.to_string());
    assert_eq!(signed_text(-45), "-45");
    assert_eq!(signed_text(i64::MIN), i64::MIN.to_string());
}

#[test]
fn unsupported_format_code_is_an_error() {
    let s = record(0);
    assert!(matches!(s.get_formatted_string("{artist:d}"), Err(FormatError::TypeError(_))));
}

#[test]
fn beatmap_line_with_and_without_link() {
    assert_eq!(record(0).describe_beatmap(), "A - B [C] by D");
    assert_eq!(record(123).describe_beatmap(), "A - B [C] by D https://osu.ppy.sh/b/123");
}
