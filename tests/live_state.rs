use rosu_np::data::{Field, GameData, PartialGameData};
use rosu_np::mode::GameMode;
use rosu_np::source::{calculate_url, nomod_performance, DataSource, TosuData};
use rosu_np::stream::apply_message;

fn sample() -> GameData {
    let mut s = GameData::default();
    let mut p = PartialGameData::default();
    p.artist = Some("A".to_string());
    p.title = Some("B".to_string());
    p.map_id = Some(42);
    p.pp_98 = Some(310);
    p.gamemode = Some(GameMode::Mania);
    s.update(p);
    s
}

#[test]
fn default_record_is_blank() {
    let s = GameData::default();
    assert_eq!(s.artist, "");
    assert_eq!(s.map_id, 0);
    assert_eq!(s.pp_ss, 0);
    assert_eq!(s.get_game_mode(), GameMode::Osu);
}

#[test]
fn empty_update_changes_nothing() {
    let s = sample();
    let mut t = s.clone();
    t.update(PartialGameData::default());
    assert_eq!(s, t);
}

#[test]
fn update_sets_present_fields_and_keeps_the_rest() {
    let mut s = sample();
    let mut p = PartialGameData::default();
    p.title = Some("C".to_string());
    p.stars = Some(6);
    s.update(p);
    assert_eq!(s.title, "C");
    assert_eq!(s.stars, 6);
    assert_eq!(s.artist, "A");
    assert_eq!(s.map_id, 42);
    assert_eq!(s.pp_98, 310);
    assert_eq!(s.get_game_mode(), GameMode::Mania);
}

#[test]
fn later_update_wins() {
    let mut s = GameData::default();
    let mut p = PartialGameData::default();
    p.skin = Some("first".to_string());
    p.cs = Some(4);
    s.update(p);
    let mut q = PartialGameData::default();
    q.skin = Some("second".to_string());
    s.update(q);
    assert_eq!(s.skin, "second");
    assert_eq!(s.cs, 4);
}

#[test]
fn keys_list_every_field_once() {
    let keys = GameData::get_keys();
    assert_eq!(keys.len(), 24);
    assert_eq!(keys[0], "artistRoman");
    assert_eq!(keys[8], "mapid");
    assert_eq!(keys[23], "gameMode");
    assert_eq!(Field::PpSsNomod.wire_name(), "osu_SSPP");
    for (i, k) in keys.iter().enumerate() {
        assert!(!keys[i + 1..].contains(k));
    }
}

#[test]
fn malformed_message_is_ignored_and_later_ones_apply() {
    let mut s = sample();
    let before = s.clone();
    apply_message(&mut s, None);
    assert_eq!(s, before);
    let mut p = PartialGameData::default();
    p.version = Some("Insane".to_string());
    apply_message(&mut s, Some(p));
    assert_eq!(s.version, "Insane");
    assert_eq!(s.artist, "A");
}

#[test]
fn mode_codes() {
    assert_eq!(GameMode::from_code(0), Some(GameMode::Osu));
    assert_eq!(GameMode::from_code(3), Some(GameMode::Mania));
    assert_eq!(GameMode::from_code(4), None);
    assert_eq!(GameMode::Catch.code(), 2);
    assert_eq!(GameMode::Taiko.to_string(), "taiko");
}

fn tosu(mode: u8) -> TosuData {
    TosuData {
        skin: "skin".to_string(),
        artist: "Artist".to_string(),
        artist_original: "Artist U".to_string(),
        title: "Title".to_string(),
        title_original: "Title U".to_string(),
        mapper: "Mapper".to_string(),
        difficulty: "Hard".to_string(),
        map_id: 77,
        sr: 5,
        cs: 4,
        ar: 9,
        od: 8,
        hp: 6,
        mods: "HD,DT".to_string(),
        pp_95: 195,
        pp_96: 196,
        pp_97: 197,
        pp_98: 198,
        pp_99: 199,
        pp_100: 200,
        game_mode: mode,
    }
}

#[test]
fn tosu_message_translates_to_update() {
    let p = tosu(1).into_partial().unwrap();
    assert_eq!(p.artist_unicode.as_deref(), Some("Artist U"));
    assert_eq!(p.creator.as_deref(), Some("Mapper"));
    assert_eq!(p.version.as_deref(), Some("Hard"));
    assert_eq!(p.pp_ss, Some(200));
    assert_eq!(p.pp_98_nomod, None);
    assert_eq!(p.gamemode, Some(GameMode::Taiko));
    let mut s = GameData::default();
    s.update(p);
    assert_eq!(s.map_id, 77);
    assert_eq!(s.stars, 5);
}

#[test]
fn tosu_message_with_unknown_mode_is_rejected() {
    assert!(tosu(9).into_partial().is_none());
}

#[test]
fn source_endpoints() {
    assert_eq!(DataSource::default(), DataSource::Tosu);
    assert_eq!(DataSource::Tosu.endpoint().unwrap(), "ws://localhost:24050/ws");
    assert_eq!(DataSource::StreamCompanion.endpoint().unwrap(), "ws://localhost:20727/tokens");
    assert!(DataSource::Rosu.endpoint().is_none());
    assert!(DataSource::StreamCompanion.sends_handshake());
    assert!(!DataSource::Tosu.sends_handshake());
}

#[test]
fn performance_round_touches_only_its_fields() {
    assert_eq!(
        calculate_url(GameMode::Taiko, 98),
        "http://localhost:24050/api/calculate/pp?mode=1&acc=98"
    );
    assert_eq!(
        calculate_url(GameMode::Osu, 100),
        "http://localhost:24050/api/calculate/pp?mode=0&acc=100"
    );
    let mut s = sample();
    let before = s.clone();
    s.update(nomod_performance(280, 300, 350));
    assert_eq!(s.pp_98_nomod, 280);
    assert_eq!(s.pp_99_nomod, 300);
    assert_eq!(s.pp_ss_nomod, 350);
    assert_eq!(s.pp_98, before.pp_98);
    assert_eq!(s.artist, before.artist);
}
