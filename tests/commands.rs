use rosu_np::chat::{command_of, reply_to};
use rosu_np::config::Config;
use rosu_np::data::{GameData, PartialGameData};
use rosu_np::ratelimit::Ratelimiter;
use rosu_np::render::FormatError;

const SECOND: u128 = 1_000_000_000;

#[test]
fn rate_limiter_cool_down_per_key() {
    let mut r = Ratelimiter::new(5);
    assert!(r.trigger_at("np".to_string(), 0));
    assert!(!r.trigger_at("np".to_string(), 0));
    assert!(!r.trigger_at("np".to_string(), 5 * SECOND));
    assert!(r.trigger_at("pp".to_string(), SECOND));
    assert!(r.trigger_at("np".to_string(), 5 * SECOND + 1));
    assert!(!r.trigger_at("np".to_string(), 6 * SECOND));
    assert!(!r.trigger_at("pp".to_string(), 2 * SECOND));
}

#[test]
fn rate_limiter_on_the_clock() {
    let mut r = Ratelimiter::new(5);
    assert!(r.trigger("np".to_string()));
    assert!(!r.trigger("np".to_string()));
    assert!(r.trigger("pp".to_string()));
    let mut z = Ratelimiter::new(0);
    assert!(z.trigger("np".to_string()));
}

#[test]
fn built_in_and_configured_templates() {
    let mut c = Config::default();
    assert_eq!(c.timeout, 5);
    assert_eq!(c.get_template("skin").unwrap(), "Skin: {skin}");
    assert_eq!(
        c.get_template("np").unwrap(),
        "{artist} - {title} [{version}] by {creator} {link}"
    );
    assert!(c.get_template("help").is_none());
    c.templates.push(("skin".to_string(), "S={skin}".to_string()));
    c.templates.push(("help".to_string(), "no help".to_string()));
    assert_eq!(c.get_template("skin").unwrap(), "S={skin}");
    assert_eq!(c.get_template("help").unwrap(), "no help");
}

#[test]
fn channel_falls_back_to_account() {
    let mut c = Config::default();
    c.username = "me".to_string();
    assert_eq!(c.channel_name(), "me");
    c.channel = Some("other".to_string());
    assert_eq!(c.channel_name(), "other");
}

#[test]
fn commands_are_read_from_messages() {
    assert_eq!(command_of("!np").unwrap(), "np");
    assert_eq!(command_of("!  pp please").unwrap(), "pp");
    assert_eq!(command_of("!skin\tnow").unwrap(), "skin");
    assert!(command_of("np").is_none());
    assert!(command_of("!").is_none());
    assert!(command_of("!   ").is_none());
    assert!(command_of("").is_none());
}

#[test]
fn replies_follow_templates_and_cool_down() {
    let mut c = Config::default();
    c.templates.push(("bad".to_string(), "{missing}".to_string()));
    let mut s = GameData::default();
    let mut p = PartialGameData::default();
    p.skin = Some("Rafis".to_string());
    s.update(p);
    let mut r = Ratelimiter::new(5);
    assert_eq!(reply_to(&c, &mut r, &s, "!skin", 0), Some(Ok("Skin: Rafis".to_string())));
    assert_eq!(reply_to(&c, &mut r, &s, "!skin", SECOND), None);
    assert_eq!(reply_to(&c, &mut r, &s, "hello", 0), None);
    assert_eq!(reply_to(&c, &mut r, &s, "!unknown", 0), None);
    assert!(matches!(reply_to(&c, &mut r, &s, "!bad", 0), Some(Err(FormatError::KeyError(_)))));
    assert_eq!(reply_to(&c, &mut r, &s, "!skin", 6 * SECOND), Some(Ok("Skin: Rafis".to_string())));
}
