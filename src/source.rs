use vstd::prelude::*;
use vstd::string::*;
use crate::data::{no_update, PartialGameData};
use crate::mode::{mode_code, mode_of_code, GameMode};
use crate::text::{digits, unsigned_text};

verus! {

/// The program that feeds the live record.
#[derive(Debug, Clone, Copy, PartialEq, Eq, Structural)]
pub enum DataSource {
    Tosu,
    Rosu,
    StreamCompanion,
}

/// The local stream address of each supported source; none for rosu, which
/// is not supported.
pub open spec fn endpoint_of(s: DataSource) -> Option<Seq<char>> {
    match s {
        DataSource::Tosu => Some("ws://localhost:24050/ws"@),
        DataSource::Rosu => None,
        DataSource::StreamCompanion => Some("ws://localhost:20727/tokens"@),
    }
}

impl Default for DataSource {
    fn default() -> (r: DataSource)
        ensures
            r == DataSource::Tosu,
    {
        DataSource::Tosu
    }
}

impl DataSource {
    /// The local stream address of this source, if it is supported.
    pub fn endpoint(&self) -> (r: Option<String>)
        ensures
            r is Some == endpoint_of(*self) is Some,
            r is Some ==> r->0@ == endpoint_of(*self)->0,
    {
        match self {
            DataSource::Tosu => Some(String::from_str("ws://localhost:24050/ws")),
            DataSource::Rosu => None,
            DataSource::StreamCompanion => Some(String::from_str("ws://localhost:20727/tokens")),
        }
    }

    /// Whether the source must first be told which fields to send.
    pub fn sends_handshake(&self) -> (r: bool)
        ensures
            r == (*self == DataSource::StreamCompanion),
    {
        match self {
            DataSource::StreamCompanion => true,
            _ => false,
        }
    }
}

/// One message of tosu, with figures rounded to whole numbers: the skin
/// folder, and from its menu section the beatmap's identity, metadata and
/// difficulty, the selected modifiers, performance at 95 to 100 percent
/// accuracy and the mode code.
#[derive(Debug)]
pub struct TosuData {
    pub skin: String,
    pub artist: String,
    pub artist_original: String,
    pub title: String,
    pub title_original: String,
    pub mapper: String,
    pub difficulty: String,
    pub map_id: u32,
    pub sr: i64,
    pub cs: i64,
    pub ar: i64,
    pub od: i64,
    pub hp: i64,
    pub mods: String,
    pub pp_95: i64,
    pub pp_96: i64,
    pub pp_97: i64,
    pub pp_98: i64,
    pub pp_99: i64,
    pub pp_100: i64,
    pub game_mode: u8,
}

/// The update that a tosu message stands for: every field it reports, and
/// nothing for a mode code that names no mode, so that such a message is
/// dropped whole. Performance without modifiers is not on this stream.
pub open spec fn tosu_update(d: TosuData) -> Option<PartialGameData> {
    match mode_of_code(d.game_mode) {
        None => None,
        Some(m) => Some(
            PartialGameData {
                artist: Some(d.artist),
                artist_unicode: Some(d.artist_original),
                title: Some(d.title),
                title_unicode: Some(d.title_original),
                version: Some(d.difficulty),
                creator: Some(d.mapper),
                mods: Some(d.mods),
                skin: Some(d.skin),
                map_id: Some(d.map_id),
                stars: Some(d.sr),
                cs: Some(d.cs),
                ar: Some(d.ar),
                od: Some(d.od),
                hp: Some(d.hp),
                pp_95: Some(d.pp_95),
                pp_96: Some(d.pp_96),
                pp_97: Some(d.pp_97),
                pp_98: Some(d.pp_98),
                pp_99: Some(d.pp_99),
                pp_ss: Some(d.pp_100),
                pp_98_nomod: None,
                pp_99_nomod: None,
                pp_ss_nomod: None,
                gamemode: Some(m),
            },
        ),
    }
}

impl TosuData {
    /// Translates a tosu message into an update of the live record; a message
    /// with an unknown mode code gives none.
    pub fn into_partial(self) -> (r: Option<PartialGameData>)
        ensures
            r == tosu_update(self),
    {
        match GameMode::from_code(self.game_mode) {
            None => None,
            Some(m) => Some(
                PartialGameData {
                    artist: Some(self.artist),
                    artist_unicode: Some(self.artist_original),
                    title: Some(self.title),
                    title_unicode: Some(self.title_original),
                    version: Some(self.difficulty),
                    creator: Some(self.mapper),
                    mods: Some(self.mods),
                    skin: Some(self.skin),
                    map_id: Some(self.map_id),
                    stars: Some(self.sr),
                    cs: Some(self.cs),
                    ar: Some(self.ar),
                    od: Some(self.od),
                    hp: Some(self.hp),
                    pp_95: Some(self.pp_95),
                    pp_96: Some(self.pp_96),
                    pp_97: Some(self.pp_97),
                    pp_98: Some(self.pp_98),
                    pp_99: Some(self.pp_99),
                    pp_ss: Some(self.pp_100),
                    pp_98_nomod: None,
                    pp_99_nomod: None,
                    pp_ss_nomod: None,
                    gamemode: Some(m),
                },
            ),
        }
    }
}

/// The accuracies, in percent, at which performance without modifiers is
/// asked of tosu.
pub const POLL_ACCURACIES: [u8; 3] = [98, 99, 100];

/// The address of tosu's performance calculation for a mode and an accuracy
/// in percent, with no modifiers.
pub open spec fn calculate_address(mode: GameMode, accuracy: u8) -> Seq<char> {
    "http://localhost:24050/api/calculate/pp?mode="@ + digits(mode_code(mode) as nat) + "&acc="@
        + digits(accuracy as nat)
}

/// The address of tosu's performance calculation for a mode and an accuracy
/// in percent, with no modifiers.
pub fn calculate_url(mode: GameMode, accuracy: u8) -> (r: String)
    ensures
        r@ == calculate_address(mode, accuracy),
{
    let mut url = String::from_str("http://localhost:24050/api/calculate/pp?mode=");
    url.append(unsigned_text(mode.code() as u64).as_str());
    url.append("&acc=");
    url.append(unsigned_text(accuracy as u64).as_str());
    url
}

/// The update made from one full round of queries: performance without
/// modifiers at 98, 99 and 100 percent, and nothing else.
pub open spec fn nomod_update(pp_98: i64, pp_99: i64, pp_ss: i64) -> PartialGameData {
    PartialGameData {
        pp_98_nomod: Some(pp_98),
        pp_99_nomod: Some(pp_99),
        pp_ss_nomod: Some(pp_ss),
        ..no_update()
    }
}

/// The update made from one full round of queries: performance without
/// modifiers at 98, 99 and 100 percent, and nothing else.
pub fn nomod_performance(pp_98: i64, pp_99: i64, pp_ss: i64) -> (r: PartialGameData)
    ensures
        r == nomod_update(pp_98, pp_99, pp_ss),
{
    let mut p = PartialGameData::default();
    p.pp_98_nomod = Some(pp_98);
    p.pp_99_nomod = Some(pp_99);
    p.pp_ss_nomod = Some(pp_ss);
    p
}

} // verus!
