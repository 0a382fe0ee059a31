use vstd::prelude::*;
use vstd::string::*;
use crate::mode::GameMode;

verus! {

/// One field of the live record.
#[derive(Debug, Clone, Copy, PartialEq, Eq, Structural)]
pub enum Field {
    Artist,
    ArtistUnicode,
    Title,
    TitleUnicode,
    Version,
    Creator,
    Mods,
    Skin,
    MapId,
    Stars,
    Cs,
    Ar,
    Od,
    Hp,
    Pp95,
    Pp96,
    Pp97,
    Pp98,
    Pp99,
    PpSs,
    Pp98Nomod,
    Pp99Nomod,
    PpSsNomod,
    Gamemode,
}

/// The value of one field of the live record.
pub enum FieldValue {
    Text(String),
    Id(u32),
    Number(i64),
    Mode(GameMode),
}

/// Every field of the live record, in declaration order.
pub open spec fn field_list() -> Seq<Field> {
    seq![
        Field::Artist,
        Field::ArtistUnicode,
        Field::Title,
        Field::TitleUnicode,
        Field::Version,
        Field::Creator,
        Field::Mods,
        Field::Skin,
        Field::MapId,
        Field::Stars,
        Field::Cs,
        Field::Ar,
        Field::Od,
        Field::Hp,
        Field::Pp95,
        Field::Pp96,
        Field::Pp97,
        Field::Pp98,
        Field::Pp99,
        Field::PpSs,
        Field::Pp98Nomod,
        Field::Pp99Nomod,
        Field::PpSsNomod,
        Field::Gamemode
    ]
}

/// The name under which the companion source reports each field.
pub open spec fn wire_name(f: Field) -> Seq<char> {
    match f {
        Field::Artist => "artistRoman"@,
        Field::ArtistUnicode => "artistUnicode"@,
        Field::Title => "titleRoman"@,
        Field::TitleUnicode => "titleUnicode"@,
        Field::Version => "diffName"@,
        Field::Creator => "creator"@,
        Field::Mods => "mods"@,
        Field::Skin => "skin"@,
        Field::MapId => "mapid"@,
        Field::Stars => "mStars"@,
        Field::Cs => "mCS"@,
        Field::Ar => "mAR"@,
        Field::Od => "mOD"@,
        Field::Hp => "mHP"@,
        Field::Pp95 => "osu_m95PP"@,
        Field::Pp96 => "osu_m96PP"@,
        Field::Pp97 => "osu_m97PP"@,
        Field::Pp98 => "osu_m98PP"@,
        Field::Pp99 => "osu_m99PP"@,
        Field::PpSs => "osu_mSSPP"@,
        Field::Pp98Nomod => "osu_98PP"@,
        Field::Pp99Nomod => "osu_99PP"@,
        Field::PpSsNomod => "osu_SSPP"@,
        Field::Gamemode => "gameMode"@,
    }
}

impl Field {
    /// The name under which the companion source reports this field.
    pub fn wire_name(self) -> (r: &'static str)
        ensures
            r@ == wire_name(self),
    {
        match self {
            Field::Artist => "artistRoman",
            Field::ArtistUnicode => "artistUnicode",
            Field::Title => "titleRoman",
            Field::TitleUnicode => "titleUnicode",
            Field::Version => "diffName",
            Field::Creator => "creator",
            Field::Mods => "mods",
            Field::Skin => "skin",
            Field::MapId => "mapid",
            Field::Stars => "mStars",
            Field::Cs => "mCS",
            Field::Ar => "mAR",
            Field::Od => "mOD",
            Field::Hp => "mHP",
            Field::Pp95 => "osu_m95PP",
            Field::Pp96 => "osu_m96PP",
            Field::Pp97 => "osu_m97PP",
            Field::Pp98 => "osu_m98PP",
            Field::Pp99 => "osu_m99PP",
            Field::PpSs => "osu_mSSPP",
            Field::Pp98Nomod => "osu_98PP",
            Field::Pp99Nomod => "osu_99PP",
            Field::PpSsNomod => "osu_SSPP",
            Field::Gamemode => "gameMode",
        }
    }
}

/// What is currently being played: beatmap identity and metadata, difficulty
/// figures, performance at several accuracies (with the selected modifiers, and
/// without them for 98, 99 and 100 percent), the modifier list as the source
/// wrote it, the skin in use and the mode. Difficulty and performance figures
/// are held rounded to whole numbers, as they are shown.
#[derive(Debug, Clone, PartialEq, Eq)]
pub struct GameData {
    pub artist: String,
    pub artist_unicode: String,
    pub title: String,
    pub title_unicode: String,
    pub version: String,
    pub creator: String,
    pub mods: String,
    pub skin: String,
    pub map_id: u32,
    pub stars: i64,
    pub cs: i64,
    pub ar: i64,
    pub od: i64,
    pub hp: i64,
    pub pp_95: i64,
    pub pp_96: i64,
    pub pp_97: i64,
    pub pp_98: i64,
    pub pp_99: i64,
    pub pp_ss: i64,
    pub pp_98_nomod: i64,
    pub pp_99_nomod: i64,
    pub pp_ss_nomod: i64,
    pub gamemode: GameMode,
}

/// A sparse update of the live record: a field that is present is what the
/// source reports now; an absent one is no claim.
#[derive(Debug)]
pub struct PartialGameData {
    pub artist: Option<String>,
    pub artist_unicode: Option<String>,
    pub title: Option<String>,
    pub title_unicode: Option<String>,
    pub version: Option<String>,
    pub creator: Option<String>,
    pub mods: Option<String>,
    pub skin: Option<String>,
    pub map_id: Option<u32>,
    pub stars: Option<i64>,
    pub cs: Option<i64>,
    pub ar: Option<i64>,
    pub od: Option<i64>,
    pub hp: Option<i64>,
    pub pp_95: Option<i64>,
    pub pp_96: Option<i64>,
    pub pp_97: Option<i64>,
    pub pp_98: Option<i64>,
    pub pp_99: Option<i64>,
    pub pp_ss: Option<i64>,
    pub pp_98_nomod: Option<i64>,
    pub pp_99_nomod: Option<i64>,
    pub pp_ss_nomod: Option<i64>,
    pub gamemode: Option<GameMode>,
}

/// The value that an optional field leaves after a merge.
pub open spec fn pick<T>(update: Option<T>, current: T) -> T {
    match update {
        Some(v) => v,
        None => current,
    }
}

/// The optional value of a field as a field value.
pub open spec fn text_value(o: Option<String>) -> Option<FieldValue> {
    match o {
        Some(v) => Some(FieldValue::Text(v)),
        None => None,
    }
}

pub open spec fn id_value(o: Option<u32>) -> Option<FieldValue> {
    match o {
        Some(v) => Some(FieldValue::Id(v)),
        None => None,
    }
}

pub open spec fn number_value(o: Option<i64>) -> Option<FieldValue> {
    match o {
        Some(v) => Some(FieldValue::Number(v)),
        None => None,
    }
}

pub open spec fn mode_value(o: Option<GameMode>) -> Option<FieldValue> {
    match o {
        Some(v) => Some(FieldValue::Mode(v)),
        None => None,
    }
}

/// The record after `p` is applied to `s`: each field that `p` holds is
/// replaced, every other one kept.
pub open spec fn merged(s: GameData, p: PartialGameData) -> GameData {
    GameData {
        artist: pick(p.artist, s.artist),
        artist_unicode: pick(p.artist_unicode, s.artist_unicode),
        title: pick(p.title, s.title),
        title_unicode: pick(p.title_unicode, s.title_unicode),
        version: pick(p.version, s.version),
        creator: pick(p.creator, s.creator),
        mods: pick(p.mods, s.mods),
        skin: pick(p.skin, s.skin),
        map_id: pick(p.map_id, s.map_id),
        stars: pick(p.stars, s.stars),
        cs: pick(p.cs, s.cs),
        ar: pick(p.ar, s.ar),
        od: pick(p.od, s.od),
        hp: pick(p.hp, s.hp),
        pp_95: pick(p.pp_95, s.pp_95),
        pp_96: pick(p.pp_96, s.pp_96),
        pp_97: pick(p.pp_97, s.pp_97),
        pp_98: pick(p.pp_98, s.pp_98),
        pp_99: pick(p.pp_99, s.pp_99),
        pp_ss: pick(p.pp_ss, s.pp_ss),
        pp_98_nomod: pick(p.pp_98_nomod, s.pp_98_nomod),
        pp_99_nomod: pick(p.pp_99_nomod, s.pp_99_nomod),
        pp_ss_nomod: pick(p.pp_ss_nomod, s.pp_ss_nomod),
        gamemode: pick(p.gamemode, s.gamemode),
    }
}

/// The update that holds no field.
pub open spec fn no_update() -> PartialGameData {
    PartialGameData {
        artist: None,
        artist_unicode: None,
        title: None,
        title_unicode: None,
        version: None,
        creator: None,
        mods: None,
        skin: None,
        map_id: None,
        stars: None,
        cs: None,
        ar: None,
        od: None,
        hp: None,
        pp_95: None,
        pp_96: None,
        pp_97: None,
        pp_98: None,
        pp_99: None,
        pp_ss: None,
        pp_98_nomod: None,
        pp_99_nomod: None,
        pp_ss_nomod: None,
        gamemode: None,
    }
}

impl GameData {
    /// The value of field `f`.
    pub open spec fn value(self, f: Field) -> FieldValue {
        match f {
            Field::Artist => FieldValue::Text(self.artist),
            Field::ArtistUnicode => FieldValue::Text(self.artist_unicode),
            Field::Title => FieldValue::Text(self.title),
            Field::TitleUnicode => FieldValue::Text(self.title_unicode),
            Field::Version => FieldValue::Text(self.version),
            Field::Creator => FieldValue::Text(self.creator),
            Field::Mods => FieldValue::Text(self.mods),
            Field::Skin => FieldValue::Text(self.skin),
            Field::MapId => FieldValue::Id(self.map_id),
            Field::Stars => FieldValue::Number(self.stars),
            Field::Cs => FieldValue::Number(self.cs),
            Field::Ar => FieldValue::Number(self.ar),
            Field::Od => FieldValue::Number(self.od),
            Field::Hp => FieldValue::Number(self.hp),
            Field::Pp95 => FieldValue::Number(self.pp_95),
            Field::Pp96 => FieldValue::Number(self.pp_96),
            Field::Pp97 => FieldValue::Number(self.pp_97),
            Field::Pp98 => FieldValue::Number(self.pp_98),
            Field::Pp99 => FieldValue::Number(self.pp_99),
            Field::PpSs => FieldValue::Number(self.pp_ss),
            Field::Pp98Nomod => FieldValue::Number(self.pp_98_nomod),
            Field::Pp99Nomod => FieldValue::Number(self.pp_99_nomod),
            Field::PpSsNomod => FieldValue::Number(self.pp_ss_nomod),
            Field::Gamemode => FieldValue::Mode(self.gamemode),
        }
    }

    /// Whether every field holds its default: empty text, zero, osu mode.
    pub open spec fn is_blank(self) -> bool {
        self.artist@.len() == 0
            && self.artist_unicode@.len() == 0
            && self.title@.len() == 0
            && self.title_unicode@.len() == 0
            && self.version@.len() == 0
            && self.creator@.len() == 0
            && self.mods@.len() == 0
            && self.skin@.len() == 0
            && self.map_id == 0
            && self.stars == 0
            && self.cs == 0
            && self.ar == 0
            && self.od == 0
            && self.hp == 0
            && self.pp_95 == 0
            && self.pp_96 == 0
            && self.pp_97 == 0
            && self.pp_98 == 0
            && self.pp_99 == 0
            && self.pp_ss == 0
            && self.pp_98_nomod == 0
            && self.pp_99_nomod == 0
            && self.pp_ss_nomod == 0
            && self.gamemode == GameMode::Osu
    }
}

impl PartialGameData {
    /// The value that this update holds for field `f`, if any.
    pub open spec fn value(self, f: Field) -> Option<FieldValue> {
        match f {
            Field::Artist => text_value(self.artist),
            Field::ArtistUnicode => text_value(self.artist_unicode),
            Field::Title => text_value(self.title),
            Field::TitleUnicode => text_value(self.title_unicode),
            Field::Version => text_value(self.version),
            Field::Creator => text_value(self.creator),
            Field::Mods => text_value(self.mods),
            Field::Skin => text_value(self.skin),
            Field::MapId => id_value(self.map_id),
            Field::Stars => number_value(self.stars),
            Field::Cs => number_value(self.cs),
            Field::Ar => number_value(self.ar),
            Field::Od => number_value(self.od),
            Field::Hp => number_value(self.hp),
            Field::Pp95 => number_value(self.pp_95),
            Field::Pp96 => number_value(self.pp_96),
            Field::Pp97 => number_value(self.pp_97),
            Field::Pp98 => number_value(self.pp_98),
            Field::Pp99 => number_value(self.pp_99),
            Field::PpSs => number_value(self.pp_ss),
            Field::Pp98Nomod => number_value(self.pp_98_nomod),
            Field::Pp99Nomod => number_value(self.pp_99_nomod),
            Field::PpSsNomod => number_value(self.pp_ss_nomod),
            Field::Gamemode => mode_value(self.gamemode),
        }
    }
}

impl Default for PartialGameData {
    /// An update that holds no field.
    fn default() -> (r: PartialGameData)
        ensures
            r == no_update(),
    {
        PartialGameData {
            artist: None,
            artist_unicode: None,
            title: None,
            title_unicode: None,
            version: None,
            creator: None,
            mods: None,
            skin: None,
            map_id: None,
            stars: None,
            cs: None,
            ar: None,
            od: None,
            hp: None,
            pp_95: None,
            pp_96: None,
            pp_97: None,
            pp_98: None,
            pp_99: None,
            pp_ss: None,
            pp_98_nomod: None,
            pp_99_nomod: None,
            pp_ss_nomod: None,
            gamemode: None,
        }
    }
}

impl Default for GameData {
    fn default() -> (r: GameData)
        ensures
            r.is_blank(),
    {
        GameData {
            artist: String::new(),
            artist_unicode: String::new(),
            title: String::new(),
            title_unicode: String::new(),
            version: String::new(),
            creator: String::new(),
            mods: String::new(),
            skin: String::new(),
            map_id: 0,
            stars: 0,
            cs: 0,
            ar: 0,
            od: 0,
            hp: 0,
            pp_95: 0,
            pp_96: 0,
            pp_97: 0,
            pp_98: 0,
            pp_99: 0,
            pp_ss: 0,
            pp_98_nomod: 0,
            pp_99_nomod: 0,
            pp_ss_nomod: 0,
            gamemode: GameMode::Osu,
        }
    }
}

/// Overwrites `slot` with the value of `update`, if it holds one.
fn set_field<T>(slot: &mut T, update: Option<T>)
    ensures
        *final(slot) == pick(update, *old(slot)),
{
    if let Some(v) = update {
        *slot = v;
    }
}

impl GameData {
    /// Applies an update: every field present in `new_data` is overwritten,
    /// every other field is left as it was.
    pub fn update(&mut self, new_data: PartialGameData)
        ensures
            *final(self) == merged(*old(self), new_data),
    {
        set_field(&mut self.artist, new_data.artist);
        set_field(&mut self.artist_unicode, new_data.artist_unicode);
        set_field(&mut self.title, new_data.title);
        set_field(&mut self.title_unicode, new_data.title_unicode);
        set_field(&mut self.version, new_data.version);
        set_field(&mut self.creator, new_data.creator);
        set_field(&mut self.mods, new_data.mods);
        set_field(&mut self.skin, new_data.skin);
        set_field(&mut self.map_id, new_data.map_id);
        set_field(&mut self.stars, new_data.stars);
        set_field(&mut self.cs, new_data.cs);
        set_field(&mut self.ar, new_data.ar);
        set_field(&mut self.od, new_data.od);
        set_field(&mut self.hp, new_data.hp);
        set_field(&mut self.pp_95, new_data.pp_95);
        set_field(&mut self.pp_96, new_data.pp_96);
        set_field(&mut self.pp_97, new_data.pp_97);
        set_field(&mut self.pp_98, new_data.pp_98);
        set_field(&mut self.pp_99, new_data.pp_99);
        set_field(&mut self.pp_ss, new_data.pp_ss);
        set_field(&mut self.pp_98_nomod, new_data.pp_98_nomod);
        set_field(&mut self.pp_99_nomod, new_data.pp_99_nomod);
        set_field(&mut self.pp_ss_nomod, new_data.pp_ss_nomod);
        set_field(&mut self.gamemode, new_data.gamemode);
    }

    /// The wire names of every field, announced to the companion source so
    /// that it sends only what this record holds.
    pub fn get_keys() -> (r: Vec<String>)
        ensures
            r@.len() == field_list().len(),
            forall|i: int| 0 <= i < r@.len() ==> #[trigger] r@[i]@ == wire_name(field_list()[i]),
    {
        let mut fields: Vec<Field> = Vec::new();
        fields.push(Field::Artist);
        fields.push(Field::ArtistUnicode);
        fields.push(Field::Title);
        fields.push(Field::TitleUnicode);
        fields.push(Field::Version);
        fields.push(Field::Creator);
        fields.push(Field::Mods);
        fields.push(Field::Skin);
        fields.push(Field::MapId);
        fields.push(Field::Stars);
        fields.push(Field::Cs);
        fields.push(Field::Ar);
        fields.push(Field::Od);
        fields.push(Field::Hp);
        fields.push(Field::Pp95);
        fields.push(Field::Pp96);
        fields.push(Field::Pp97);
        fields.push(Field::Pp98);
        fields.push(Field::Pp99);
        fields.push(Field::PpSs);
        fields.push(Field::Pp98Nomod);
        fields.push(Field::Pp99Nomod);
        fields.push(Field::PpSsNomod);
        fields.push(Field::Gamemode);
        assert(fields@ =~= field_list());
        let mut keys: Vec<String> = Vec::new();
        let mut i: usize = 0;
        while i < fields.len()
            invariant
                fields@ == field_list(),
                i <= fields@.len(),
                keys@.len() == i,
                forall|j: int| 0 <= j < i ==> #[trigger] keys@[j]@ == wire_name(field_list()[j]),
            decreases fields@.len() - i,
        {
            keys.push(String::from_str(fields[i].wire_name()));
            i = i + 1;
        }
        keys
    }

    pub fn get_game_mode(&self) -> (r: GameMode)
        ensures
            r == self.gamemode,
    {
        self.gamemode
    }
}

/// Applying an update that holds no field leaves the record exactly as it was.
pub proof fn lemma_merge_nothing(s: GameData)
    ensures
        merged(s, no_update()) == s,
{
}

/// After a merge, each field that the update holds has the update's value, and
/// each field that it does not hold keeps the value it had before, whatever the
/// field's type.
pub proof fn lemma_merge_fields(s: GameData, p: PartialGameData, f: Field)
    ensures
        p.value(f) is Some ==> merged(s, p).value(f) == p.value(f)->0,
        p.value(f) is None ==> merged(s, p).value(f) == s.value(f),
{
}

/// Of two updates applied in turn, the later one decides each field that it
/// holds; the earlier one decides the fields that only it holds.
pub proof fn lemma_merge_later_wins(s: GameData, p: PartialGameData, q: PartialGameData, f: Field)
    ensures
        q.value(f) is Some ==> merged(merged(s, p), q).value(f) == q.value(f)->0,
        q.value(f) is None && p.value(f) is Some ==> merged(merged(s, p), q).value(f)
            == p.value(f)->0,
        q.value(f) is None && p.value(f) is None ==> merged(merged(s, p), q).value(f)
            == s.value(f),
{
}

} // verus!
