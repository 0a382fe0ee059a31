use vstd::prelude::*;
use vstd::string::*;
use crate::data::GameData;
use crate::mode::mode_name;
use crate::text::{decimal, digits, signed_text, strip_commas, unsigned_text, without_commas};

verus! {

/// Why a template could not be rendered.
#[derive(Debug, Clone, PartialEq, Eq)]
pub enum FormatError {
    /// The template is not well formed.
    Invalid(String),
    /// The template names a placeholder that the record does not offer.
    KeyError(String),
    /// A placeholder carries a format option that its value does not take.
    TypeError(String),
}

/// The view of a list of name and value pairs.
pub open spec fn pairs_view(v: Seq<(String, String)>) -> Seq<(Seq<char>, Seq<char>)> {
    v.map_values(|p: (String, String)| (p.0@, p.1@))
}

/// What strfmt makes of a template and a list of named values: the rendered
/// text, or nothing where it reports an error.
pub uninterp spec fn strfmt_output(template: Seq<char>, vars: Seq<(Seq<char>, Seq<char>)>) -> Option<Seq<char>>;

/// Relies on `strfmt::strfmt`: it replaces each `{name}` of the template with
/// the value stored under that name, and reports a malformed template, an
/// unknown name or an unsupported format option as an error. Its outcome
/// depends on the template and the pairs alone.
#[verifier::external_body]
fn substitute(template: &str, vars: &Vec<(String, String)>) -> (r: Result<String, FormatError>)
    ensures
        r is Ok ==> strfmt_output(template@, pairs_view(vars@)) == Some(r->Ok_0@),
        r is Err ==> strfmt_output(template@, pairs_view(vars@)) is None,
{
    let map: std::collections::HashMap<String, String> = vars.iter().cloned().collect();
    match strfmt::strfmt(template, &map) {
        Ok(s) => Ok(s),
        Err(strfmt::FmtError::Invalid(m)) => Err(FormatError::Invalid(m)),
        Err(strfmt::FmtError::KeyError(m)) => Err(FormatError::KeyError(m)),
        Err(strfmt::FmtError::TypeError(m)) => Err(FormatError::TypeError(m)),
    }
}

/// The modifier list as shown: empty when no modifier is selected, else a plus
/// sign followed by the source's comma-separated list with the commas removed.
pub open spec fn mods_text(mods: Seq<char>) -> Seq<char> {
    if mods.len() == 0 {
        Seq::empty()
    } else {
        "+"@ + without_commas(mods)
    }
}

/// The beatmap's link: none for identifier zero, else the canonical address.
pub open spec fn link_text(map_id: u32) -> Seq<char> {
    if map_id == 0 {
        Seq::empty()
    } else {
        "https://osu.ppy.sh/b/"@ + digits(map_id as nat)
    }
}

/// A performance figure at one accuracy: a single number where the value with
/// the selected modifiers equals the value without them, else the value
/// without modifiers followed, in parentheses, by the value with them and the
/// modifier list.
pub open spec fn pp_text(with_mods: i64, without_mods: i64, mods: Seq<char>) -> Seq<char> {
    if with_mods == without_mods {
        decimal(with_mods as int)
    } else {
        decimal(without_mods as int) + " ("@ + decimal(with_mods as int) + (if mods.len() == 0 {
            Seq::empty()
        } else {
            " "@ + mods_text(mods)
        }) + ")"@
    }
}

/// Renders a performance figure, collapsing equal values with and without
/// modifiers into one.
pub fn render_pp(with_mods: i64, without_mods: i64, mods: &str) -> (r: String)
    ensures
        r@ == pp_text(with_mods, without_mods, mods@),
{
    if with_mods == without_mods {
        signed_text(with_mods)
    } else {
        let mut out = signed_text(without_mods);
        out.append(" (");
        out.append(signed_text(with_mods).as_str());
        if mods.unicode_len() != 0 {
            out.append(" ");
            out.append(mods_string(mods).as_str());
        }
        out.append(")");
        out
    }
}

/// The modifier list as shown.
fn mods_string(mods: &str) -> (r: String)
    ensures
        r@ == mods_text(mods@),
{
    if mods.unicode_len() == 0 {
        String::new()
    } else {
        String::from_str("+").concat(strip_commas(mods).as_str())
    }
}

/// The descriptive line of the beatmap: artist, title, difficulty and mapper,
/// then the link when the beatmap has an identifier.
pub open spec fn beatmap_line(s: GameData) -> Seq<char> {
    s.artist@ + " - "@ + s.title@ + " ["@ + s.version@ + "] by "@ + s.creator@ + (if s.map_id == 0 {
        Seq::empty()
    } else {
        " "@ + link_text(s.map_id)
    })
}

/// The named values that a template can use, in order.
pub open spec fn template_vars(s: GameData) -> Seq<(Seq<char>, Seq<char>)> {
    seq![
        ("artist"@, s.artist@),
        ("artist_unicode"@, s.artist_unicode@),
        ("title"@, s.title@),
        ("title_unicode"@, s.title_unicode@),
        ("version"@, s.version@),
        ("creator"@, s.creator@),
        ("mods"@, mods_text(s.mods@)),
        ("skin"@, s.skin@),
        ("map_id"@, digits(s.map_id as nat)),
        ("link"@, link_text(s.map_id)),
        ("stars"@, decimal(s.stars as int)),
        ("cs"@, decimal(s.cs as int)),
        ("ar"@, decimal(s.ar as int)),
        ("od"@, decimal(s.od as int)),
        ("hp"@, decimal(s.hp as int)),
        ("pp_95"@, decimal(s.pp_95 as int)),
        ("pp_96"@, decimal(s.pp_96 as int)),
        ("pp_97"@, decimal(s.pp_97 as int)),
        ("pp_98"@, decimal(s.pp_98 as int)),
        ("pp_99"@, decimal(s.pp_99 as int)),
        ("pp_ss"@, decimal(s.pp_ss as int)),
        ("pp_98_nomod"@, decimal(s.pp_98_nomod as int)),
        ("pp_99_nomod"@, decimal(s.pp_99_nomod as int)),
        ("pp_ss_nomod"@, decimal(s.pp_ss_nomod as int)),
        ("pp_98_text"@, pp_text(s.pp_98, s.pp_98_nomod, s.mods@)),
        ("pp_99_text"@, pp_text(s.pp_99, s.pp_99_nomod, s.mods@)),
        ("pp_ss_text"@, pp_text(s.pp_ss, s.pp_ss_nomod, s.mods@)),
        ("gamemode"@, mode_name(s.gamemode))
    ]
}

/// A pair of a name and a value.
fn named(name: &str, value: String) -> (r: (String, String))
    ensures
        r.0@ == name@,
        r.1@ == value@,
{
    (String::from_str(name), value)
}

impl GameData {
    /// The modifier list as shown: `+` and the modifiers, or nothing.
    pub fn get_mods(&self) -> (r: String)
        ensures
            r@ == mods_text(self.mods@),
    {
        mods_string(self.mods.as_str())
    }

    /// The canonical link of the beatmap, or nothing when it has no identifier.
    pub fn get_beatmap_link(&self) -> (r: String)
        ensures
            r@ == link_text(self.map_id),
    {
        if self.map_id == 0 {
            String::new()
        } else {
            String::from_str("https://osu.ppy.sh/b/").concat(unsigned_text(self.map_id as u64).as_str())
        }
    }

    /// The descriptive line of the beatmap, with its link when it has an
    /// identifier and without one when it has none.
    pub fn describe_beatmap(&self) -> (r: String)
        ensures
            r@ == beatmap_line(*self),
    {
        let mut line = self.artist.clone();
        line.append(" - ");
        line.append(self.title.as_str());
        line.append(" [");
        line.append(self.version.as_str());
        line.append("] by ");
        line.append(self.creator.as_str());
        if self.map_id != 0 {
            line.append(" ");
            line.append(self.get_beatmap_link().as_str());
        }
        line
    }

    /// Every value that a template can name, as text.
    pub fn template_vars(&self) -> (r: Vec<(String, String)>)
        ensures
            pairs_view(r@) == template_vars(*self),
    {
        let mut vars: Vec<(String, String)> = Vec::new();
        vars.push(named("artist", self.artist.clone()));
        vars.push(named("artist_unicode", self.artist_unicode.clone()));
        vars.push(named("title", self.title.clone()));
        vars.push(named("title_unicode", self.title_unicode.clone()));
        vars.push(named("version", self.version.clone()));
        vars.push(named("creator", self.creator.clone()));
        vars.push(named("mods", self.get_mods()));
        vars.push(named("skin", self.skin.clone()));
        vars.push(named("map_id", unsigned_text(self.map_id as u64)));
        vars.push(named("link", self.get_beatmap_link()));
        vars.push(named("stars", signed_text(self.stars)));
        vars.push(named("cs", signed_text(self.cs)));
        vars.push(named("ar", signed_text(self.ar)));
        vars.push(named("od", signed_text(self.od)));
        vars.push(named("hp", signed_text(self.hp)));
        vars.push(named("pp_95", signed_text(self.pp_95)));
        vars.push(named("pp_96", signed_text(self.pp_96)));
        vars.push(named("pp_97", signed_text(self.pp_97)));
        vars.push(named("pp_98", signed_text(self.pp_98)));
        vars.push(named("pp_99", signed_text(self.pp_99)));
        vars.push(named("pp_ss", signed_text(self.pp_ss)));
        vars.push(named("pp_98_nomod", signed_text(self.pp_98_nomod)));
        vars.push(named("pp_99_nomod", signed_text(self.pp_99_nomod)));
        vars.push(named("pp_ss_nomod", signed_text(self.pp_ss_nomod)));
        vars.push(named("pp_98_text", render_pp(self.pp_98, self.pp_98_nomod, self.mods.as_str())));
        vars.push(named("pp_99_text", render_pp(self.pp_99, self.pp_99_nomod, self.mods.as_str())));
        vars.push(named("pp_ss_text", render_pp(self.pp_ss, self.pp_ss_nomod, self.mods.as_str())));
        vars.push(named("gamemode", self.gamemode.to_string()));
        let ghost s = *self;
        assert(pairs_view(vars@) =~= template_vars(s));
        vars
    }

    /// Renders `template` with the values of this record. A malformed template,
    /// or one that names an unknown value, gives an error and no text.
    pub fn get_formatted_string(&self, template: &str) -> (r: Result<String, FormatError>)
        ensures
            r is Ok ==> strfmt_output(template@, template_vars(*self)) == Some(r->Ok_0@),
            r is Err ==> strfmt_output(template@, template_vars(*self)) is None,
    {
        let vars = self.template_vars();
        substitute(template, &vars)
    }
}

/// Equal values with and without modifiers are shown once, with no modifier
/// list; different ones are both shown, the modifier list after them.
pub proof fn lemma_pp_collapse(with_mods: i64, without_mods: i64, mods: Seq<char>)
    ensures
        with_mods == without_mods ==> pp_text(with_mods, without_mods, mods) == decimal(
            with_mods as int,
        ),
        with_mods != without_mods && mods.len() > 0 ==> pp_text(with_mods, without_mods, mods)
            == decimal(without_mods as int) + " ("@ + decimal(with_mods as int) + " "@
            + mods_text(mods) + ")"@,
{
    if with_mods != without_mods && mods.len() > 0 {
        assert(pp_text(with_mods, without_mods, mods) =~= decimal(without_mods as int) + " ("@
            + decimal(with_mods as int) + " "@ + mods_text(mods) + ")"@);
    }
}

} // verus!
