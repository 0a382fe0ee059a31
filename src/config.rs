use vstd::prelude::*;
use vstd::string::*;
use crate::render::pairs_view;
use crate::source::DataSource;
use crate::text::same_text;

verus! {

/// The settings the core is started with: the chat account and its
/// credential, the channel to join (the account's own when none is given),
/// the data source, the cool-down of each command in seconds, and templates
/// by command name.
#[derive(Debug, Clone)]
pub struct Config {
    pub username: String,
    pub token: String,
    pub channel: Option<String>,
    pub source: DataSource,
    pub timeout: u64,
    pub templates: Vec<(String, String)>,
}

/// The value of the first pair named `name`.
pub open spec fn lookup(entries: Seq<(Seq<char>, Seq<char>)>, name: Seq<char>) -> Option<Seq<char>>
    decreases entries.len(),
{
    if entries.len() == 0 {
        None
    } else if entries[0].0 == name {
        Some(entries[0].1)
    } else {
        lookup(entries.drop_first(), name)
    }
}

/// The template that a command has when the settings name none for it.
pub open spec fn default_template(name: Seq<char>) -> Option<Seq<char>> {
    if name == "np"@ {
        Some("{artist} - {title} [{version}] by {creator} {link}"@)
    } else if name == "pp"@ {
        Some("PP {mods} (98/99/100): {pp_98}/{pp_99}/{pp_ss}"@)
    } else if name == "skin"@ {
        Some("Skin: {skin}"@)
    } else {
        None
    }
}

/// The template of a command: the configured one, else the built-in one.
pub open spec fn template_of(templates: Seq<(String, String)>, name: Seq<char>) -> Option<Seq<char>> {
    match lookup(pairs_view(templates), name) {
        Some(t) => Some(t),
        None => default_template(name),
    }
}

/// The channel to join: the configured one, else the account's own.
pub open spec fn channel_of(c: Config) -> Seq<char> {
    match c.channel {
        Some(ch) => ch@,
        None => c.username@,
    }
}

fn built_in_template(name: &str) -> (r: Option<String>)
    ensures
        r is Some == default_template(name@) is Some,
        r is Some ==> r->0@ == default_template(name@)->0,
{
    if same_text(name, "np") {
        Some(String::from_str("{artist} - {title} [{version}] by {creator} {link}"))
    } else if same_text(name, "pp") {
        Some(String::from_str("PP {mods} (98/99/100): {pp_98}/{pp_99}/{pp_ss}"))
    } else if same_text(name, "skin") {
        Some(String::from_str("Skin: {skin}"))
    } else {
        None
    }
}

impl Default for Config {
    fn default() -> (r: Config)
        ensures
            r.username@.len() == 0,
            r.token@.len() == 0,
            r.channel is None,
            r.source == DataSource::Tosu,
            r.timeout == 5,
            r.templates@.len() == 0,
    {
        Config {
            username: String::new(),
            token: String::new(),
            channel: None,
            source: DataSource::Tosu,
            timeout: 5,
            templates: Vec::new(),
        }
    }
}

impl Config {
    /// The template of command `name`: the first configured one of that name,
    /// else the built-in one for `np`, `pp` and `skin`, else none.
    pub fn get_template(&self, name: &str) -> (r: Option<String>)
        ensures
            r is Some == template_of(self.templates@, name@) is Some,
            r is Some ==> r->0@ == template_of(self.templates@, name@)->0,
    {
        let ghost all = pairs_view(self.templates@);
        assert(all.subrange(0, all.len() as int) =~= all);
        let mut i: usize = 0;
        while i < self.templates.len()
            invariant
                all == pairs_view(self.templates@),
                i <= self.templates@.len(),
                lookup(all, name@) == lookup(all.subrange(i as int, all.len() as int), name@),
            decreases self.templates@.len() - i,
        {
            let ghost rest = all.subrange(i as int, all.len() as int);
            if same_text(self.templates[i].0.as_str(), name) {
                assert(rest[0] == all[i as int]);
                assert(rest[0].0 == name@);
                return Some(self.templates[i].1.clone());
            }
            assert(rest.drop_first() =~= all.subrange(i + 1, all.len() as int));
            i = i + 1;
        }
        built_in_template(name)
    }

    /// The channel to join: the configured one, else the account's own.
    pub fn channel_name(&self) -> (r: String)
        ensures
            r@ == channel_of(*self),
    {
        match &self.channel {
            Some(c) => c.clone(),
            None => self.username.clone(),
        }
    }
}

} // verus!
