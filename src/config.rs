//! The profile store: named profiles with single sign-on settings.
use vstd::prelude::*;

use crate::error::RefreshError;
use crate::inifile::{ini_parsed, lookup, lookup_value, parse_ini, sections_view, IniSection, SectionModel};
use crate::text::{contains_str, is_substring, last_word, last_word_of};

verus! {

/// The single sign-on settings of one profile.
pub struct ConfigProfile {
    pub region: String,
    pub sso_account_id: String,
    pub sso_role_name: String,
    pub sso_start_url: String,
    pub sso_region: String,
}

/// One profile eligible for a refresh: its name and its settings.
pub struct ConfigSection {
    pub name: String,
    pub profile: ConfigProfile,
}

/// The model of a profile.
pub struct ProfileModel {
    pub name: Seq<char>,
    pub region: Seq<char>,
    pub sso_account_id: Seq<char>,
    pub sso_role_name: Seq<char>,
    pub sso_start_url: Seq<char>,
    pub sso_region: Seq<char>,
}

impl View for ConfigSection {
    type V = ProfileModel;

    open spec fn view(&self) -> ProfileModel {
        ProfileModel {
            name: self.name@,
            region: self.profile.region@,
            sso_account_id: self.profile.sso_account_id@,
            sso_role_name: self.profile.sso_role_name@,
            sso_start_url: self.profile.sso_start_url@,
            sso_region: self.profile.sso_region@,
        }
    }
}

pub open spec fn profiles_view(v: Seq<ConfigSection>) -> Seq<ProfileModel> {
    v.map_values(|c: ConfigSection| c@)
}

/// The profile that a section describes: its name is the last word of its
/// header (`[profile dev]` gives `dev`), and all five settings must be there.
pub open spec fn config_entry(sec: SectionModel) -> Option<ProfileModel> {
    match sec.0 {
        None => None,
        Some(header) => {
            let props = sec.1;
            match (
                last_word_of(header),
                lookup(props, "region"@),
                lookup(props, "sso_account_id"@),
                lookup(props, "sso_role_name"@),
                lookup(props, "sso_start_url"@),
                lookup(props, "sso_region"@),
            ) {
                (Some(n), Some(r), Some(a), Some(ro), Some(u), Some(sr)) => Some(
                    ProfileModel {
                        name: n,
                        region: r,
                        sso_account_id: a,
                        sso_role_name: ro,
                        sso_start_url: u,
                        sso_region: sr,
                    },
                ),
                _ => None,
            }
        },
    }
}

/// The eligible profiles of a document, in file order.
pub open spec fn config_universe(secs: Seq<SectionModel>) -> Seq<ProfileModel> {
    secs.filter_map(|s: SectionModel| config_entry(s))
}

/// Sections that lack a setting are left out rather than refused: the
/// eligible profiles of a document are exactly as many as its sections that
/// name a profile and carry all of its settings.
pub proof fn lemma_universe_counts_eligible(secs: Seq<SectionModel>)
    ensures
        config_universe(secs).len() == secs.filter(|s: SectionModel| config_entry(s) is Some).len(),
    decreases secs.len(),
{
    reveal(Seq::filter);
    if secs.len() > 0 {
        lemma_universe_counts_eligible(secs.drop_last());
    }
}

/// The profile of one section, or none where the section lacks a header or
/// one of the settings.
pub fn config_section(sec: &IniSection) -> (r: Option<ConfigSection>)
    ensures
        r matches Some(c) ==> config_entry(sec@) == Some(c@),
        r is None ==> config_entry(sec@) is None,
{
    let header = match &sec.name {
        Some(h) => h,
        None => return None,
    };
    let name = match last_word(header.as_str()) {
        Some(n) => n,
        None => return None,
    };
    let region = match lookup_value(&sec.props, "region") {
        Some(v) => v,
        None => return None,
    };
    let sso_account_id = match lookup_value(&sec.props, "sso_account_id") {
        Some(v) => v,
        None => return None,
    };
    let sso_role_name = match lookup_value(&sec.props, "sso_role_name") {
        Some(v) => v,
        None => return None,
    };
    let sso_start_url = match lookup_value(&sec.props, "sso_start_url") {
        Some(v) => v,
        None => return None,
    };
    let sso_region = match lookup_value(&sec.props, "sso_region") {
        Some(v) => v,
        None => return None,
    };
    Some(
        ConfigSection {
            name,
            profile: ConfigProfile { region, sso_account_id, sso_role_name, sso_start_url, sso_region },
        },
    )
}

/// The eligible profiles of the given sections, in order.
pub fn profiles_of(secs: &Vec<IniSection>) -> (r: Vec<ConfigSection>)
    ensures
        profiles_view(r@) == config_universe(sections_view(secs@)),
{
    let mut out: Vec<ConfigSection> = Vec::new();
    let mut i: usize = 0;
    while i < secs.len()
        invariant
            i <= secs@.len(),
            profiles_view(out@) == config_universe(sections_view(secs@.subrange(0, i as int))),
        decreases secs@.len() - i,
    {
        let ghost before = out@;
        let c = config_section(&secs[i]);
        proof {
            let s = sections_view(secs@.subrange(0, i + 1));
            assert(s.drop_last() =~= sections_view(secs@.subrange(0, i as int)));
            assert(s.last() == secs@[i as int]@);
        }
        match c {
            Some(c) => {
                out.push(c);
                assert(profiles_view(out@) =~= profiles_view(before).push(out@.last()@));
            },
            None => {},
        }
        i = i + 1;
    }
    assert(secs@.subrange(0, i as int) =~= secs@);
    out
}

/// Reads the profile store from its text: every section that names a profile
/// and carries all of its settings, in file order. Other sections are left
/// out without error; a text that is not valid INI is `Malformed`.
pub fn aws_config(text: &str) -> (r: Result<Vec<ConfigSection>, RefreshError>)
    ensures
        ini_parsed(text@) is None ==> r == Err::<Vec<ConfigSection>, RefreshError>(
            RefreshError::Malformed,
        ),
        ini_parsed(text@) matches Some(secs) ==> r matches Ok(v) && profiles_view(v@)
            == config_universe(secs),
{
    match parse_ini(text) {
        Ok(secs) => Ok(profiles_of(&secs)),
        Err(_) => Err(RefreshError::Malformed),
    }
}

/// Picks the first profile, in order, whose name contains `query`; fails
/// with `NotFound` where none does.
pub fn resolve_profile(profiles: &Vec<ConfigSection>, query: &str) -> (r: Result<usize, RefreshError>)
    ensures
        r matches Ok(i) ==> i < profiles@.len() && is_substring(query@, profiles@[i as int].name@)
            && forall|j: int| 0 <= j < i ==> !is_substring(query@, #[trigger] profiles@[j].name@),
        r is Err ==> r == Err::<usize, RefreshError>(RefreshError::NotFound) && forall|j: int|
            0 <= j < profiles@.len() ==> !is_substring(query@, #[trigger] profiles@[j].name@),
{
    let mut i: usize = 0;
    while i < profiles.len()
        invariant
            i <= profiles@.len(),
            forall|j: int| 0 <= j < i ==> !is_substring(query@, #[trigger] profiles@[j].name@),
        decreases profiles@.len() - i,
    {
        if contains_str(profiles[i].name.as_str(), query) {
            return Ok(i);
        }
        i = i + 1;
    }
    Err(RefreshError::NotFound)
}

} // verus!
