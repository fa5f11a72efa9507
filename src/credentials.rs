//! The credentials store: usable short-lived credentials keyed by profile
//! name.
use vstd::prelude::*;
use vstd::string::*;

use crate::error::RefreshError;
use crate::inifile::{
    ini_parsed, ini_rendered, lookup, lookup_value, parse_ini, props_view, render_ini,
    sections_view, IniSection, SectionModel,
};
use crate::text::same_text;

verus! {

/// One profile's short-lived credentials.
pub struct CredentialsSection {
    pub region: String,
    pub aws_access_key_id: String,
    pub aws_secret_access_key: String,
    pub aws_session_token: String,
}

/// The model of a credential entry.
pub struct CredentialModel {
    pub region: Seq<char>,
    pub access_key_id: Seq<char>,
    pub secret_access_key: Seq<char>,
    pub session_token: Seq<char>,
}

impl View for CredentialsSection {
    type V = CredentialModel;

    open spec fn view(&self) -> CredentialModel {
        CredentialModel {
            region: self.region@,
            access_key_id: self.aws_access_key_id@,
            secret_access_key: self.aws_secret_access_key@,
            session_token: self.aws_session_token@,
        }
    }
}

/// The model of a store: its entries, each a profile name and credentials.
pub type StoreModel = Seq<(Seq<char>, CredentialModel)>;

pub open spec fn store_view(s: Seq<(String, CredentialsSection)>) -> StoreModel {
    s.map_values(|p: (String, CredentialsSection)| (p.0@, p.1@))
}

/// No two entries of the store share a profile name.
pub open spec fn keys_unique(s: StoreModel) -> bool {
    forall|i: int, j: int| 0 <= i < s.len() && 0 <= j < s.len() && i != j ==> #[trigger] s[i].0 != #[trigger] s[j].0
}

/// The store as a mapping from profile name to credentials.
pub open spec fn store_map(s: StoreModel) -> Map<Seq<char>, CredentialModel>
    decreases s.len(),
{
    if s.len() == 0 {
        Map::empty()
    } else {
        store_map(s.drop_last()).insert(s.last().0, s.last().1)
    }
}

/// Where the entry for `name` stands in the store, if it has one.
pub open spec fn key_index(s: StoreModel, name: Seq<char>) -> Option<int> {
    if exists|i: int| 0 <= i < s.len() && #[trigger] s[i].0 == name {
        Some(choose|i: int| 0 <= i < s.len() && #[trigger] s[i].0 == name)
    } else {
        None
    }
}

/// The store with the entry for `name` set to `e`: replaced in place where
/// there is one, added at the end where there is none.
pub open spec fn upsert(s: StoreModel, name: Seq<char>, e: CredentialModel) -> StoreModel {
    match key_index(s, name) {
        Some(i) => s.update(i, (name, e)),
        None => s.push((name, e)),
    }
}

/// The entry a section gives: the section's header as the profile name, and
/// all four settings, which must be there.
pub open spec fn credential_entry(sec: SectionModel) -> Option<(Seq<char>, CredentialModel)> {
    match sec.0 {
        None => None,
        Some(header) => {
            let props = sec.1;
            match (
                lookup(props, "region"@),
                lookup(props, "aws_access_key_id"@),
                lookup(props, "aws_secret_access_key"@),
                lookup(props, "aws_session_token"@),
            ) {
                (Some(r), Some(a), Some(s), Some(t)) => Some(
                    (
                        header,
                        CredentialModel {
                            region: r,
                            access_key_id: a,
                            secret_access_key: s,
                            session_token: t,
                        },
                    ),
                ),
                _ => None,
            }
        },
    }
}

/// The store that a document's sections give, read in order: a later
/// section for a name replaces an earlier one.
pub open spec fn store_of(secs: Seq<SectionModel>) -> StoreModel
    decreases secs.len(),
{
    if secs.len() == 0 {
        Seq::empty()
    } else {
        let rest = store_of(secs.drop_last());
        match credential_entry(secs.last()) {
            Some(p) => upsert(rest, p.0, p.1),
            None => rest,
        }
    }
}

/// The sections written for a store, one per entry, in order, each with its
/// four settings.
pub open spec fn store_sections(s: StoreModel) -> Seq<SectionModel> {
    s.map_values(
        |p: (Seq<char>, CredentialModel)|
            (
                Some(p.0),
                seq![
                    ("region"@, p.1.region),
                    ("aws_access_key_id"@, p.1.access_key_id),
                    ("aws_secret_access_key"@, p.1.secret_access_key),
                    ("aws_session_token"@, p.1.session_token),
                ],
            ),
    )
}

pub proof fn lemma_upsert_keeps_keys_unique(s: StoreModel, name: Seq<char>, e: CredentialModel)
    requires
        keys_unique(s),
    ensures
        keys_unique(upsert(s, name, e)),
{
}

proof fn lemma_store_map_entries(s: StoreModel)
    requires
        keys_unique(s),
    ensures
        forall|i: int| 0 <= i < s.len() ==> #[trigger] store_map(s).contains_key(s[i].0) && store_map(s)[s[i].0] == s[i].1,
        forall|k: Seq<char>| #[trigger] store_map(s).contains_key(k) ==> exists|i: int| 0 <= i < s.len() && s[i].0 == k,
    decreases s.len(),
{
    if s.len() > 0 {
        let r = s.drop_last();
        assert(keys_unique(r));
        lemma_store_map_entries(r);
        assert(store_map(s) == store_map(r).insert(s.last().0, s.last().1));
        assert forall|i: int| 0 <= i < s.len() implies #[trigger] store_map(s).contains_key(s[i].0) && store_map(s)[s[i].0] == s[i].1 by {
            if i < s.len() - 1 {
                assert(r[i] == s[i]);
                assert(store_map(r).contains_key(r[i].0));
                assert(s[i].0 != s[s.len() - 1].0);
            }
        }
        assert forall|k: Seq<char>| #[trigger] store_map(s).contains_key(k) implies exists|i: int| 0 <= i < s.len() && s[i].0 == k by {
            if k != s.last().0 {
                assert(store_map(r).contains_key(k));
                let i = choose|i: int| 0 <= i < r.len() && r[i].0 == k;
                assert(s[i] == r[i]);
            } else {
                assert(s[s.len() - 1].0 == k);
            }
        }
    }
}

/// Setting the entry for one name leaves every other entry as it was, and
/// reads back as exactly what was set; setting it again changes nothing more.
pub proof fn lemma_upsert_round_trip(s: StoreModel, name: Seq<char>, e: CredentialModel)
    requires
        keys_unique(s),
    ensures
        store_map(upsert(s, name, e)) == store_map(s).insert(name, e),
        store_map(upsert(upsert(s, name, e), name, e)) == store_map(upsert(s, name, e)),
{
    let t = upsert(s, name, e);
    lemma_upsert_keeps_keys_unique(s, name, e);
    lemma_store_map_entries(s);
    lemma_store_map_entries(t);
    let m = store_map(s).insert(name, e);
    assert forall|k: Seq<char>| store_map(t).contains_key(k) <==> m.contains_key(k) by {
        if store_map(t).contains_key(k) {
            let i = choose|i: int| 0 <= i < t.len() && t[i].0 == k;
            if k != name {
                assert(s[i] == t[i]);
                assert(store_map(s).contains_key(s[i].0));
            }
        }
        if m.contains_key(k) && k != name {
            let i = choose|i: int| 0 <= i < s.len() && s[i].0 == k;
            assert(t[i] == s[i]);
            assert(store_map(t).contains_key(t[i].0));
        }
        if k == name {
            let j = match key_index(s, name) { Some(j) => j, None => s.len() as int };
            assert(t[j].0 == name);
            assert(store_map(t).contains_key(t[j].0));
        }
    }
    assert forall|k: Seq<char>| #[trigger] store_map(t).contains_key(k) implies store_map(t)[k] == m[k] by {
        let i = choose|i: int| 0 <= i < t.len() && t[i].0 == k;
        assert(store_map(t).contains_key(t[i].0));
        if k != name {
            assert(s[i] == t[i]);
            assert(store_map(s).contains_key(s[i].0));
        }
    }
    assert(store_map(t) =~= m);
    lemma_upsert_round_trip_again(s, name, e);
}

proof fn lemma_upsert_round_trip_again(s: StoreModel, name: Seq<char>, e: CredentialModel)
    requires
        keys_unique(s),
    ensures
        upsert(upsert(s, name, e), name, e) == upsert(s, name, e),
{
    let t = upsert(s, name, e);
    lemma_upsert_keeps_keys_unique(s, name, e);
    let j = match key_index(s, name) { Some(j) => j, None => s.len() as int };
    assert(t[j].0 == name);
    let c = choose|i: int| 0 <= i < t.len() && #[trigger] t[i].0 == name;
    assert(c == j);
    assert(t.update(j, (name, e)) =~= t);
}

proof fn lemma_written_section_reads_back(k: Seq<char>, e: CredentialModel)
    ensures
        credential_entry(store_sections(seq![(k, e)])[0]) == Some((k, e)),
{
    reveal_strlit("region");
    reveal_strlit("aws_access_key_id");
    reveal_strlit("aws_secret_access_key");
    reveal_strlit("aws_session_token");
    let props = store_sections(seq![(k, e)])[0].1;
    assert("region"@[0] != "aws_session_token"@[0]);
    assert("region"@[0] != "aws_secret_access_key"@[0]);
    assert("region"@ != "aws_access_key_id"@);
    assert("aws_access_key_id"@[4] != "aws_session_token"@[4]);
    assert("aws_access_key_id"@[4] != "aws_secret_access_key"@[4]);
    assert("aws_secret_access_key"@[6] != "aws_session_token"@[6]);
    reveal_with_fuel(lookup, 5);
    assert(props.drop_last().drop_last().drop_last() =~= seq![("region"@, e.region)]);
    assert(props.drop_last().drop_last() =~= seq![("region"@, e.region), ("aws_access_key_id"@, e.access_key_id)]);
    assert(lookup(props, "region"@) == Some(e.region));
    assert(lookup(props, "aws_access_key_id"@) == Some(e.access_key_id));
    assert(lookup(props, "aws_secret_access_key"@) == Some(e.secret_access_key));
    assert(lookup(props, "aws_session_token"@) == Some(e.session_token));
}

/// Reading back the sections written for a store whose names are unique
/// gives that same store, entry for entry and in order.
pub proof fn lemma_store_sections_read_back(m: StoreModel)
    requires
        keys_unique(m),
    ensures
        store_of(store_sections(m)) == m,
    decreases m.len(),
{
    if m.len() == 0 {
        assert(store_sections(m) =~= Seq::<SectionModel>::empty());
    } else {
        let r = m.drop_last();
        let secs = store_sections(m);
        assert(keys_unique(r));
        lemma_store_sections_read_back(r);
        assert(secs.drop_last() =~= store_sections(r));
        lemma_written_section_reads_back(m.last().0, m.last().1);
        assert(store_sections(seq![(m.last().0, m.last().1)])[0] == secs.last());
        assert(m.last() == m[m.len() - 1]);
        assert(!exists|i: int| 0 <= i < r.len() && #[trigger] r[i].0 == m.last().0) by {
            assert forall|i: int| 0 <= i < r.len() implies #[trigger] r[i].0 != m.last().0 by {
                assert(r[i] == m[i]);
            }
        }
        assert(r.push(m.last()) =~= m);
    }
}

/// Sets the entry for `name` to `entry`: replaces the entry for that name in
/// place where there is one, and adds it at the end where there is none.
/// Entries for other names are left as they were.
pub fn merge_credentials(store: &mut Vec<(String, CredentialsSection)>, name: String, entry: CredentialsSection)
    requires
        keys_unique(store_view(old(store)@)),
    ensures
        store_view(final(store)@) == upsert(store_view(old(store)@), name@, entry@),
        keys_unique(store_view(final(store)@)),
{
    let ghost s = store_view(store@);
    let ghost k = name@;
    let ghost e = entry@;
    proof {
        lemma_upsert_keeps_keys_unique(s, k, e);
    }
    let mut i: usize = 0;
    while i < store.len()
        invariant
            i <= store@.len(),
            s == store_view(store@),
            s == store_view(old(store)@),
            k == name@,
            e == entry@,
            keys_unique(s),
            forall|j: int| 0 <= j < i ==> s[j].0 != k,
        decreases store@.len() - i,
    {
        assert(s[i as int] == (store@[i as int].0@, store@[i as int].1@));
        if same_text(store[i].0.as_str(), name.as_str()) {
            proof {
                assert(s[i as int].0 == k);
                let c = choose|c: int| 0 <= c < s.len() && #[trigger] s[c].0 == k;
                assert(c == i);
            }
            store.set(i, (name, entry));
            assert(store_view(store@) =~= s.update(i as int, (k, e)));
            return;
        }
        i = i + 1;
    }
    store.push((name, entry));
    assert(store_view(store@) =~= s.push((k, e)));
}

/// The entry that one section gives, or none where it lacks a header or one
/// of the four settings.
pub fn credentials_section(sec: &IniSection) -> (r: Option<(String, CredentialsSection)>)
    ensures
        r matches Some(p) ==> credential_entry(sec@) == Some((p.0@, p.1@)),
        r is None ==> credential_entry(sec@) is None,
{
    let header = match &sec.name {
        Some(h) => h.clone(),
        None => return None,
    };
    let region = match lookup_value(&sec.props, "region") {
        Some(v) => v,
        None => return None,
    };
    let aws_access_key_id = match lookup_value(&sec.props, "aws_access_key_id") {
        Some(v) => v,
        None => return None,
    };
    let aws_secret_access_key = match lookup_value(&sec.props, "aws_secret_access_key") {
        Some(v) => v,
        None => return None,
    };
    let aws_session_token = match lookup_value(&sec.props, "aws_session_token") {
        Some(v) => v,
        None => return None,
    };
    Some((header, CredentialsSection { region, aws_access_key_id, aws_secret_access_key, aws_session_token }))
}

/// Reads the credentials store from its text: one entry per profile name,
/// from the sections that carry all four settings, a later section for a
/// name replacing an earlier one. A text that is not valid INI is
/// `Malformed`.
pub fn get_credentials(text: &str) -> (r: Result<Vec<(String, CredentialsSection)>, RefreshError>)
    ensures
        ini_parsed(text@) is None ==> (r matches Err(e) && e == RefreshError::Malformed),
        ini_parsed(text@) matches Some(secs) ==> r matches Ok(v) && store_view(v@) == store_of(secs)
            && keys_unique(store_view(v@)),
{
    let secs = match parse_ini(text) {
        Ok(secs) => secs,
        Err(_) => return Err(RefreshError::Malformed),
    };
    let ghost model = sections_view(secs@);
    let mut out: Vec<(String, CredentialsSection)> = Vec::new();
    let mut i: usize = 0;
    while i < secs.len()
        invariant
            i <= secs@.len(),
            model == sections_view(secs@),
            store_view(out@) == store_of(model.subrange(0, i as int)),
            keys_unique(store_view(out@)),
        decreases secs@.len() - i,
    {
        proof {
            assert(model.subrange(0, i + 1).drop_last() =~= model.subrange(0, i as int));
        }
        match credentials_section(&secs[i]) {
            Some(p) => merge_credentials(&mut out, p.0, p.1),
            None => {},
        }
        i = i + 1;
    }
    assert(model.subrange(0, i as int) =~= model);
    Ok(out)
}

/// The text of a credentials store holding exactly the given entries, one
/// section per entry in order, each with its four settings. The whole store
/// is written: entries left out are gone.
pub fn write_credentials(store: &Vec<(String, CredentialsSection)>) -> (r: String)
    ensures
        r@ == ini_rendered(store_sections(store_view(store@))),
{
    let mut secs: Vec<IniSection> = Vec::new();
    let mut i: usize = 0;
    while i < store.len()
        invariant
            i <= store@.len(),
            sections_view(secs@) == store_sections(store_view(store@.subrange(0, i as int))),
        decreases store@.len() - i,
    {
        let c = &store[i].1;
        let props = vec![
            (String::from_str("region"), c.region.clone()),
            (String::from_str("aws_access_key_id"), c.aws_access_key_id.clone()),
            (String::from_str("aws_secret_access_key"), c.aws_secret_access_key.clone()),
            (String::from_str("aws_session_token"), c.aws_session_token.clone()),
        ];
        let ghost before = secs@;
        secs.push(IniSection { name: Some(store[i].0.clone()), props });
        proof {
            assert(props_view(props@) =~= store_sections(store_view(store@))[i as int].1);
            assert(store_sections(store_view(store@.subrange(0, i + 1))) =~= store_sections(
                store_view(store@.subrange(0, i as int)),
            ).push(store_sections(store_view(store@))[i as int]));
            assert(sections_view(secs@) =~= sections_view(before).push(secs@.last()@));
        }
        i = i + 1;
    }
    assert(store@.subrange(0, i as int) =~= store@);
    render_ini(&secs)
}

} // verus!
