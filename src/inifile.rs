//! Sections of an INI document, read and written through the `ini` crate.
use vstd::prelude::*;

use crate::text::same_text;

verus! {

/// The model of one INI section: its header (none for the general section)
/// and its key-value pairs in file order.
pub type SectionModel = (Option<Seq<char>>, Seq<(Seq<char>, Seq<char>)>);

/// One section of an INI document, as read or to be written.
pub struct IniSection {
    pub name: Option<String>,
    pub props: Vec<(String, String)>,
}

pub open spec fn props_view(props: Seq<(String, String)>) -> Seq<(Seq<char>, Seq<char>)> {
    props.map_values(|p: (String, String)| (p.0@, p.1@))
}

impl View for IniSection {
    type V = SectionModel;

    open spec fn view(&self) -> SectionModel {
        (
            match self.name {
                Some(n) => Some(n@),
                None => None,
            },
            props_view(self.props@),
        )
    }
}

pub open spec fn sections_view(s: Seq<IniSection>) -> Seq<SectionModel> {
    s.map_values(|x: IniSection| x@)
}

/// What the `ini` crate reads from a text: its sections in file order, or
/// nothing where the text is not valid INI.
pub uninterp spec fn ini_parsed(text: Seq<char>) -> Option<Seq<SectionModel>>;

/// The text that the `ini` crate writes for a document built from these
/// sections, one after the other. Its line separator is fixed by the target
/// the crate is built for.
pub uninterp spec fn ini_rendered(sections: Seq<SectionModel>) -> Seq<char>;

#[verifier::external_type_specification]
#[verifier::external_body]
pub struct ExParseError(ini::ParseError);

/// Relies on `ini::Ini::load_from_str` with its default options, and on
/// `Ini::iter` and `Properties::iter`, which give sections and pairs in the
/// order the text holds them.
#[verifier::external_body]
pub(crate) fn parse_ini(text: &str) -> (r: Result<Vec<IniSection>, ini::ParseError>)
    ensures
        r is Ok <==> ini_parsed(text@) is Some,
        r matches Ok(v) ==> Some(sections_view(v@)) == ini_parsed(text@),
{
    ini::Ini::load_from_str(text).map(
        |conf|
            conf.iter().map(
                |(sec, prop)|
                    IniSection {
                        name: sec.map(|s| s.to_string()),
                        props: prop.iter().map(|(k, v)| (k.to_string(), v.to_string())).collect(),
                    },
            ).collect(),
    )
}

/// Relies on `ini::Ini::new`, `Ini::with_section`, `SectionSetter::set` and
/// `Ini::write_to` with its default options. It writes into memory, which
/// cannot fail, and formats `str` values only, so the bytes are UTF-8.
#[verifier::external_body]
pub(crate) fn render_ini(sections: &Vec<IniSection>) -> (r: String)
    ensures
        r@ == ini_rendered(sections_view(sections@)),
{
    let mut conf = ini::Ini::new();
    for s in sections {
        let mut setter = conf.with_section(s.name.clone());
        for (k, v) in &s.props {
            setter.set(k.clone(), v.clone());
        }
    }
    let mut buf: Vec<u8> = Vec::new();
    let _ = conf.write_to(&mut buf);
    String::from_utf8_lossy(&buf).into_owned()
}

/// The value of the last pair under `key`: the one that wins when the pairs
/// are gathered into a map.
pub open spec fn lookup(props: Seq<(Seq<char>, Seq<char>)>, key: Seq<char>) -> Option<Seq<char>>
    decreases props.len(),
{
    if props.len() == 0 {
        None
    } else if props.last().0 == key {
        Some(props.last().1)
    } else {
        lookup(props.drop_last(), key)
    }
}

/// The value of the last pair of `props` under `key`.
pub fn lookup_value(props: &Vec<(String, String)>, key: &str) -> (r: Option<String>)
    ensures
        r matches Some(v) ==> lookup(props_view(props@), key@) == Some(v@),
        r is None ==> lookup(props_view(props@), key@) is None,
{
    let mut i: usize = props.len();
    assert(props@.subrange(0, i as int) =~= props@);
    while i > 0
        invariant
            i <= props@.len(),
            lookup(props_view(props@), key@) == lookup(props_view(props@.subrange(0, i as int)), key@),
        decreases i,
    {
        let ghost pre = props@.subrange(0, i as int);
        proof {
            assert(props_view(pre).drop_last() =~= props_view(props@.subrange(0, i - 1)));
            assert(props_view(pre).last() == (props@[i - 1].0@, props@[i - 1].1@));
        }
        if same_text(props[i - 1].0.as_str(), key) {
            return Some(props[i - 1].1.clone());
        }
        i = i - 1;
    }
    proof {
        assert(props_view(props@.subrange(0, 0)) =~= Seq::<(Seq<char>, Seq<char>)>::empty());
    }
    None
}

} // verus!
