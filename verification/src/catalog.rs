//! Reading a service's entry of its enterprise domain catalog: the TOML
//! document's top-level fields, and the catalog entry built from them.

use vstd::prelude::*;
use crate::boundaries::CatalogServiceBoundary;
use crate::command_plan::strs;
use crate::text::{concat3, owned};

verus! {

/// A top-level field of a TOML document, as far as a catalog reads it: a
/// string, an array (each element's text where it is a string), or anything
/// else.
#[derive(Debug, PartialEq, Eq)]
pub enum TomlField {
    Str(String),
    Array(Vec<Option<String>>),
    Other,
}

/// The content of a TOML field.
pub enum TomlFieldView {
    Str(Seq<char>),
    Array(Seq<Option<Seq<char>>>),
    Other,
}

/// The text of an optional string.
pub open spec fn opt_view(o: Option<String>) -> Option<Seq<char>> {
    match o {
        Some(s) => Some(s@),
        None => None,
    }
}

impl View for TomlField {
    type V = TomlFieldView;

    open spec fn view(&self) -> TomlFieldView {
        match self {
            TomlField::Str(s) => TomlFieldView::Str(s@),
            TomlField::Array(items) => TomlFieldView::Array(items@.map_values(|o: Option<String>| opt_view(o))),
            TomlField::Other => TomlFieldView::Other,
        }
    }
}

/// The content of a list of top-level fields.
pub open spec fn table_view(t: Seq<(String, TomlField)>) -> Seq<(Seq<char>, TomlFieldView)> {
    t.map_values(|e: (String, TomlField)| (e.0@, e.1@))
}

/// The top-level fields of a TOML document, by name; `None` where the text
/// is not a TOML document whose root is a table.
pub uninterp spec fn toml_table(source: Seq<char>) -> Option<Seq<(Seq<char>, TomlFieldView)>>;

/// `source.parse::<toml::Value>()` (which reads `source` as a TOML
/// document), with each top-level field converted: strings keep their text,
/// arrays keep the text of each string element, everything else is
/// `Other`. `None` where the parse fails or the root is not a table. The
/// fields themselves are left to the name.
#[verifier::external_body]
fn parse_toml_table(source: &str) -> (r: Option<Vec<(String, TomlField)>>)
    ensures
        match r {
            Some(t) => toml_table(source@) == Some(table_view(t@)),
            None => toml_table(source@) is None,
        },
{
    match source.parse::<toml::Value>() {
        Ok(toml::Value::Table(table)) => Some(table.into_iter().map(|(key, value)| (key, match value {
            toml::Value::String(s) => TomlField::Str(s),
            toml::Value::Array(items) => TomlField::Array(items.into_iter().map(|item| match item {
                toml::Value::String(s) => Some(s),
                _ => None,
            }).collect()),
            _ => TomlField::Other,
        })).collect()),
        _ => None,
    }
}

/// The first field named `key`.
pub open spec fn field_of(t: Seq<(Seq<char>, TomlFieldView)>, key: Seq<char>) -> Option<TomlFieldView>
    decreases t.len(),
{
    if t.len() == 0 {
        None
    } else if t[0].0 == key {
        Some(t[0].1)
    } else {
        field_of(t.drop_first(), key)
    }
}

/// The string field `key`, or the message naming it as missing.
pub open spec fn string_field_of(t: Seq<(Seq<char>, TomlFieldView)>, key: Seq<char>) -> Result<Seq<char>, Seq<char>> {
    match field_of(t, key) {
        Some(TomlFieldView::Str(s)) => Ok(s),
        _ => Err("missing string field `"@ + key + "`"@),
    }
}

/// Whether every element of an array is a string.
pub open spec fn all_strings(items: Seq<Option<Seq<char>>>) -> bool {
    forall|i: int| 0 <= i < items.len() ==> (#[trigger] items[i]) is Some
}

/// The texts of an array whose elements are all strings.
pub open spec fn texts(items: Seq<Option<Seq<char>>>) -> Seq<Seq<char>> {
    items.map_values(|o: Option<Seq<char>>| match o {
        Some(s) => s,
        None => Seq::empty(),
    })
}

/// The string array field `key`, or the message naming it as missing or
/// as holding something other than strings.
pub open spec fn string_array_field_of(t: Seq<(Seq<char>, TomlFieldView)>, key: Seq<char>)
    -> Result<Seq<Seq<char>>, Seq<char>> {
    match field_of(t, key) {
        Some(TomlFieldView::Array(items)) => if all_strings(items) {
            Ok(texts(items))
        } else {
            Err("field `"@ + key + "` should contain only strings"@)
        },
        _ => Err("missing string array field `"@ + key + "`"@),
    }
}

/// The catalog entry of a table: its version, primary service, approved
/// workflows and owned aggregates, read in that order; the first field that
/// is missing or of the wrong kind gives the error.
pub open spec fn catalog_of(t: Seq<(Seq<char>, TomlFieldView)>)
    -> Result<(Seq<char>, Seq<char>, Seq<Seq<char>>, Seq<Seq<char>>), Seq<char>> {
    match string_field_of(t, "version"@) {
        Err(e) => Err(e),
        Ok(version) => match string_field_of(t, "primary_service"@) {
            Err(e) => Err(e),
            Ok(primary) => match string_array_field_of(t, "approved_workflows"@) {
                Err(e) => Err(e),
                Ok(workflows) => match string_array_field_of(t, "owned_aggregates"@) {
                    Err(e) => Err(e),
                    Ok(aggregates) => Ok((version, primary, workflows, aggregates)),
                },
            },
        },
    }
}

/// Whether a result is the answer `catalog_of` gives.
pub open spec fn answers(r: Result<CatalogServiceBoundary, String>, expected: Result<(Seq<char>, Seq<char>, Seq<Seq<char>>, Seq<Seq<char>>), Seq<char>>) -> bool {
    match r {
        Ok(c) => expected == Ok::<(Seq<char>, Seq<char>, Seq<Seq<char>>, Seq<Seq<char>>), Seq<char>>(
            (c.version@, c.primary_service@, strs(c.approved_workflows@), strs(c.owned_aggregates@))),
        Err(m) => expected == Err::<(Seq<char>, Seq<char>, Seq<Seq<char>>, Seq<Seq<char>>), Seq<char>>(m@),
    }
}

fn find_field<'a>(t: &'a [(String, TomlField)], key: &str) -> (r: Option<&'a TomlField>)
    ensures
        match r {
            Some(f) => field_of(table_view(t@), key@) == Some(f@),
            None => field_of(table_view(t@), key@) is None,
        },
{
    let k = owned(key);
    let ghost tv = table_view(t@);
    let mut i: usize = 0;
    assert(tv.skip(0) =~= tv);
    while i < t.len()
        invariant
            i <= t.len(),
            k@ == key@,
            tv == table_view(t@),
            field_of(tv, key@) == field_of(tv.skip(i as int), key@),
        decreases t.len() - i,
    {
        let ghost rest = tv.skip(i as int);
        assert(rest.drop_first() =~= tv.skip(i + 1));
        assert(rest[0] == (t@[i as int].0@, t@[i as int].1@));
        if t[i].0 == k {
            return Some(&t[i].1);
        }
        i = i + 1;
    }
    None
}

fn string_field(t: &[(String, TomlField)], key: &str) -> (r: Result<String, String>)
    ensures
        match r {
            Ok(s) => string_field_of(table_view(t@), key@) == Ok::<Seq<char>, Seq<char>>(s@),
            Err(m) => string_field_of(table_view(t@), key@) == Err::<Seq<char>, Seq<char>>(m@),
        },
{
    match find_field(t, key) {
        Some(TomlField::Str(s)) => Ok(s.clone()),
        _ => Err(concat3("missing string field `", key, "`")),
    }
}

fn string_array_field(t: &[(String, TomlField)], key: &str) -> (r: Result<Vec<String>, String>)
    ensures
        match r {
            Ok(v) => string_array_field_of(table_view(t@), key@) == Ok::<Seq<Seq<char>>, Seq<char>>(strs(v@)),
            Err(m) => string_array_field_of(table_view(t@), key@) == Err::<Seq<Seq<char>>, Seq<char>>(m@),
        },
{
    match find_field(t, key) {
        Some(TomlField::Array(items)) => {
            let ghost iv = items@.map_values(|o: Option<String>| opt_view(o));
            let mut out: Vec<String> = Vec::new();
            let mut i: usize = 0;
            while i < items.len()
                invariant
                    i <= items.len(),
                    iv == items@.map_values(|o: Option<String>| opt_view(o)),
                    field_of(table_view(t@), key@) == Some(TomlFieldView::Array(iv)),
                    forall|j: int| 0 <= j < i ==> (#[trigger] iv[j]) is Some,
                    strs(out@) == texts(iv.subrange(0, i as int)),
                decreases items.len() - i,
            {
                match &items[i] {
                    Some(s) => {
                        assert(iv[i as int] == Some(s@));
                        assert(iv.subrange(0, i + 1).drop_last() =~= iv.subrange(0, i as int));
                        let ghost before = strs(out@);
                        out.push(s.clone());
                        assert(strs(out@) =~= before.push(s@));
                        assert(texts(iv.subrange(0, i + 1)) =~= texts(iv.subrange(0, i as int)).push(s@));
                    },
                    None => {
                        assert(!all_strings(iv)) by {
                            assert(iv[i as int] is None);
                        }
                        return Err(concat3("field `", key, "` should contain only strings"));
                    },
                }
                i = i + 1;
            }
            assert(iv.subrange(0, i as int) =~= iv);
            Ok(out)
        },
        _ => Err(concat3("missing string array field `", key, "`")),
    }
}

/// The catalog entry a table of top-level fields holds.
pub fn catalog_from_table(t: &[(String, TomlField)]) -> (r: Result<CatalogServiceBoundary, String>)
    ensures
        answers(r, catalog_of(table_view(t@))),
{
    let version = match string_field(t, "version") {
        Ok(v) => v,
        Err(e) => { return Err(e); },
    };
    let primary_service = match string_field(t, "primary_service") {
        Ok(v) => v,
        Err(e) => { return Err(e); },
    };
    let approved_workflows = match string_array_field(t, "approved_workflows") {
        Ok(v) => v,
        Err(e) => { return Err(e); },
    };
    let owned_aggregates = match string_array_field(t, "owned_aggregates") {
        Ok(v) => v,
        Err(e) => { return Err(e); },
    };
    Ok(CatalogServiceBoundary { version, primary_service, approved_workflows, owned_aggregates })
}

/// Reads a service's entry of its domain's `service_boundaries.toml`: text
/// that is not a TOML document is refused, otherwise the entry is the one
/// its fields make up.
pub fn parse_service_boundary_catalog(source: &str) -> (r: Result<CatalogServiceBoundary, String>)
    ensures
        match toml_table(source@) {
            None => r matches Err(m) && m@ == "service boundary catalog should be valid TOML"@,
            Some(t) => answers(r, catalog_of(t)),
        },
{
    match parse_toml_table(source) {
        Some(t) => catalog_from_table(t.as_slice()),
        None => Err(owned("service boundary catalog should be valid TOML")),
    }
}

} // verus!
