//! The project manifest as a tree of values, and its parser.

use vstd::prelude::*;
use vstd::string::*;

verus! {

/// A value of the manifest, as far as the reader of the project's
/// metadata tells values apart.
#[derive(Debug)]
pub enum ManifestValue {
    Str(String),
    Array(Vec<ManifestValue>),
    /// A table, as its entries in the order in which the table holds them.
    Table(Vec<(String, ManifestValue)>),
    /// An integer, a float, a boolean or a date.
    Other,
}

/// The mathematical value of a [`ManifestValue`].
pub enum ManifestModel {
    Str(Seq<char>),
    Array(Seq<ManifestModel>),
    Table(Seq<(Seq<char>, ManifestModel)>),
    Other,
}

impl View for ManifestValue {
    type V = ManifestModel;

    open spec fn view(&self) -> ManifestModel
        decreases self,
    {
        match self {
            ManifestValue::Str(text) => ManifestModel::Str(text@),
            ManifestValue::Array(items) => ManifestModel::Array(items_model(items@)),
            ManifestValue::Table(entries) => ManifestModel::Table(entries_model(entries@)),
            ManifestValue::Other => ManifestModel::Other,
        }
    }
}

/// The mathematical value of the entries of a table.
pub open spec fn entries_model(entries: Seq<(String, ManifestValue)>) -> Seq<
    (Seq<char>, ManifestModel),
>
    decreases entries,
{
    Seq::new(
        entries.len(),
        |i: int|
            if 0 <= i < entries.len() {
                (entries[i].0@, entries[i].1.view())
            } else {
                (Seq::empty(), ManifestModel::Other)
            },
    )
}

/// The mathematical value of the items of an array.
pub open spec fn items_model(items: Seq<ManifestValue>) -> Seq<ManifestModel>
    decreases items,
{
    Seq::new(
        items.len(),
        |i: int|
            if 0 <= i < items.len() {
                items[i].view()
            } else {
                ManifestModel::Other
            },
    )
}

/// `toml::Value`, a value of a parsed TOML document. Nothing of its
/// variants is known here; the functions below read one level of it.
#[verifier::external_type_specification]
#[verifier::external_body]
pub struct ExTomlValue(toml::Value);

/// The document that a manifest's text holds: its root table, or `None`
/// for a text that is no valid TOML.
pub uninterp spec fn parsed_manifest(content: Seq<char>) -> Option<ManifestModel>;

/// What a `toml::Value` holds: its string, its items, its entries in the
/// order of the table's iterator, or `Other` for any other value.
pub uninterp spec fn toml_model(value: toml::Value) -> ManifestModel;

/// What each of `items` holds.
pub open spec fn toml_models(items: Seq<toml::Value>) -> Seq<ManifestModel> {
    Seq::new(items.len(), |i: int| toml_model(items[i]))
}

/// The key of each of `entries` and what its value holds.
pub open spec fn toml_entry_models(entries: Seq<(&String, &toml::Value)>) -> Seq<
    (Seq<char>, ManifestModel),
> {
    Seq::new(entries.len(), |i: int| (entries[i].0@, toml_model(*entries[i].1)))
}

/// Parses a manifest with `toml::from_str`, as a `toml::Table`. The
/// contract names the outcome [`parsed_manifest`]: an error, here with the
/// parser's message, for a text that `toml` rejects, and otherwise the
/// document's root table as a `toml::Value`.
#[verifier::external_body]
pub(crate) fn parse_toml(content: &str) -> (result: Result<toml::Value, String>)
    ensures
        match result {
            Ok(value) => parsed_manifest(content@) == Some(toml_model(value)),
            Err(_) => parsed_manifest(content@) is None,
        },
{
    match toml::from_str::<toml::Table>(content) {
        Ok(table) => Ok(toml::Value::Table(table)),
        Err(error) => Err(error.to_string()),
    }
}

/// `toml::Value::as_str`: the string of a value that is a string, `None`
/// for any other value.
#[verifier::external_body]
pub(crate) fn value_text(value: &toml::Value) -> (result: Option<&str>)
    ensures
        match result {
            Some(text) => toml_model(*value) == ManifestModel::Str(text@),
            None => !(toml_model(*value) is Str),
        },
{
    value.as_str()
}

/// `toml::Value::as_array`: the items of a value that is an array, `None`
/// for any other value.
#[verifier::external_body]
pub(crate) fn value_items(value: &toml::Value) -> (result: Option<&Vec<toml::Value>>)
    ensures
        match result {
            Some(items) => toml_model(*value) == ManifestModel::Array(toml_models(items@)),
            None => !(toml_model(*value) is Array),
        },
{
    value.as_array()
}

/// `toml::Value::as_table` and the table's `iter`: the entries of a value
/// that is a table, in the order of the iterator, `None` for any other
/// value.
#[verifier::external_body]
pub(crate) fn value_entries(value: &toml::Value) -> (result: Option<
    Vec<(&String, &toml::Value)>,
>)
    ensures
        match result {
            Some(entries) => toml_model(*value) == ManifestModel::Table(
                toml_entry_models(entries@),
            ),
            None => !(toml_model(*value) is Table),
        },
{
    value.as_table().map(|table| table.iter().collect())
}

/// Copies a parsed value into a [`ManifestValue`]: a string by its text,
/// an array item by item, a table entry by entry, and any other value as
/// `Other`.
pub(crate) fn manifest_value(value: &toml::Value) -> (result: ManifestValue)
    ensures
        result@ == toml_model(*value),
    decreases toml_model(*value),
{
    if let Some(text) = value_text(value) {
        ManifestValue::Str(String::from_str(text))
    } else if let Some(items) = value_items(value) {
        let mut copies: Vec<ManifestValue> = Vec::new();
        let mut i: usize = 0;
        while i < items.len()
            invariant
                i <= items.len(),
                copies@.len() == i,
                forall|j: int| 0 <= j < i ==> copies@[j]@ == toml_model(items@[j]),
                toml_model(*value) == ManifestModel::Array(toml_models(items@)),
            decreases items.len() - i,
        {
            assert(toml_model(*value)->Array_0[i as int] == toml_model(items@[i as int]));
            copies.push(manifest_value(&items[i]));
            i += 1;
        }
        assert(items_model(copies@) =~= toml_models(items@));
        ManifestValue::Array(copies)
    } else if let Some(entries) = value_entries(value) {
        let mut copies: Vec<(String, ManifestValue)> = Vec::new();
        let mut i: usize = 0;
        while i < entries.len()
            invariant
                i <= entries.len(),
                copies@.len() == i,
                forall|j: int|
                    0 <= j < i ==> copies@[j].0@ == entries@[j].0@ && copies@[j].1@
                        == toml_model(*entries@[j].1),
                toml_model(*value) == ManifestModel::Table(toml_entry_models(entries@)),
            decreases entries.len() - i,
        {
            assert(toml_model(*value)->Table_0[i as int].1 == toml_model(*entries@[i as int].1));
            let key = entries[i].0.clone();
            let item = manifest_value(entries[i].1);
            copies.push((key, item));
            i += 1;
        }
        assert(entries_model(copies@) =~= toml_entry_models(entries@));
        ManifestValue::Table(copies)
    } else {
        ManifestValue::Other
    }
}

/// The value of the first entry of `entries` whose key is `key`.
pub open spec fn lookup(entries: Seq<(Seq<char>, ManifestModel)>, key: Seq<char>) -> Option<
    ManifestModel,
>
    decreases entries.len(),
{
    if entries.len() == 0 {
        None
    } else if entries[0].0 == key {
        Some(entries[0].1)
    } else {
        lookup(entries.drop_first(), key)
    }
}

/// The value of the first entry whose key is `key`.
pub fn find_entry<'a>(entries: &'a Vec<(String, ManifestValue)>, key: &str) -> (found: Option<
    &'a ManifestValue,
>)
    ensures
        match found {
            Some(value) => lookup(entries_model(entries@), key@) == Some(value@),
            None => lookup(entries_model(entries@), key@) is None,
        },
{
    let ghost model = entries_model(entries@);
    let mut i: usize = 0;
    assert(model.skip(0) =~= model);
    while i < entries.len()
        invariant
            i <= entries.len(),
            model == entries_model(entries@),
            lookup(model, key@) == lookup(model.skip(i as int), key@),
        decreases entries.len() - i,
    {
        let ghost rest = model.skip(i as int);
        if crate::text::same_text(entries[i].0.as_str(), key) {
            return Some(&entries[i].1);
        }
        assert(rest.drop_first() =~= model.skip(i + 1));
        i += 1;
    }
    None
}

} // verus!
