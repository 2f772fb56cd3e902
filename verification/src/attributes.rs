//! What the renderers read from attributes: conditional compilation,
//! derives and documentation comments.

use vstd::prelude::*;
use vstd::string::*;
use crate::syntax::{Attribute, AttributeMeta, AttributeValue, MetaEntry, NestedMeta};
use crate::text::{
    chars_of,
    first_index_of,
    join,
    join_strings,
    lemma_first_index_of,
    same_text,
    string_from,
    strip_prefix_str,
    trim,
    trim_range,
    trim_str,
    views,
};
use crate::types::{format_ident_path, ident_path_text};

verus! {

/// Whether the attribute's path is the single identifier `name`.
pub open spec fn attribute_named(attr: &Attribute, name: Seq<char>) -> bool {
    match &attr.ident {
        Some(ident) => ident@ == name,
        None => false,
    }
}

/// Whether one of `attrs` is named `name`.
pub open spec fn has_attribute(attrs: Seq<Attribute>, name: Seq<char>) -> bool {
    exists|i: int| 0 <= i < attrs.len() && attribute_named(&attrs[i], name)
}

/// One entry of a `cfg` list: a flag by its name, a key with its value
/// between double quotes, a longer path by its names.
pub open spec fn meta_entry_text(entry: &MetaEntry) -> Seq<char> {
    match entry {
        MetaEntry::Flag(name) => name@,
        MetaEntry::KeyValue { key, value } => key@ + " = \""@ + value@ + "\""@,
        MetaEntry::Path(names) => ident_path_text(names@),
    }
}

/// The text of each entry of a `cfg` list.
pub open spec fn meta_entry_texts(entries: Seq<MetaEntry>) -> Seq<Seq<char>> {
    Seq::new(entries.len(), |i: int| meta_entry_text(&entries[i]))
}

/// The parts of a `cfg` list: its entries, followed by the list's tokens as
/// written where the entries could not all be read or there are none.
pub open spec fn cfg_parts(tokens: Seq<char>, nested: &NestedMeta) -> Seq<Seq<char>> {
    let entries = meta_entry_texts(nested.entries@);
    if !nested.complete || entries.len() == 0 {
        entries.push(tokens)
    } else {
        entries
    }
}

/// The condition of a `cfg` attribute with an argument list; `None` for
/// any other attribute.
pub open spec fn cfg_condition(attr: &Attribute) -> Option<Seq<char>> {
    if attribute_named(attr, "cfg"@) {
        match &attr.meta {
            AttributeMeta::List { tokens, nested } => Some(join(cfg_parts(tokens@, nested), ", "@)),
            _ => None,
        }
    } else {
        None
    }
}

/// The conditions of the `cfg` attributes among `attrs`, in order.
pub open spec fn cfg_conditions(attrs: Seq<Attribute>) -> Seq<Seq<char>>
    decreases attrs.len(),
{
    if attrs.len() == 0 {
        Seq::empty()
    } else {
        let before = cfg_conditions(attrs.drop_last());
        match cfg_condition(&attrs.last()) {
            Some(condition) => before.push(condition),
            None => before,
        }
    }
}

/// The names in a comma-separated list, each trimmed, empty ones left out.
pub open spec fn comma_separated_names(s: Seq<char>) -> Seq<Seq<char>>
    decreases s.len(),
{
    let n = first_index_of(s, ',');
    let name = trim(s.take(n as int));
    let first = if name.len() == 0 {
        Seq::empty()
    } else {
        seq![name]
    };
    if n >= s.len() {
        first
    } else {
        first + comma_separated_names(s.skip(n as int + 1))
    }
}

/// The traits that a `derive` attribute with an argument list names;
/// empty for any other attribute.
pub open spec fn derive_names(attr: &Attribute) -> Seq<Seq<char>> {
    if attribute_named(attr, "derive"@) {
        match &attr.meta {
            AttributeMeta::List { tokens, .. } => comma_separated_names(tokens@),
            _ => Seq::empty(),
        }
    } else {
        Seq::empty()
    }
}

/// The traits that the `derive` attributes among `attrs` name, in order.
pub open spec fn derives(attrs: Seq<Attribute>) -> Seq<Seq<char>>
    decreases attrs.len(),
{
    if attrs.len() == 0 {
        Seq::empty()
    } else {
        derives(attrs.drop_last()) + derive_names(&attrs.last())
    }
}

/// A documentation line with its heading, if it has one of the first
/// three levels, moved three levels down. A line that does not start with
/// one to three `#` and a space is unchanged.
pub open spec fn demote_heading(line: Seq<char>) -> Seq<char> {
    if "# "@.is_prefix_of(line) {
        "#### "@ + line.skip("# "@.len() as int)
    } else if "## "@.is_prefix_of(line) {
        "##### "@ + line.skip("## "@.len() as int)
    } else if "### "@.is_prefix_of(line) {
        "###### "@ + line.skip("### "@.len() as int)
    } else {
        line
    }
}

/// The line that a documentation attribute contributes: its text, trimmed,
/// with its heading demoted. `None` for an attribute that is not `doc`
/// with a string value.
pub open spec fn doc_line(attr: &Attribute) -> Option<Seq<char>> {
    if attribute_named(attr, "doc"@) {
        match &attr.meta {
            AttributeMeta::NameValue(AttributeValue::Str(value)) => Some(
                demote_heading(trim(value@)),
            ),
            _ => None,
        }
    } else {
        None
    }
}

/// The documentation lines of `attrs`, each followed by a line break.
pub open spec fn doc_lines_text(attrs: Seq<Attribute>) -> Seq<char>
    decreases attrs.len(),
{
    if attrs.len() == 0 {
        ""@
    } else {
        doc_lines_text(attrs.drop_last()) + (match doc_line(&attrs.last()) {
            Some(line) => line + "\n"@,
            None => ""@,
        })
    }
}

/// The documentation of a declaration: its lines in source order, then one
/// empty line, also where there is no documentation.
pub open spec fn docs_text(attrs: Seq<Attribute>) -> Seq<char> {
    doc_lines_text(attrs) + "\n"@
}

/// A first-level heading moves to the fourth level.
pub proof fn lemma_demote_first_level(title: Seq<char>)
    ensures
        demote_heading("# "@ + title) == "#### "@ + title,
{
    let line = "# "@ + title;
}

/// A second-level heading moves to the fifth level.
pub proof fn lemma_demote_second_level(title: Seq<char>)
    ensures
        demote_heading("## "@ + title) == "##### "@ + title,
{
    reveal_strlit("# ");
    reveal_strlit("## ");
    let line = "## "@ + title;
    assert(line[1] == '#');
}

/// A third-level heading moves to the sixth level.
pub proof fn lemma_demote_third_level(title: Seq<char>)
    ensures
        demote_heading("### "@ + title) == "###### "@ + title,
{
    reveal_strlit("# ");
    reveal_strlit("## ");
    reveal_strlit("### ");
    let line = "### "@ + title;
    assert(line[1] == '#' && line[2] == '#');
}

/// A line whose run of leading `#` is not followed by a space, or is
/// longer than three, is no heading and stays as it is. So does a line
/// that does not start with `#`.
pub proof fn lemma_demote_leaves_other_lines(line: Seq<char>, hashes: int)
    requires
        0 <= hashes <= line.len(),
        forall|k: int| 0 <= k < hashes ==> line[k] == '#',
        hashes == 0 || hashes > 3 || hashes == line.len() || line[hashes] != ' ',
        hashes == line.len() || line[hashes] != '#',
    ensures
        demote_heading(line) == line,
{
    reveal_strlit("# ");
    reveal_strlit("## ");
    reveal_strlit("### ");
    if "# "@.is_prefix_of(line) {
        assert(line.subrange(0, 2)[0] == '#' && line.subrange(0, 2)[1] == ' ');
    }
    if "## "@.is_prefix_of(line) {
        let head = line.subrange(0, 3);
        assert(head[0] == '#' && head[1] == '#' && head[2] == ' ');
    }
    if "### "@.is_prefix_of(line) {
        let head = line.subrange(0, 4);
        assert(head[0] == '#' && head[1] == '#' && head[2] == '#' && head[3] == ' ');
    }
}

/// Whether the attribute's path is the single identifier `name`.
pub fn is_attribute_named(attr: &Attribute, name: &str) -> (named: bool)
    ensures
        named == attribute_named(attr, name@),
{
    match &attr.ident {
        Some(ident) => same_text(ident.as_str(), name),
        None => false,
    }
}

/// Whether one of `attrs` is named `name`.
pub fn contains_attribute(attrs: &Vec<Attribute>, name: &str) -> (found: bool)
    ensures
        found == has_attribute(attrs@, name@),
{
    let mut i: usize = 0;
    while i < attrs.len()
        invariant
            i <= attrs.len(),
            forall|j: int| 0 <= j < i ==> !attribute_named(&attrs@[j], name@),
        decreases attrs.len() - i,
    {
        if is_attribute_named(&attrs[i], name) {
            return true;
        }
        i += 1;
    }
    false
}

/// Writes one entry of a `cfg` list.
pub fn format_meta_entry(entry: &MetaEntry) -> (out: String)
    ensures
        out@ == meta_entry_text(entry),
{
    match entry {
        MetaEntry::Flag(name) => name.clone(),
        MetaEntry::KeyValue { key, value } => {
            let mut out = key.clone();
            out.append(" = \"");
            out.append(value.as_str());
            out.append("\"");
            out
        },
        MetaEntry::Path(names) => format_ident_path(names),
    }
}

/// The conditions of the `cfg` attributes among `attrs`, in order.
pub fn extract_cfg_attributes(attrs: &Vec<Attribute>) -> (out: Vec<String>)
    ensures
        views(out@) == cfg_conditions(attrs@),
{
    let mut out: Vec<String> = Vec::new();
    let mut i: usize = 0;
    while i < attrs.len()
        invariant
            i <= attrs.len(),
            views(out@) == cfg_conditions(attrs@.take(i as int)),
        decreases attrs.len() - i,
    {
        let attr = &attrs[i];
        assert(attrs@.take(i + 1).drop_last() =~= attrs@.take(i as int));
        if is_attribute_named(attr, "cfg") {
            if let AttributeMeta::List { tokens, nested } = &attr.meta {
                let mut parts: Vec<String> = Vec::new();
                let mut j: usize = 0;
                while j < nested.entries.len()
                    invariant
                        j <= nested.entries.len(),
                        parts@.len() == j,
                        forall|k: int|
                            0 <= k < j ==> parts@[k]@ == meta_entry_text(&nested.entries@[k]),
                    decreases nested.entries.len() - j,
                {
                    parts.push(format_meta_entry(&nested.entries[j]));
                    j += 1;
                }
                assert(views(parts@) =~= meta_entry_texts(nested.entries@));
                if !nested.complete || parts.len() == 0 {
                    let ghost before = views(parts@);
                    parts.push(tokens.clone());
                    assert(views(parts@) =~= before.push(tokens@));
                }
                let condition = join_strings(&parts, ", ");
                out.push(condition);
            }
        }
        i += 1;
    }
    assert(attrs@.take(attrs.len() as int) =~= attrs@);
    out
}

/// The names in a comma-separated list, each trimmed, empty ones left out.
pub fn split_names(list: &str) -> (out: Vec<String>)
    ensures
        views(out@) == comma_separated_names(list@),
{
    let chars = chars_of(list);
    let mut out: Vec<String> = Vec::new();
    let mut start: usize = 0;
    let mut i: usize = 0;
    assert(chars@.skip(0) =~= chars@);
    while i < chars.len()
        invariant
            start <= i <= chars.len(),
            forall|k: int| start <= k < i ==> chars@[k] != ',',
            comma_separated_names(chars@) == views(out@) + comma_separated_names(
                chars@.skip(start as int),
            ),
        decreases chars.len() - i,
    {
        if chars[i] == ',' {
            let ghost rest = chars@.skip(start as int);
            let (from, to) = trim_range(&chars, start, i);
            proof {
                lemma_first_index_of(rest, ',', i - start);
                assert(rest.take(i - start) =~= chars@.subrange(start as int, i as int));
                assert(rest.skip(i - start + 1) =~= chars@.skip(i + 1));
            }
            if to > from {
                let name = string_from(&chars, from, to);
                out.push(name);
            }
            start = i + 1;
        }
        i += 1;
    }
    let ghost rest = chars@.skip(start as int);
    let (from, to) = trim_range(&chars, start, chars.len());
    proof {
        lemma_first_index_of(rest, ',', chars.len() - start);
        assert(rest.take(chars.len() - start) =~= chars@.subrange(
            start as int,
            chars.len() as int,
        ));
    }
    if to > from {
        let name = string_from(&chars, from, to);
        out.push(name);
    }
    out
}

/// The traits that the `derive` attributes among `attrs` name, in order.
pub fn extract_derives(attrs: &Vec<Attribute>) -> (out: Vec<String>)
    ensures
        views(out@) == derives(attrs@),
{
    let mut out: Vec<String> = Vec::new();
    let mut i: usize = 0;
    while i < attrs.len()
        invariant
            i <= attrs.len(),
            views(out@) == derives(attrs@.take(i as int)),
        decreases attrs.len() - i,
    {
        let attr = &attrs[i];
        let ghost before = views(out@);
        assert(attrs@.take(i + 1).drop_last() =~= attrs@.take(i as int));
        let mut added: Vec<String> = Vec::new();
        if is_attribute_named(attr, "derive") {
            if let AttributeMeta::List { tokens, .. } = &attr.meta {
                added = split_names(tokens.as_str());
            }
        }
        let mut j: usize = 0;
        while j < added.len()
            invariant
                j <= added.len(),
                views(out@) == before + views(added@).take(j as int),
            decreases added.len() - j,
        {
            let ghost so_far = views(out@);
            out.push(added[j].clone());
            assert(views(out@) =~= so_far.push(added@[j as int]@));
            j += 1;
        }
        i += 1;
    }
    assert(attrs@.take(attrs.len() as int) =~= attrs@);
    out
}

/// Moves a heading of the first three levels three levels down.
pub fn demote_doc_heading(line: &str) -> (out: String)
    ensures
        out@ == demote_heading(line@),
{
    if let Some(rest) = strip_prefix_str(line, "# ") {
        let mut out = String::from_str("#### ");
        out.append(rest.as_str());
        out
    } else if let Some(rest) = strip_prefix_str(line, "## ") {
        let mut out = String::from_str("##### ");
        out.append(rest.as_str());
        out
    } else if let Some(rest) = strip_prefix_str(line, "### ") {
        let mut out = String::from_str("###### ");
        out.append(rest.as_str());
        out
    } else {
        String::from_str(line)
    }
}

/// Writes the documentation of a declaration: each documentation line,
/// trimmed and with its heading demoted, then one empty line.
pub fn format_docs(attrs: &Vec<Attribute>) -> (out: String)
    ensures
        out@ == docs_text(attrs@),
{
    let mut out = String::from_str("");
    let mut i: usize = 0;
    while i < attrs.len()
        invariant
            i <= attrs.len(),
            out@ == doc_lines_text(attrs@.take(i as int)),
        decreases attrs.len() - i,
    {
        let attr = &attrs[i];
        assert(attrs@.take(i + 1).drop_last() =~= attrs@.take(i as int));
        let mut piece = String::from_str("");
        if is_attribute_named(attr, "doc") {
            if let AttributeMeta::NameValue(AttributeValue::Str(value)) = &attr.meta {
                let trimmed = trim_str(value.as_str());
                piece = demote_doc_heading(trimmed.as_str());
                piece.append("\n");
            }
        }
        out.append(piece.as_str());
        i += 1;
    }
    assert(attrs@.take(attrs.len() as int) =~= attrs@);
    out.append("\n");
    out
}

} // verus!
