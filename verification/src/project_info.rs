//! The metadata of a project, read from its manifest.

use vstd::prelude::*;
use vstd::string::*;
use crate::manifest::{
    entries_model,
    find_entry,
    items_model,
    lookup,
    manifest_value,
    parse_toml,
    parsed_manifest,
    ManifestModel,
    ManifestValue,
};
use crate::text::{join, join_strings, lines, split_lines, strip_prefix_str, strip_suffix_char, trim, trim_str, views};

verus! {

/// A dependency of the project.
#[derive(Debug, Clone)]
pub struct DependencyInfo {
    pub name: String,
    pub version: Option<String>,
    pub features: Option<Vec<String>>,
}

/// What the manifest says of the project. A field is `None` where the
/// manifest does not give it.
#[derive(Debug)]
pub struct ProjectInfo {
    pub name: Option<String>,
    pub description: Option<String>,
    pub version: Option<String>,
    /// The authors, joined by `, `.
    pub authors: Option<String>,
    pub license: Option<String>,
    pub repository: Option<String>,
    pub homepage: Option<String>,
    pub keywords: Option<Vec<String>>,
    /// The dependencies, in the order of the manifest's table.
    pub dependencies: Option<Vec<DependencyInfo>>,
    /// Each feature with the features it enables. A list in the order of
    /// the manifest's table, so that the documents show the features in
    /// one fixed order.
    pub features: Option<Vec<(String, Vec<String>)>>,
}

/// Why a manifest could not be read.
#[derive(Debug)]
pub enum ManifestError {
    /// The text is no valid TOML; the parser's message.
    Syntax(String),
    /// A field has a value of the wrong type; the field's name.
    Malformed(String),
}

/// The mathematical value of a [`DependencyInfo`].
pub struct DependencyInfoView {
    pub name: Seq<char>,
    pub version: Option<Seq<char>>,
    pub features: Option<Seq<Seq<char>>>,
}

/// The mathematical value of a [`ProjectInfo`].
pub struct ProjectInfoView {
    pub name: Option<Seq<char>>,
    pub description: Option<Seq<char>>,
    pub version: Option<Seq<char>>,
    pub authors: Option<Seq<char>>,
    pub license: Option<Seq<char>>,
    pub repository: Option<Seq<char>>,
    pub homepage: Option<Seq<char>>,
    pub keywords: Option<Seq<Seq<char>>>,
    pub dependencies: Option<Seq<DependencyInfoView>>,
    pub features: Option<Seq<(Seq<char>, Seq<Seq<char>>)>>,
}

/// The characters of an optional text.
pub open spec fn text_view(text: Option<String>) -> Option<Seq<char>> {
    match text {
        Some(text) => Some(text@),
        None => None,
    }
}

/// The characters of each text of an optional list.
pub open spec fn texts_view(texts: Option<Vec<String>>) -> Option<Seq<Seq<char>>> {
    match texts {
        Some(texts) => Some(views(texts@)),
        None => None,
    }
}

/// The mathematical value of each dependency.
pub open spec fn dependency_views(dependencies: Seq<DependencyInfo>) -> Seq<DependencyInfoView> {
    Seq::new(dependencies.len(), |i: int| dependencies[i]@)
}

/// The mathematical value of each feature: its name and what it enables.
pub open spec fn feature_views(features: Seq<(String, Vec<String>)>) -> Seq<
    (Seq<char>, Seq<Seq<char>>),
> {
    Seq::new(features.len(), |i: int| (features[i].0@, views(features[i].1@)))
}

impl View for DependencyInfo {
    type V = DependencyInfoView;

    open spec fn view(&self) -> DependencyInfoView {
        DependencyInfoView {
            name: self.name@,
            version: text_view(self.version),
            features: texts_view(self.features),
        }
    }
}

impl View for ProjectInfo {
    type V = ProjectInfoView;

    open spec fn view(&self) -> ProjectInfoView {
        ProjectInfoView {
            name: text_view(self.name),
            description: text_view(self.description),
            version: text_view(self.version),
            authors: text_view(self.authors),
            license: text_view(self.license),
            repository: text_view(self.repository),
            homepage: text_view(self.homepage),
            keywords: texts_view(self.keywords),
            dependencies: match self.dependencies {
                Some(dependencies) => Some(dependency_views(dependencies@)),
                None => None,
            },
            features: match self.features {
                Some(features) => Some(feature_views(features@)),
                None => None,
            },
        }
    }
}

impl ProjectInfoView {
    /// The metadata of a project without a manifest.
    pub open spec fn empty() -> ProjectInfoView {
        ProjectInfoView {
            name: None,
            description: None,
            version: None,
            authors: None,
            license: None,
            repository: None,
            homepage: None,
            keywords: None,
            dependencies: None,
            features: None,
        }
    }
}

impl Default for ProjectInfo {
    fn default() -> (info: ProjectInfo)
        ensures
            info@ == ProjectInfoView::empty(),
    {
        ProjectInfo {
            name: None,
            description: None,
            version: None,
            authors: None,
            license: None,
            repository: None,
            homepage: None,
            keywords: None,
            dependencies: None,
            features: None,
        }
    }
}

impl ManifestError {
    /// A sentence that says what is wrong.
    pub open spec fn message_text(&self) -> Seq<char> {
        match self {
            ManifestError::Syntax(message) => "invalid manifest: "@ + message@,
            ManifestError::Malformed(field) => "invalid manifest: wrong type for `"@ + field@
                + "`"@,
        }
    }

    /// Writes a sentence that says what is wrong.
    pub fn message(&self) -> (out: String)
        ensures
            out@ == self.message_text(),
    {
        match self {
            ManifestError::Syntax(message) => {
                let mut out = String::from_str("invalid manifest: ");
                out.append(message.as_str());
                out
            },
            ManifestError::Malformed(field) => {
                let mut out = String::from_str("invalid manifest: wrong type for `");
                out.append(field.as_str());
                out.append("`");
                out
            },
        }
    }
}

/// Whether a field is absent or a string.
pub open spec fn is_text_or_absent(field: Option<ManifestModel>) -> bool {
    match field {
        None => true,
        Some(ManifestModel::Str(_)) => true,
        Some(_) => false,
    }
}

/// The text of a field that is a string.
pub open spec fn text_of(field: Option<ManifestModel>) -> Option<Seq<char>> {
    match field {
        Some(ManifestModel::Str(text)) => Some(text),
        _ => None,
    }
}

/// Whether every item is a string.
pub open spec fn all_text(items: Seq<ManifestModel>) -> bool {
    forall|i: int| 0 <= i < items.len() ==> #[trigger] items[i] is Str
}

/// The texts of items that are all strings.
pub open spec fn texts_of(items: Seq<ManifestModel>) -> Seq<Seq<char>> {
    Seq::new(items.len(), |i: int| items[i]->Str_0)
}

/// Whether a value is an array of strings.
pub open spec fn is_text_list(value: ManifestModel) -> bool {
    match value {
        ManifestModel::Array(items) => all_text(items),
        _ => false,
    }
}

/// Whether a field is absent or an array of strings.
pub open spec fn is_list_or_absent(field: Option<ManifestModel>) -> bool {
    match field {
        None => true,
        Some(value) => is_text_list(value),
    }
}

/// The texts of a field that is an array of strings.
pub open spec fn list_of(field: Option<ManifestModel>) -> Option<Seq<Seq<char>>> {
    match field {
        Some(ManifestModel::Array(items)) => Some(texts_of(items)),
        _ => None,
    }
}

/// The texts of the strings among `items`, in order.
pub open spec fn text_items(items: Seq<ManifestModel>) -> Seq<Seq<char>>
    decreases items.len(),
{
    if items.len() == 0 {
        Seq::empty()
    } else {
        let before = text_items(items.drop_last());
        match items.last() {
            ManifestModel::Str(text) => before.push(text),
            _ => before,
        }
    }
}

/// What the manifest says of one dependency. A string is its version. In
/// a table, `version` counts if it is a string, and `features` if it is an
/// array that holds a string; its other items are passed over.
pub open spec fn dependency_of(name: Seq<char>, value: ManifestModel) -> DependencyInfoView {
    match value {
        ManifestModel::Str(version) => DependencyInfoView {
            name,
            version: Some(version),
            features: None,
        },
        ManifestModel::Table(table) => DependencyInfoView {
            name,
            version: text_of(lookup(table, "version"@)),
            features: match lookup(table, "features"@) {
                Some(ManifestModel::Array(items)) => if text_items(items).len() == 0 {
                    None
                } else {
                    Some(text_items(items))
                },
                _ => None,
            },
        },
        _ => DependencyInfoView { name, version: None, features: None },
    }
}

/// What a `dependencies` table says of each dependency, in the table's order.
pub open spec fn dependencies_of(table: Seq<(Seq<char>, ManifestModel)>) -> Seq<
    DependencyInfoView,
> {
    Seq::new(table.len(), |i: int| dependency_of(table[i].0, table[i].1))
}

/// Whether every value of a table is an array of strings.
pub open spec fn all_text_lists(table: Seq<(Seq<char>, ManifestModel)>) -> bool {
    forall|i: int| 0 <= i < table.len() ==> is_text_list(#[trigger] table[i].1)
}

/// Each feature of a `features` table with what it enables, in the table's order.
pub open spec fn features_of(table: Seq<(Seq<char>, ManifestModel)>) -> Seq<
    (Seq<char>, Seq<Seq<char>>),
> {
    Seq::new(table.len(), |i: int| (table[i].0, texts_of(table[i].1->Array_0)))
}

/// The first field of the `package` table that has a value of the wrong
/// type: the text fields must be strings, `authors` and `keywords` arrays
/// of strings.
pub open spec fn package_fault(package: Seq<(Seq<char>, ManifestModel)>) -> Option<Seq<char>> {
    if !is_text_or_absent(lookup(package, "name"@)) {
        Some("package.name"@)
    } else if !is_text_or_absent(lookup(package, "version"@)) {
        Some("package.version"@)
    } else if !is_text_or_absent(lookup(package, "description"@)) {
        Some("package.description"@)
    } else if !is_list_or_absent(lookup(package, "authors"@)) {
        Some("package.authors"@)
    } else if !is_text_or_absent(lookup(package, "license"@)) {
        Some("package.license"@)
    } else if !is_text_or_absent(lookup(package, "repository"@)) {
        Some("package.repository"@)
    } else if !is_text_or_absent(lookup(package, "homepage"@)) {
        Some("package.homepage"@)
    } else if !is_list_or_absent(lookup(package, "keywords"@)) {
        Some("package.keywords"@)
    } else {
        None
    }
}

/// The first part of the manifest that has a value of the wrong type:
/// `package` must be a table with well-typed fields, `dependencies` a
/// table, `features` a table of arrays of strings.
pub open spec fn manifest_fault(manifest: Seq<(Seq<char>, ManifestModel)>) -> Option<Seq<char>> {
    let package = match lookup(manifest, "package"@) {
        None => None,
        Some(ManifestModel::Table(package)) => package_fault(package),
        Some(_) => Some("package"@),
    };
    if package is Some {
        package
    } else {
        match lookup(manifest, "dependencies"@) {
            None | Some(ManifestModel::Table(_)) => match lookup(manifest, "features"@) {
                None => None,
                Some(ManifestModel::Table(features)) => if all_text_lists(features) {
                    None
                } else {
                    Some("features"@)
                },
                Some(_) => Some("features"@),
            },
            Some(_) => Some("dependencies"@),
        }
    }
}

/// The entries of the `package` table; none where the manifest has no
/// such table.
pub open spec fn package_of(manifest: Seq<(Seq<char>, ManifestModel)>) -> Seq<
    (Seq<char>, ManifestModel),
> {
    match lookup(manifest, "package"@) {
        Some(ManifestModel::Table(package)) => package,
        _ => Seq::empty(),
    }
}

/// The authors joined by `, `; `None` for an empty list.
pub open spec fn authors_of(field: Option<ManifestModel>) -> Option<Seq<char>> {
    match list_of(field) {
        Some(list) => if list.len() == 0 {
            None
        } else {
            Some(join(list, ", "@))
        },
        None => None,
    }
}

/// The metadata that a well-typed manifest gives. Empty tables of
/// dependencies or features count as absent.
pub open spec fn metadata_of(manifest: Seq<(Seq<char>, ManifestModel)>) -> ProjectInfoView {
    let package = package_of(manifest);
    ProjectInfoView {
        name: text_of(lookup(package, "name"@)),
        description: text_of(lookup(package, "description"@)),
        version: text_of(lookup(package, "version"@)),
        authors: authors_of(lookup(package, "authors"@)),
        license: text_of(lookup(package, "license"@)),
        repository: text_of(lookup(package, "repository"@)),
        homepage: text_of(lookup(package, "homepage"@)),
        keywords: list_of(lookup(package, "keywords"@)),
        dependencies: match lookup(manifest, "dependencies"@) {
            Some(ManifestModel::Table(table)) => if table.len() == 0 {
                None
            } else {
                Some(dependencies_of(table))
            },
            _ => None,
        },
        features: match lookup(manifest, "features"@) {
            Some(ManifestModel::Table(table)) => if table.len() == 0 {
                None
            } else {
                Some(features_of(table))
            },
            _ => None,
        },
    }
}

/// What reading a parsed manifest gives: its metadata, or the name of the
/// first part that has a value of the wrong type.
pub open spec fn project_info_of(manifest: ManifestModel) -> Result<ProjectInfoView, Seq<char>> {
    match manifest {
        ManifestModel::Table(entries) => match manifest_fault(entries) {
            Some(field) => Err(field),
            None => Ok(metadata_of(entries)),
        },
        _ => Err("manifest"@),
    }
}

/// Whether `result` is what `expected` asks for: the same metadata, or
/// the error that names the same field.
pub open spec fn agrees(
    result: Result<ProjectInfo, ManifestError>,
    expected: Result<ProjectInfoView, Seq<char>>,
) -> bool {
    match result {
        Ok(info) => expected == Ok::<ProjectInfoView, Seq<char>>(info@),
        Err(ManifestError::Malformed(field)) => expected == Err::<ProjectInfoView, Seq<char>>(
            field@,
        ),
        Err(ManifestError::Syntax(_)) => false,
    }
}

/// The name that a line of the manifest gives: what stands between
/// `name = "` and a closing `"` that ends the line, whitespace around the
/// line aside.
pub open spec fn quoted_name(line: Seq<char>) -> Option<Seq<char>> {
    let trimmed = trim(line);
    let prefix = "name = \""@;
    if prefix.is_prefix_of(trimmed) {
        let rest = trimmed.skip(prefix.len() as int);
        if rest.len() > 0 && rest.last() == '"' {
            Some(rest.drop_last())
        } else {
            None
        }
    } else {
        None
    }
}

/// The name that the first line with a name gives.
pub open spec fn first_name(lines: Seq<Seq<char>>) -> Option<Seq<char>>
    decreases lines.len(),
{
    if lines.len() == 0 {
        None
    } else {
        match quoted_name(lines[0]) {
            Some(name) => Some(name),
            None => first_name(lines.drop_first()),
        }
    }
}

/// The project's name: the manifest's, or the directory's where the
/// manifest is missing or names none.
pub open spec fn project_name(manifest: Option<Seq<char>>, directory_name: Seq<char>) -> Seq<
    char,
> {
    match manifest {
        Some(content) => match first_name(lines(content)) {
            Some(name) => name,
            None => directory_name,
        },
        None => directory_name,
    }
}

fn text_field(entries: &Vec<(String, ManifestValue)>, key: &str) -> (result: Result<
    Option<String>,
    (),
>)
    ensures
        result is Ok == is_text_or_absent(lookup(entries_model(entries@), key@)),
        result matches Ok(text) ==> text_view(text) == text_of(
            lookup(entries_model(entries@), key@),
        ),
{
    match find_entry(entries, key) {
        None => Ok(None),
        Some(ManifestValue::Str(text)) => Ok(Some(text.clone())),
        Some(_) => Err(()),
    }
}

fn text_list(value: &ManifestValue) -> (result: Option<Vec<String>>)
    ensures
        result is Some == is_text_list(value@),
        result matches Some(texts) ==> views(texts@) == texts_of(value@->Array_0),
{
    match value {
        ManifestValue::Array(items) => {
            let ghost model = items_model(items@);
            let mut texts: Vec<String> = Vec::new();
            let mut i: usize = 0;
            while i < items.len()
                invariant
                    i <= items.len(),
                    model == items_model(items@),
                    value@ == ManifestModel::Array(model),
                    texts@.len() == i,
                    forall|j: int| 0 <= j < i ==> #[trigger] model[j] is Str,
                    forall|j: int| 0 <= j < i ==> texts@[j]@ == model[j]->Str_0,
                decreases items.len() - i,
            {
                match &items[i] {
                    ManifestValue::Str(text) => {
                        texts.push(text.clone());
                    },
                    _ => {
                        assert(!(model[i as int] is Str));
                        return None;
                    },
                }
                i += 1;
            }
            Some(texts)
        },
        _ => None,
    }
}

fn list_field(entries: &Vec<(String, ManifestValue)>, key: &str) -> (result: Result<
    Option<Vec<String>>,
    (),
>)
    ensures
        result is Ok == is_list_or_absent(lookup(entries_model(entries@), key@)),
        result matches Ok(texts) ==> texts_view(texts) == list_of(
            lookup(entries_model(entries@), key@),
        ),
{
    match find_entry(entries, key) {
        None => Ok(None),
        Some(value) => match text_list(value) {
            Some(texts) => Ok(Some(texts)),
            None => Err(()),
        },
    }
}

fn malformed(field: &str) -> (result: Result<ProjectInfo, ManifestError>)
    ensures
        result matches Err(ManifestError::Malformed(name)) && name@ == field@,
{
    Err(ManifestError::Malformed(String::from_str(field)))
}

/// Reads the fields of the `package` table.
fn package_info(package: &Vec<(String, ManifestValue)>) -> (result: Result<
    ProjectInfo,
    ManifestError,
>)
    ensures
        match package_fault(entries_model(package@)) {
            Some(field) => result matches Err(ManifestError::Malformed(name)) && name@ == field,
            None => result matches Ok(info) && {
                &&& text_view(info.name) == text_of(lookup(entries_model(package@), "name"@))
                &&& text_view(info.description) == text_of(lookup(entries_model(package@), "description"@))
                &&& text_view(info.version) == text_of(lookup(entries_model(package@), "version"@))
                &&& text_view(info.authors) == authors_of(lookup(entries_model(package@), "authors"@))
                &&& text_view(info.license) == text_of(lookup(entries_model(package@), "license"@))
                &&& text_view(info.repository) == text_of(lookup(entries_model(package@), "repository"@))
                &&& text_view(info.homepage) == text_of(lookup(entries_model(package@), "homepage"@))
                &&& texts_view(info.keywords) == list_of(
                    lookup(entries_model(package@), "keywords"@),
                )
                &&& info.dependencies is None
                &&& info.features is None
            },
        },
{
    let name = match text_field(package, "name") {
        Ok(text) => text,
        Err(_) => {
            return malformed("package.name");
        },
    };
    let version = match text_field(package, "version") {
        Ok(text) => text,
        Err(_) => {
            return malformed("package.version");
        },
    };
    let description = match text_field(package, "description") {
        Ok(text) => text,
        Err(_) => {
            return malformed("package.description");
        },
    };
    let author_list = match list_field(package, "authors") {
        Ok(texts) => texts,
        Err(_) => {
            return malformed("package.authors");
        },
    };
    let license = match text_field(package, "license") {
        Ok(text) => text,
        Err(_) => {
            return malformed("package.license");
        },
    };
    let repository = match text_field(package, "repository") {
        Ok(text) => text,
        Err(_) => {
            return malformed("package.repository");
        },
    };
    let homepage = match text_field(package, "homepage") {
        Ok(text) => text,
        Err(_) => {
            return malformed("package.homepage");
        },
    };
    let keywords = match list_field(package, "keywords") {
        Ok(texts) => texts,
        Err(_) => {
            return malformed("package.keywords");
        },
    };
    let authors = match author_list {
        Some(list) => if list.len() == 0 {
            None
        } else {
            Some(join_strings(&list, ", "))
        },
        None => None,
    };
    Ok(
        ProjectInfo {
            name,
            description,
            version,
            authors,
            license,
            repository,
            homepage,
            keywords,
            dependencies: None,
            features: None,
        },
    )
}

/// The strings among the items of a `features` array.
fn feature_names(items: &Vec<ManifestValue>) -> (names: Vec<String>)
    ensures
        views(names@) == text_items(items_model(items@)),
{
    let ghost model = items_model(items@);
    let mut names: Vec<String> = Vec::new();
    let mut i: usize = 0;
    while i < items.len()
        invariant
            i <= items.len(),
            model == items_model(items@),
            views(names@) == text_items(model.take(i as int)),
        decreases items.len() - i,
    {
        assert(model.take(i + 1).drop_last() =~= model.take(i as int));
        if let ManifestValue::Str(text) = &items[i] {
            names.push(text.clone());
        }
        i += 1;
    }
    assert(model.take(items.len() as int) =~= model);
    names
}

/// Reads one entry of the `dependencies` table.
fn dependency_info(name: &String, value: &ManifestValue) -> (info: DependencyInfo)
    ensures
        info@ == dependency_of(name@, value@),
{
    match value {
        ManifestValue::Str(version) => DependencyInfo {
            name: name.clone(),
            version: Some(version.clone()),
            features: None,
        },
        ManifestValue::Table(table) => {
            let version = match find_entry(table, "version") {
                Some(ManifestValue::Str(version)) => Some(version.clone()),
                _ => None,
            };
            let features = match find_entry(table, "features") {
                Some(ManifestValue::Array(items)) => {
                    let names = feature_names(items);
                    if names.len() == 0 {
                        None
                    } else {
                        Some(names)
                    }
                },
                _ => None,
            };
            DependencyInfo { name: name.clone(), version, features }
        },
        _ => DependencyInfo { name: name.clone(), version: None, features: None },
    }
}

/// Reads the `dependencies` table.
fn dependency_infos(table: &Vec<(String, ManifestValue)>) -> (infos: Vec<DependencyInfo>)
    ensures
        dependency_views(infos@) == dependencies_of(entries_model(table@)),
{
    let ghost model = entries_model(table@);
    let mut infos: Vec<DependencyInfo> = Vec::new();
    let mut i: usize = 0;
    while i < table.len()
        invariant
            i <= table.len(),
            model == entries_model(table@),
            infos@.len() == i,
            forall|j: int| 0 <= j < i ==> infos@[j]@ == dependency_of(model[j].0, model[j].1),
        decreases table.len() - i,
    {
        infos.push(dependency_info(&table[i].0, &table[i].1));
        i += 1;
    }
    infos
}

/// Reads the `features` table; `None` where a value is no array of strings.
fn feature_lists(table: &Vec<(String, ManifestValue)>) -> (result: Option<
    Vec<(String, Vec<String>)>,
>)
    ensures
        result is Some == all_text_lists(entries_model(table@)),
        result matches Some(lists) ==> feature_views(lists@) == features_of(
            entries_model(table@),
        ),
{
    let ghost model = entries_model(table@);
    let mut lists: Vec<(String, Vec<String>)> = Vec::new();
    let mut i: usize = 0;
    while i < table.len()
        invariant
            i <= table.len(),
            model == entries_model(table@),
            lists@.len() == i,
            forall|j: int| 0 <= j < i ==> is_text_list(#[trigger] model[j].1),
            forall|j: int|
                0 <= j < i ==> lists@[j].0@ == model[j].0 && views(lists@[j].1@) == texts_of(
                    model[j].1->Array_0,
                ),
        decreases table.len() - i,
    {
        match text_list(&table[i].1) {
            Some(texts) => {
                lists.push((table[i].0.clone(), texts));
            },
            None => {
                assert(!is_text_list(model[i as int].1));
                return None;
            },
        }
        i += 1;
    }
    Some(lists)
}

/// Reads the project's metadata from a parsed manifest. The manifest must
/// be a table. In it, `package` must be a table whose text fields are
/// strings and whose `authors` and `keywords` are arrays of strings,
/// `dependencies` a table, and `features` a table of arrays of strings;
/// each may be absent. The error names the first part that is not so.
pub fn project_info_from_manifest(manifest: &ManifestValue) -> (result: Result<
    ProjectInfo,
    ManifestError,
>)
    ensures
        agrees(result, project_info_of(manifest@)),
{
    let entries = match manifest {
        ManifestValue::Table(entries) => entries,
        _ => {
            return malformed("manifest");
        },
    };
    let package = match find_entry(entries, "package") {
        None => ProjectInfo::default(),
        Some(ManifestValue::Table(package)) => match package_info(package) {
            Ok(info) => info,
            Err(error) => {
                return Err(error);
            },
        },
        Some(_) => {
            return malformed("package");
        },
    };
    let dependencies = match find_entry(entries, "dependencies") {
        None => None,
        Some(ManifestValue::Table(table)) => {
            if table.len() > 0 {
                Some(dependency_infos(table))
            } else {
                None
            }
        },
        Some(_) => {
            return malformed("dependencies");
        },
    };
    let features = match find_entry(entries, "features") {
        None => None,
        Some(ManifestValue::Table(table)) => match feature_lists(table) {
            Some(lists) => {
                if table.len() > 0 {
                    Some(lists)
                } else {
                    None
                }
            },
            None => {
                return malformed("features");
            },
        },
        Some(_) => {
            return malformed("features");
        },
    };
    let info = ProjectInfo {
        name: package.name,
        description: package.description,
        version: package.version,
        authors: package.authors,
        license: package.license,
        repository: package.repository,
        homepage: package.homepage,
        keywords: package.keywords,
        dependencies,
        features,
    };
    Ok(info)
}

/// Reads the project's metadata from the text of a manifest. The result
/// is a `Syntax` error exactly for a text that is no valid TOML;
/// otherwise it is what [`project_info_from_manifest`] gives for the
/// parsed document.
pub fn parse_project_info(content: &str) -> (result: Result<ProjectInfo, ManifestError>)
    ensures
        match parsed_manifest(content@) {
            Some(manifest) => agrees(result, project_info_of(manifest)),
            None => result matches Err(ManifestError::Syntax(_)),
        },
{
    match parse_toml(content) {
        Ok(document) => {
            let manifest = manifest_value(&document);
            project_info_from_manifest(&manifest)
        },
        Err(message) => Err(ManifestError::Syntax(message)),
    }
}

/// Reads the project's metadata from the text of its manifest, if it has
/// one. A project without a manifest has empty metadata.
pub fn get_project_info(manifest: Option<&str>) -> (result: Result<ProjectInfo, ManifestError>)
    ensures
        match manifest {
            Some(content) => match parsed_manifest(content@) {
                Some(document) => agrees(result, project_info_of(document)),
                None => result matches Err(ManifestError::Syntax(_)),
            },
            None => result matches Ok(info) && info@ == ProjectInfoView::empty(),
        },
{
    match manifest {
        Some(content) => parse_project_info(content),
        None => Ok(ProjectInfo::default()),
    }
}

/// The name that one line of the manifest gives.
fn line_name(line: &str) -> (name: Option<String>)
    ensures
        text_view(name) == quoted_name(line@),
{
    let trimmed = trim_str(line);
    match strip_prefix_str(trimmed.as_str(), "name = \"") {
        Some(rest) => strip_suffix_char(rest.as_str(), '"'),
        None => None,
    }
}

/// Finds the project's name in the text of a manifest without parsing
/// it: the first line that reads `name = "..."` gives it.
pub fn parse_project_name(content: &str) -> (name: Option<String>)
    ensures
        text_view(name) == first_name(lines(content@)),
{
    let all = split_lines(content);
    let ghost texts = views(all@);
    let mut i: usize = 0;
    assert(texts.skip(0) =~= texts);
    while i < all.len()
        invariant
            i <= all.len(),
            texts == views(all@),
            texts == lines(content@),
            first_name(texts) == first_name(texts.skip(i as int)),
        decreases all.len() - i,
    {
        let ghost rest = texts.skip(i as int);
        let name = line_name(all[i].as_str());
        if name.is_some() {
            return name;
        }
        assert(rest.drop_first() =~= texts.skip(i + 1));
        i += 1;
    }
    None
}

/// The project's name: the one its manifest gives, or the name of its
/// directory where the manifest is missing or names none.
pub fn get_project_name(manifest: Option<&str>, directory_name: &str) -> (name: String)
    ensures
        name@ == project_name(
            match manifest {
                Some(content) => Some(content@),
                None => None,
            },
            directory_name@,
        ),
{
    match manifest {
        Some(content) => match parse_project_name(content) {
            Some(name) => name,
            None => String::from_str(directory_name),
        },
        None => String::from_str(directory_name),
    }
}

} // verus!
