//! Assembles the two documents: the index and the complete reference.

use vstd::prelude::*;
use vstd::string::*;
use crate::project_info::{
    text_view,
    DependencyInfo,
    DependencyInfoView,
    ProjectInfo,
    ProjectInfoView,
};
use crate::syntax::SourceFile;
use crate::text::{
    chars_of,
    join,
    join_strings,
    lines,
    repeat,
    repeat_str,
    split_lines,
    views,
};
use crate::visitors::{items_docs, items_labels, CompleteDocsVisitor, TocVisitor};

verus! {

/// A source file of the project.
#[derive(Debug)]
pub struct ProjectFile {
    /// The file's path, relative to the project's root.
    pub path: String,
    pub source: SourceFile,
}

/// What was read of a project.
#[derive(Debug)]
pub struct Project {
    /// The name of the project's directory.
    pub directory_name: String,
    /// The text of `README.md`, if the project has one.
    pub readme: Option<String>,
    /// The text of `Cargo.toml`, if the project has one.
    pub manifest: Option<String>,
    /// The source files, in the order in which the directory walk found them.
    pub files: Vec<ProjectFile>,
}

/// Which parts a document has.
#[derive(Debug)]
pub struct GenerationOptions {
    /// Whether the list of the files referred to follows the metadata.
    pub include_core_docs: bool,
    /// Whether a copy of the readme follows the body.
    pub include_readme: bool,
    /// Whether a copy of the manifest ends the document.
    pub include_cargo_toml: bool,
    /// Whether the body is the complete reference; it is the index otherwise.
    pub include_complete_api: bool,
    pub title_suffix: Option<&'static str>,
}

/// The labels of each file, with the file's path.
pub type TocItems = Vec<(String, Vec<String>)>;

/// A line made of `label` and `value`; nothing where there is no value.
pub open spec fn labelled_line(label: Seq<char>, value: Option<Seq<char>>) -> Seq<char> {
    match value {
        Some(value) => label + value + "\n"@,
        None => ""@,
    }
}

/// The description as a block quote.
pub open spec fn description_text(description: Option<Seq<char>>) -> Seq<char> {
    match description {
        Some(description) => "> "@ + description + "\n\n"@,
        None => ""@,
    }
}

/// The keywords on one line; nothing where there are none.
pub open spec fn keywords_line(keywords: Option<Seq<Seq<char>>>) -> Seq<char> {
    match keywords {
        Some(keywords) => if keywords.len() == 0 {
            ""@
        } else {
            "**Keywords:** "@ + join(keywords, ", "@) + "\n"@
        },
        None => ""@,
    }
}

/// The line of a dependency: its name, its version between parentheses
/// and its features between brackets, as far as they are known.
pub open spec fn dependency_line(dependency: DependencyInfoView) -> Seq<char> {
    "- "@ + dependency.name + (match dependency.version {
        Some(version) => " ("@ + version + ")"@,
        None => ""@,
    }) + (match dependency.features {
        Some(features) => " [features: "@ + join(features, ", "@) + "]"@,
        None => ""@,
    }) + "\n"@
}

/// The lines of the dependencies, in order.
pub open spec fn dependency_lines(dependencies: Seq<DependencyInfoView>) -> Seq<char>
    decreases dependencies.len(),
{
    if dependencies.len() == 0 {
        ""@
    } else {
        dependency_lines(dependencies.drop_last()) + dependency_line(dependencies.last())
    }
}

/// The list of dependencies under its label; nothing where there are none.
pub open spec fn dependencies_text(dependencies: Option<Seq<DependencyInfoView>>) -> Seq<char> {
    match dependencies {
        Some(dependencies) => if dependencies.len() == 0 {
            ""@
        } else {
            "**Dependencies:**\n"@ + dependency_lines(dependencies)
        },
        None => ""@,
    }
}

/// The line of a feature: its name and, between brackets, what it enables.
pub open spec fn feature_line(feature: (Seq<char>, Seq<Seq<char>>)) -> Seq<char> {
    "- "@ + feature.0 + ": ["@ + join(feature.1, ", "@) + "]\n"@
}

/// The lines of the features, in order.
pub open spec fn feature_lines(features: Seq<(Seq<char>, Seq<Seq<char>>)>) -> Seq<char>
    decreases features.len(),
{
    if features.len() == 0 {
        ""@
    } else {
        feature_lines(features.drop_last()) + feature_line(features.last())
    }
}

/// The list of features under its label; nothing where there are none.
pub open spec fn features_text(features: Option<Seq<(Seq<char>, Seq<Seq<char>>)>>) -> Seq<char> {
    match features {
        Some(features) => if features.len() == 0 {
            ""@
        } else {
            "**Features:**\n"@ + feature_lines(features)
        },
        None => ""@,
    }
}

/// Whether a list is given and holds something.
pub open spec fn is_filled<T>(list: Option<Seq<T>>) -> bool {
    match list {
        Some(list) => list.len() > 0,
        None => false,
    }
}

/// Whether the metadata give one of the fields of the metadata block: the
/// version, the authors, the license, the repository, the homepage, a
/// keyword, a dependency or a feature.
pub open spec fn has_details(info: ProjectInfoView) -> bool {
    ||| info.version is Some
    ||| info.authors is Some
    ||| info.license is Some
    ||| info.repository is Some
    ||| info.homepage is Some
    ||| is_filled(info.keywords)
    ||| is_filled(info.dependencies)
    ||| is_filled(info.features)
}

/// The lines of the metadata block: one for each of its fields that the
/// metadata give, whatever the others are.
pub open spec fn details_lines(info: ProjectInfoView) -> Seq<char> {
    labelled_line("**Version:** "@, info.version) + labelled_line("**Authors:** "@, info.authors)
        + labelled_line("**License:** "@, info.license) + labelled_line(
        "**Repository:** "@,
        info.repository,
    ) + labelled_line("**Homepage:** "@, info.homepage) + keywords_line(info.keywords)
        + dependencies_text(info.dependencies) + features_text(info.features)
}

/// The metadata block: its lines, then an empty line. There is no block
/// where the metadata give none of its fields.
pub open spec fn details_text(info: ProjectInfoView) -> Seq<char> {
    if has_details(info) {
        details_lines(info) + "\n"@
    } else {
        ""@
    }
}

/// The line that says when the document was generated.
pub open spec fn generated_line(timestamp: Seq<char>) -> Seq<char> {
    "Generated: "@ + timestamp + " UTC  \n"@
}

/// What follows the title: the description, the metadata block, the time
/// of generation and the attribution.
pub open spec fn project_info_text(info: ProjectInfoView, timestamp: Seq<char>) -> Seq<char> {
    description_text(info.description) + details_text(info) + generated_line(timestamp)
        + "Created by: [cargo-llms-txt](https://github.com/masinc/cargo-llms-txt)\n\n"@
}

/// The list of the files that the index refers to.
pub open spec fn core_documentation_text(has_readme: bool, has_manifest: bool) -> Seq<char> {
    "## Core Documentation\n\n"@
        + "- [Complete API Documentation](llms-full.txt): Full public API documentation with detailed descriptions\n"@
        + (if has_readme {
        "- [README](README.md): Project overview and getting started guide\n"@
    } else {
        ""@
    }) + (if has_manifest {
        "- [Cargo.toml](Cargo.toml): Project configuration and dependencies\n"@
    } else {
        ""@
    }) + "\n"@
}

/// Each label as a bullet on a line of its own.
pub open spec fn bullet_lines(labels: Seq<Seq<char>>) -> Seq<char>
    decreases labels.len(),
{
    if labels.len() == 0 {
        ""@
    } else {
        bullet_lines(labels.drop_last()) + ("- "@ + labels.last() + "\n"@)
    }
}

/// The section of a file in the index: its path as a third-level heading
/// and its labels as bullets. A file without labels has no section.
pub open spec fn index_section(path: Seq<char>, labels: Seq<Seq<char>>) -> Seq<char> {
    if labels.len() == 0 {
        ""@
    } else {
        "### "@ + path + "\n\n"@ + bullet_lines(labels) + "\n"@
    }
}

/// The sections of the files in the index, in order.
pub open spec fn index_sections(entries: Seq<(Seq<char>, Seq<Seq<char>>)>) -> Seq<char>
    decreases entries.len(),
{
    if entries.len() == 0 {
        ""@
    } else {
        index_sections(entries.drop_last()) + index_section(entries.last().0, entries.last().1)
    }
}

/// The index labels of a file.
pub open spec fn file_labels(file: &ProjectFile) -> Seq<Seq<char>> {
    items_labels(file.source.items@, Seq::empty())
}

/// The path and the labels of each file.
pub open spec fn toc_entries(files: Seq<ProjectFile>) -> Seq<(Seq<char>, Seq<Seq<char>>)> {
    Seq::new(files.len(), |i: int| (files[i].path@, file_labels(&files[i])))
}

/// The mathematical value of [`TocItems`].
pub open spec fn toc_view(items: Seq<(String, Vec<String>)>) -> Seq<(Seq<char>, Seq<Seq<char>>)> {
    Seq::new(items.len(), |i: int| (items[i].0@, views(items[i].1@)))
}

/// The index: a heading, then the section of each file in order.
pub open spec fn table_of_contents_text(files: Seq<ProjectFile>) -> Seq<char> {
    "## Table of Contents\n\n"@ + index_sections(toc_entries(files))
}

/// A line of an embedded document: a line that starts with `#` gets
/// `base_level` more of them in front, any other line stays as it is.
pub open spec fn adjusted_line(line: Seq<char>, base_level: nat) -> Seq<char> {
    if line.len() > 0 && line[0] == '#' {
        repeat("#"@, base_level) + line
    } else {
        line
    }
}

/// Each line with its heading, if it is one, moved down.
pub open spec fn adjusted_lines(lines: Seq<Seq<char>>, base_level: nat) -> Seq<Seq<char>> {
    Seq::new(lines.len(), |i: int| adjusted_line(lines[i], base_level))
}

/// A Markdown text with every heading moved `base_level` levels down. The
/// lines are joined by single line feeds, without one at the end.
pub open spec fn adjusted_headings(content: Seq<char>, base_level: nat) -> Seq<char> {
    join(adjusted_lines(lines(content), base_level), "\n"@)
}

/// The readme under its heading, its own headings two levels down.
pub open spec fn readme_text(readme: Option<Seq<char>>) -> Seq<char> {
    match readme {
        Some(content) => "## README.md\n\n"@ + adjusted_headings(content, 2) + "\n\n"@,
        None => ""@,
    }
}

/// The manifest under its heading, as it is, between fences.
pub open spec fn manifest_text(manifest: Option<Seq<char>>) -> Seq<char> {
    match manifest {
        Some(content) => "## Cargo.toml\n\n"@ + "```toml\n"@ + content + "```\n\n"@,
        None => ""@,
    }
}

/// The section of a file in the complete reference: its path as a
/// second-level heading, then its declarations. The heading is there
/// whether or not the file has declarations.
pub open spec fn file_docs(file: &ProjectFile) -> Seq<char> {
    "## "@ + file.path@ + "\n\n"@ + items_docs(file.source.items@, Seq::empty()) + "\n"@
}

/// The sections of the files in the complete reference, in order.
pub open spec fn files_docs(files: Seq<ProjectFile>) -> Seq<char>
    decreases files.len(),
{
    if files.len() == 0 {
        ""@
    } else {
        files_docs(files.drop_last()) + file_docs(&files.last())
    }
}

/// The name in the title: the manifest's, or the directory's.
pub open spec fn display_name(info: ProjectInfoView, directory_name: Seq<char>) -> Seq<char> {
    match info.name {
        Some(name) => name,
        None => directory_name,
    }
}

/// The title line.
pub open spec fn title_text(name: Seq<char>, suffix: Option<&'static str>) -> Seq<char> {
    "# "@ + name + (match suffix {
        Some(suffix) => suffix@,
        None => ""@,
    }) + "\n\n"@
}

/// The body of a document: the complete reference of all files, or the
/// index followed by a rule.
pub open spec fn body_text(complete: bool, files: Seq<ProjectFile>) -> Seq<char> {
    if complete {
        files_docs(files)
    } else {
        table_of_contents_text(files) + "---\n\n"@
    }
}

/// A document: the title, the project's metadata, the list of the files
/// referred to, the body, the readme and the manifest, each optional
/// part as the options ask.
pub open spec fn document_text(
    project: &Project,
    info: ProjectInfoView,
    options: &GenerationOptions,
    timestamp: Seq<char>,
) -> Seq<char> {
    title_text(display_name(info, project.directory_name@), options.title_suffix)
        + project_info_text(info, timestamp) + (if options.include_core_docs {
        core_documentation_text(project.readme is Some, project.manifest is Some)
    } else {
        ""@
    }) + body_text(options.include_complete_api, project.files@) + (if options.include_readme {
        readme_text(text_view(project.readme))
    } else {
        ""@
    }) + (if options.include_cargo_toml {
        manifest_text(text_view(project.manifest))
    } else {
        ""@
    })
}

/// The options of the index document: the list of the files referred to,
/// the index as the body, the readme and the manifest.
pub open spec fn index_options() -> GenerationOptions {
    GenerationOptions {
        include_core_docs: true,
        include_readme: true,
        include_cargo_toml: true,
        include_complete_api: false,
        title_suffix: None,
    }
}

/// The options of the complete document: the complete reference as the
/// body, and nothing after it.
pub open spec fn complete_options() -> GenerationOptions {
    GenerationOptions {
        include_core_docs: false,
        include_readme: false,
        include_cargo_toml: false,
        include_complete_api: true,
        title_suffix: Some(" - Complete API Documentation"),
    }
}

/// What formatting a time with a pattern gives: the text that `chrono`
/// writes for the time that lies `seconds` and `nanos` after the start of
/// 1970 in UTC, or `None` where `chrono` has no such time or cannot
/// write it with the pattern.
pub uninterp spec fn formatted_time(seconds: int, nanos: int, pattern: Seq<char>) -> Option<
    Seq<char>,
>;

/// The time that the clock read, as the documents write it; `None` where
/// the clock gave no time after the start of 1970, or one that cannot be
/// written.
pub open spec fn clock_time_text(reading: Option<(u64, u32)>) -> Option<Seq<char>> {
    match reading {
        Some((seconds, nanos)) => if seconds <= i64::MAX {
            formatted_time(seconds as int, nanos as int, "%Y-%m-%d %H:%M:%S"@)
        } else {
            None
        },
        None => None,
    }
}

/// Whether a text holds no line feed.
pub open spec fn is_single_line(text: Seq<char>) -> bool {
    forall|i: int| 0 <= i < text.len() ==> text[i] != '\n'
}

/// The time of generation as it stands in a document: the formatted time
/// if there is one and it fits on a line, `unknown` otherwise.
pub open spec fn shown_time(formatted: Option<Seq<char>>) -> Seq<char> {
    match formatted {
        Some(text) => if is_single_line(text) {
            text
        } else {
            "unknown"@
        },
        None => "unknown"@,
    }
}

/// The time of generation never breaks the line that it stands in.
pub proof fn lemma_shown_time_is_single_line(formatted: Option<Seq<char>>)
    ensures
        is_single_line(shown_time(formatted)),
{
    reveal_strlit("unknown");
}

/// A file without included declarations has no section in the index.
pub proof fn lemma_index_omits_empty_file(path: Seq<char>)
    ensures
        index_section(path, Seq::empty()) == Seq::<char>::empty(),
{
    reveal_strlit("");
}

/// A file with included declarations has a section in the index, which
/// starts with the file's path as a third-level heading.
pub proof fn lemma_index_keeps_file_with_labels(path: Seq<char>, labels: Seq<Seq<char>>)
    requires
        labels.len() > 0,
    ensures
        ("### "@ + path + "\n\n"@).is_prefix_of(index_section(path, labels)),
{
}

/// Every file has a section in the complete reference, whether or not it
/// has included declarations: the section starts with the file's path as
/// a second-level heading.
pub proof fn lemma_complete_reference_keeps_every_file(file: &ProjectFile)
    ensures
        ("## "@ + file.path@ + "\n\n"@).is_prefix_of(file_docs(file)),
{
}

/// `std::time::SystemTime::elapsed` on `UNIX_EPOCH`: the time that has
/// passed since the start of 1970 by the system clock, or `None` for a
/// clock set before it. Nothing is claimed of the result: it depends on
/// the clock.
#[verifier::external_body]
pub(crate) fn time_since_epoch() -> Option<core::time::Duration> {
    match std::time::UNIX_EPOCH.elapsed() {
        Ok(elapsed) => Some(elapsed),
        Err(_) => None,
    }
}

/// `Duration::as_secs` gives the whole seconds of a duration.
pub assume_specification[ core::time::Duration::as_secs ](
    duration: &core::time::Duration,
) -> (seconds: u64)
;

/// `Duration::subsec_nanos` gives the part of a duration below a second,
/// in nanoseconds; it is less than one billion.
pub assume_specification[ core::time::Duration::subsec_nanos ](
    duration: &core::time::Duration,
) -> (nanos: u32)
    ensures
        nanos < 1_000_000_000,
;

/// Reads the clock: the whole seconds and the nanoseconds since the start
/// of 1970, or `None` for a clock set before it.
pub(crate) fn read_clock() -> (reading: Option<(u64, u32)>)
    ensures
        reading matches Some((seconds, nanos)) ==> nanos < 1_000_000_000,
{
    match time_since_epoch() {
        Some(elapsed) => Some((elapsed.as_secs(), elapsed.subsec_nanos())),
        None => None,
    }
}

/// Makes a time with `chrono::DateTime::from_timestamp` and writes it
/// with `DateTime::format` and `DelayedFormat::write_to`. The contract
/// names the outcome [`formatted_time`]: `None` where `from_timestamp`
/// gives no time or `write_to` reports an error, the written text
/// otherwise.
#[verifier::external_body]
pub(crate) fn format_time(seconds: i64, nanos: u32, pattern: &str) -> (result: Option<String>)
    ensures
        text_view(result) == formatted_time(seconds as int, nanos as int, pattern@),
{
    match chrono::DateTime::from_timestamp(seconds, nanos) {
        Some(time) => {
            let mut text = String::new();
            match time.format(pattern).write_to(&mut text) {
                Ok(()) => Some(text),
                Err(_) => None,
            }
        },
        None => None,
    }
}

/// Whether a text holds no line feed.
pub fn holds_no_line_feed(text: &str) -> (single: bool)
    ensures
        single == is_single_line(text@),
{
    let chars = chars_of(text);
    let mut i: usize = 0;
    while i < chars.len()
        invariant
            i <= chars.len(),
            chars@ == text@,
            forall|j: int| 0 <= j < i ==> chars@[j] != '\n',
        decreases chars.len() - i,
    {
        if chars[i] == '\n' {
            return false;
        }
        i += 1;
    }
    true
}

/// The time of generation as it stands in a document: the formatted time
/// if there is one and it fits on a line, `unknown` otherwise.
pub fn timestamp_or_unknown(formatted: Option<String>) -> (out: String)
    ensures
        out@ == shown_time(text_view(formatted)),
{
    match formatted {
        Some(text) => {
            if holds_no_line_feed(text.as_str()) {
                text
            } else {
                String::from_str("unknown")
            }
        },
        None => String::from_str("unknown"),
    }
}

/// Writes the time that the clock read, as year, month, day, hour, minute
/// and second in UTC, or `unknown` where that cannot be done.
pub fn format_timestamp(reading: Option<(u64, u32)>) -> (out: String)
    ensures
        out@ == shown_time(clock_time_text(reading)),
{
    let formatted = match reading {
        Some((seconds, nanos)) => {
            if seconds <= 0x7fff_ffff_ffff_ffff {
                format_time(seconds as i64, nanos, "%Y-%m-%d %H:%M:%S")
            } else {
                None
            }
        },
        None => None,
    };
    timestamp_or_unknown(formatted)
}

fn format_labelled_line(label: &str, value: &Option<String>) -> (out: String)
    ensures
        out@ == labelled_line(label@, text_view(*value)),
{
    match value {
        Some(value) => {
            let mut out = String::from_str(label);
            out.append(value.as_str());
            out.append("\n");
            out
        },
        None => String::from_str(""),
    }
}

fn format_dependency(dependency: &DependencyInfo) -> (out: String)
    ensures
        out@ == dependency_line(dependency@),
{
    let mut out = String::from_str("- ");
    out.append(dependency.name.as_str());
    let mut version = String::from_str("");
    if let Some(text) = &dependency.version {
        version = String::from_str(" (");
        version.append(text.as_str());
        version.append(")");
    }
    out.append(version.as_str());
    let mut features = String::from_str("");
    if let Some(names) = &dependency.features {
        features = String::from_str(" [features: ");
        let list = join_strings(names, ", ");
        features.append(list.as_str());
        features.append("]");
    }
    out.append(features.as_str());
    out.append("\n");
    out
}

fn format_dependencies(dependencies: &Option<Vec<DependencyInfo>>) -> (out: String)
    ensures
        out@ == dependencies_text(
            match *dependencies {
                Some(dependencies) => Some(crate::project_info::dependency_views(dependencies@)),
                None => None,
            },
        ),
{
    match dependencies {
        Some(dependencies) => {
            if dependencies.len() == 0 {
                String::from_str("")
            } else {
                let ghost all = crate::project_info::dependency_views(dependencies@);
                let mut lines = String::from_str("");
                let mut i: usize = 0;
                while i < dependencies.len()
                    invariant
                        i <= dependencies.len(),
                        all == crate::project_info::dependency_views(dependencies@),
                        lines@ == dependency_lines(all.take(i as int)),
                    decreases dependencies.len() - i,
                {
                    assert(all.take(i + 1).drop_last() =~= all.take(i as int));
                    let line = format_dependency(&dependencies[i]);
                    lines.append(line.as_str());
                    i += 1;
                }
                assert(all.take(dependencies.len() as int) =~= all);
                let mut out = String::from_str("**Dependencies:**\n");
                out.append(lines.as_str());
                out
            }
        },
        None => String::from_str(""),
    }
}

fn format_features(features: &Option<Vec<(String, Vec<String>)>>) -> (out: String)
    ensures
        out@ == features_text(
            match *features {
                Some(features) => Some(crate::project_info::feature_views(features@)),
                None => None,
            },
        ),
{
    match features {
        Some(features) => {
            if features.len() == 0 {
                String::from_str("")
            } else {
                let ghost all = crate::project_info::feature_views(features@);
                let mut lines = String::from_str("");
                let mut i: usize = 0;
                while i < features.len()
                    invariant
                        i <= features.len(),
                        all == crate::project_info::feature_views(features@),
                        lines@ == feature_lines(all.take(i as int)),
                    decreases features.len() - i,
                {
                    assert(all.take(i + 1).drop_last() =~= all.take(i as int));
                    let mut line = String::from_str("- ");
                    line.append(features[i].0.as_str());
                    line.append(": [");
                    let enabled = join_strings(&features[i].1, ", ");
                    line.append(enabled.as_str());
                    line.append("]\n");
                    lines.append(line.as_str());
                    i += 1;
                }
                assert(all.take(features.len() as int) =~= all);
                let mut out = String::from_str("**Features:**\n");
                out.append(lines.as_str());
                out
            }
        },
        None => String::from_str(""),
    }
}

/// Whether the metadata give one of the fields of the metadata block.
fn has_any_detail(info: &ProjectInfo) -> (any: bool)
    ensures
        any == has_details(info@),
{
    let keywords = match &info.keywords {
        Some(list) => list.len() > 0,
        None => false,
    };
    let dependencies = match &info.dependencies {
        Some(list) => list.len() > 0,
        None => false,
    };
    let features = match &info.features {
        Some(list) => list.len() > 0,
        None => false,
    };
    info.version.is_some() || info.authors.is_some() || info.license.is_some()
        || info.repository.is_some() || info.homepage.is_some() || keywords || dependencies
        || features
}

/// Writes the metadata block.
fn format_details(info: &ProjectInfo) -> (out: String)
    ensures
        out@ == details_text(info@),
{
    let mut out = format_labelled_line("**Version:** ", &info.version);
    let authors = format_labelled_line("**Authors:** ", &info.authors);
    out.append(authors.as_str());
    let license = format_labelled_line("**License:** ", &info.license);
    out.append(license.as_str());
    let repository = format_labelled_line("**Repository:** ", &info.repository);
    out.append(repository.as_str());
    let homepage = format_labelled_line("**Homepage:** ", &info.homepage);
    out.append(homepage.as_str());
    let mut keywords = String::from_str("");
    if let Some(list) = &info.keywords {
        if list.len() > 0 {
            keywords = String::from_str("**Keywords:** ");
            let joined = join_strings(list, ", ");
            keywords.append(joined.as_str());
            keywords.append("\n");
        }
    }
    out.append(keywords.as_str());
    let dependencies = format_dependencies(&info.dependencies);
    out.append(dependencies.as_str());
    let features = format_features(&info.features);
    out.append(features.as_str());
    if has_any_detail(info) {
        out.append("\n");
        out
    } else {
        String::from_str("")
    }
}

/// Writes what follows the title, with `timestamp` as the time of generation.
pub fn format_project_info_at(info: &ProjectInfo, timestamp: &str) -> (out: String)
    ensures
        out@ == project_info_text(info@, timestamp@),
{
    let mut out = String::from_str("");
    if let Some(description) = &info.description {
        out = String::from_str("> ");
        out.append(description.as_str());
        out.append("\n\n");
    }
    let details = format_details(info);
    out.append(details.as_str());
    let mut generated = String::from_str("Generated: ");
    generated.append(timestamp);
    generated.append(" UTC  \n");
    out.append(generated.as_str());
    out.append("Created by: [cargo-llms-txt](https://github.com/masinc/cargo-llms-txt)\n\n");
    out
}

/// Writes what follows the title, with the current time as the time of
/// generation.
pub fn format_project_info(info: &ProjectInfo) -> (out: String)
    ensures
        exists|reading: Option<(u64, u32)>|
            out@ == project_info_text(info@, shown_time(clock_time_text(reading))),
{
    let reading = read_clock();
    let timestamp = format_timestamp(reading);
    format_project_info_at(info, timestamp.as_str())
}

/// Writes the list of the files that the index refers to.
pub fn format_core_documentation_section(has_readme: bool, has_manifest: bool) -> (out: String)
    ensures
        out@ == core_documentation_text(has_readme, has_manifest),
{
    let mut out = String::from_str("## Core Documentation\n\n");
    out.append(
        "- [Complete API Documentation](llms-full.txt): Full public API documentation with detailed descriptions\n",
    );
    out.append(
        if has_readme {
            "- [README](README.md): Project overview and getting started guide\n"
        } else {
            ""
        },
    );
    out.append(
        if has_manifest {
            "- [Cargo.toml](Cargo.toml): Project configuration and dependencies\n"
        } else {
            ""
        },
    );
    out.append("\n");
    out
}

/// Adds the path and the index labels of `file` to `toc_items`.
pub fn collect_public_items_for_toc(toc_items: &mut TocItems, file: &ProjectFile)
    ensures
        toc_view(final(toc_items)@) == toc_view(old(toc_items)@).push(
            (file.path@, file_labels(file)),
        ),
{
    let mut items: Vec<String> = Vec::new();
    let mut visitor = TocVisitor { items: &mut items, current_mod: Vec::new() };
    visitor.visit_file(&file.source);
    toc_items.push((file.path.clone(), items));
}

/// Writes the section of a file in the index.
pub fn format_index_section(path: &str, labels: &Vec<String>) -> (out: String)
    ensures
        out@ == index_section(path@, views(labels@)),
{
    if labels.len() == 0 {
        String::from_str("")
    } else {
        let ghost all = views(labels@);
        let mut bullets = String::from_str("");
        let mut i: usize = 0;
        while i < labels.len()
            invariant
                i <= labels.len(),
                all == views(labels@),
                bullets@ == bullet_lines(all.take(i as int)),
            decreases labels.len() - i,
        {
            assert(all.take(i + 1).drop_last() =~= all.take(i as int));
            let mut bullet = String::from_str("- ");
            bullet.append(labels[i].as_str());
            bullet.append("\n");
            bullets.append(bullet.as_str());
            i += 1;
        }
        assert(all.take(labels.len() as int) =~= all);
        let mut out = String::from_str("### ");
        out.append(path);
        out.append("\n\n");
        out.append(bullets.as_str());
        out.append("\n");
        out
    }
}

/// Writes the index of `files` and returns, with it, the labels of each file.
pub fn generate_table_of_contents(files: &Vec<ProjectFile>) -> (out: (String, TocItems))
    ensures
        out.0@ == table_of_contents_text(files@),
        toc_view(out.1@) == toc_entries(files@),
{
    let mut toc_items: TocItems = Vec::new();
    let mut i: usize = 0;
    while i < files.len()
        invariant
            i <= files.len(),
            toc_view(toc_items@) == toc_entries(files@).take(i as int),
        decreases files.len() - i,
    {
        collect_public_items_for_toc(&mut toc_items, &files[i]);
        i += 1;
    }
    assert(toc_entries(files@).take(files.len() as int) =~= toc_entries(files@));

    let ghost entries = toc_view(toc_items@);
    let mut sections = String::from_str("");
    let mut j: usize = 0;
    while j < toc_items.len()
        invariant
            j <= toc_items.len(),
            entries == toc_view(toc_items@),
            sections@ == index_sections(entries.take(j as int)),
        decreases toc_items.len() - j,
    {
        assert(entries.take(j + 1).drop_last() =~= entries.take(j as int));
        let section = format_index_section(toc_items[j].0.as_str(), &toc_items[j].1);
        sections.append(section.as_str());
        j += 1;
    }
    let mut content = String::from_str("## Table of Contents\n\n");
    content.append(sections.as_str());
    (content, toc_items)
}

/// Moves every heading of a Markdown text `base_level` levels down.
pub fn adjust_markdown_heading_levels(content: &str, base_level: usize) -> (out: String)
    ensures
        out@ == adjusted_headings(content@, base_level as nat),
{
    let all = split_lines(content);
    let prefix = repeat_str("#", base_level);
    let mut result: Vec<String> = Vec::new();
    let mut i: usize = 0;
    while i < all.len()
        invariant
            i <= all.len(),
            prefix@ == repeat("#"@, base_level as nat),
            result@.len() == i,
            forall|j: int| 0 <= j < i ==> result@[j]@ == adjusted_line(all@[j]@, base_level as nat),
        decreases all.len() - i,
    {
        let line = all[i].as_str();
        if !line.is_empty() && line.get_char(0) == '#' {
            let mut heading = prefix.clone();
            heading.append(line);
            result.push(heading);
        } else {
            result.push(String::from_str(line));
        }
        i += 1;
    }
    assert(views(result@) =~= adjusted_lines(views(all@), base_level as nat));
    join_strings(&result, "\n")
}

/// Writes the readme under its heading.
pub fn format_readme_section(readme: &Option<String>) -> (out: String)
    ensures
        out@ == readme_text(text_view(*readme)),
{
    match readme {
        Some(content) => {
            let adjusted = adjust_markdown_heading_levels(content.as_str(), 2);
            let mut out = String::from_str("## README.md\n\n");
            out.append(adjusted.as_str());
            out.append("\n\n");
            out
        },
        None => String::from_str(""),
    }
}

/// Writes the manifest under its heading.
pub fn format_cargo_toml_section(manifest: &Option<String>) -> (out: String)
    ensures
        out@ == manifest_text(text_view(*manifest)),
{
    match manifest {
        Some(content) => {
            let mut out = String::from_str("## Cargo.toml\n\n");
            out.append("```toml\n");
            out.append(content.as_str());
            out.append("```\n\n");
            out
        },
        None => String::from_str(""),
    }
}

/// Appends the section of `file` in the complete reference.
pub fn extract_complete_api_docs(content: &mut String, file: &ProjectFile)
    ensures
        final(content)@ == old(content)@ + file_docs(file),
{
    let mut section = String::from_str("## ");
    section.append(file.path.as_str());
    section.append("\n\n");
    let mut visitor = CompleteDocsVisitor { content: &mut section, current_mod: Vec::new() };
    visitor.visit_file(&file.source);
    section.append("\n");
    content.append(section.as_str());
}

/// Writes the complete reference of all files.
pub fn format_complete_api_docs(files: &Vec<ProjectFile>) -> (out: String)
    ensures
        out@ == files_docs(files@),
{
    let mut sections = String::from_str("");
    let mut i: usize = 0;
    while i < files.len()
        invariant
            i <= files.len(),
            sections@ == files_docs(files@.take(i as int)),
        decreases files.len() - i,
    {
        assert(files@.take(i + 1).drop_last() =~= files@.take(i as int));
        extract_complete_api_docs(&mut sections, &files[i]);
        i += 1;
    }
    assert(files@.take(files.len() as int) =~= files@);
    sections
}

/// Writes a document with `timestamp` as the time of generation.
pub fn assemble_document(
    project: &Project,
    project_info: &ProjectInfo,
    options: &GenerationOptions,
    timestamp: &str,
) -> (out: String)
    ensures
        out@ == document_text(project, project_info@, options, timestamp@),
{
    let mut out = String::from_str("# ");
    out.append(
        match &project_info.name {
            Some(name) => name.as_str(),
            None => project.directory_name.as_str(),
        },
    );
    out.append(
        match options.title_suffix {
            Some(suffix) => suffix,
            None => "",
        },
    );
    out.append("\n\n");

    let info = format_project_info_at(project_info, timestamp);
    out.append(info.as_str());

    let core = if options.include_core_docs {
        format_core_documentation_section(project.readme.is_some(), project.manifest.is_some())
    } else {
        String::from_str("")
    };
    out.append(core.as_str());

    let body = if options.include_complete_api {
        format_complete_api_docs(&project.files)
    } else {
        let (mut toc, _toc_items) = generate_table_of_contents(&project.files);
        toc.append("---\n\n");
        toc
    };
    out.append(body.as_str());

    let readme = if options.include_readme {
        format_readme_section(&project.readme)
    } else {
        String::from_str("")
    };
    out.append(readme.as_str());

    let manifest = if options.include_cargo_toml {
        format_cargo_toml_section(&project.manifest)
    } else {
        String::from_str("")
    };
    out.append(manifest.as_str());
    out
}

/// Writes a document with the current time as the time of generation.
pub fn generate_common_content(
    project: &Project,
    project_info: &ProjectInfo,
    options: &GenerationOptions,
) -> (out: String)
    ensures
        exists|reading: Option<(u64, u32)>|
            out@ == document_text(
                project,
                project_info@,
                options,
                shown_time(clock_time_text(reading)),
            ),
{
    let reading = read_clock();
    let timestamp = format_timestamp(reading);
    assemble_document(project, project_info, options, timestamp.as_str())
}

/// Writes the index document: the metadata, the list of files referred
/// to, the index, the readme and the manifest.
pub fn generate_llms_txt(project: &Project, project_info: &ProjectInfo) -> (out: String)
    ensures
        exists|reading: Option<(u64, u32)>|
            out@ == document_text(
                project,
                project_info@,
                &index_options(),
                shown_time(clock_time_text(reading)),
            ),
{
    let options = GenerationOptions {
        include_core_docs: true,
        include_readme: true,
        include_cargo_toml: true,
        include_complete_api: false,
        title_suffix: None,
    };
    generate_common_content(project, project_info, &options)
}

/// Writes the complete document: the metadata and the complete reference.
pub fn generate_llms_full_txt(project: &Project, project_info: &ProjectInfo) -> (out: String)
    ensures
        exists|reading: Option<(u64, u32)>|
            out@ == document_text(
                project,
                project_info@,
                &complete_options(),
                shown_time(clock_time_text(reading)),
            ),
{
    let options = GenerationOptions {
        include_core_docs: false,
        include_readme: false,
        include_cargo_toml: false,
        include_complete_api: true,
        title_suffix: Some(" - Complete API Documentation"),
    };
    generate_common_content(project, project_info, &options)
}

} // verus!
