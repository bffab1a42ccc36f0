//! The configuration sources of a container, in the order in which they are
//! merged. A later source overrides an earlier one key by key.

use vstd::prelude::*;

verus! {

/// One place that configuration values come from.
#[derive(Debug)]
pub enum Source {
    /// A configuration file by its path without extension. A file that does
    /// not exist contributes nothing.
    OptionalFile(String),
    /// The variables of the process environment.
    Environment,
    /// The settings given on the command line.
    Arguments,
}

/// A source with its path as text.
pub enum SourceView {
    OptionalFile(Seq<char>),
    Environment,
    Arguments,
}

impl View for Source {
    type V = SourceView;

    open spec fn view(&self) -> SourceView {
        match self {
            Source::OptionalFile(path) => SourceView::OptionalFile(path@),
            Source::Environment => SourceView::Environment,
            Source::Arguments => SourceView::Arguments,
        }
    }
}

/// The views of a list of sources.
pub open spec fn source_views(sources: Seq<Source>) -> Seq<SourceView> {
    sources.map_values(|s: Source| s@)
}

/// The sources of a container of the given profile, lowest precedence
/// first: the base file, the profile's own file unless the profile is
/// `default`, the environment, the command line.
pub open spec fn source_plan(profile: Seq<char>) -> Seq<SourceView> {
    if profile == "default"@ {
        seq![
            SourceView::OptionalFile("config/default"@),
            SourceView::Environment,
            SourceView::Arguments,
        ]
    } else {
        seq![
            SourceView::OptionalFile("config/default"@),
            SourceView::OptionalFile("config/"@ + profile),
            SourceView::Environment,
            SourceView::Arguments,
        ]
    }
}

/// Lists the sources to merge for a container of the given profile, in
/// increasing precedence.
pub fn config_sources(profile: &str) -> (sources: Vec<Source>)
    ensures
        source_views(sources@) == source_plan(profile@),
{
    let mut sources: Vec<Source> = Vec::new();
    sources.push(Source::OptionalFile("config/default".to_owned()));
    let name: String = profile.to_owned();
    let base: String = "default".to_owned();
    if name != base {
        let path: String = "config/".to_owned().concat(profile);
        sources.push(Source::OptionalFile(path));
    }
    sources.push(Source::Environment);
    sources.push(Source::Arguments);
    assert(source_views(sources@) =~= source_plan(profile@));
    sources
}

} // verus!
