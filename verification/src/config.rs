//! The configuration of the wrapper: where it is imported from, under which
//! name the module exports it and which local name it is bound to.

use crate::ast::view_seq;
use vstd::prelude::*;
use vstd::string::StringExecFns;

verus! {

/// Static plugin configuration.
#[derive(Clone, Debug, PartialEq, Eq)]
pub struct Config {
    /// The name of the module to import the wrapper from.
    pub import_from: String,
    /// The local name that the wrapper is bound to.
    pub import_as: String,
    /// The name under which the module exports the wrapper.
    pub export_name: String,
    /// The base directory to use for relative paths.
    pub base_path: String,
    /// Patterns of the paths to rewrite; `None` stands for every path.
    pub include_paths: Option<Vec<String>>,
    /// Patterns of the paths to leave alone.
    pub exclude_paths: Option<Vec<String>>,
}

pub struct ConfigView {
    pub import_from: Seq<char>,
    pub import_as: Seq<char>,
    pub export_name: Seq<char>,
    pub base_path: Seq<char>,
    pub include_paths: Option<Seq<Seq<char>>>,
    pub exclude_paths: Option<Seq<Seq<char>>>,
}

/// The view of an optional list of patterns.
pub open spec fn view_patterns(patterns: Option<Vec<String>>) -> Option<Seq<Seq<char>>> {
    match patterns {
        Some(list) => Some(view_seq(list@)),
        None => None,
    }
}

impl View for Config {
    type V = ConfigView;

    open spec fn view(&self) -> ConfigView {
        ConfigView {
            import_from: self.import_from@,
            import_as: self.import_as@,
            export_name: self.export_name@,
            base_path: self.base_path@,
            include_paths: view_patterns(self.include_paths),
            exclude_paths: view_patterns(self.exclude_paths),
        }
    }
}

/// The configuration in force where none is given.
pub open spec fn default_config() -> ConfigView {
    ConfigView {
        import_from: "promock"@,
        import_as: "mockify"@,
        export_name: "mockify"@,
        base_path: "."@,
        include_paths: None,
        exclude_paths: None,
    }
}

/// Every path is included where no pattern is configured.
pub fn default_include_paths() -> (r: Option<Vec<String>>)
    ensures
        r is None,
{
    None
}

/// No path is excluded where no pattern is configured.
pub fn default_exclude_paths() -> (r: Option<Vec<String>>)
    ensures
        r is None,
{
    None
}

/// The local name of the wrapper where none is configured.
pub fn default_import_as() -> (r: String)
    ensures
        r@ == default_config().import_as,
{
    String::from_str("mockify")
}

/// The module that the wrapper is imported from where none is configured.
pub fn default_import_from() -> (r: String)
    ensures
        r@ == default_config().import_from,
{
    String::from_str("promock")
}

/// The name under which the wrapper is exported where none is configured.
pub fn default_export_name() -> (r: String)
    ensures
        r@ == default_config().export_name,
{
    String::from_str("mockify")
}

} // verus!
