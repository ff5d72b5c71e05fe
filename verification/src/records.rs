//! The typed records decoded from the external tool's structured output.

use vstd::prelude::*;

verus! {

/// One package of a bulk listing: its stable identity (`name`) and the
/// display fields of a catalog row. Fields the tool may omit are optional;
/// absence is not an error.
#[derive(Debug, Clone, PartialEq)]
pub struct Package {
    pub name: String,
    pub version: Option<String>,
    pub desc: Option<String>,
    pub homepage: Option<String>,
    pub installed: bool,
}

/// The structured version information of a formula. The stable version is
/// required; the rest is optional.
#[derive(Debug, Clone, PartialEq)]
pub struct BrewVersions {
    pub stable: String,
    pub head: Option<String>,
    pub bottle: Option<bool>,
}

/// The source locations of a formula.
#[derive(Debug, Clone, PartialEq)]
pub struct BrewUrls {
    pub stable: Option<BrewUrl>,
    pub head: Option<BrewUrl>,
}

/// One source location: the URL is required, the rest optional.
#[derive(Debug, Clone, PartialEq)]
pub struct BrewUrl {
    pub url: String,
    pub tag: Option<String>,
    pub revision: Option<String>,
}

/// One installed-receipt of a formula: the installed version, how it was
/// built, and an optional install timestamp.
#[derive(Debug, Clone, PartialEq)]
pub struct BrewInstalled {
    pub version: String,
    pub built_as_bottle: bool,
    pub poured_from_bottle: bool,
    pub installed_as_dependency: bool,
    pub installed_on_request: bool,
    pub time: Option<i64>,
}

/// The detailed record of a single formula: identity and display fields,
/// structured version information, dependency name lists (ordered, duplicates
/// allowed), installed receipts, and lifecycle flags. Only the identity and
/// the stable version are required; everything else the tool may omit.
#[derive(Debug, Clone, PartialEq)]
pub struct BrewInfoFormula {
    pub name: String,
    pub full_name: Option<String>,
    pub tap: Option<String>,
    pub desc: Option<String>,
    pub license: Option<String>,
    pub homepage: Option<String>,
    pub versions: BrewVersions,
    pub urls: Option<BrewUrls>,
    pub build_dependencies: Option<Vec<String>>,
    pub dependencies: Option<Vec<String>>,
    pub test_dependencies: Option<Vec<String>>,
    pub recommended_dependencies: Option<Vec<String>>,
    pub optional_dependencies: Option<Vec<String>>,
    pub installed: Option<Vec<BrewInstalled>>,
    pub pinned: Option<bool>,
    pub outdated: Option<bool>,
    pub deprecated: Option<bool>,
    pub deprecation_reason: Option<String>,
    pub disabled: Option<bool>,
    pub disable_reason: Option<String>,
}

/// Six independent non-negative counts for the status overview. Each count is
/// independently sourced; a failed query degrades to zero for its field.
#[derive(Debug, Clone, Copy, PartialEq, Eq, Structural)]
pub struct BrewStats {
    pub installed: usize,
    pub casks: usize,
    pub outdated: usize,
    pub formulae: usize,
    pub leaves: usize,
    pub taps: usize,
}

} // verus!
