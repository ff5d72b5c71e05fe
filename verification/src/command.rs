//! The invocation surface of the external tool: one builder per subcommand,
//! each pinning the exact argument tokens handed to the executor. Arguments
//! are discrete tokens, never concatenated into a shell string.

use vstd::prelude::*;

verus! {

/// One invocation of the external tool: the program name and its ordered
/// argument tokens.
#[derive(Debug, Clone, PartialEq)]
pub struct BrewCommand {
    pub program: String,
    pub args: Vec<String>,
}

/// The arguments of the bulk structured info query, restricted to installed
/// items and pinned to an explicit machine-readable format version.
pub open spec fn spec_list_installed_args() -> Seq<Seq<char>> {
    seq!["info"@, "--json=v2"@, "--installed"@]
}

/// Builds the bulk structured info query over all installed formulae.
pub fn list_installed_command() -> (r: BrewCommand)
    ensures
        r.program@ == "brew"@,
        r.args.deep_view() == spec_list_installed_args(),
{
    let mut args: Vec<String> = Vec::new();
    args.push("info".to_owned());
    args.push("--json=v2".to_owned());
    args.push("--installed".to_owned());
    proof {
        assert(args.deep_view() =~= spec_list_installed_args());
    }
    BrewCommand { program: "brew".to_owned(), args }
}

/// The arguments of the structured info query for one named item.
pub open spec fn spec_info_args(name: Seq<char>) -> Seq<Seq<char>> {
    seq!["info"@, "--json=v2"@, name]
}

/// Builds the structured info query for one named formula.
pub fn info_command(name: &str) -> (r: BrewCommand)
    ensures
        r.program@ == "brew"@,
        r.args.deep_view() == spec_info_args(name@),
{
    let mut args: Vec<String> = Vec::new();
    args.push("info".to_owned());
    args.push("--json=v2".to_owned());
    args.push(name.to_owned());
    proof {
        assert(args.deep_view() =~= spec_info_args(name@));
    }
    BrewCommand { program: "brew".to_owned(), args }
}

/// The arguments of a search: with an empty term the query is the unfiltered
/// listing, otherwise the term is passed as one further token.
pub open spec fn spec_search_args(query: Seq<char>) -> Seq<Seq<char>> {
    if query.len() == 0 {
        seq!["search"@, "--formula"@]
    } else {
        seq!["search"@, "--formula"@, query]
    }
}

/// Builds the search query; an empty term builds the unfiltered listing
/// invocation, the same request a plain listing makes.
pub fn search_command(query: &str) -> (r: BrewCommand)
    ensures
        r.program@ == "brew"@,
        r.args.deep_view() == spec_search_args(query@),
        query@.len() == 0 ==> r.args.deep_view() == seq!["search"@, "--formula"@],
{
    let mut args: Vec<String> = Vec::new();
    args.push("search".to_owned());
    args.push("--formula".to_owned());
    if query.unicode_len() > 0 {
        args.push(query.to_owned());
    }
    proof {
        assert(args.deep_view() =~= spec_search_args(query@));
    }
    BrewCommand { program: "brew".to_owned(), args }
}

/// Builds an install of one named formula.
pub fn install_command(name: &str) -> (r: BrewCommand)
    ensures
        r.program@ == "brew"@,
        r.args.deep_view() == seq!["install"@, name@],
{
    let mut args: Vec<String> = Vec::new();
    args.push("install".to_owned());
    args.push(name.to_owned());
    proof {
        assert(args.deep_view() =~= seq!["install"@, name@]);
    }
    BrewCommand { program: "brew".to_owned(), args }
}

/// Builds an uninstall of one named formula.
pub fn uninstall_command(name: &str) -> (r: BrewCommand)
    ensures
        r.program@ == "brew"@,
        r.args.deep_view() == seq!["uninstall"@, name@],
{
    let mut args: Vec<String> = Vec::new();
    args.push("uninstall".to_owned());
    args.push(name.to_owned());
    proof {
        assert(args.deep_view() =~= seq!["uninstall"@, name@]);
    }
    BrewCommand { program: "brew".to_owned(), args }
}

/// Builds the self-update invocation.
pub fn update_command() -> (r: BrewCommand)
    ensures
        r.program@ == "brew"@,
        r.args.deep_view() == seq!["update"@],
{
    let mut args: Vec<String> = Vec::new();
    args.push("update".to_owned());
    proof {
        assert(args.deep_view() =~= seq!["update"@]);
    }
    BrewCommand { program: "brew".to_owned(), args }
}

/// Builds an upgrade: of one named formula when a target is given, of
/// everything outdated otherwise.
pub fn upgrade_command(target: Option<&str>) -> (r: BrewCommand)
    ensures
        r.program@ == "brew"@,
        target matches Some(name) ==> r.args.deep_view() == seq!["upgrade"@, name@],
        target is None ==> r.args.deep_view() == seq!["upgrade"@],
{
    let mut args: Vec<String> = Vec::new();
    args.push("upgrade".to_owned());
    match target {
        Some(name) => {
            args.push(name.to_owned());
            proof {
                assert(args.deep_view() =~= seq!["upgrade"@, name@]);
            }
        },
        None => {
            proof {
                assert(args.deep_view() =~= seq!["upgrade"@]);
            }
        },
    }
    BrewCommand { program: "brew".to_owned(), args }
}

/// Builds the listing of outdated formulae.
pub fn outdated_command() -> (r: BrewCommand)
    ensures
        r.program@ == "brew"@,
        r.args.deep_view() == seq!["outdated"@, "--formula"@],
{
    let mut args: Vec<String> = Vec::new();
    args.push("outdated".to_owned());
    args.push("--formula".to_owned());
    proof {
        assert(args.deep_view() =~= seq!["outdated"@, "--formula"@]);
    }
    BrewCommand { program: "brew".to_owned(), args }
}

/// Builds the trivial version probe used once at startup to decide whether
/// the external tool is available at all.
pub fn probe_command() -> (r: BrewCommand)
    ensures
        r.program@ == "brew"@,
        r.args.deep_view() == seq!["--version"@],
{
    let mut args: Vec<String> = Vec::new();
    args.push("--version".to_owned());
    proof {
        assert(args.deep_view() =~= seq!["--version"@]);
    }
    BrewCommand { program: "brew".to_owned(), args }
}

/// The six independent count-style queries of the status overview.
#[derive(Debug, Clone, Copy, PartialEq, Eq, Structural)]
pub enum StatsQuery {
    InstalledFormulae,
    InstalledCasks,
    OutdatedFormulae,
    KnownFormulae,
    Leaves,
    Taps,
}

/// The arguments of each count-style listing subcommand.
pub open spec fn spec_stats_args(query: StatsQuery) -> Seq<Seq<char>> {
    match query {
        StatsQuery::InstalledFormulae => seq!["list"@, "--formula"@, "-1"@],
        StatsQuery::InstalledCasks => seq!["list"@, "--cask"@, "-1"@],
        StatsQuery::OutdatedFormulae => seq!["outdated"@, "--formula"@],
        StatsQuery::KnownFormulae => seq!["formulae"@],
        StatsQuery::Leaves => seq!["leaves"@],
        StatsQuery::Taps => seq!["tap"@],
    }
}

/// Builds one count-style listing subcommand of the status overview.
pub fn stats_command(query: StatsQuery) -> (r: BrewCommand)
    ensures
        r.program@ == "brew"@,
        r.args.deep_view() == spec_stats_args(query),
{
    let mut args: Vec<String> = Vec::new();
    match query {
        StatsQuery::InstalledFormulae => {
            args.push("list".to_owned());
            args.push("--formula".to_owned());
            args.push("-1".to_owned());
        },
        StatsQuery::InstalledCasks => {
            args.push("list".to_owned());
            args.push("--cask".to_owned());
            args.push("-1".to_owned());
        },
        StatsQuery::OutdatedFormulae => {
            args.push("outdated".to_owned());
            args.push("--formula".to_owned());
        },
        StatsQuery::KnownFormulae => {
            args.push("formulae".to_owned());
        },
        StatsQuery::Leaves => {
            args.push("leaves".to_owned());
        },
        StatsQuery::Taps => {
            args.push("tap".to_owned());
        },
    }
    proof {
        assert(args.deep_view() =~= spec_stats_args(query));
    }
    BrewCommand { program: "brew".to_owned(), args }
}

} // verus!
