//! Decoding the external tool's structured output into typed records: strict
//! about the expected top-level container shape, lenient about every optional
//! field, so that fields added or dropped across tool versions never break the
//! parse.

use vstd::prelude::*;

use crate::json::{
    decode_json, field_arr, field_bool, field_int, field_str, field_str_list, get_bool_field,
    get_int_field, get_str_field, get_str_list_field, json_doc, json_field, obj_field, JsonValue,
};
use crate::outcome::BrewError;
use crate::records::{BrewInfoFormula, BrewInstalled, BrewUrl, BrewUrls, BrewVersions, Package};

verus! {

/// The stable version string of a formula record, read leniently through its
/// `versions` member.
pub open spec fn spec_version_str(el: JsonValue) -> Option<String> {
    match json_field(el, "versions"@) {
        Some(vv) => field_str(vv, "stable"@),
        None => None,
    }
}

/// The bulk-listing package of one formula record: the name is required, the
/// display fields are read leniently, and a listed formula is installed.
pub open spec fn spec_pkg_of(el: JsonValue) -> Option<Package> {
    match field_str(el, "name"@) {
        Some(name) => Some(
            Package {
                name,
                version: spec_version_str(el),
                desc: field_str(el, "desc"@),
                homepage: field_str(el, "homepage"@),
                installed: true,
            },
        ),
        None => None,
    }
}

/// The packages of a formula array; absent when any record lacks a name.
pub open spec fn spec_pkgs_of(items: Seq<JsonValue>) -> Option<Seq<Package>>
    decreases items.len(),
{
    if items.len() == 0 {
        Some(Seq::<Package>::empty())
    } else {
        match (spec_pkg_of(items.first()), spec_pkgs_of(items.drop_first())) {
            (Some(p), Some(rest)) => Some(seq![p] + rest),
            _ => None,
        }
    }
}

/// The bulk listing of a whole document: the top level must be an object
/// holding a `formulae` array, and every entry must carry a name.
pub open spec fn spec_bulk(doc: JsonValue) -> Option<Seq<Package>> {
    match field_arr(doc, "formulae"@) {
        Some(items) => spec_pkgs_of(items),
        None => None,
    }
}

/// Reads the bulk-listing package of one formula record.
pub fn package_of_formula(el: &JsonValue) -> (r: Option<Package>)
    ensures
        r == spec_pkg_of(*el),
{
    match get_str_field(el, "name") {
        Some(name) => {
            let version = match obj_field(el, "versions") {
                Some(vv) => get_str_field(vv, "stable"),
                None => None,
            };
            Some(
                Package {
                    name,
                    version,
                    desc: get_str_field(el, "desc"),
                    homepage: get_str_field(el, "homepage"),
                    installed: true,
                },
            )
        },
        None => None,
    }
}

/// Decodes a bulk listing from an already-decoded document. Fails exactly
/// when the top level is not an object with a `formulae` array, or a listed
/// record lacks its name.
#[verifier::loop_isolation(false)]
pub fn bulk_listing_from_json(doc: &JsonValue) -> (r: Result<Vec<Package>, BrewError>)
    ensures
        r matches Ok(ps) ==> spec_bulk(*doc) == Some(ps@),
        r is Err <==> spec_bulk(*doc) is None,
        r matches Err(e) ==> e is ParseError,
{
    match obj_field(doc, "formulae") {
        Some(JsonValue::Arr(items)) => {
            let mut out: Vec<Package> = Vec::new();
            let mut i: usize = 0;
            proof {
                assert(field_arr(*doc, "formulae"@) == Some(items@));
                assert(items@.skip(0) =~= items@);
                if let Some(rest) = spec_pkgs_of(items@) {
                    assert(out@ + rest =~= rest);
                }
            }
            while i < items.len()
                invariant
                    0 <= i <= items@.len(),
                    spec_pkgs_of(items@) == match spec_pkgs_of(items@.skip(i as int)) {
                        Some(rest) => Some(out@ + rest),
                        None => None::<Seq<Package>>,
                    },
                decreases items@.len() - i,
            {
                proof {
                    assert(items@.skip(i as int).first() == items@[i as int]);
                    assert(items@.skip(i as int).drop_first() =~= items@.skip(i + 1));
                }
                match package_of_formula(&items[i]) {
                    Some(p) => {
                        let ghost prev = out@;
                        let ghost pv = p;
                        out.push(p);
                        proof {
                            if let Some(rest) = spec_pkgs_of(items@.skip(i + 1)) {
                                assert(prev + (seq![pv] + rest) =~= out@ + rest);
                            }
                        }
                    },
                    None => {
                        proof {
                            assert(spec_pkgs_of(items@.skip(i as int)) is None);
                        }
                        return Err(
                            BrewError::ParseError("formula record is missing its name".to_owned()),
                        );
                    },
                }
                i += 1;
            }
            proof {
                assert(items@.skip(items@.len() as int) =~= Seq::<JsonValue>::empty());
                assert(out@ + Seq::<Package>::empty() =~= out@);
            }
            Ok(out)
        },
        _ => Err(
            BrewError::ParseError(
                "expected a top-level object holding a formulae array".to_owned(),
            ),
        ),
    }
}

/// Decodes the raw text of a bulk structured-info query. Fails with a
/// `ParseError` exactly when the text is not well-formed JSON, the top level
/// is not the expected container shape, or a listed record lacks its name.
pub fn parse_bulk_listing(text: &str) -> (r: Result<Vec<Package>, BrewError>)
    ensures
        json_doc(text@) is None ==> (r matches Err(e) && e is ParseError),
        json_doc(text@) matches Some(doc) ==> match spec_bulk(doc) {
            Some(ps) => r matches Ok(v) && v@ == ps,
            None => r matches Err(e) && e is ParseError,
        },
{
    match decode_json(text) {
        Ok(doc) => bulk_listing_from_json(&doc),
        Err(msg) => Err(BrewError::ParseError(msg)),
    }
}

/// The structured version information of a formula record; absent exactly
/// when the record has no `versions` object with a string `stable` member.
pub open spec fn spec_versions_of(el: JsonValue) -> Option<BrewVersions> {
    match json_field(el, "versions"@) {
        Some(vv) => match field_str(vv, "stable"@) {
            Some(stable) => Some(
                BrewVersions {
                    stable,
                    head: field_str(vv, "head"@),
                    bottle: field_bool(vv, "bottle"@),
                },
            ),
            None => None,
        },
        None => None,
    }
}

/// One source location under `o`: the URL is required, the rest lenient.
pub open spec fn spec_url_of(o: Option<JsonValue>) -> Option<BrewUrl> {
    match o {
        Some(u) => match field_str(u, "url"@) {
            Some(url) => Some(
                BrewUrl { url, tag: field_str(u, "tag"@), revision: field_str(u, "revision"@) },
            ),
            None => None,
        },
        None => None,
    }
}

/// The source locations of a formula record, read leniently.
pub open spec fn spec_urls_of(el: JsonValue) -> Option<BrewUrls> {
    match json_field(el, "urls"@) {
        Some(uv) => Some(
            BrewUrls {
                stable: spec_url_of(json_field(uv, "stable"@)),
                head: spec_url_of(json_field(uv, "head"@)),
            },
        ),
        None => None,
    }
}

/// One installed-receipt of a formula record: the version is required, the
/// build flags default to false when absent, the timestamp is lenient.
pub open spec fn spec_receipt_of(el: JsonValue) -> Option<BrewInstalled> {
    match field_str(el, "version"@) {
        Some(version) => Some(
            BrewInstalled {
                version,
                built_as_bottle: field_bool(el, "built_as_bottle"@) == Some(true),
                poured_from_bottle: field_bool(el, "poured_from_bottle"@) == Some(true),
                installed_as_dependency: field_bool(el, "installed_as_dependency"@) == Some(true),
                installed_on_request: field_bool(el, "installed_on_request"@) == Some(true),
                time: field_int(el, "time"@),
            },
        ),
        None => None,
    }
}

/// The receipts of an `installed` array; an element of unexpected shape is
/// dropped rather than failing the record.
pub open spec fn spec_receipts_of(items: Seq<JsonValue>) -> Seq<BrewInstalled>
    decreases items.len(),
{
    if items.len() == 0 {
        Seq::<BrewInstalled>::empty()
    } else {
        let rest = spec_receipts_of(items.drop_first());
        match spec_receipt_of(items.first()) {
            Some(rec) => seq![rec] + rest,
            None => rest,
        }
    }
}

/// The installed-receipt list of a formula record, read leniently.
pub open spec fn spec_installed_of(el: JsonValue) -> Option<Seq<BrewInstalled>> {
    match field_arr(el, "installed"@) {
        Some(items) => Some(spec_receipts_of(items)),
        None => None,
    }
}

/// An optional string list seen at the level contracts speak of.
pub open spec fn opt_strs_view(o: Option<Vec<String>>) -> Option<Seq<String>> {
    match o {
        Some(v) => Some(v@),
        None => None,
    }
}

/// An optional receipt list seen at the level contracts speak of.
pub open spec fn opt_receipts_view(o: Option<Vec<BrewInstalled>>) -> Option<Seq<BrewInstalled>> {
    match o {
        Some(v) => Some(v@),
        None => None,
    }
}

/// Whether a formula record carries both required fields: its name and its
/// stable version.
pub open spec fn spec_formula_ok(el: JsonValue) -> bool {
    field_str(el, "name"@) is Some && spec_versions_of(el) is Some
}

/// How a decoded detail record relates to the formula record it came from:
/// every field equals its lenient reading.
pub open spec fn formula_matches(f: BrewInfoFormula, el: JsonValue) -> bool {
    &&& Some(f.name) == field_str(el, "name"@)
    &&& f.full_name == field_str(el, "full_name"@)
    &&& f.tap == field_str(el, "tap"@)
    &&& f.desc == field_str(el, "desc"@)
    &&& f.license == field_str(el, "license"@)
    &&& f.homepage == field_str(el, "homepage"@)
    &&& Some(f.versions) == spec_versions_of(el)
    &&& f.urls == spec_urls_of(el)
    &&& opt_strs_view(f.build_dependencies) == field_str_list(el, "build_dependencies"@)
    &&& opt_strs_view(f.dependencies) == field_str_list(el, "dependencies"@)
    &&& opt_strs_view(f.test_dependencies) == field_str_list(el, "test_dependencies"@)
    &&& opt_strs_view(f.recommended_dependencies) == field_str_list(
        el,
        "recommended_dependencies"@,
    )
    &&& opt_strs_view(f.optional_dependencies) == field_str_list(el, "optional_dependencies"@)
    &&& opt_receipts_view(f.installed) == spec_installed_of(el)
    &&& f.pinned == field_bool(el, "pinned"@)
    &&& f.outdated == field_bool(el, "outdated"@)
    &&& f.deprecated == field_bool(el, "deprecated"@)
    &&& f.deprecation_reason == field_str(el, "deprecation_reason"@)
    &&& f.disabled == field_bool(el, "disabled"@)
    &&& f.disable_reason == field_str(el, "disable_reason"@)
}

/// Reads the structured version information of a formula record.
fn versions_of(el: &JsonValue) -> (r: Option<BrewVersions>)
    ensures
        r == spec_versions_of(*el),
{
    match obj_field(el, "versions") {
        Some(vv) => match get_str_field(vv, "stable") {
            Some(stable) => Some(
                BrewVersions {
                    stable,
                    head: get_str_field(vv, "head"),
                    bottle: get_bool_field(vv, "bottle"),
                },
            ),
            None => None,
        },
        None => None,
    }
}

/// Reads one source location under the member `key` of `parent`.
fn url_at(parent: &JsonValue, key: &str) -> (r: Option<BrewUrl>)
    ensures
        r == spec_url_of(json_field(*parent, key@)),
{
    match obj_field(parent, key) {
        Some(u) => match get_str_field(u, "url") {
            Some(url) => Some(
                BrewUrl { url, tag: get_str_field(u, "tag"), revision: get_str_field(u, "revision") },
            ),
            None => None,
        },
        None => None,
    }
}

/// Reads the source locations of a formula record.
fn urls_of(el: &JsonValue) -> (r: Option<BrewUrls>)
    ensures
        r == spec_urls_of(*el),
{
    match obj_field(el, "urls") {
        Some(uv) => Some(BrewUrls { stable: url_at(uv, "stable"), head: url_at(uv, "head") }),
        None => None,
    }
}

/// Reads a flag member, defaulting to false when absent or of another shape.
fn flag_field(el: &JsonValue, key: &str) -> (r: bool)
    ensures
        r == (field_bool(*el, key@) == Some(true)),
{
    match get_bool_field(el, key) {
        Some(b) => b,
        None => false,
    }
}

/// Reads one installed-receipt record.
fn receipt_of(el: &JsonValue) -> (r: Option<BrewInstalled>)
    ensures
        r == spec_receipt_of(*el),
{
    match get_str_field(el, "version") {
        Some(version) => Some(
            BrewInstalled {
                version,
                built_as_bottle: flag_field(el, "built_as_bottle"),
                poured_from_bottle: flag_field(el, "poured_from_bottle"),
                installed_as_dependency: flag_field(el, "installed_as_dependency"),
                installed_on_request: flag_field(el, "installed_on_request"),
                time: get_int_field(el, "time"),
            },
        ),
        None => None,
    }
}

/// Reads the well-shaped receipts of an `installed` array, dropping the rest.
#[verifier::loop_isolation(false)]
fn receipts_of(items: &Vec<JsonValue>) -> (r: Vec<BrewInstalled>)
    ensures
        r@ == spec_receipts_of(items@),
{
    let mut out: Vec<BrewInstalled> = Vec::new();
    let mut i: usize = 0;
    proof {
        assert(items@.skip(0) =~= items@);
        assert(out@ + spec_receipts_of(items@) =~= spec_receipts_of(items@));
    }
    while i < items.len()
        invariant
            0 <= i <= items@.len(),
            spec_receipts_of(items@) == out@ + spec_receipts_of(items@.skip(i as int)),
        decreases items@.len() - i,
    {
        proof {
            assert(items@.skip(i as int).first() == items@[i as int]);
            assert(items@.skip(i as int).drop_first() =~= items@.skip(i + 1));
        }
        match receipt_of(&items[i]) {
            Some(rec) => {
                let ghost prev = out@;
                let ghost recv = rec;
                out.push(rec);
                proof {
                    assert(prev + (seq![recv] + spec_receipts_of(items@.skip(i + 1))) =~= out@
                        + spec_receipts_of(items@.skip(i + 1)));
                }
            },
            None => {},
        }
        i += 1;
    }
    proof {
        assert(items@.skip(items@.len() as int) =~= Seq::<JsonValue>::empty());
        assert(out@ + Seq::<BrewInstalled>::empty() =~= out@);
    }
    out
}

/// Reads the installed-receipt list of a formula record.
fn installed_of(el: &JsonValue) -> (r: Option<Vec<BrewInstalled>>)
    ensures
        opt_receipts_view(r) == spec_installed_of(*el),
{
    match obj_field(el, "installed") {
        Some(JsonValue::Arr(items)) => {
            proof {
                assert(field_arr(*el, "installed"@) == Some(items@));
            }
            Some(receipts_of(items))
        },
        _ => None,
    }
}

/// Decodes one formula record into a detail record. Absent exactly when the
/// record lacks its name or its stable version; every optional field of
/// unexpected shape reads as absent.
pub fn formula_from_json(el: &JsonValue) -> (r: Option<BrewInfoFormula>)
    ensures
        r matches Some(f) ==> spec_formula_ok(*el) && formula_matches(f, *el),
        r is None <==> !spec_formula_ok(*el),
{
    let name = match get_str_field(el, "name") {
        Some(n) => n,
        None => {
            return None;
        },
    };
    let versions = match versions_of(el) {
        Some(v) => v,
        None => {
            return None;
        },
    };
    Some(
        BrewInfoFormula {
            name,
            full_name: get_str_field(el, "full_name"),
            tap: get_str_field(el, "tap"),
            desc: get_str_field(el, "desc"),
            license: get_str_field(el, "license"),
            homepage: get_str_field(el, "homepage"),
            versions,
            urls: urls_of(el),
            build_dependencies: get_str_list_field(el, "build_dependencies"),
            dependencies: get_str_list_field(el, "dependencies"),
            test_dependencies: get_str_list_field(el, "test_dependencies"),
            recommended_dependencies: get_str_list_field(el, "recommended_dependencies"),
            optional_dependencies: get_str_list_field(el, "optional_dependencies"),
            installed: installed_of(el),
            pinned: get_bool_field(el, "pinned"),
            outdated: get_bool_field(el, "outdated"),
            deprecated: get_bool_field(el, "deprecated"),
            deprecation_reason: get_str_field(el, "deprecation_reason"),
            disabled: get_bool_field(el, "disabled"),
            disable_reason: get_str_field(el, "disable_reason"),
        },
    )
}

/// Whether a whole document carries a usable detail record: the expected
/// container, at least one formula, and that formula's required fields.
pub open spec fn spec_detail_ok(doc: JsonValue) -> bool {
    match field_arr(doc, "formulae"@) {
        Some(items) => items.len() > 0 && spec_formula_ok(items[0]),
        None => false,
    }
}

/// The first formula record of a document that has one.
pub open spec fn spec_first_formula(doc: JsonValue) -> JsonValue {
    field_arr(doc, "formulae"@)->Some_0[0]
}

/// Decodes a detail record from an already-decoded document. Fails exactly
/// when the top level is not the expected container, the formula array is
/// empty, or the first record lacks a required field.
pub fn detail_from_json(doc: &JsonValue) -> (r: Result<BrewInfoFormula, BrewError>)
    ensures
        r matches Ok(f) ==> spec_detail_ok(*doc) && formula_matches(f, spec_first_formula(*doc)),
        r is Err <==> !spec_detail_ok(*doc),
        r matches Err(e) ==> e is ParseError,
{
    match obj_field(doc, "formulae") {
        Some(JsonValue::Arr(items)) => {
            proof {
                assert(field_arr(*doc, "formulae"@) == Some(items@));
            }
            if items.len() == 0 {
                Err(BrewError::ParseError("no formula found in the response".to_owned()))
            } else {
                match formula_from_json(&items[0]) {
                    Some(f) => Ok(f),
                    None => Err(
                        BrewError::ParseError(
                            "formula record is missing its name or stable version".to_owned(),
                        ),
                    ),
                }
            }
        },
        _ => Err(
            BrewError::ParseError(
                "expected a top-level object holding a formulae array".to_owned(),
            ),
        ),
    }
}

/// A bulk-listing record that carries its name still decodes when optional
/// fields are missing: each missing field reads as absent, and absence never
/// fails the record.
pub proof fn lemma_optional_fields_absent(el: JsonValue)
    requires
        field_str(el, "name"@) is Some,
    ensures
        spec_pkg_of(el) matches Some(p) && Some(p.name) == field_str(el, "name"@),
        json_field(el, "versions"@) is None ==> spec_pkg_of(el)->Some_0.version is None,
        json_field(el, "desc"@) is None ==> spec_pkg_of(el)->Some_0.desc is None,
        json_field(el, "homepage"@) is None ==> spec_pkg_of(el)->Some_0.homepage is None,
{
}

/// A whole formula array decodes whenever every record carries its name,
/// record by record, missing optional fields notwithstanding.
pub proof fn lemma_bulk_succeeds(items: Seq<JsonValue>)
    requires
        forall|i: int| 0 <= i < items.len() ==> spec_pkg_of(#[trigger] items[i]) is Some,
    ensures
        spec_pkgs_of(items) matches Some(ps) && ps.len() == items.len(),
        forall|i: int|
            0 <= i < items.len() ==> spec_pkgs_of(items)->Some_0[i] == spec_pkg_of(
                #[trigger] items[i],
            )->Some_0,
    decreases items.len(),
{
    if items.len() > 0 {
        let rest = items.drop_first();
        assert(forall|i: int| 0 <= i < rest.len() ==> #[trigger] rest[i] == items[i + 1]);
        lemma_bulk_succeeds(rest);
        let ps = spec_pkgs_of(items)->Some_0;
        let rps = spec_pkgs_of(rest)->Some_0;
        assert(ps == seq![spec_pkg_of(items.first())->Some_0] + rps);
        assert forall|i: int| 0 <= i < items.len() implies ps[i] == spec_pkg_of(
            items[i],
        )->Some_0 by {
            if i > 0 {
                assert(ps[i] == rps[i - 1]);
                assert(rest[i - 1] == items[i]);
            }
        }
    }
}

/// A payload whose top level is not an object holding a formulae array never
/// yields a listing, whole or partial: both decodes are absent altogether, so
/// the parsers surface an error and hand back no record.
pub proof fn lemma_malformed_top_level(doc: JsonValue)
    requires
        field_arr(doc, "formulae"@) is None,
    ensures
        spec_bulk(doc) is None,
        !spec_detail_ok(doc),
{
}

/// A minimal formula record carrying only its identity and version decodes,
/// and every optional field of the decoded detail record is uniformly absent.
pub proof fn lemma_minimal_detail(el: JsonValue)
    requires
        field_str(el, "name"@) is Some,
        spec_versions_of(el) is Some,
        json_field(el, "full_name"@) is None,
        json_field(el, "tap"@) is None,
        json_field(el, "desc"@) is None,
        json_field(el, "license"@) is None,
        json_field(el, "homepage"@) is None,
        json_field(el, "urls"@) is None,
        json_field(el, "build_dependencies"@) is None,
        json_field(el, "dependencies"@) is None,
        json_field(el, "test_dependencies"@) is None,
        json_field(el, "recommended_dependencies"@) is None,
        json_field(el, "optional_dependencies"@) is None,
        json_field(el, "installed"@) is None,
        json_field(el, "pinned"@) is None,
        json_field(el, "outdated"@) is None,
        json_field(el, "deprecated"@) is None,
        json_field(el, "deprecation_reason"@) is None,
        json_field(el, "disabled"@) is None,
        json_field(el, "disable_reason"@) is None,
    ensures
        spec_formula_ok(el),
        forall|f: BrewInfoFormula|
            #[trigger] formula_matches(f, el) ==> {
                &&& Some(f.name) == field_str(el, "name"@)
                &&& Some(f.versions) == spec_versions_of(el)
                &&& f.full_name is None
                &&& f.tap is None
                &&& f.desc is None
                &&& f.license is None
                &&& f.homepage is None
                &&& f.urls is None
                &&& f.build_dependencies is None
                &&& f.dependencies is None
                &&& f.test_dependencies is None
                &&& f.recommended_dependencies is None
                &&& f.optional_dependencies is None
                &&& f.installed is None
                &&& f.pinned is None
                &&& f.outdated is None
                &&& f.deprecated is None
                &&& f.deprecation_reason is None
                &&& f.disabled is None
                &&& f.disable_reason is None
            },
{
}

/// Decodes the raw text of a single-formula structured-info query. Fails with
/// a `ParseError` exactly when the text is not well-formed JSON, the top
/// level is not the expected container, or the record lacks a required field.
pub fn parse_detail(text: &str) -> (r: Result<BrewInfoFormula, BrewError>)
    ensures
        json_doc(text@) is None ==> (r matches Err(e) && e is ParseError),
        json_doc(text@) matches Some(doc) ==> {
            &&& (r matches Ok(f) ==> spec_detail_ok(doc) && formula_matches(
                f,
                spec_first_formula(doc),
            ))
            &&& (r is Err <==> !spec_detail_ok(doc))
            &&& (r matches Err(e) ==> e is ParseError)
        },
{
    match decode_json(text) {
        Ok(doc) => detail_from_json(&doc),
        Err(msg) => Err(BrewError::ParseError(msg)),
    }
}

} // verus!
