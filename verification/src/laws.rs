//! What holds of decoding, whatever the manifest says.

use vstd::prelude::*;
use vstd::string::*;
use crate::buildkit::loaded;
use crate::decode::{
    decoded_metadata,
    decoded_variant,
    decoded_vendored_source,
    decoded_version_req,
    mode_named,
    DecodeErrorView,
};
use crate::document::{first_unknown, is_known, lookup, Document, Entry};
use crate::manifest::{EnvironmentView, Package};
use crate::metadata::{
    BuildKitMetadataView,
    BuildKitMode,
    PkgConfigVersionReqView,
    VendoredSourceView,
};

verus! {

/// Whether `entry` holds the text `text` under the key `key`.
pub open spec fn holds_text(entry: Entry, key: Seq<char>, text: Seq<char>) -> bool {
    &&& entry.key@ == key
    &&& entry.value matches Document::Text(value)
    &&& value@ == text
}

/// Whether `document` writes `version_req` down: a table with one entry for
/// each bound of the requirement, under the key of the bound, in either
/// order, and no other entry.
pub open spec fn writes_version_req(
    document: Document,
    version_req: PkgConfigVersionReqView,
) -> bool {
    &&& document matches Document::Table(entries)
    &&& match version_req {
        PkgConfigVersionReqView::Range { min, max } => entries@.len() == 2 && ((holds_text(
            entries@[0],
            "min"@,
            min,
        ) && holds_text(entries@[1], "max"@, max)) || (holds_text(entries@[0], "max"@, max)
            && holds_text(entries@[1], "min"@, min))),
        PkgConfigVersionReqView::Min { min } => entries@.len() == 1 && holds_text(
            entries@[0],
            "min"@,
            min,
        ),
        PkgConfigVersionReqView::Max { max } => entries@.len() == 1 && holds_text(
            entries@[0],
            "max"@,
            max,
        ),
        PkgConfigVersionReqView::Exact { exact } => entries@.len() == 1 && holds_text(
            entries@[0],
            "exact"@,
            exact,
        ),
    }
}

/// The three keys of a version requirement differ from one another, and the
/// table of a version requirement knows all three.
proof fn version_req_keys()
    ensures
        "min"@ != "max"@,
        "min"@ != "exact"@,
        "max"@ != "exact"@,
        is_known("min"@, seq!["min", "max", "exact"]),
        is_known("max"@, seq!["min", "max", "exact"]),
        is_known("exact"@, seq!["min", "max", "exact"]),
{
    reveal_strlit("min");
    reveal_strlit("max");
    reveal_strlit("exact");
    let known = seq!["min", "max", "exact"];
    assert("min"@[1] == 'i' && "max"@[1] == 'a');
    assert(known[0]@ == "min"@);
    assert(known[1]@ == "max"@);
    assert(known[2]@ == "exact"@);
}

/// A table that names an exact version beside a bound is no version
/// requirement: it has the shape of two at once, and decoding it fails.
pub proof fn version_req_of_two_shapes_is_refused(document: Document)
    requires
        document is Table,
        !(lookup(document->Table_0@, "exact"@) is Absent),
        !(lookup(document->Table_0@, "min"@) is Absent) || !(lookup(document->Table_0@, "max"@)
            is Absent),
    ensures
        decoded_version_req(document) is Err,
{
}

/// A table that writes a version requirement down decodes to that
/// requirement.
pub proof fn version_req_round_trip(document: Document, version_req: PkgConfigVersionReqView)
    requires
        writes_version_req(document, version_req),
    ensures
        decoded_version_req(document) == Ok::<PkgConfigVersionReqView, DecodeErrorView>(
            version_req,
        ),
{
    version_req_keys();
    let entries = document->Table_0@;
    let known = seq!["min", "max", "exact"];
    reveal_with_fuel(lookup, 3);
    reveal_with_fuel(first_unknown, 3);
    if entries.len() == 2 {
        assert(entries.drop_last().drop_last().len() == 0);
        assert(entries.drop_last().last() == entries[0]);
    } else {
        assert(entries.drop_last().len() == 0);
    }
    assert(first_unknown(entries, known) is None);
}

/// No manifest declares a directory of the machine as its vendored source:
/// whatever decodes, decodes to another kind of source.
pub proof fn manifest_declares_no_system_path(document: Document)
    ensures
        decoded_vendored_source(document) matches Ok(source) ==> !(source is SystemPath),
        decoded_metadata(document) matches Ok(metadata) ==> !(metadata.vendored_source matches Some(
            VendoredSourceView::SystemPath { .. },
        )),
{
    reveal_strlit("remote-tarball");
    reveal_strlit("git-repo");
    reveal_strlit("crate-path");
    reveal_strlit("system-path");
    assert forall|other: Document| decoded_vendored_source(other) is Ok implies !(
    decoded_vendored_source(other)->Ok_0 is SystemPath) by {
        if let Document::Table(entries) = other {
            if entries@.len() == 1 {
                let tag = entries@[0].key@;
                let body = entries@[0].value;
                assert(decoded_variant(tag, body) matches Ok(source) ==> !(source is SystemPath));
            }
        }
    }
}

/// A session that was loaded from a manifest never builds from a directory
/// of the machine: such a source comes from
/// [`crate::buildkit::BuildKit::with_system_path`] alone.
pub proof fn loaded_session_has_no_system_path(environment: EnvironmentView, packages: Seq<Package>)
    ensures
        loaded(environment, packages) matches Ok(kit) ==> !(kit.metadata.vendored_source
            matches Some(VendoredSourceView::SystemPath { .. })),
{
    assert forall|document: Document|
        decoded_metadata(document) is Ok implies !(decoded_metadata(
        document,
    )->Ok_0.vendored_source matches Some(VendoredSourceView::SystemPath { .. })) by {
        manifest_declares_no_system_path(document);
    }
}

/// Decoding holds no declaration against another: a table that declares a
/// default mode and nothing else decodes, whichever mode it is, and so a
/// mode may be the default while its own declaration is missing.
pub proof fn default_mode_alone_decodes(document: Document, text: Seq<char>, mode: BuildKitMode)
    requires
        document is Table,
        document->Table_0@.len() == 1,
        holds_text(document->Table_0@[0], "default-mode"@, text),
        mode_named(text) == Some(mode),
    ensures
        decoded_metadata(document) == Ok::<BuildKitMetadataView, DecodeErrorView>(
            BuildKitMetadataView {
                pkg_config: None,
                vcpkg: None,
                vendored_source: None,
                default_mode: mode,
            },
        ),
{
    reveal_strlit("pkg-config");
    reveal_strlit("vcpkg");
    reveal_strlit("vendored-source");
    reveal_strlit("default-mode");
    let entries = document->Table_0@;
    let known = seq!["pkg-config", "vcpkg", "vendored-source", "default-mode"];
    assert(known[3]@ == "default-mode"@);
    assert(is_known(entries[0].key@, known));
    assert(entries.drop_last().len() == 0);
    reveal_with_fuel(lookup, 2);
    reveal_with_fuel(first_unknown, 2);
    assert(first_unknown(entries, known) is None);
    assert(lookup(entries, "pkg-config"@) is Absent);
    assert(lookup(entries, "vcpkg"@) is Absent);
    assert(lookup(entries, "vendored-source"@) is Absent);
}

} // verus!
