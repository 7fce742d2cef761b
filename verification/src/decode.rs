//! Decoding the `buildkit` table of a manifest into the configuration.
//!
//! The table is written with keys in kebab case:
//!
//! | key               | value                                                    |
//! |-------------------|----------------------------------------------------------|
//! | `default-mode`    | `"pkg-config"`, `"vcpkg"` or `"vendored-build"`          |
//! | `pkg-config`      | a table of `name` and, if wanted, `version-req`          |
//! | `vcpkg`           | a table of `name` and `libs`                             |
//! | `vendored-source` | a table of one entry, whose key names the kind of source |
//!
//! Only `default-mode` must be there. A key that the table does not know, a
//! key that stands twice and a value of the wrong kind are errors, each
//! reported with the path to where it stands.

use vstd::prelude::*;
use vstd::string::*;
use crate::document::{find, find_unknown, first_unknown, lookup, Document, Entry, Found, Lookup};
use crate::metadata::{
    BuildKitMetadata,
    BuildKitMetadataView,
    BuildKitMode,
    PkgConfigRequirement,
    PkgConfigRequirementView,
    PkgConfigVersionReq,
    PkgConfigVersionReqView,
    VcpkgLibName,
    VcpkgLibNameView,
    VcpkgRequirement,
    VcpkgRequirementView,
    VendoredSource,
    VendoredSourceView,
};
use crate::text::{decimal, push_decimal, same_text};

verus! {

/// One step on the way from the `buildkit` table to a value below it.
#[derive(Clone, Debug, PartialEq, Eq)]
pub enum Segment {
    /// Into a table, by a key.
    Field(String),
    /// Into a list, by a position, counted from 0.
    Item(usize),
}

/// The mathematical value of a [`Segment`].
pub enum SegmentView {
    Field(Seq<char>),
    Item(int),
}

impl View for Segment {
    type V = SegmentView;

    open spec fn view(&self) -> SegmentView {
        match *self {
            Segment::Field(key) => SegmentView::Field(key@),
            Segment::Item(position) => SegmentView::Item(position as int),
        }
    }
}

/// What is wrong with a value of the `buildkit` table.
#[derive(Clone, Copy, Debug, PartialEq, Eq, Structural)]
pub enum Problem {
    /// The value should be a table and is not.
    NotATable,
    /// The value should be a list and is not.
    NotAList,
    /// The value should be text and is not.
    NotText,
    /// The table does not know this key.
    UnknownField,
    /// The key stands more than once in its table.
    RepeatedField,
    /// The table lacks this key.
    MissingField,
    /// The text, or the key, names none of the variants to choose from.
    UnknownVariant,
    /// The variant exists, and a manifest may not declare it.
    ReservedVariant,
    /// The table should name one variant, by one entry, and holds none or
    /// several.
    NotOneVariant,
    /// The table of a version requirement names no version.
    NoVersion,
    /// The table of a version requirement has the shape of more than one
    /// requirement: it names an exact version beside a bound.
    AmbiguousVersion,
}

/// Why the `buildkit` table could not be decoded, and where.
#[derive(Clone, Debug, PartialEq, Eq)]
pub struct DecodeError {
    /// The way from the table to the value that is at fault, outermost step
    /// first; empty when it is the table itself.
    pub path: Vec<Segment>,
    pub problem: Problem,
}

/// The mathematical value of a [`DecodeError`].
pub struct DecodeErrorView {
    pub path: Seq<SegmentView>,
    pub problem: Problem,
}

impl View for DecodeError {
    type V = DecodeErrorView;

    open spec fn view(&self) -> DecodeErrorView {
        DecodeErrorView {
            path: Seq::new(self.path@.len(), |i: int| self.path@[i]@),
            problem: self.problem,
        }
    }
}

impl DecodeErrorView {
    /// The error of a value that is at fault itself.
    pub open spec fn here(problem: Problem) -> DecodeErrorView {
        DecodeErrorView { path: Seq::empty(), problem }
    }

    /// The error of the value that stands, or should stand, under `key`.
    pub open spec fn at_field(key: Seq<char>, problem: Problem) -> DecodeErrorView {
        DecodeErrorView { path: seq![SegmentView::Field(key)], problem }
    }

    /// The same error, seen from one step further out.
    pub open spec fn within(self, segment: SegmentView) -> DecodeErrorView {
        DecodeErrorView { path: seq![segment] + self.path, problem: self.problem }
    }
}

impl DecodeError {
    /// The error of a value that is at fault itself.
    pub fn here(problem: Problem) -> (error: DecodeError)
        ensures
            error@ == DecodeErrorView::here(problem),
    {
        let error = DecodeError { path: Vec::new(), problem };
        proof {
            assert(error@.path =~= Seq::empty());
        }
        error
    }

    /// The error of the value that stands, or should stand, under `key`.
    pub fn at_field(key: &str, problem: Problem) -> (error: DecodeError)
        ensures
            error@ == DecodeErrorView::at_field(key@, problem),
    {
        let mut path: Vec<Segment> = Vec::new();
        path.push(Segment::Field(String::from_str(key)));
        let error = DecodeError { path, problem };
        proof {
            assert(error@.path =~= seq![SegmentView::Field(key@)]);
        }
        error
    }

    /// The same error, seen from one step further out.
    pub fn within(self, segment: Segment) -> (error: DecodeError)
        ensures
            error@ == self@.within(segment@),
    {
        let mut path = self.path;
        path.insert(0, segment);
        let error = DecodeError { path, problem: self.problem };
        proof {
            assert(error@.path =~= seq![segment@] + self@.path);
        }
        error
    }

    /// The same error, seen from the table that holds its value under `key`.
    pub fn within_field(self, key: &str) -> (error: DecodeError)
        ensures
            error@ == self@.within(SegmentView::Field(key@)),
    {
        self.within(Segment::Field(String::from_str(key)))
    }
}

impl Problem {
    /// What is wrong, in words.
    pub open spec fn text(self) -> Seq<char> {
        match self {
            Problem::NotATable => "expected a table"@,
            Problem::NotAList => "expected a list"@,
            Problem::NotText => "expected text"@,
            Problem::UnknownField => "unknown field"@,
            Problem::RepeatedField => "field stands more than once"@,
            Problem::MissingField => "missing field"@,
            Problem::UnknownVariant => "unknown variant"@,
            Problem::ReservedVariant => "variant cannot be declared in a manifest"@,
            Problem::NotOneVariant => "expected a table of exactly one entry"@,
            Problem::NoVersion => "version requirement names no version"@,
            Problem::AmbiguousVersion => {
                "version requirement names an exact version beside a bound"@
            },
        }
    }

    /// What is wrong, in words.
    pub fn describe(self) -> (text: &'static str)
        ensures
            text@ == self.text(),
    {
        match self {
            Problem::NotATable => "expected a table",
            Problem::NotAList => "expected a list",
            Problem::NotText => "expected text",
            Problem::UnknownField => "unknown field",
            Problem::RepeatedField => "field stands more than once",
            Problem::MissingField => "missing field",
            Problem::UnknownVariant => "unknown variant",
            Problem::ReservedVariant => "variant cannot be declared in a manifest",
            Problem::NotOneVariant => "expected a table of exactly one entry",
            Problem::NoVersion => "version requirement names no version",
            Problem::AmbiguousVersion => {
                "version requirement names an exact version beside a bound"
            },
        }
    }
}

/// A path as it is written for a reader: the keys joined by dots, each
/// position of a list in square brackets behind the key of the list, as in
/// `vcpkg.libs[2].dll-name`.
pub open spec fn rendered(path: Seq<SegmentView>) -> Seq<char>
    decreases path.len(),
{
    if path.len() == 0 {
        Seq::empty()
    } else {
        let before = rendered(path.drop_last());
        match path.last() {
            SegmentView::Field(key) => if path.len() == 1 {
                key
            } else {
                before + "."@ + key
            },
            SegmentView::Item(position) => before + "["@ + decimal(position as nat) + "]"@,
        }
    }
}

/// A decoding error as it is written for a reader: what is wrong, and the
/// path to it where it is not the table itself.
pub open spec fn described(error: DecodeErrorView) -> Seq<char> {
    if error.path.len() == 0 {
        error.problem.text()
    } else {
        error.problem.text() + " at `"@ + rendered(error.path) + "`"@
    }
}

impl DecodeError {
    /// The path to the value that is at fault, written for a reader.
    pub fn location(&self) -> (text: String)
        ensures
            text@ == rendered(self@.path),
    {
        let mut text = String::new();
        let mut i: usize = 0;
        while i < self.path.len()
            invariant
                i <= self.path@.len(),
                text@ == rendered(self@.path.take(i as int)),
            decreases self.path@.len() - i,
        {
            proof {
                assert(self@.path.take(i + 1).drop_last() == self@.path.take(i as int));
                assert(self@.path.take(i + 1).last() == self.path@[i as int]@);
            }
            let ghost before = text@;
            match &self.path[i] {
                Segment::Field(key) => {
                    if i > 0 {
                        text.append(".");
                    }
                    text.append(key.as_str());
                    proof {
                        if i == 0 {
                            assert(text@ =~= key@);
                        }
                    }
                },
                Segment::Item(position) => {
                    text.append("[");
                    push_decimal(&mut text, *position);
                    text.append("]");
                },
            }
            i += 1;
        }
        proof {
            assert(self@.path.take(self@.path.len() as int) == self@.path);
        }
        text
    }

    /// The error, written for a reader.
    pub fn message(&self) -> (text: String)
        ensures
            text@ == described(self@),
    {
        let mut text = String::from_str(self.problem.describe());
        if self.path.len() > 0 {
            let location = self.location();
            text.append(" at `");
            text.append(location.as_str());
            text.append("`");
        }
        text
    }
}

/// The entries of `document`, which must be a table with no key but those
/// of `known`.
pub open spec fn entries_of(document: Document, known: Seq<&'static str>) -> Result<
    Seq<Entry>,
    DecodeErrorView,
> {
    match document {
        Document::Table(entries) => match first_unknown(entries@, known) {
            Some(key) => Err(DecodeErrorView::at_field(key, Problem::UnknownField)),
            None => Ok(entries@),
        },
        _ => Err(DecodeErrorView::here(Problem::NotATable)),
    }
}

/// The value under `key`, which need not be there; a null counts as none.
pub open spec fn optional_value(entries: Seq<Entry>, key: Seq<char>) -> Result<
    Option<Document>,
    DecodeErrorView,
> {
    match lookup(entries, key) {
        Found::Absent => Ok(None),
        Found::Repeated => Err(DecodeErrorView::at_field(key, Problem::RepeatedField)),
        Found::Once(Document::Null) => Ok(None),
        Found::Once(value) => Ok(Some(value)),
    }
}

/// The text under `key`, which need not be there.
pub open spec fn optional_text(entries: Seq<Entry>, key: Seq<char>) -> Result<
    Option<Seq<char>>,
    DecodeErrorView,
> {
    match lookup(entries, key) {
        Found::Absent => Ok(None),
        Found::Repeated => Err(DecodeErrorView::at_field(key, Problem::RepeatedField)),
        Found::Once(Document::Text(text)) => Ok(Some(text@)),
        Found::Once(_) => Err(DecodeErrorView::at_field(key, Problem::NotText)),
    }
}

/// The text under `key`, which must be there.
pub open spec fn required_text(entries: Seq<Entry>, key: Seq<char>) -> Result<
    Seq<char>,
    DecodeErrorView,
> {
    match optional_text(entries, key) {
        Ok(Some(text)) => Ok(text),
        Ok(None) => Err(DecodeErrorView::at_field(key, Problem::MissingField)),
        Err(error) => Err(error),
    }
}

/// The entries of `document`, which must be a table with no key but those
/// of `known`.
pub fn table_entries<'a>(document: &'a Document, known: &Vec<&'static str>) -> (result: Result<
    &'a Vec<Entry>,
    DecodeError,
>)
    ensures
        match result {
            Ok(entries) => entries_of(*document, known@) == Ok::<Seq<Entry>, DecodeErrorView>(
                entries@,
            ),
            Err(error) => entries_of(*document, known@) == Err::<Seq<Entry>, DecodeErrorView>(
                error@,
            ),
        },
{
    match document {
        Document::Table(entries) => match find_unknown(entries, known) {
            Some(key) => Err(DecodeError::at_field(key.as_str(), Problem::UnknownField)),
            None => Ok(entries),
        },
        _ => Err(DecodeError::here(Problem::NotATable)),
    }
}

/// The value under `key`, which need not be there; a null counts as none.
pub fn get_optional<'a>(entries: &'a Vec<Entry>, key: &str) -> (result: Result<
    Option<&'a Document>,
    DecodeError,
>)
    ensures
        match result {
            Ok(Some(value)) => optional_value(entries@, key@) == Ok::<
                Option<Document>,
                DecodeErrorView,
            >(Some(*value)),
            Ok(None) => optional_value(entries@, key@) == Ok::<Option<Document>, DecodeErrorView>(
                None,
            ),
            Err(error) => optional_value(entries@, key@) == Err::<
                Option<Document>,
                DecodeErrorView,
            >(error@),
        },
{
    match find(entries, key) {
        Lookup::Absent => Ok(None),
        Lookup::Repeated => Err(DecodeError::at_field(key, Problem::RepeatedField)),
        Lookup::Once(Document::Null) => Ok(None),
        Lookup::Once(value) => Ok(Some(value)),
    }
}

/// The text under `key`, which need not be there.
pub fn get_optional_text(entries: &Vec<Entry>, key: &str) -> (result: Result<
    Option<String>,
    DecodeError,
>)
    ensures
        match result {
            Ok(Some(text)) => optional_text(entries@, key@) == Ok::<
                Option<Seq<char>>,
                DecodeErrorView,
            >(Some(text@)),
            Ok(None) => optional_text(entries@, key@) == Ok::<Option<Seq<char>>, DecodeErrorView>(
                None,
            ),
            Err(error) => optional_text(entries@, key@) == Err::<
                Option<Seq<char>>,
                DecodeErrorView,
            >(error@),
        },
{
    match find(entries, key) {
        Lookup::Absent => Ok(None),
        Lookup::Repeated => Err(DecodeError::at_field(key, Problem::RepeatedField)),
        Lookup::Once(Document::Text(text)) => Ok(Some(text.clone())),
        Lookup::Once(_) => Err(DecodeError::at_field(key, Problem::NotText)),
    }
}

/// The text under `key`, which must be there.
pub fn get_text(entries: &Vec<Entry>, key: &str) -> (result: Result<String, DecodeError>)
    ensures
        match result {
            Ok(text) => required_text(entries@, key@) == Ok::<Seq<char>, DecodeErrorView>(text@),
            Err(error) => required_text(entries@, key@) == Err::<Seq<char>, DecodeErrorView>(
                error@,
            ),
        },
{
    match get_optional_text(entries, key) {
        Ok(Some(text)) => Ok(text),
        Ok(None) => Err(DecodeError::at_field(key, Problem::MissingField)),
        Err(error) => Err(error),
    }
}

/// The version requirement that the bounds of a table add up to.
///
/// `min` with `max` is a range, either alone a bound on one side, `exact`
/// alone one version. `exact` beside a bound is two requirements at once, and
/// no key at all is none: both are errors.
pub open spec fn version_req_of(
    min: Option<Seq<char>>,
    max: Option<Seq<char>>,
    exact: Option<Seq<char>>,
) -> Result<PkgConfigVersionReqView, DecodeErrorView> {
    match (min, max, exact) {
        (Some(min), Some(max), None) => Ok(PkgConfigVersionReqView::Range { min, max }),
        (Some(min), None, None) => Ok(PkgConfigVersionReqView::Min { min }),
        (None, Some(max), None) => Ok(PkgConfigVersionReqView::Max { max }),
        (None, None, Some(exact)) => Ok(PkgConfigVersionReqView::Exact { exact }),
        (None, None, None) => Err(DecodeErrorView::here(Problem::NoVersion)),
        _ => Err(DecodeErrorView::here(Problem::AmbiguousVersion)),
    }
}

/// The version requirement that `document` declares: a table of `min`,
/// `max` and `exact`, each a text where it is there.
pub open spec fn decoded_version_req(document: Document) -> Result<
    PkgConfigVersionReqView,
    DecodeErrorView,
> {
    match entries_of(document, seq!["min", "max", "exact"]) {
        Err(error) => Err(error),
        Ok(entries) => match optional_text(entries, "min"@) {
            Err(error) => Err(error),
            Ok(min) => match optional_text(entries, "max"@) {
                Err(error) => Err(error),
                Ok(max) => match optional_text(entries, "exact"@) {
                    Err(error) => Err(error),
                    Ok(exact) => version_req_of(min, max, exact),
                },
            },
        },
    }
}

/// The pkg-config requirement that `document` declares: a table of `name`,
/// a text, and of `version-req` where one is wanted.
pub open spec fn decoded_pkg_config(document: Document) -> Result<
    PkgConfigRequirementView,
    DecodeErrorView,
> {
    match entries_of(document, seq!["name", "version-req"]) {
        Err(error) => Err(error),
        Ok(entries) => match required_text(entries, "name"@) {
            Err(error) => Err(error),
            Ok(name) => match optional_value(entries, "version-req"@) {
                Err(error) => Err(error),
                Ok(None) => Ok(PkgConfigRequirementView { name, version_req: None }),
                Ok(Some(value)) => match decoded_version_req(value) {
                    Err(error) => Err(error.within(SegmentView::Field("version-req"@))),
                    Ok(version_req) => Ok(
                        PkgConfigRequirementView { name, version_req: Some(version_req) },
                    ),
                },
            },
        },
    }
}

/// The file names that `document` declares: a table of `lib-name` and
/// `dll-name`, both texts.
pub open spec fn decoded_lib_name(document: Document) -> Result<
    VcpkgLibNameView,
    DecodeErrorView,
> {
    match entries_of(document, seq!["lib-name", "dll-name"]) {
        Err(error) => Err(error),
        Ok(entries) => match required_text(entries, "lib-name"@) {
            Err(error) => Err(error),
            Ok(lib_name) => match required_text(entries, "dll-name"@) {
                Err(error) => Err(error),
                Ok(dll_name) => Ok(VcpkgLibNameView { lib_name, dll_name }),
            },
        },
    }
}

/// The file names that the items of a list declare, in the order of the
/// list; the error of the first item that declares none.
pub open spec fn decoded_lib_names(items: Seq<Document>) -> Result<
    Seq<VcpkgLibNameView>,
    DecodeErrorView,
>
    decreases items.len(),
{
    if items.len() == 0 {
        Ok(Seq::empty())
    } else {
        match decoded_lib_names(items.drop_last()) {
            Err(error) => Err(error),
            Ok(before) => match decoded_lib_name(items.last()) {
                Err(error) => Err(error.within(SegmentView::Item(items.len() - 1))),
                Ok(lib) => Ok(before.push(lib)),
            },
        }
    }
}

/// The vcpkg requirement that `document` declares: a table of `name`, a
/// text, and of `libs`, a list.
pub open spec fn decoded_vcpkg(document: Document) -> Result<
    VcpkgRequirementView,
    DecodeErrorView,
> {
    match entries_of(document, seq!["name", "libs"]) {
        Err(error) => Err(error),
        Ok(entries) => match required_text(entries, "name"@) {
            Err(error) => Err(error),
            Ok(name) => match lookup(entries, "libs"@) {
                Found::Absent => Err(DecodeErrorView::at_field("libs"@, Problem::MissingField)),
                Found::Repeated => Err(
                    DecodeErrorView::at_field("libs"@, Problem::RepeatedField),
                ),
                Found::Once(Document::List(items)) => match decoded_lib_names(items@) {
                    Err(error) => Err(error.within(SegmentView::Field("libs"@))),
                    Ok(libs) => Ok(VcpkgRequirementView { name, libs }),
                },
                Found::Once(_) => Err(DecodeErrorView::at_field("libs"@, Problem::NotAList)),
            },
        },
    }
}

/// The source of the kind `tag` that `body` declares.
///
/// `remote-tarball` is a table of `url` and `hash`, `git-repo` one of `url`,
/// `git-ref` and `hash`, `crate-path` one of `relative-path`, all of them
/// texts. `system-path` is known and refused: a directory of the machine is
/// no matter for a manifest.
pub open spec fn decoded_variant(tag: Seq<char>, body: Document) -> Result<
    VendoredSourceView,
    DecodeErrorView,
> {
    if tag == "remote-tarball"@ {
        match entries_of(body, seq!["url", "hash"]) {
            Err(error) => Err(error),
            Ok(entries) => match required_text(entries, "url"@) {
                Err(error) => Err(error),
                Ok(url) => match required_text(entries, "hash"@) {
                    Err(error) => Err(error),
                    Ok(hash) => Ok(VendoredSourceView::RemoteTarball { url, hash }),
                },
            },
        }
    } else if tag == "git-repo"@ {
        match entries_of(body, seq!["url", "git-ref", "hash"]) {
            Err(error) => Err(error),
            Ok(entries) => match required_text(entries, "url"@) {
                Err(error) => Err(error),
                Ok(url) => match required_text(entries, "git-ref"@) {
                    Err(error) => Err(error),
                    Ok(git_ref) => match required_text(entries, "hash"@) {
                        Err(error) => Err(error),
                        Ok(hash) => Ok(VendoredSourceView::GitRepo { url, git_ref, hash }),
                    },
                },
            },
        }
    } else if tag == "crate-path"@ {
        match entries_of(body, seq!["relative-path"]) {
            Err(error) => Err(error),
            Ok(entries) => match required_text(entries, "relative-path"@) {
                Err(error) => Err(error),
                Ok(relative_path) => Ok(VendoredSourceView::CratePath { relative_path }),
            },
        }
    } else if tag == "system-path"@ {
        Err(DecodeErrorView::here(Problem::ReservedVariant))
    } else {
        Err(DecodeErrorView::here(Problem::UnknownVariant))
    }
}

/// The vendored source that `document` declares: a table of one entry,
/// whose key names the kind of source and whose value describes it.
pub open spec fn decoded_vendored_source(document: Document) -> Result<
    VendoredSourceView,
    DecodeErrorView,
> {
    match document {
        Document::Table(entries) => if entries@.len() == 1 {
            match decoded_variant(entries@[0].key@, entries@[0].value) {
                Err(error) => Err(error.within(SegmentView::Field(entries@[0].key@))),
                Ok(source) => Ok(source),
            }
        } else {
            Err(DecodeErrorView::here(Problem::NotOneVariant))
        },
        _ => Err(DecodeErrorView::here(Problem::NotATable)),
    }
}

/// The mode that a text names.
pub open spec fn mode_named(text: Seq<char>) -> Option<BuildKitMode> {
    if text == "pkg-config"@ {
        Some(BuildKitMode::PkgConfig)
    } else if text == "vcpkg"@ {
        Some(BuildKitMode::Vcpkg)
    } else if text == "vendored-build"@ {
        Some(BuildKitMode::VendoredBuild)
    } else {
        None
    }
}

/// The pkg-config requirement of a `buildkit` table, where it declares one.
pub open spec fn declared_pkg_config(entries: Seq<Entry>) -> Result<
    Option<PkgConfigRequirementView>,
    DecodeErrorView,
> {
    match optional_value(entries, "pkg-config"@) {
        Err(error) => Err(error),
        Ok(None) => Ok(None),
        Ok(Some(value)) => match decoded_pkg_config(value) {
            Err(error) => Err(error.within(SegmentView::Field("pkg-config"@))),
            Ok(requirement) => Ok(Some(requirement)),
        },
    }
}

/// The vcpkg requirement of a `buildkit` table, where it declares one.
pub open spec fn declared_vcpkg(entries: Seq<Entry>) -> Result<
    Option<VcpkgRequirementView>,
    DecodeErrorView,
> {
    match optional_value(entries, "vcpkg"@) {
        Err(error) => Err(error),
        Ok(None) => Ok(None),
        Ok(Some(value)) => match decoded_vcpkg(value) {
            Err(error) => Err(error.within(SegmentView::Field("vcpkg"@))),
            Ok(requirement) => Ok(Some(requirement)),
        },
    }
}

/// The vendored source of a `buildkit` table, where it declares one.
pub open spec fn declared_vendored_source(entries: Seq<Entry>) -> Result<
    Option<VendoredSourceView>,
    DecodeErrorView,
> {
    match optional_value(entries, "vendored-source"@) {
        Err(error) => Err(error),
        Ok(None) => Ok(None),
        Ok(Some(value)) => match decoded_vendored_source(value) {
            Err(error) => Err(error.within(SegmentView::Field("vendored-source"@))),
            Ok(source) => Ok(Some(source)),
        },
    }
}

/// The default mode of a `buildkit` table, which must declare one.
pub open spec fn declared_default_mode(entries: Seq<Entry>) -> Result<
    BuildKitMode,
    DecodeErrorView,
> {
    match required_text(entries, "default-mode"@) {
        Err(error) => Err(error),
        Ok(text) => match mode_named(text) {
            None => Err(DecodeErrorView::at_field("default-mode"@, Problem::UnknownVariant)),
            Some(mode) => Ok(mode),
        },
    }
}

/// The configuration that a `buildkit` table declares.
///
/// The declarations are decoded each for itself, in the order `pkg-config`,
/// `vcpkg`, `vendored-source`, `default-mode`, and the first that is at fault
/// gives the error. None of them is held against another: a default mode
/// whose own declaration is missing decodes like any other.
pub open spec fn decoded_metadata(document: Document) -> Result<
    BuildKitMetadataView,
    DecodeErrorView,
> {
    match entries_of(document, seq!["pkg-config", "vcpkg", "vendored-source", "default-mode"]) {
        Err(error) => Err(error),
        Ok(entries) => match declared_pkg_config(entries) {
            Err(error) => Err(error),
            Ok(pkg_config) => match declared_vcpkg(entries) {
                Err(error) => Err(error),
                Ok(vcpkg) => match declared_vendored_source(entries) {
                    Err(error) => Err(error),
                    Ok(vendored_source) => match declared_default_mode(entries) {
                        Err(error) => Err(error),
                        Ok(default_mode) => Ok(
                            BuildKitMetadataView {
                                pkg_config,
                                vcpkg,
                                vendored_source,
                                default_mode,
                            },
                        ),
                    },
                },
            },
        },
    }
}

/// Decodes a version requirement.
pub fn decode_version_req(document: &Document) -> (result: Result<
    PkgConfigVersionReq,
    DecodeError,
>)
    ensures
        match result {
            Ok(version_req) => decoded_version_req(*document) == Ok::<
                PkgConfigVersionReqView,
                DecodeErrorView,
            >(version_req@),
            Err(error) => decoded_version_req(*document) == Err::<
                PkgConfigVersionReqView,
                DecodeErrorView,
            >(error@),
        },
{
    let known: Vec<&'static str> = vec!["min", "max", "exact"];
    let entries = table_entries(document, &known)?;
    let min = get_optional_text(entries, "min")?;
    let max = get_optional_text(entries, "max")?;
    let exact = get_optional_text(entries, "exact")?;
    match (min, max, exact) {
        (Some(min), Some(max), None) => Ok(PkgConfigVersionReq::Range { min, max }),
        (Some(min), None, None) => Ok(PkgConfigVersionReq::Min { min }),
        (None, Some(max), None) => Ok(PkgConfigVersionReq::Max { max }),
        (None, None, Some(exact)) => Ok(PkgConfigVersionReq::Exact { exact }),
        (None, None, None) => Err(DecodeError::here(Problem::NoVersion)),
        _ => Err(DecodeError::here(Problem::AmbiguousVersion)),
    }
}

/// Decodes a pkg-config requirement.
pub fn decode_pkg_config(document: &Document) -> (result: Result<
    PkgConfigRequirement,
    DecodeError,
>)
    ensures
        match result {
            Ok(requirement) => decoded_pkg_config(*document) == Ok::<
                PkgConfigRequirementView,
                DecodeErrorView,
            >(requirement@),
            Err(error) => decoded_pkg_config(*document) == Err::<
                PkgConfigRequirementView,
                DecodeErrorView,
            >(error@),
        },
{
    let known: Vec<&'static str> = vec!["name", "version-req"];
    let entries = table_entries(document, &known)?;
    let name = get_text(entries, "name")?;
    let version_req = match get_optional(entries, "version-req")? {
        None => None,
        Some(value) => match decode_version_req(value) {
            Ok(version_req) => Some(version_req),
            Err(error) => {
                return Err(error.within_field("version-req"));
            },
        },
    };
    Ok(PkgConfigRequirement { name, version_req })
}

/// Decodes the file names of one library.
pub fn decode_lib_name(document: &Document) -> (result: Result<VcpkgLibName, DecodeError>)
    ensures
        match result {
            Ok(lib) => decoded_lib_name(*document) == Ok::<VcpkgLibNameView, DecodeErrorView>(
                lib@,
            ),
            Err(error) => decoded_lib_name(*document) == Err::<VcpkgLibNameView, DecodeErrorView>(
                error@,
            ),
        },
{
    let known: Vec<&'static str> = vec!["lib-name", "dll-name"];
    let entries = table_entries(document, &known)?;
    let lib_name = get_text(entries, "lib-name")?;
    let dll_name = get_text(entries, "dll-name")?;
    Ok(VcpkgLibName { lib_name, dll_name })
}

/// Decodes the file names of the libraries of a list.
pub fn decode_lib_names(items: &Vec<Document>) -> (result: Result<Vec<VcpkgLibName>, DecodeError>)
    ensures
        match result {
            Ok(libs) => decoded_lib_names(items@) == Ok::<Seq<VcpkgLibNameView>, DecodeErrorView>(
                Seq::new(libs@.len(), |i: int| libs@[i]@),
            ),
            Err(error) => decoded_lib_names(items@) == Err::<
                Seq<VcpkgLibNameView>,
                DecodeErrorView,
            >(error@),
        },
{
    let mut libs: Vec<VcpkgLibName> = Vec::new();
    let mut i: usize = 0;
    proof {
        assert(Seq::new(libs@.len(), |j: int| libs@[j]@) =~= Seq::<VcpkgLibNameView>::empty());
    }
    while i < items.len()
        invariant
            i <= items@.len(),
            decoded_lib_names(items@.take(i as int)) == Ok::<
                Seq<VcpkgLibNameView>,
                DecodeErrorView,
            >(Seq::new(libs@.len(), |j: int| libs@[j]@)),
        decreases items@.len() - i,
    {
        proof {
            assert(items@.take(i + 1).drop_last() == items@.take(i as int));
        }
        let ghost before = Seq::new(libs@.len(), |j: int| libs@[j]@);
        match decode_lib_name(&items[i]) {
            Ok(lib) => {
                libs.push(lib);
                proof {
                    assert(Seq::new(libs@.len(), |j: int| libs@[j]@) =~= before.push(lib@));
                }
            },
            Err(error) => {
                proof {
                    lib_error_stays(items@, i + 1);
                }
                return Err(error.within(Segment::Item(i)));
            },
        }
        i += 1;
    }
    proof {
        assert(items@.take(items@.len() as int) == items@);
    }
    Ok(libs)
}

/// The error of a list of libraries is that of any of its beginnings that
/// has one.
pub proof fn lib_error_stays(items: Seq<Document>, n: int)
    requires
        0 <= n <= items.len(),
        decoded_lib_names(items.take(n)) is Err,
    ensures
        decoded_lib_names(items) == decoded_lib_names(items.take(n)),
    decreases items.len() - n,
{
    if n < items.len() {
        assert(items.take(n + 1).drop_last() == items.take(n));
        lib_error_stays(items, n + 1);
    } else {
        assert(items.take(n) == items);
    }
}

/// Decodes a vcpkg requirement.
pub fn decode_vcpkg(document: &Document) -> (result: Result<VcpkgRequirement, DecodeError>)
    ensures
        match result {
            Ok(requirement) => decoded_vcpkg(*document) == Ok::<
                VcpkgRequirementView,
                DecodeErrorView,
            >(requirement@),
            Err(error) => decoded_vcpkg(*document) == Err::<VcpkgRequirementView, DecodeErrorView>(
                error@,
            ),
        },
{
    let known: Vec<&'static str> = vec!["name", "libs"];
    let entries = table_entries(document, &known)?;
    let name = get_text(entries, "name")?;
    match find(entries, "libs") {
        Lookup::Absent => Err(DecodeError::at_field("libs", Problem::MissingField)),
        Lookup::Repeated => Err(DecodeError::at_field("libs", Problem::RepeatedField)),
        Lookup::Once(Document::List(items)) => match decode_lib_names(items) {
            Ok(libs) => Ok(VcpkgRequirement { name, libs }),
            Err(error) => Err(error.within_field("libs")),
        },
        Lookup::Once(_) => Err(DecodeError::at_field("libs", Problem::NotAList)),
    }
}

/// Decodes the source of the kind `tag` that `body` describes.
pub fn decode_variant(tag: &str, body: &Document) -> (result: Result<VendoredSource, DecodeError>)
    ensures
        match result {
            Ok(source) => decoded_variant(tag@, *body) == Ok::<
                VendoredSourceView,
                DecodeErrorView,
            >(source@),
            Err(error) => decoded_variant(tag@, *body) == Err::<
                VendoredSourceView,
                DecodeErrorView,
            >(error@),
        },
{
    if same_text(tag, "remote-tarball") {
        let known: Vec<&'static str> = vec!["url", "hash"];
        let entries = table_entries(body, &known)?;
        let url = get_text(entries, "url")?;
        let hash = get_text(entries, "hash")?;
        Ok(VendoredSource::RemoteTarball { url, hash })
    } else if same_text(tag, "git-repo") {
        let known: Vec<&'static str> = vec!["url", "git-ref", "hash"];
        let entries = table_entries(body, &known)?;
        let url = get_text(entries, "url")?;
        let git_ref = get_text(entries, "git-ref")?;
        let hash = get_text(entries, "hash")?;
        Ok(VendoredSource::GitRepo { url, git_ref, hash })
    } else if same_text(tag, "crate-path") {
        let known: Vec<&'static str> = vec!["relative-path"];
        proof {
            assert(known@ =~= seq!["relative-path"]);
        }
        let entries = table_entries(body, &known)?;
        let relative_path = get_text(entries, "relative-path")?;
        Ok(VendoredSource::CratePath { relative_path })
    } else if same_text(tag, "system-path") {
        Err(DecodeError::here(Problem::ReservedVariant))
    } else {
        Err(DecodeError::here(Problem::UnknownVariant))
    }
}

/// Decodes a vendored source. What comes of it is never a directory of the
/// machine.
pub fn decode_vendored_source(document: &Document) -> (result: Result<
    VendoredSource,
    DecodeError,
>)
    ensures
        match result {
            Ok(source) => decoded_vendored_source(*document) == Ok::<
                VendoredSourceView,
                DecodeErrorView,
            >(source@) && !(source is SystemPath),
            Err(error) => decoded_vendored_source(*document) == Err::<
                VendoredSourceView,
                DecodeErrorView,
            >(error@),
        },
{
    match document {
        Document::Table(entries) => {
            if entries.len() == 1 {
                match decode_variant(entries[0].key.as_str(), &entries[0].value) {
                    Ok(source) => Ok(source),
                    Err(error) => Err(error.within_field(entries[0].key.as_str())),
                }
            } else {
                Err(DecodeError::here(Problem::NotOneVariant))
            }
        },
        _ => Err(DecodeError::here(Problem::NotATable)),
    }
}

/// The mode that a text names.
pub fn mode_of_name(text: &str) -> (mode: Option<BuildKitMode>)
    ensures
        mode == mode_named(text@),
{
    if same_text(text, "pkg-config") {
        Some(BuildKitMode::PkgConfig)
    } else if same_text(text, "vcpkg") {
        Some(BuildKitMode::Vcpkg)
    } else if same_text(text, "vendored-build") {
        Some(BuildKitMode::VendoredBuild)
    } else {
        None
    }
}

/// Decodes the `buildkit` table of a manifest.
pub fn decode_metadata(document: &Document) -> (result: Result<BuildKitMetadata, DecodeError>)
    ensures
        match result {
            Ok(metadata) => decoded_metadata(*document) == Ok::<
                BuildKitMetadataView,
                DecodeErrorView,
            >(metadata@),
            Err(error) => decoded_metadata(*document) == Err::<
                BuildKitMetadataView,
                DecodeErrorView,
            >(error@),
        },
{
    let known: Vec<&'static str> = vec!["pkg-config", "vcpkg", "vendored-source", "default-mode"];
    let entries = table_entries(document, &known)?;
    let pkg_config = match get_optional(entries, "pkg-config")? {
        None => None,
        Some(value) => match decode_pkg_config(value) {
            Ok(requirement) => Some(requirement),
            Err(error) => {
                return Err(error.within_field("pkg-config"));
            },
        },
    };
    let vcpkg = match get_optional(entries, "vcpkg")? {
        None => None,
        Some(value) => match decode_vcpkg(value) {
            Ok(requirement) => Some(requirement),
            Err(error) => {
                return Err(error.within_field("vcpkg"));
            },
        },
    };
    let vendored_source = match get_optional(entries, "vendored-source")? {
        None => None,
        Some(value) => match decode_vendored_source(value) {
            Ok(source) => Some(source),
            Err(error) => {
                return Err(error.within_field("vendored-source"));
            },
        },
    };
    let text = get_text(entries, "default-mode")?;
    match mode_of_name(text.as_str()) {
        None => Err(DecodeError::at_field("default-mode", Problem::UnknownVariant)),
        Some(default_mode) => Ok(
            BuildKitMetadata { pkg_config, vcpkg, vendored_source, default_mode },
        ),
    }
}

} // verus!
