//! The manifest editor: reading the dependency blocks of a `package.json` and
//! setting the version of one package in every block that lists it.

use crate::command::{command_in, CommandResult, CommandSpec, Plan, PlanView, RepoDir};
use crate::text::{join, join4};
use vstd::prelude::*;

verus! {

/// `serde_json::Value`: a JSON document. The proofs see nothing inside it.
#[verifier::external_type_specification]
#[verifier::external_body]
pub struct ExJsonValue(serde_json::Value);

/// `serde_json::Error`: why a text could not be read or a document not be
/// written. The proofs see nothing inside it.
#[verifier::external_type_specification]
#[verifier::external_body]
pub struct ExJsonError(serde_json::Error);

/// The class of a dependency block.
#[derive(Debug, Clone, Copy, PartialEq, Eq, Structural)]
pub enum DependencyClass {
    Direct,
    Development,
    Peer,
}

/// One entry of a dependency block as the document gives it: the package's
/// name and, where the entry is a JSON string, its text.
pub type Entries = Seq<(Seq<char>, Option<Seq<char>>)>;

/// The blocks of a document by their key.
pub type Sections = Map<Seq<char>, Entries>;

/// The document that `serde_json::from_str` reads from `text`; `None` where it
/// reports an error.
pub uninterp spec fn parsed_document(text: Seq<char>) -> Option<serde_json::Value>;

/// What a document holds for this library: for each member of the top-level
/// object that is itself an object, the entries of that object in the order
/// in which the document yields them.
pub uninterp spec fn document_sections(doc: serde_json::Value) -> Sections;

/// `doc` after the existing member `key` of its member `section` was set to
/// the JSON string `text`.
pub uninterp spec fn document_with_text(
    doc: serde_json::Value,
    section: Seq<char>,
    key: Seq<char>,
    text: Seq<char>,
) -> serde_json::Value;

/// The text that `serde_json::to_string_pretty` writes for `doc`; `None` where
/// it reports an error.
pub uninterp spec fn rendered_document(doc: serde_json::Value) -> Option<Seq<char>>;

/// No name occurs twice in `entries`.
pub open spec fn distinct_names(entries: Entries) -> bool {
    forall|i: int, j: int|
        0 <= i < j < entries.len() ==> (#[trigger] entries[i]).0 != (#[trigger] entries[j]).0
}

/// The entry of `name` in `entries`: `None` where there is none, else its
/// text, which is `None` where the entry is no JSON string.
pub open spec fn lookup(entries: Entries, name: Seq<char>) -> Option<Option<Seq<char>>>
    decreases entries.len(),
{
    if entries.len() == 0 {
        None
    } else if entries.last().0 == name {
        Some(entries.last().1)
    } else {
        lookup(entries.drop_last(), name)
    }
}

/// `entries` with the text of `name` set to `text`.
pub open spec fn with_text(entries: Entries, name: Seq<char>, text: Seq<char>) -> Entries {
    Seq::new(
        entries.len(),
        |i: int|
            if entries[i].0 == name {
                (name, Some(text))
            } else {
                entries[i]
            },
    )
}

/// `serde_json::from_str` at the type `Value`: the document that the text
/// holds, or the crate's error. The same text gives the same document.
#[verifier::external_body]
fn parse_document(text: &str) -> (res: Result<serde_json::Value, serde_json::Error>)
    ensures
        match res {
            Ok(doc) => parsed_document(text@) == Some(doc),
            Err(_) => parsed_document(text@) is None,
        },
{
    serde_json::from_str::<serde_json::Value>(text)
}

/// `Value::get` with a string, `Value::as_object` and `Map::iter`: the entries
/// of the member `section` where that member is an object, each with its key
/// and, by `Value::as_str`, its text where it is a JSON string. A map holds no
/// key twice.
#[verifier::external_body]
fn section_entries(doc: &serde_json::Value, section: &str) -> (res: Option<
    Vec<(String, Option<String>)>,
>)
    ensures
        res is Some <==> document_sections(*doc).contains_key(section@),
        res matches Some(v) ==> v.deep_view() == document_sections(*doc)[section@]
            && distinct_names(v.deep_view()),
{
    doc.get(section).and_then(|d| d.as_object()).map(
        |m| m.iter().map(|(k, v)| (k.clone(), v.as_str().map(|s| s.to_owned()))).collect(),
    )
}

/// `IndexMut` of `Value` with a string, twice, and an assignment: the member
/// `key` of the member `section` becomes the JSON string `text`. Both members
/// exist, so nothing is inserted and the index does not panic; the other
/// entries and their order stay.
#[verifier::external_body]
fn set_entry(doc: &mut serde_json::Value, section: &str, key: &str, text: &str)
    requires
        document_sections(*old(doc)).contains_key(section@),
        lookup(document_sections(*old(doc))[section@], key@) is Some,
    ensures
        *final(doc) == document_with_text(*old(doc), section@, key@, text@),
        document_sections(*final(doc)) == document_sections(*old(doc)).insert(
            section@,
            with_text(document_sections(*old(doc))[section@], key@, text@),
        ),
{
    doc[section][key] = serde_json::Value::String(text.to_owned());
}

/// `serde_json::to_string_pretty` of a document: its text, or the crate's
/// error. The same document gives the same text.
#[verifier::external_body]
fn render_document(doc: &serde_json::Value) -> (res: Result<String, serde_json::Error>)
    ensures
        match res {
            Ok(s) => rendered_document(*doc) == Some(s@),
            Err(_) => rendered_document(*doc) is None,
        },
{
    serde_json::to_string_pretty(doc)
}

/// What can go wrong with a manifest.
#[derive(Debug, Clone, Copy, PartialEq, Eq, Structural)]
pub enum ManifestError {
    /// The repository holds no `package.json`.
    NotFound,
    /// The file is there and could not be read.
    Unreadable,
    /// The file is no JSON document.
    Parse,
    /// The edited document could not be written out as text.
    Render,
    /// None of the three lock files is present.
    NoLockFile,
}

/// One change that an update makes: the block, and the text that the entry
/// held before (`None` where it was no JSON string).
#[derive(Debug)]
pub struct DependencyEdit {
    pub class: DependencyClass,
    pub previous: Option<String>,
}

/// The change as the contracts see it.
pub struct DependencyEditView {
    pub class: DependencyClass,
    pub previous: Option<Seq<char>>,
}

impl View for DependencyEdit {
    type V = DependencyEditView;

    open spec fn view(&self) -> DependencyEditView {
        DependencyEditView {
            class: self.class,
            previous: match self.previous {
                Some(p) => Some(p@),
                None => None,
            },
        }
    }
}

/// The result of an update: whether any block changed, the changes in the
/// order of the blocks, and the new text of the manifest where there is
/// something to write.
#[derive(Debug)]
pub struct PackageUpdate {
    pub changed: bool,
    pub edits: Vec<DependencyEdit>,
    pub content: Option<String>,
}

/// The result of an update as the contracts see it.
pub struct PackageUpdateView {
    pub changed: bool,
    pub edits: Seq<DependencyEditView>,
    pub content: Option<Seq<char>>,
}

/// The views of a sequence of edits.
pub open spec fn edit_views(edits: Seq<DependencyEdit>) -> Seq<DependencyEditView> {
    Seq::new(edits.len(), |i: int| edits[i]@)
}

impl View for PackageUpdate {
    type V = PackageUpdateView;

    open spec fn view(&self) -> PackageUpdateView {
        PackageUpdateView {
            changed: self.changed,
            edits: edit_views(self.edits@),
            content: match self.content {
                Some(c) => Some(c@),
                None => None,
            },
        }
    }
}

impl DependencyClass {
    /// The key of the block in the manifest.
    pub open spec fn section(self) -> Seq<char> {
        match self {
            DependencyClass::Direct => "dependencies"@,
            DependencyClass::Development => "devDependencies"@,
            DependencyClass::Peer => "peerDependencies"@,
        }
    }

    /// The key of the block in the manifest.
    pub fn key(self) -> (k: &'static str)
        ensures
            k@ == self.section(),
    {
        match self {
            DependencyClass::Direct => "dependencies",
            DependencyClass::Development => "devDependencies",
            DependencyClass::Peer => "peerDependencies",
        }
    }
}

/// The three keys differ.
pub proof fn lemma_sections_differ()
    ensures
        DependencyClass::Direct.section() != DependencyClass::Development.section(),
        DependencyClass::Direct.section() != DependencyClass::Peer.section(),
        DependencyClass::Development.section() != DependencyClass::Peer.section(),
{
    reveal_strlit("dependencies");
    reveal_strlit("devDependencies");
    reveal_strlit("peerDependencies");
    assert("dependencies"@.len() == 12);
    assert("devDependencies"@.len() == 15);
    assert("peerDependencies"@.len() == 16);
}

/// The entry of `name` in the block `class`; `None` where the document has no
/// such block or the block no such entry.
pub open spec fn class_entry(secs: Sections, class: DependencyClass, name: Seq<char>) -> Option<
    Option<Seq<char>>,
> {
    if secs.contains_key(class.section()) {
        lookup(secs[class.section()], name)
    } else {
        None
    }
}

/// The version that an entry records: its text, or the empty text where it is
/// no JSON string.
pub open spec fn recorded(entry: Option<Seq<char>>) -> Seq<char> {
    match entry {
        Some(t) => t,
        None => Seq::empty(),
    }
}

/// The entry is there and records another version than `version`.
pub open spec fn stale(entry: Option<Option<Seq<char>>>, version: Seq<char>) -> bool {
    entry matches Some(e) && recorded(e) != version
}

/// Some block lists `name` with another version than `version`.
pub open spec fn package_changes(secs: Sections, name: Seq<char>, version: Seq<char>) -> bool {
    ||| stale(class_entry(secs, DependencyClass::Direct, name), version)
    ||| stale(class_entry(secs, DependencyClass::Development, name), version)
    ||| stale(class_entry(secs, DependencyClass::Peer, name), version)
}

/// The blocks after `name` was set to `version` in the block `class`, where
/// that block lists it with another version.
pub open spec fn updated_class(
    secs: Sections,
    class: DependencyClass,
    name: Seq<char>,
    version: Seq<char>,
) -> Sections {
    if stale(class_entry(secs, class, name), version) {
        secs.insert(class.section(), with_text(secs[class.section()], name, version))
    } else {
        secs
    }
}

/// The blocks after `name` was set to `version` wherever a block lists it
/// with another version.
pub open spec fn updated_sections(secs: Sections, name: Seq<char>, version: Seq<char>) -> Sections {
    updated_class(
        updated_class(
            updated_class(secs, DependencyClass::Direct, name, version),
            DependencyClass::Development,
            name,
            version,
        ),
        DependencyClass::Peer,
        name,
        version,
    )
}

/// The document after `name` was set to `version` in the block `class`, where
/// that block lists it with another version.
pub open spec fn edited_class(
    doc: serde_json::Value,
    class: DependencyClass,
    name: Seq<char>,
    version: Seq<char>,
) -> serde_json::Value {
    if stale(class_entry(document_sections(doc), class, name), version) {
        document_with_text(doc, class.section(), name, version)
    } else {
        doc
    }
}

/// The document after `name` was set to `version` in every block that lists
/// it with another version.
pub open spec fn edited_document(
    doc: serde_json::Value,
    name: Seq<char>,
    version: Seq<char>,
) -> serde_json::Value {
    edited_class(
        edited_class(
            edited_class(doc, DependencyClass::Direct, name, version),
            DependencyClass::Development,
            name,
            version,
        ),
        DependencyClass::Peer,
        name,
        version,
    )
}

/// The change to the block `class`, if it lists `name` with another version.
pub open spec fn class_edit(
    secs: Sections,
    class: DependencyClass,
    name: Seq<char>,
    version: Seq<char>,
) -> Seq<DependencyEditView> {
    match class_entry(secs, class, name) {
        Some(e) => if recorded(e) != version {
            seq![DependencyEditView { class: class, previous: e }]
        } else {
            Seq::empty()
        },
        None => Seq::empty(),
    }
}

/// The changes that setting `name` to `version` makes, in the order of the
/// blocks.
pub open spec fn planned_edits(secs: Sections, name: Seq<char>, version: Seq<char>) -> Seq<
    DependencyEditView,
> {
    class_edit(secs, DependencyClass::Direct, name, version) + class_edit(
        secs,
        DependencyClass::Development,
        name,
        version,
    ) + class_edit(secs, DependencyClass::Peer, name, version)
}

/// What an update of the manifest `content` gives. In a dry run nothing is
/// written, so no new text comes back.
pub open spec fn update_outcome(
    content: Seq<char>,
    name: Seq<char>,
    version: Seq<char>,
    dry_run: bool,
) -> Result<PackageUpdateView, ManifestError> {
    match parsed_document(content) {
        None => Err(ManifestError::Parse),
        Some(doc) => {
            let secs = document_sections(doc);
            let changed = package_changes(secs, name, version);
            let edits = planned_edits(secs, name, version);
            if changed && !dry_run {
                match rendered_document(edited_document(doc, name, version)) {
                    Some(text) => Ok(
                        PackageUpdateView { changed: true, edits: edits, content: Some(text) },
                    ),
                    None => Err(ManifestError::Render),
                }
            } else {
                Ok(PackageUpdateView { changed: changed, edits: edits, content: None })
            }
        },
    }
}

/// The first version that the blocks record for `name`, in the order direct,
/// development, peer; entries that are no JSON string are passed over.
pub open spec fn first_version(secs: Sections, name: Seq<char>) -> Option<Seq<char>> {
    match class_entry(secs, DependencyClass::Direct, name) {
        Some(Some(v)) => Some(v),
        _ => match class_entry(secs, DependencyClass::Development, name) {
            Some(Some(v)) => Some(v),
            _ => match class_entry(secs, DependencyClass::Peer, name) {
                Some(Some(v)) => Some(v),
                _ => None,
            },
        },
    }
}

/// Setting the text of an entry that is there makes it the entry's text, and
/// leaves the other entries as they were.
pub proof fn lemma_lookup_with_text(
    entries: Entries,
    name: Seq<char>,
    text: Seq<char>,
    other: Seq<char>,
)
    ensures
        lookup(entries, name) is Some ==> lookup(with_text(entries, name, text), name) == Some(
            Some(text),
        ),
        lookup(entries, name) is None ==> with_text(entries, name, text) == entries,
        other != name ==> lookup(with_text(entries, name, text), other) == lookup(entries, other),
    decreases entries.len(),
{
    let w = with_text(entries, name, text);
    if entries.len() > 0 {
        let init = entries.drop_last();
        lemma_lookup_with_text(init, name, text, other);
        assert(w.drop_last() =~= with_text(init, name, text));
        if lookup(entries, name) is None {
            assert forall|i: int| 0 <= i < w.len() implies w[i] == entries[i] by {
                if i < init.len() {
                    assert(w[i] == w.drop_last()[i]);
                    assert(init[i] == entries[i]);
                }
            }
            assert(w =~= entries);
        }
    } else {
        assert(w =~= entries);
    }
}

/// After an update every block that lists the package records the target
/// version, whatever it recorded before, and a block lists the package after
/// the update exactly if it did before.
pub proof fn lemma_update_complete(
    secs: Sections,
    name: Seq<char>,
    version: Seq<char>,
    class: DependencyClass,
)
    ensures
        class_entry(updated_sections(secs, name, version), class, name) is Some <==> class_entry(
            secs,
            class,
            name,
        ) is Some,
        class_entry(secs, class, name) is Some ==> recorded(
            class_entry(updated_sections(secs, name, version), class, name)->0,
        ) == version,
{
    lemma_sections_differ();
    let s1 = updated_class(secs, DependencyClass::Direct, name, version);
    let s2 = updated_class(s1, DependencyClass::Development, name, version);
    let s3 = updated_class(s2, DependencyClass::Peer, name, version);
    if secs.contains_key(DependencyClass::Direct.section()) {
        lemma_lookup_with_text(secs[DependencyClass::Direct.section()], name, version, name);
    }
    if s1.contains_key(DependencyClass::Development.section()) {
        lemma_lookup_with_text(s1[DependencyClass::Development.section()], name, version, name);
    }
    if s2.contains_key(DependencyClass::Peer.section()) {
        lemma_lookup_with_text(s2[DependencyClass::Peer.section()], name, version, name);
    }
}

/// A second update with the same package and version changes nothing.
pub proof fn lemma_second_update_changes_nothing(
    secs: Sections,
    name: Seq<char>,
    version: Seq<char>,
)
    ensures
        !package_changes(updated_sections(secs, name, version), name, version),
        planned_edits(updated_sections(secs, name, version), name, version).len() == 0,
        updated_sections(updated_sections(secs, name, version), name, version) == updated_sections(
            secs,
            name,
            version,
        ),
{
    lemma_update_complete(secs, name, version, DependencyClass::Direct);
    lemma_update_complete(secs, name, version, DependencyClass::Development);
    lemma_update_complete(secs, name, version, DependencyClass::Peer);
}

/// A dry run finds the changes that a live run makes: where both read the
/// manifest and the live run can write it, they report the same.
pub proof fn lemma_dry_run_finds_the_same_changes(
    content: Seq<char>,
    name: Seq<char>,
    version: Seq<char>,
)
    ensures
        update_outcome(content, name, version, true) is Err <==> parsed_document(content) is None,
        update_outcome(content, name, version, true) matches Ok(dry) ==> dry.content is None && (
        update_outcome(content, name, version, false) matches Ok(live) ==> live.changed
            == dry.changed && live.edits == dry.edits && (live.content is Some <==> dry.changed)),
{
}

/// The entry of `name` among `entries`.
pub fn find_entry(entries: &Vec<(String, Option<String>)>, name: &str) -> (r: Option<
    Option<String>,
>)
    ensures
        r.deep_view() == lookup(entries.deep_view(), name@),
{
    let mut found: Option<Option<String>> = None;
    let mut i: usize = 0;
    while i < entries.len()
        invariant
            i <= entries.len(),
            found.deep_view() == lookup(entries.deep_view().take(i as int), name@),
        decreases entries.len() - i,
    {
        proof {
            let d = entries.deep_view();
            assert(d.take(i + 1).drop_last() == d.take(i as int));
            assert(d.take(i + 1).last() == d[i as int]);
            assert(d[i as int] == entries@[i as int].deep_view());
        }
        if entries[i].0.as_str().eq(name) {
            found = Some(entries[i].1.clone());
        }
        i += 1;
    }
    proof {
        let d = entries.deep_view();
        assert(d.take(entries.len() as int) == d);
    }
    found
}

/// Sets `name` to `version` in the block `class` of `doc` where that block
/// lists it with another version; in a dry run the document stays as it is.
/// The change comes back, if there is one.
fn update_class(
    doc: &mut serde_json::Value,
    class: DependencyClass,
    name: &str,
    version: &str,
    dry_run: bool,
) -> (edit: Option<DependencyEdit>)
    ensures
        match edit {
            Some(e) => seq![e@],
            None => Seq::empty(),
        } == class_edit(document_sections(*old(doc)), class, name@, version@),
        *final(doc) == if dry_run {
            *old(doc)
        } else {
            edited_class(*old(doc), class, name@, version@)
        },
        document_sections(*final(doc)) == if dry_run {
            document_sections(*old(doc))
        } else {
            updated_class(document_sections(*old(doc)), class, name@, version@)
        },
{
    let entries = match section_entries(doc, class.key()) {
        Some(e) => e,
        None => {
            return None;
        },
    };
    let previous = match find_entry(&entries, name) {
        Some(p) => p,
        None => {
            return None;
        },
    };
    let same = match &previous {
        Some(p) => p.as_str().eq(version),
        None => version.eq(""),
    };
    proof {
        reveal_strlit("");
        assert(""@ =~= Seq::<char>::empty());
    }
    if same {
        return None;
    }
    if !dry_run {
        set_entry(doc, class.key(), name, version);
    }
    Some(DependencyEdit { class, previous })
}

/// Sets the version of `package_name` to `version` in every dependency block
/// of the manifest `content` that lists it with another version. In a dry run
/// the changes are found and nothing is written out.
pub fn update_package(content: &str, package_name: &str, version: &str, dry_run: bool) -> (r:
    Result<PackageUpdate, ManifestError>)
    ensures
        match update_outcome(content@, package_name@, version@, dry_run) {
            Ok(u) => r matches Ok(x) && x@ == u,
            Err(e) => r == Err::<PackageUpdate, ManifestError>(e),
        },
        match r {
            Ok(x) => match x.content {
                Some(text) => exists|after: serde_json::Value|
                    #[trigger] rendered_document(after) == Some(text@) && document_sections(after)
                        == updated_sections(
                        document_sections(parsed_document(content@)->0),
                        package_name@,
                        version@,
                    ),
                None => true,
            },
            Err(_) => true,
        },
{
    let mut doc = match parse_document(content) {
        Ok(d) => d,
        Err(_) => {
            return Err(ManifestError::Parse);
        },
    };
    let ghost doc0 = doc;
    let ghost secs = document_sections(doc0);
    let mut edits: Vec<DependencyEdit> = Vec::new();
    proof {
        lemma_sections_differ();
    }
    if let Some(e) = update_class(&mut doc, DependencyClass::Direct, package_name, version, dry_run) {
        edits.push(e);
    }
    assert(edit_views(edits@) =~= class_edit(
        secs,
        DependencyClass::Direct,
        package_name@,
        version@,
    ));
    let ghost first = edits@;
    if let Some(e) = update_class(
        &mut doc,
        DependencyClass::Development,
        package_name,
        version,
        dry_run,
    ) {
        edits.push(e);
    }
    assert(edit_views(edits@) =~= edit_views(first) + class_edit(
        secs,
        DependencyClass::Development,
        package_name@,
        version@,
    ));
    let ghost second = edits@;
    if let Some(e) = update_class(&mut doc, DependencyClass::Peer, package_name, version, dry_run) {
        edits.push(e);
    }
    assert(edit_views(edits@) =~= edit_views(second) + class_edit(
        secs,
        DependencyClass::Peer,
        package_name@,
        version@,
    ));
    let changed = edits.len() > 0;
    assert(changed == package_changes(secs, package_name@, version@));
    if changed && !dry_run {
        match render_document(&doc) {
            Ok(text) => {
                assert(rendered_document(doc) == Some(text@) && document_sections(doc)
                    == updated_sections(secs, package_name@, version@));
                Ok(PackageUpdate { changed, edits, content: Some(text) })
            },
            Err(_) => Err(ManifestError::Render),
        }
    } else {
        Ok(PackageUpdate { changed, edits, content: None })
    }
}

/// The line that reports one change of an update.
pub fn edit_notice(package_name: &str, edit: &DependencyEdit, version: &str) -> (m: String)
    ensures
        m@ == "Updated "@ + package_name@ + " in "@ + edit.class.section() + " from "@ + (
        match edit.previous {
            Some(p) => p@,
            None => "unknown"@,
        }) + " to "@ + version@,
{
    let mut m = join("Updated ", package_name);
    m.append(" in ");
    m.append(edit.class.key());
    m.append(" from ");
    match &edit.previous {
        Some(p) => m.append(p.as_str()),
        None => m.append("unknown"),
    }
    m.append(" to ");
    m.append(version);
    m
}

/// One listed package: its name, the version that a block records for it,
/// and the class of that block.
#[derive(Debug, Clone, PartialEq, Eq)]
pub struct PackageRecord {
    pub name: String,
    pub version: String,
    pub class: DependencyClass,
}

/// The record as the contracts see it.
pub struct PackageRecordView {
    pub name: Seq<char>,
    pub version: Seq<char>,
    pub class: DependencyClass,
}

impl View for PackageRecord {
    type V = PackageRecordView;

    open spec fn view(&self) -> PackageRecordView {
        PackageRecordView { name: self.name@, version: self.version@, class: self.class }
    }
}

/// The views of a sequence of records.
pub open spec fn record_views(records: Seq<PackageRecord>) -> Seq<PackageRecordView> {
    Seq::new(records.len(), |i: int| records[i]@)
}

/// The records of the entries that are JSON strings, in their order.
pub open spec fn records_of(entries: Entries, class: DependencyClass) -> Seq<PackageRecordView>
    decreases entries.len(),
{
    if entries.len() == 0 {
        Seq::empty()
    } else {
        match entries.last().1 {
            Some(v) => records_of(entries.drop_last(), class).push(
                PackageRecordView { name: entries.last().0, version: v, class: class },
            ),
            None => records_of(entries.drop_last(), class),
        }
    }
}

/// The records of the block `class`; none where the document has no such
/// block.
pub open spec fn class_records(secs: Sections, class: DependencyClass) -> Seq<PackageRecordView> {
    if secs.contains_key(class.section()) {
        records_of(secs[class.section()], class)
    } else {
        Seq::empty()
    }
}

/// Every package that the blocks list with a version: the direct ones, then
/// those of development, then the peers.
pub open spec fn listed_packages(secs: Sections) -> Seq<PackageRecordView> {
    class_records(secs, DependencyClass::Direct) + class_records(
        secs,
        DependencyClass::Development,
    ) + class_records(secs, DependencyClass::Peer)
}

/// The name and version of the records of `class`, in their order.
pub open spec fn of_class(records: Seq<PackageRecordView>, class: DependencyClass) -> Seq<
    (Seq<char>, Seq<char>),
>
    decreases records.len(),
{
    if records.len() == 0 {
        Seq::empty()
    } else if records.last().class == class {
        of_class(records.drop_last(), class).push((records.last().name, records.last().version))
    } else {
        of_class(records.drop_last(), class)
    }
}

/// The packages of a manifest by the class of their block.
#[derive(Debug)]
pub struct PackageGroups {
    pub dependencies: Vec<(String, String)>,
    pub dev_dependencies: Vec<(String, String)>,
    pub peer_dependencies: Vec<(String, String)>,
}

/// The manifest of one repository as it was found.
#[derive(Debug, Clone, PartialEq, Eq)]
pub enum ManifestFile {
    /// The repository holds no `package.json`.
    Missing,
    /// The file is there and could not be read.
    Unreadable,
    /// The text of the file.
    Text(String),
}

/// A repository and its manifest.
#[derive(Debug, Clone, PartialEq, Eq)]
pub struct ManifestSource {
    pub repo: String,
    pub file: ManifestFile,
}

/// Which of the three lock files a repository holds.
#[derive(Debug, Clone, Copy, PartialEq, Eq, Structural)]
pub struct LockFiles {
    pub pnpm: bool,
    pub yarn: bool,
    pub npm: bool,
}

/// The manifest is there and holds a JSON document.
pub open spec fn usable(file: ManifestFile) -> bool {
    file matches ManifestFile::Text(t) && parsed_document(t@) is Some
}

/// The blocks of a usable manifest.
pub open spec fn sections_of(file: ManifestFile) -> Sections {
    document_sections(parsed_document(file->Text_0@)->0)
}

/// The first position in `sources` whose manifest is not usable; their number
/// where every manifest is.
pub open spec fn first_unusable(sources: Seq<ManifestSource>) -> nat
    decreases sources.len(),
{
    if sources.len() == 0 {
        0
    } else if !usable(sources[0].file) {
        0
    } else {
        1 + first_unusable(sources.drop_first())
    }
}

/// The error that a manifest gives which is not usable.
pub open spec fn failure_of(file: ManifestFile) -> ManifestError {
    match file {
        ManifestFile::Missing => ManifestError::NotFound,
        ManifestFile::Unreadable => ManifestError::Unreadable,
        ManifestFile::Text(_) => ManifestError::Parse,
    }
}

/// The manifest that ended a comparison, and why.
#[derive(Debug, Clone, PartialEq, Eq)]
pub struct ManifestFailure {
    pub repo: String,
    pub error: ManifestError,
}

/// The package manager that the lock files name: pnpm before yarn before npm.
pub open spec fn manager_of(locks: LockFiles) -> Option<Seq<char>> {
    if locks.pnpm {
        Some("pnpm"@)
    } else if locks.yarn {
        Some("yarn"@)
    } else if locks.npm {
        Some("npm"@)
    } else {
        None
    }
}

/// The first manifest that is not usable is at `k` where every manifest before
/// `k` is usable and the one at `k`, if there is one, is not.
pub proof fn lemma_first_unusable(sources: Seq<ManifestSource>, k: int)
    requires
        0 <= k <= sources.len(),
        forall|i: int| 0 <= i < k ==> usable((#[trigger] sources[i]).file),
        k == sources.len() || !usable(sources[k].file),
    ensures
        first_unusable(sources) == k,
    decreases k,
{
    if k > 0 {
        let rest = sources.drop_first();
        assert forall|i: int| 0 <= i < k - 1 implies usable((#[trigger] rest[i]).file) by {
            assert(rest[i] == sources[i + 1]);
        }
        lemma_first_unusable(rest, k - 1);
    }
}

/// The version that the manifest `content` records for `package_name`: that of
/// the first block, in the order direct, development, peer, that lists the
/// package with a JSON string.
pub fn get_package_version(content: &str, package_name: &str) -> (r: Result<
    Option<String>,
    ManifestError,
>)
    ensures
        match parsed_document(content@) {
            None => r == Err::<Option<String>, ManifestError>(ManifestError::Parse),
            Some(doc) => r matches Ok(v) && v.deep_view() == first_version(
                document_sections(doc),
                package_name@,
            ),
        },
{
    let doc = match parse_document(content) {
        Ok(d) => d,
        Err(_) => {
            return Err(ManifestError::Parse);
        },
    };
    if let Some(entries) = section_entries(&doc, DependencyClass::Direct.key()) {
        if let Some(Some(v)) = find_entry(&entries, package_name) {
            return Ok(Some(v));
        }
    }
    if let Some(entries) = section_entries(&doc, DependencyClass::Development.key()) {
        if let Some(Some(v)) = find_entry(&entries, package_name) {
            return Ok(Some(v));
        }
    }
    if let Some(entries) = section_entries(&doc, DependencyClass::Peer.key()) {
        if let Some(Some(v)) = find_entry(&entries, package_name) {
            return Ok(Some(v));
        }
    }
    Ok(None)
}

fn collect_class(doc: &serde_json::Value, class: DependencyClass, out: &mut Vec<PackageRecord>)
    ensures
        record_views(final(out)@) == record_views(old(out)@) + class_records(
            document_sections(*doc),
            class,
        ),
{
    let ghost before = record_views(out@);
    let entries = match section_entries(doc, class.key()) {
        Some(e) => e,
        None => {
            assert(record_views(out@) =~= before + Seq::empty());
            return ;
        },
    };
    let ghost d = entries.deep_view();
    let mut i: usize = 0;
    assert(record_views(out@) =~= before + records_of(d.take(0), class));
    while i < entries.len()
        invariant
            i <= entries.len(),
            d == entries.deep_view(),
            record_views(out@) == before + records_of(d.take(i as int), class),
        decreases entries.len() - i,
    {
        proof {
            assert(d.take(i + 1).drop_last() == d.take(i as int));
            assert(d.take(i + 1).last() == d[i as int]);
            assert(d[i as int] == entries@[i as int].deep_view());
        }
        let ghost prior = record_views(out@);
        if let Some(v) = &entries[i].1 {
            out.push(PackageRecord { name: entries[i].0.clone(), version: v.clone(), class });
            assert(record_views(out@) =~= prior.push(
                PackageRecordView { name: d[i as int].0, version: d[i as int].1->0, class: class },
            ));
            assert(record_views(out@) =~= before + records_of(d.take(i + 1), class));
        }
        i += 1;
    }
    assert(d.take(entries.len() as int) == d);
}

/// Every package that the manifest `content` lists with a version.
pub fn list_all_packages(content: &str) -> (r: Result<Vec<PackageRecord>, ManifestError>)
    ensures
        match parsed_document(content@) {
            None => r == Err::<Vec<PackageRecord>, ManifestError>(ManifestError::Parse),
            Some(doc) => r matches Ok(v) && record_views(v@) == listed_packages(
                document_sections(doc),
            ),
        },
{
    let doc = match parse_document(content) {
        Ok(d) => d,
        Err(_) => {
            return Err(ManifestError::Parse);
        },
    };
    let mut out: Vec<PackageRecord> = Vec::new();
    assert(record_views(out@) =~= Seq::empty());
    collect_class(&doc, DependencyClass::Direct, &mut out);
    collect_class(&doc, DependencyClass::Development, &mut out);
    collect_class(&doc, DependencyClass::Peer, &mut out);
    assert(record_views(out@) =~= listed_packages(document_sections(doc)));
    Ok(out)
}

/// The listed packages by the class of their block, each group in the order
/// of the list.
pub fn group_packages(records: &Vec<PackageRecord>) -> (g: PackageGroups)
    ensures
        g.dependencies.deep_view() == of_class(record_views(records@), DependencyClass::Direct),
        g.dev_dependencies.deep_view() == of_class(
            record_views(records@),
            DependencyClass::Development,
        ),
        g.peer_dependencies.deep_view() == of_class(record_views(records@), DependencyClass::Peer),
{
    let mut deps: Vec<(String, String)> = Vec::new();
    let mut dev: Vec<(String, String)> = Vec::new();
    let mut peer: Vec<(String, String)> = Vec::new();
    let ghost views = record_views(records@);
    let mut i: usize = 0;
    assert(deps.deep_view() =~= of_class(views.take(0), DependencyClass::Direct));
    assert(dev.deep_view() =~= of_class(views.take(0), DependencyClass::Development));
    assert(peer.deep_view() =~= of_class(views.take(0), DependencyClass::Peer));
    while i < records.len()
        invariant
            i <= records.len(),
            views == record_views(records@),
            deps.deep_view() == of_class(views.take(i as int), DependencyClass::Direct),
            dev.deep_view() == of_class(views.take(i as int), DependencyClass::Development),
            peer.deep_view() == of_class(views.take(i as int), DependencyClass::Peer),
        decreases records.len() - i,
    {
        proof {
            assert(views.take(i + 1).drop_last() == views.take(i as int));
            assert(views.take(i + 1).last() == records@[i as int]@);
        }
        let pair = (records[i].name.clone(), records[i].version.clone());
        let ghost a = deps.deep_view();
        let ghost b = dev.deep_view();
        let ghost c = peer.deep_view();
        match records[i].class {
            DependencyClass::Direct => {
                deps.push(pair);
                assert(deps.deep_view() =~= a.push((records@[i as int].name@, records@[i as int].version@)));
            },
            DependencyClass::Development => {
                dev.push(pair);
                assert(dev.deep_view() =~= b.push((records@[i as int].name@, records@[i as int].version@)));
            },
            DependencyClass::Peer => {
                peer.push(pair);
                assert(peer.deep_view() =~= c.push((records@[i as int].name@, records@[i as int].version@)));
            },
        }
        i += 1;
    }
    assert(views.take(records.len() as int) == views);
    PackageGroups { dependencies: deps, dev_dependencies: dev, peer_dependencies: peer }
}

/// The version of `package_name` in each repository, in the order of
/// `sources`. The first manifest that is missing, unreadable or no JSON
/// document ends the comparison with its error.
pub fn compare_package_versions(sources: &Vec<ManifestSource>, package_name: &str) -> (r: Result<
    Vec<(String, Option<String>)>,
    ManifestFailure,
>)
    ensures
        first_unusable(sources@) < sources@.len() ==> (r matches Err(e) && e.repo@
            == sources@[first_unusable(sources@) as int].repo@ && e.error == failure_of(
            sources@[first_unusable(sources@) as int].file,
        )),
        first_unusable(sources@) == sources@.len() ==> (r matches Ok(v) && v@.len()
            == sources@.len() && forall|i: int|
            0 <= i < sources@.len() ==> (#[trigger] v@[i]).0@ == sources@[i].repo@
                && v@[i].1.deep_view() == first_version(
                sections_of(sources@[i].file),
                package_name@,
            )),
{
    let mut results: Vec<(String, Option<String>)> = Vec::new();
    let mut i: usize = 0;
    while i < sources.len()
        invariant
            i <= sources.len(),
            results@.len() == i,
            forall|k: int| 0 <= k < i ==> usable((#[trigger] sources@[k]).file),
            forall|k: int|
                0 <= k < i ==> (#[trigger] results@[k]).0@ == sources@[k].repo@
                    && results@[k].1.deep_view() == first_version(
                    sections_of(sources@[k].file),
                    package_name@,
                ),
        decreases sources.len() - i,
    {
        let source = &sources[i];
        let version = match &source.file {
            ManifestFile::Missing => {
                proof {
                    lemma_first_unusable(sources@, i as int);
                }
                return Err(
                    ManifestFailure { repo: source.repo.clone(), error: ManifestError::NotFound },
                );
            },
            ManifestFile::Unreadable => {
                proof {
                    lemma_first_unusable(sources@, i as int);
                }
                return Err(
                    ManifestFailure { repo: source.repo.clone(), error: ManifestError::Unreadable },
                );
            },
            ManifestFile::Text(text) => match get_package_version(text.as_str(), package_name) {
                Ok(v) => v,
                Err(e) => {
                    proof {
                        lemma_first_unusable(sources@, i as int);
                    }
                    return Err(
                        ManifestFailure { repo: source.repo.clone(), error: ManifestError::Parse },
                    );
                },
            },
        };
        results.push((source.repo.clone(), version));
        i += 1;
    }
    proof {
        lemma_first_unusable(sources@, sources@.len() as int);
    }
    Ok(results)
}

/// The names of the lock files, in the order in which they decide the
/// package manager.
pub fn lock_file_names() -> (names: Vec<&'static str>)
    ensures
        names@.len() == 3,
        names@[0]@ == "pnpm-lock.yaml"@,
        names@[1]@ == "yarn.lock"@,
        names@[2]@ == "package-lock.json"@,
{
    let mut names: Vec<&'static str> = Vec::new();
    names.push("pnpm-lock.yaml");
    names.push("yarn.lock");
    names.push("package-lock.json");
    names
}

/// The package manager that the lock files of a repository name.
pub fn detect_package_manager(locks: &LockFiles) -> (r: Result<String, ManifestError>)
    ensures
        match manager_of(*locks) {
            Some(m) => r matches Ok(s) && s@ == m,
            None => r == Err::<String, ManifestError>(ManifestError::NoLockFile),
        },
{
    if locks.pnpm {
        Ok("pnpm".to_owned())
    } else if locks.yarn {
        Ok("yarn".to_owned())
    } else if locks.npm {
        Ok("npm".to_owned())
    } else {
        Err(ManifestError::NoLockFile)
    }
}

/// What can go wrong with the install step.
#[derive(Debug, Clone, Copy, PartialEq, Eq, Structural)]
pub enum InstallError {
    /// The package manager could not be started.
    NotStarted,
    /// The package manager ran and reported failure.
    Failed,
}

/// The install step of `manager`: announced, and run unless this is a dry
/// run.
pub open spec fn install_plan(
    path: Seq<char>,
    dir: Seq<char>,
    manager: Seq<char>,
    dry_run: bool,
) -> PlanView {
    if dry_run {
        PlanView { notice: "Would run "@ + manager + " install in "@ + path, command: None }
    } else {
        PlanView {
            notice: "Running "@ + manager + " install in "@ + path,
            command: Some(command_in(dir, manager, seq!["install"@])),
        }
    }
}

/// Whether the install step succeeded.
pub open spec fn installed(result: CommandResult) -> Result<(), InstallError> {
    if !(result is Finished) {
        Err(InstallError::NotStarted)
    } else if !result.succeeded() {
        Err(InstallError::Failed)
    } else {
        Ok(())
    }
}

/// The package manager to install with: the one that the lock files name,
/// else the configured default.
pub open spec fn resolved_manager(locks: LockFiles, fallback: Option<Seq<char>>) -> Option<
    Seq<char>,
> {
    match manager_of(locks) {
        Some(m) => Some(m),
        None => fallback,
    }
}

/// The install step of `pkg_manager` in the repository: the announcement,
/// and, unless this is a dry run, the command.
pub fn run_install_with_manager(repo: &RepoDir, pkg_manager: &str, dry_run: bool) -> (p: Plan)
    ensures
        p@ == install_plan(repo.path@, repo.dir@, pkg_manager@, dry_run),
{
    if dry_run {
        Plan {
            notice: join4("Would run ", pkg_manager, " install in ", repo.path.as_str()),
            command: None,
        }
    } else {
        let c = CommandSpec::new_in(repo.dir.as_str(), pkg_manager).arg("install");
        assert(c@.args =~= seq!["install"@]);
        Plan {
            notice: join4("Running ", pkg_manager, " install in ", repo.path.as_str()),
            command: Some(c),
        }
    }
}

/// Whether the install step succeeded.
pub fn install_outcome(result: &CommandResult) -> (r: Result<(), InstallError>)
    ensures
        r == installed(*result),
{
    if !result.was_started() {
        Err(InstallError::NotStarted)
    } else if !result.is_success() {
        Err(InstallError::Failed)
    } else {
        Ok(())
    }
}

/// The package manager to install with: the one that the lock files name,
/// else `fallback`, the default of the fleet.
pub fn resolve_manager(locks: &LockFiles, fallback: &Option<String>) -> (r: Option<String>)
    ensures
        r.deep_view() == resolved_manager(*locks, fallback.deep_view()),
{
    match detect_package_manager(locks) {
        Ok(m) => Some(m),
        Err(_) => fallback.clone(),
    }
}

impl InstallError {
    /// The text of the error, for the package manager `manager`.
    pub open spec fn text(self, manager: Seq<char>) -> Seq<char> {
        match self {
            InstallError::NotStarted => "Failed to run "@ + manager + " install"@,
            InstallError::Failed => manager + " install failed"@,
        }
    }

    /// The text of the error, for the package manager `manager`.
    pub fn message(&self, manager: &str) -> (m: String)
        ensures
            m@ == self.text(manager@),
    {
        match self {
            InstallError::NotStarted => crate::text::join3("Failed to run ", manager, " install"),
            InstallError::Failed => join(manager, " install failed"),
        }
    }
}

impl ManifestError {
    /// The text of the error, which is about the repository `repo`.
    pub open spec fn text(self, repo: Seq<char>) -> Seq<char> {
        match self {
            ManifestError::NotFound => "package.json not found in repository: "@ + repo,
            ManifestError::Unreadable => "Failed to read package.json"@,
            ManifestError::Parse => "Failed to parse package.json"@,
            ManifestError::Render => "Failed to write package.json"@,
            ManifestError::NoLockFile => "No package manager lock file found"@,
        }
    }

    /// The text of the error, which is about the repository `repo`.
    pub fn message(&self, repo: &str) -> (m: String)
        ensures
            m@ == self.text(repo@),
    {
        match self {
            ManifestError::NotFound => join("package.json not found in repository: ", repo),
            ManifestError::Unreadable => "Failed to read package.json".to_owned(),
            ManifestError::Parse => "Failed to parse package.json".to_owned(),
            ManifestError::Render => "Failed to write package.json".to_owned(),
            ManifestError::NoLockFile => "No package manager lock file found".to_owned(),
        }
    }
}

} // verus!
