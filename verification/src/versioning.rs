//! Output versions: directories named by a time stamp, each with the data
//! that a job wrote and a note of where the data came from. The caller reads
//! the directories; this module decides what counts as a version and what is
//! shown of it.

use vstd::prelude::*;
use crate::clock::{stamp_of, version_stamp};
use crate::order::{lemma_same_values_same_images, sort, Ranked};
use crate::json::{
    as_items, as_text, field, json_items, json_of, member, parse, parsed, text_at, text_field, Json,
};
use crate::text::{
    chain, chars_of, comes_before, content_lines, lemma_precedes_total, lemma_precedes_transitive,
    lemma_texts_push, lines_of, lines_with_content, opt_text, precedes, string_of, text_lines,
    text_of, texts,
};

verus! {

/// The name of the version that stands for data found directly in the root.
pub open spec fn legacy_version() -> Seq<char> {
    "legacy"@
}

/// The path of the entry `name` of the directory `parent`.
pub open spec fn child_path(parent: Seq<char>, name: Seq<char>) -> Seq<char> {
    parent + "/"@ + name
}

/// The path of the entry `name` of the directory `parent`.
pub fn child_of(parent: &str, name: &str) -> (r: String)
    ensures
        r@ == child_path(parent@, name@),
{
    let mut r = chain(parent, "/");
    r.append(name);
    r
}

/// An output version: its name and its directory.
pub struct VersionDir {
    pub version: String,
    pub path: String,
}

/// Names the output version that a job starting now writes to, below the
/// directory `root`: by the time that lies `secs` seconds after the beginning
/// of 1970 on a clock `offset_secs` seconds ahead of universal time. The
/// version is tentative until the job has succeeded. There is none for a time
/// that cannot be written as the name of a version.
pub fn begin(root: &str, secs: i64, offset_secs: i32) -> (r: Option<VersionDir>)
    ensures
        match r {
            Some(t) => stamp_of(secs, offset_secs) == Some(t.version@) && t.path@ == child_path(
                root@,
                t.version@,
            ),
            None => stamp_of(secs, offset_secs) is None,
        },
{
    match version_stamp(secs, offset_secs) {
        Some(version) => {
            let path = child_of(root, version.as_str());
            Some(VersionDir { version, path })
        },
        None => None,
    }
}

/// The output version of a job that has succeeded, once the attempt to
/// rename its directory from the tentative name to `stamp` is over: under the
/// new name where the renaming worked, and under the name that it kept where
/// it did not. Either way there is a version.
pub fn finalize(root: &str, tentative: &str, stamp: &str, renamed: bool) -> (r: VersionDir)
    ensures
        r.version@ == (if renamed {
            stamp@
        } else {
            tentative@
        }),
        r.path@ == child_path(root@, r.version@),
{
    let version = if renamed {
        stamp.to_owned()
    } else {
        tentative.to_owned()
    };
    let path = child_of(root, version.as_str());
    VersionDir { version, path }
}

/// How a time stamp `YYYYMMDD_HHMMSS` is shown: as `YYYY-MM-DD HH:MM`. A name
/// of fewer than 15 characters is no time stamp and is shown as it is.
pub open spec fn timestamp_display(ts: Seq<char>) -> Seq<char> {
    if ts.len() >= 15 {
        ts.subrange(0, 4) + seq!['-'] + ts.subrange(4, 6) + seq!['-'] + ts.subrange(6, 8) + seq![
            ' ',
        ] + ts.subrange(9, 11) + seq![':'] + ts.subrange(11, 13)
    } else {
        ts
    }
}

/// Shows the name of a version as a date and a time.
pub fn parse_timestamp_display(ts: &str) -> (r: String)
    ensures
        r@ == timestamp_display(ts@),
{
    let v = chars_of(ts);
    if v.len() >= 15 {
        let mut out: Vec<char> = Vec::new();
        out.push(v[0]);
        out.push(v[1]);
        out.push(v[2]);
        out.push(v[3]);
        out.push('-');
        out.push(v[4]);
        out.push(v[5]);
        out.push('-');
        out.push(v[6]);
        out.push(v[7]);
        out.push(' ');
        out.push(v[9]);
        out.push(v[10]);
        out.push(':');
        out.push(v[11]);
        out.push(v[12]);
        assert(out@ =~= timestamp_display(ts@));
        string_of(&out)
    } else {
        ts.to_owned()
    }
}

/// Where the data of a version came from. Every part may be missing, and is
/// then empty.
pub struct Provenance {
    /// The names of the input files.
    pub raw_files: Vec<String>,
    pub mode: String,
    pub source: String,
    pub model: String,
}

/// Where the data of a version came from, as the contracts speak of it.
pub struct ProvenanceView {
    pub raw_files: Seq<Seq<char>>,
    pub mode: Seq<char>,
    pub source: Seq<char>,
    pub model: Seq<char>,
}

impl View for Provenance {
    type V = ProvenanceView;

    open spec fn view(&self) -> ProvenanceView {
        ProvenanceView {
            raw_files: texts(self.raw_files@),
            mode: self.mode@,
            source: self.source@,
            model: self.model@,
        }
    }
}

/// The source whose jobs use no model.
pub open spec fn builtin_source() -> Seq<char> {
    "builtin"@
}

/// The texts among `items`, in order; what is no text is left out.
pub open spec fn texts_among(items: Seq<Json>) -> Seq<Seq<char>>
    decreases items.len(),
{
    if items.len() == 0 {
        Seq::empty()
    } else {
        match items.last() {
            Json::Text(s) => texts_among(items.drop_last()).push(s),
            _ => texts_among(items.drop_last()),
        }
    }
}

/// The text under `key` of `j`, empty where there is none.
pub open spec fn text_or_empty(j: Json, key: Seq<char>) -> Seq<char> {
    match text_at(j, key) {
        Some(s) => s,
        None => Seq::empty(),
    }
}

impl ProvenanceView {
    /// The provenance of which nothing is known.
    pub open spec fn empty() -> ProvenanceView {
        ProvenanceView {
            raw_files: Seq::empty(),
            mode: Seq::empty(),
            source: Seq::empty(),
            model: Seq::empty(),
        }
    }

    /// What the document `j` says of the provenance.
    pub open spec fn of_json(j: Json) -> ProvenanceView {
        ProvenanceView {
            raw_files: match member(j, "raw_files"@) {
                Some(Json::Array(items)) => texts_among(items),
                _ => Seq::empty(),
            },
            mode: text_or_empty(j, "mode"@),
            source: text_or_empty(j, "source"@),
            model: text_or_empty(j, "model"@),
        }
    }

    /// What the note `text` says of the provenance: nothing where it is no
    /// JSON document.
    pub open spec fn of_text(text: Seq<char>) -> ProvenanceView {
        match parsed(text) {
            Some(j) => ProvenanceView::of_json(j),
            None => ProvenanceView::empty(),
        }
    }

    /// What a note that may be missing says of the provenance.
    pub open spec fn of_note(note: Option<String>) -> ProvenanceView {
        match note {
            Some(text) => ProvenanceView::of_text(text@),
            None => ProvenanceView::empty(),
        }
    }
}

fn text_or_default(v: &serde_json::Value, key: &str) -> (r: String)
    ensures
        r@ == text_or_empty(json_of(*v), key@),
{
    match text_field(v, key) {
        Some(s) => s,
        None => String::new(),
    }
}

impl Provenance {
    /// The provenance of a version that has no note.
    pub fn empty() -> (p: Provenance)
        ensures
            p@ == ProvenanceView::empty(),
    {
        let p = Provenance {
            raw_files: Vec::new(),
            mode: String::new(),
            source: String::new(),
            model: String::new(),
        };
        assert(texts(p.raw_files@) =~= Seq::<Seq<char>>::empty());
        p
    }

    /// The provenance noted for a new version. A job of the built-in source
    /// uses no model, so none is noted for it.
    pub fn new(raw_files: Vec<String>, mode: String, source: String, model: String) -> (p:
        Provenance)
        ensures
            p@.raw_files == texts(raw_files@),
            p@.mode == mode@,
            p@.source == source@,
            p@.model == (if source@ == builtin_source() {
                Seq::<char>::empty()
            } else {
                model@
            }),
    {
        let builtin = crate::text::same_text(source.as_str(), "builtin");
        Provenance {
            raw_files,
            mode,
            source,
            model: if builtin {
                String::new()
            } else {
                model
            },
        }
    }

    /// Reads the note of a version. A note that is no JSON document, or lacks
    /// a part, gives an empty provenance, or an empty part.
    pub fn from_text(text: &str) -> (p: Provenance)
        ensures
            p@ == ProvenanceView::of_text(text@),
    {
        match parse(text) {
            Err(_) => Provenance::empty(),
            Ok(v) => {
                let mut raw_files: Vec<String> = Vec::new();
                assert(texts(raw_files@) =~= Seq::<Seq<char>>::empty());
                match field(&v, "raw_files") {
                    Some(f) => match as_items(f) {
                        Some(items) => {
                            let mut i: usize = 0;
                            while i < items.len()
                                invariant
                                    i <= items.len(),
                                    texts(raw_files@) == texts_among(
                                        json_items(items@).take(i as int),
                                    ),
                                decreases items.len() - i,
                            {
                                proof {
                                    let upto = json_items(items@).take(i + 1);
                                    assert(upto.drop_last() == json_items(items@).take(i as int));
                                    assert(upto.last() == json_of(items@[i as int]));
                                }
                                match as_text(&items[i]) {
                                    Some(s) => {
                                        let name = s.to_owned();
                                        proof {
                                            lemma_texts_push(raw_files@, name);
                                        }
                                        raw_files.push(name);
                                    },
                                    None => {},
                                }
                                i += 1;
                            }
                            assert(json_items(items@).take(items@.len() as int) == json_items(
                                items@,
                            ));
                        },
                        None => {},
                    },
                    None => {},
                }
                Provenance {
                    raw_files,
                    mode: text_or_default(&v, "mode"),
                    source: text_or_default(&v, "source"),
                    model: text_or_default(&v, "model"),
                }
            },
        }
    }
}

/// What is shown of one output version.
pub struct DatasetVersionInfo {
    /// The name of the version: its time stamp.
    pub version: String,
    /// The directory of the version.
    pub path: String,
    pub train_count: usize,
    pub valid_count: usize,
    /// The size of the training data in bytes.
    pub train_size: u64,
    /// The size of the validation data in bytes.
    pub valid_size: u64,
    /// When the version was made, for display.
    pub created: String,
    pub raw_files: Vec<String>,
    pub mode: String,
    pub source: String,
    pub model: String,
}

/// What is shown of one output version, as the contracts speak of it.
pub struct VersionView {
    pub version: Seq<char>,
    pub path: Seq<char>,
    pub train_count: nat,
    pub valid_count: nat,
    pub train_size: u64,
    pub valid_size: u64,
    pub created: Seq<char>,
    pub provenance: ProvenanceView,
}

impl View for DatasetVersionInfo {
    type V = VersionView;

    open spec fn view(&self) -> VersionView {
        VersionView {
            version: self.version@,
            path: self.path@,
            train_count: self.train_count as nat,
            valid_count: self.valid_count as nat,
            train_size: self.train_size,
            valid_size: self.valid_size,
            created: self.created@,
            provenance: ProvenanceView {
                raw_files: texts(self.raw_files@),
                mode: self.mode@,
                source: self.source@,
                model: self.model@,
            },
        }
    }
}

/// What a vector of versions shows, in order.
pub open spec fn shown(v: Seq<DatasetVersionInfo>) -> Seq<VersionView> {
    v.map_values(|i: DatasetVersionInfo| i@)
}

/// A data file as it was found: what it holds and how large it is. Of a file
/// that could not be read the content is empty.
pub struct FileSnapshot {
    pub content: String,
    pub size: u64,
}

/// An entry of the root directory as it was found.
pub struct DirSnapshot {
    pub name: String,
    pub path: String,
    pub is_dir: bool,
    /// The training data, if the entry holds any.
    pub train: Option<FileSnapshot>,
    /// The validation data, if the entry holds any.
    pub valid: Option<FileSnapshot>,
    /// The note of the provenance, if the entry holds one that can be read.
    pub meta: Option<String>,
}

/// Data found directly in the root directory, from before there were versions.
pub struct LegacySnapshot {
    /// The root directory.
    pub path: String,
    pub train: FileSnapshot,
    pub valid: Option<FileSnapshot>,
    /// When the training data was last written, for display, if that is known.
    pub modified: Option<String>,
}

/// How many records a data file holds: its lines that are not blank.
pub open spec fn record_count(f: Option<FileSnapshot>) -> nat {
    match f {
        Some(f) => content_lines(f.content@).len(),
        None => 0,
    }
}

/// The size of a data file in bytes, zero where there is no file.
pub open spec fn size_of(f: Option<FileSnapshot>) -> u64 {
    match f {
        Some(f) => f.size,
        None => 0,
    }
}

/// An entry counts as a version when it is a directory that holds training
/// data. A directory without, such as one that a job still writes to or has
/// abandoned, is none.
pub open spec fn is_version(e: DirSnapshot) -> bool {
    e.is_dir && e.train is Some
}

/// What is shown of the version that the entry `e` is.
pub open spec fn version_of(e: DirSnapshot) -> VersionView {
    VersionView {
        version: e.name@,
        path: e.path@,
        train_count: record_count(e.train),
        valid_count: record_count(e.valid),
        train_size: size_of(e.train),
        valid_size: size_of(e.valid),
        created: timestamp_display(e.name@),
        provenance: ProvenanceView::of_note(e.meta),
    }
}

/// What is shown of data found directly in the root.
pub open spec fn legacy_of(l: LegacySnapshot) -> VersionView {
    VersionView {
        version: legacy_version(),
        path: l.path@,
        train_count: record_count(Some(l.train)),
        valid_count: record_count(l.valid),
        train_size: l.train.size,
        valid_size: size_of(l.valid),
        created: match l.modified {
            Some(m) => m@,
            None => legacy_version(),
        },
        provenance: ProvenanceView::empty(),
    }
}

/// The versions among `entries`, in the order of the entries.
pub open spec fn versions_among(entries: Seq<DirSnapshot>) -> Seq<VersionView>
    decreases entries.len(),
{
    if entries.len() == 0 {
        Seq::empty()
    } else if is_version(entries.last()) {
        versions_among(entries.drop_last()).push(version_of(entries.last()))
    } else {
        versions_among(entries.drop_last())
    }
}

/// Every version that there is: those among `entries`, and the legacy data.
pub open spec fn all_versions(entries: Seq<DirSnapshot>, legacy: Option<LegacySnapshot>) -> Seq<
    VersionView,
> {
    match legacy {
        Some(l) => versions_among(entries).push(legacy_of(l)),
        None => versions_among(entries),
    }
}

/// Whether the versions stand with the newest first: by name, from the
/// greatest down.
pub open spec fn newest_first(vs: Seq<VersionView>) -> bool {
    forall|i: int, j: int|
        0 <= i < j < vs.len() ==> precedes(#[trigger] vs[j].version, #[trigger] vs[i].version)
}

fn count_records(f: &Option<FileSnapshot>) -> (n: usize)
    ensures
        n == record_count(*f),
{
    match f {
        Some(f) => {
            let lines = lines_with_content(f.content.as_str());
            assert(texts(lines@).len() == lines@.len());
            lines.len()
        },
        None => 0,
    }
}

fn file_size(f: &Option<FileSnapshot>) -> (n: u64)
    ensures
        n == size_of(*f),
{
    match f {
        Some(f) => f.size,
        None => 0,
    }
}

fn describe(e: &DirSnapshot) -> (r: DatasetVersionInfo)
    ensures
        r@ == version_of(*e),
{
    let p = match &e.meta {
        Some(text) => Provenance::from_text(text.as_str()),
        None => Provenance::empty(),
    };
    DatasetVersionInfo {
        version: e.name.clone(),
        path: e.path.clone(),
        train_count: count_records(&e.train),
        valid_count: count_records(&e.valid),
        train_size: file_size(&e.train),
        valid_size: file_size(&e.valid),
        created: parse_timestamp_display(e.name.as_str()),
        raw_files: p.raw_files,
        mode: p.mode,
        source: p.source,
        model: p.model,
    }
}

fn describe_legacy(l: &LegacySnapshot) -> (r: DatasetVersionInfo)
    ensures
        r@ == legacy_of(*l),
{
    let lines = lines_with_content(l.train.content.as_str());
    assert(texts(lines@).len() == lines@.len());
    let raw_files: Vec<String> = Vec::new();
    assert(texts(raw_files@) =~= Seq::<Seq<char>>::empty());
    DatasetVersionInfo {
        version: "legacy".to_owned(),
        path: l.path.clone(),
        train_count: lines.len(),
        valid_count: count_records(&l.valid),
        train_size: l.train.size,
        valid_size: file_size(&l.valid),
        created: match &l.modified {
            Some(m) => m.clone(),
            None => "legacy".to_owned(),
        },
        raw_files,
        mode: String::new(),
        source: String::new(),
        model: String::new(),
    }
}

proof fn lemma_shown_push(v: Seq<DatasetVersionInfo>, x: DatasetVersionInfo)
    ensures
        shown(v.push(x)) == shown(v).push(x@),
{
    assert(shown(v.push(x)) =~= shown(v).push(x@));
}

impl Ranked for DatasetVersionInfo {
    /// A version stands before another when its name comes at or after the
    /// other's: the newest stands first.
    open spec fn stands_before(&self, other: &Self) -> bool {
        precedes(other.version@, self.version@)
    }

    fn goes_before(&self, other: &Self) -> (b: bool) {
        let mine = chars_of(self.version.as_str());
        let theirs = chars_of(other.version.as_str());
        comes_before(&theirs, &mine)
    }

    proof fn lemma_total(a: &Self, b: &Self) {
        lemma_precedes_total(b.version@, a.version@);
    }

    proof fn lemma_transitive(a: &Self, b: &Self, c: &Self) {
        lemma_precedes_transitive(c.version@, b.version@, a.version@);
    }
}

/// Puts the versions in order, the newest first.
pub fn sort_newest_first(items: Vec<DatasetVersionInfo>) -> (out: Vec<DatasetVersionInfo>)
    ensures
        newest_first(shown(out@)),
        shown(out@).to_multiset() == shown(items@).to_multiset(),
{
    let out = sort(items);
    proof {
        let f = |i: DatasetVersionInfo| i@;
        lemma_same_values_same_images(out@, items@, f);
        assert(out@.map_values(f) =~= shown(out@));
        assert(items@.map_values(f) =~= shown(items@));
        assert forall|i: int, j: int| 0 <= i < j < shown(out@).len() implies precedes(
            #[trigger] shown(out@)[j].version,
            #[trigger] shown(out@)[i].version,
        ) by {
            assert(out@[i].stands_before(&out@[j]));
        }
    }
    out
}

/// Lists the output versions found under a root directory, the newest first.
/// A subdirectory is listed when it holds training data; data found directly
/// in the root is listed as one more version, named `legacy`.
pub fn list_dataset_versions(entries: &Vec<DirSnapshot>, legacy: &Option<LegacySnapshot>) -> (r:
    Vec<DatasetVersionInfo>)
    ensures
        newest_first(shown(r@)),
        shown(r@).to_multiset() == all_versions(entries@, *legacy).to_multiset(),
{
    let mut found: Vec<DatasetVersionInfo> = Vec::new();
    let mut i: usize = 0;
    assert(shown(found@) =~= Seq::<VersionView>::empty());
    assert(entries@.take(0) == Seq::<DirSnapshot>::empty());
    while i < entries.len()
        invariant
            i <= entries.len(),
            shown(found@) == versions_among(entries@.take(i as int)),
        decreases entries.len() - i,
    {
        proof {
            assert(entries@.take(i + 1).drop_last() == entries@.take(i as int));
            assert(entries@.take(i + 1).last() == entries@[i as int]);
        }
        let e = &entries[i];
        if e.is_dir && e.train.is_some() {
            let info = describe(e);
            proof {
                lemma_shown_push(found@, info);
            }
            found.push(info);
        }
        i += 1;
    }
    assert(entries@.take(entries@.len() as int) == entries@);
    match legacy {
        Some(l) => {
            let info = describe_legacy(l);
            proof {
                lemma_shown_push(found@, info);
            }
            found.push(info);
        },
        None => {},
    }
    sort_newest_first(found)
}

/// A directory that holds training data is listed, under its own name:
/// whatever a listing shows of the versions, in whatever order, it shows this
/// one. So the data of a job whose directory could not be renamed is found
/// under the name that the directory kept.
pub proof fn law_artifact_is_listed(
    entries: Seq<DirSnapshot>,
    legacy: Option<LegacySnapshot>,
    listing: Seq<VersionView>,
    k: int,
)
    requires
        listing.to_multiset() == all_versions(entries, legacy).to_multiset(),
        0 <= k < entries.len(),
        is_version(entries[k]),
    ensures
        listing.contains(version_of(entries[k])),
{
    broadcast use vstd::seq_lib::group_to_multiset_ensures;

    lemma_versions_among_has(entries, k);
    let all = all_versions(entries, legacy);
    let v = version_of(entries[k]);
    let at = choose|at: int| 0 <= at < versions_among(entries).len() && versions_among(entries)[at] == v;
    assert(all[at] == v);
    assert(all.contains(v));
    assert(all.to_multiset().count(v) > 0);
}

/// Nothing is listed but directories that hold training data, and the legacy
/// data: a directory that a job has not filled yet, or has left behind
/// without training data, does not show.
pub proof fn law_only_artifacts_listed(
    entries: Seq<DirSnapshot>,
    legacy: Option<LegacySnapshot>,
    listing: Seq<VersionView>,
    v: VersionView,
)
    requires
        listing.to_multiset() == all_versions(entries, legacy).to_multiset(),
        listing.contains(v),
    ensures
        (legacy matches Some(l) && v == legacy_of(l)) || (exists|k: int|
            0 <= k < entries.len() && is_version(#[trigger] entries[k]) && v == version_of(
                entries[k],
            )),
{
    broadcast use vstd::seq_lib::group_to_multiset_ensures;

    let all = all_versions(entries, legacy);
    assert(listing.to_multiset().count(v) > 0);
    assert(all.contains(v));
    let at = choose|at: int| 0 <= at < all.len() && all[at] == v;
    if at < versions_among(entries).len() {
        assert(versions_among(entries)[at] == v);
        lemma_versions_among_from(entries, at);
    }
}

proof fn lemma_versions_among_has(entries: Seq<DirSnapshot>, k: int)
    requires
        0 <= k < entries.len(),
        is_version(entries[k]),
    ensures
        exists|at: int|
            0 <= at < versions_among(entries).len() && versions_among(entries)[at] == version_of(
                entries[k],
            ),
    decreases entries.len(),
{
    let rest = entries.drop_last();
    if k == entries.len() - 1 {
        let at = versions_among(rest).len() as int;
        assert(versions_among(entries)[at] == version_of(entries[k]));
    } else {
        lemma_versions_among_has(rest, k);
        let at = choose|at: int|
            0 <= at < versions_among(rest).len() && versions_among(rest)[at] == version_of(rest[k]);
        assert(versions_among(entries)[at] == version_of(entries[k]));
    }
}

proof fn lemma_versions_among_from(entries: Seq<DirSnapshot>, at: int)
    requires
        0 <= at < versions_among(entries).len(),
    ensures
        exists|k: int|
            0 <= k < entries.len() && is_version(#[trigger] entries[k]) && versions_among(
                entries,
            )[at] == version_of(entries[k]),
    decreases entries.len(),
{
    let rest = entries.drop_last();
    if is_version(entries.last()) && at == versions_among(rest).len() {
        assert(is_version(entries[entries.len() - 1]));
    } else {
        lemma_versions_among_from(rest, at);
        let k = choose|k: int|
            0 <= k < rest.len() && is_version(#[trigger] rest[k]) && versions_among(rest)[at]
                == version_of(rest[k]);
        assert(is_version(entries[k]));
    }
}

/// How many lines of the training data a preview reads.
pub const PREVIEW_LINES: usize = 50;

/// The name of the file that holds the training data of a version.
pub open spec fn train_file() -> Seq<char> {
    "train.jsonl"@
}

/// The greatest of `names`, and the first of those where several are as
/// great; none where there is no name.
pub open spec fn greatest(names: Seq<Seq<char>>) -> Option<Seq<char>>
    decreases names.len(),
{
    if names.len() == 0 {
        None
    } else {
        match greatest(names.drop_last()) {
            Some(g) => if precedes(names.last(), g) {
                Some(g)
            } else {
                Some(names.last())
            },
            None => Some(names.last()),
        }
    }
}

/// The training data of the newest version below `root`, where `versions`
/// names the versions that there are.
pub open spec fn latest_train_path(root: Seq<char>, versions: Seq<Seq<char>>) -> Option<Seq<char>> {
    match greatest(versions) {
        Some(v) => Some(child_path(child_path(root, v), train_file())),
        None => None,
    }
}

/// Finds the training data of the newest version below `root`. `versions`
/// names the directories below `root` that hold training data.
pub fn find_latest_train_path(root: &str, versions: &Vec<String>) -> (r: Option<String>)
    ensures
        text_of(r) == latest_train_path(root@, texts(versions@)),
{
    if versions.len() == 0 {
        assert(texts(versions@).len() == 0);
        return None;
    }
    let mut best: usize = 0;
    let mut best_chars = chars_of(versions[0].as_str());
    let mut i: usize = 1;
    proof {
        assert(texts(versions@).take(1).drop_last() == Seq::<Seq<char>>::empty());
        assert(texts(versions@).take(1).last() == versions@[0]@);
        reveal_with_fuel(greatest, 2);
    }
    while i < versions.len()
        invariant
            1 <= i <= versions.len(),
            best < i,
            best_chars@ == versions@[best as int]@,
            greatest(texts(versions@).take(i as int)) == Some(best_chars@),
        decreases versions.len() - i,
    {
        proof {
            let upto = texts(versions@).take(i + 1);
            assert(upto.drop_last() == texts(versions@).take(i as int));
            assert(upto.last() == versions@[i as int]@);
        }
        let other = chars_of(versions[i].as_str());
        if !comes_before(&other, &best_chars) {
            best = i;
            best_chars = other;
        }
        i += 1;
    }
    assert(texts(versions@).take(versions@.len() as int) == texts(versions@));
    let dir = child_of(root, versions[best].as_str());
    Some(child_of(dir.as_str(), "train.jsonl"))
}

/// The file that a preview of the version `version` reads. A version that is
/// named, other than the legacy one, is read from its own directory. For the
/// legacy version, and where none is named, the data found directly in the
/// root is read if there is any, and else the newest version; it is an error
/// if there is neither.
pub open spec fn preview_path(
    root: Seq<char>,
    version: Option<Seq<char>>,
    legacy_exists: bool,
    versions: Seq<Seq<char>>,
) -> Result<Seq<char>, Seq<char>> {
    match version {
        Some(v) if v != legacy_version() => Ok(child_path(child_path(root, v), train_file())),
        _ => if legacy_exists {
            Ok(child_path(root, train_file()))
        } else {
            match latest_train_path(root, versions) {
                Some(p) => Ok(p),
                None => Err("No dataset found"@),
            }
        },
    }
}

/// Chooses the file that a preview of a version reads.
pub fn preview_train_path(
    root: &str,
    version: Option<&str>,
    legacy_exists: bool,
    versions: &Vec<String>,
) -> (r: Result<String, String>)
    ensures
        match r {
            Ok(p) => preview_path(root@, opt_text(version), legacy_exists, texts(versions@)) == Ok::<
                Seq<char>,
                Seq<char>,
            >(p@),
            Err(m) => preview_path(root@, opt_text(version), legacy_exists, texts(versions@))
                == Err::<Seq<char>, Seq<char>>(m@),
        },
{
    match version {
        Some(v) => {
            if !crate::text::same_text(v, "legacy") {
                let dir = child_of(root, v);
                return Ok(child_of(dir.as_str(), "train.jsonl"));
            }
        },
        None => {},
    }
    if legacy_exists {
        Ok(child_of(root, "train.jsonl"))
    } else {
        match find_latest_train_path(root, versions) {
            Some(p) => Ok(p),
            None => Err("No dataset found".to_owned()),
        }
    }
}

/// The documents among `lines`, in order; a line that is no JSON document is
/// left out.
pub open spec fn documents_among(lines: Seq<Seq<char>>) -> Seq<Json>
    decreases lines.len(),
{
    if lines.len() == 0 {
        Seq::empty()
    } else {
        match parsed(lines.last()) {
            Some(j) => documents_among(lines.drop_last()).push(j),
            None => documents_among(lines.drop_last()),
        }
    }
}

/// The first `n` of `lines`, or all of them where there are no more.
pub open spec fn first_lines(lines: Seq<Seq<char>>, n: nat) -> Seq<Seq<char>> {
    if lines.len() <= n {
        lines
    } else {
        lines.take(n as int)
    }
}

/// What a preview shows of training data: the documents among its first
/// `PREVIEW_LINES` lines.
pub open spec fn preview_documents(content: Seq<char>) -> Seq<Json> {
    documents_among(first_lines(text_lines(content), PREVIEW_LINES as nat))
}

/// Reads the preview of training data.
pub fn get_dataset_preview(content: &str) -> (r: Vec<serde_json::Value>)
    ensures
        json_items(r@) == preview_documents(content@),
{
    let lines = lines_of(content);
    assert(texts(lines@).len() == lines@.len());
    let n: usize = if lines.len() <= PREVIEW_LINES {
        lines.len()
    } else {
        PREVIEW_LINES
    };
    let mut r: Vec<serde_json::Value> = Vec::new();
    let mut i: usize = 0;
    proof {
        assert(json_items(r@) =~= Seq::<Json>::empty());
        assert(texts(lines@).take(0) == Seq::<Seq<char>>::empty());
    }
    while i < n
        invariant
            i <= n <= lines.len(),
            json_items(r@) == documents_among(texts(lines@).take(i as int)),
        decreases n - i,
    {
        proof {
            let upto = texts(lines@).take(i + 1);
            assert(upto.drop_last() == texts(lines@).take(i as int));
            assert(upto.last() == lines@[i as int]@);
        }
        match parse(lines[i].as_str()) {
            Ok(v) => {
                assert(json_items(r@.push(v)) =~= json_items(r@).push(json_of(v)));
                r.push(v);
            },
            Err(_) => {},
        }
        i += 1;
    }
    proof {
        if lines.len() <= PREVIEW_LINES {
            assert(texts(lines@).take(n as int) == texts(lines@));
        }
    }
    r
}

} // verus!
