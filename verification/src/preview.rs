//! A preview of the cleaned segments of a project: a few of them, cut
//! short, and figures over all of them. The preview is shown only while
//! the segments are up to date with the raw files that they were cut from.

use vstd::prelude::*;
use crate::json::{
    as_items, field, json_items, json_of, member, number_at, number_field, parse, parsed,
    text_at, text_field, Json,
};
use crate::text::{
    chain, chars_of, content_lines, is_blank, lines_with_content, same_text, slice_string,
    string_of, texts, trim_bounds, trimmed,
};

verus! {

/// How many segments a preview shows where the request does not say.
pub const DEFAULT_ITEMS: usize = 8;

/// The most segments that a preview shows.
pub const MOST_ITEMS: usize = 50;

/// How many characters of a segment a preview shows.
pub const PREVIEW_CHARS: usize = 180;

/// A segment of fewer characters than this counts as short.
pub const SHORT_BELOW: usize = 160;

/// A segment of more characters than this counts as long.
pub const LONG_ABOVE: usize = 1800;

/// The strategy of a segment that names none.
pub open spec fn default_strategy() -> Seq<char> {
    "paragraph_balanced"@
}

/// One segment of a preview.
pub struct SegmentPreviewItem {
    pub id: usize,
    pub text_preview: String,
    pub char_count: usize,
    pub line_count: usize,
    pub strategy: String,
    pub source_file: String,
}

/// The figures of a preview.
pub struct SegmentPreviewSummary {
    pub total_segments: usize,
    pub avg_chars: usize,
    pub min_chars: usize,
    pub max_chars: usize,
    pub short_segments: usize,
    pub long_segments: usize,
    pub primary_strategy: String,
}

/// A preview of the cleaned segments.
pub struct SegmentPreviewResponse {
    pub summary: SegmentPreviewSummary,
    pub items: Vec<SegmentPreviewItem>,
}

/// A raw file as the preview of it starts: its name, extension and size, and
/// the beginning of what it holds.
pub struct RawFileSample {
    pub name: String,
    pub ext: String,
    pub size: u64,
    pub snippet: String,
}

impl SegmentPreviewResponse {
    /// Whether the preview shows nothing: no segment, every figure zero, and
    /// the default strategy.
    pub open spec fn is_empty(&self) -> bool {
        &&& self.items@.len() == 0
        &&& self.summary.total_segments == 0
        &&& self.summary.avg_chars == 0
        &&& self.summary.min_chars == 0
        &&& self.summary.max_chars == 0
        &&& self.summary.short_segments == 0
        &&& self.summary.long_segments == 0
        &&& self.summary.primary_strategy@ == default_strategy()
    }

    /// The preview that shows nothing.
    pub fn empty() -> (r: SegmentPreviewResponse)
        ensures
            r.is_empty(),
    {
        SegmentPreviewResponse {
            summary: SegmentPreviewSummary {
                total_segments: 0,
                avg_chars: 0,
                min_chars: 0,
                max_chars: 0,
                short_segments: 0,
                long_segments: 0,
                primary_strategy: "paragraph_balanced".to_owned(),
            },
            items: Vec::new(),
        }
    }
}

/// `s` with every line ending made a line feed: a carriage return with a line
/// feed behind it becomes one line feed, and any other carriage return too.
pub open spec fn unix_lines(s: Seq<char>) -> Seq<char>
    decreases s.len(),
{
    if s.len() == 0 {
        Seq::empty()
    } else if s[0] == '\r' && s.len() > 1 && s[1] == '\n' {
        seq!['\n'] + unix_lines(s.skip(2))
    } else if s[0] == '\r' {
        seq!['\n'] + unix_lines(s.skip(1))
    } else {
        seq![s[0]] + unix_lines(s.skip(1))
    }
}

/// The beginning of `text` for display: its line endings made line feeds, and
/// what goes beyond `max_chars` characters replaced by an ellipsis.
pub open spec fn truncated(text: Seq<char>, max_chars: nat) -> Seq<char> {
    let t = unix_lines(text);
    if t.len() > max_chars {
        t.take(max_chars as int).push('…')
    } else {
        t
    }
}

fn with_unix_lines(v: &Vec<char>) -> (out: Vec<char>)
    ensures
        out@ == unix_lines(v@),
{
    let mut out: Vec<char> = Vec::new();
    let mut i: usize = 0;
    proof {
        assert(v@.skip(0) == v@);
        assert(Seq::<char>::empty() + unix_lines(v@) == unix_lines(v@));
    }
    while i < v.len()
        invariant
            i <= v.len(),
            unix_lines(v@) == out@ + unix_lines(v@.skip(i as int)),
        decreases v.len() - i,
    {
        let ghost rest = v@.skip(i as int);
        let ghost before = out@;
        proof {
            assert(rest[0] == v@[i as int]);
            assert(rest.skip(1) == v@.skip(i + 1));
            if i + 1 < v.len() {
                assert(rest[1] == v@[i + 1]);
                assert(rest.skip(2) == v@.skip(i + 2));
            }
        }
        if v[i] == '\r' {
            out.push('\n');
            if i + 1 < v.len() && v[i + 1] == '\n' {
                assert(out@ + unix_lines(v@.skip(i + 2)) == before + (seq!['\n'] + unix_lines(
                    rest.skip(2),
                )));
                i += 2;
            } else {
                assert(out@ + unix_lines(v@.skip(i + 1)) == before + (seq!['\n'] + unix_lines(
                    rest.skip(1),
                )));
                i += 1;
            }
        } else {
            out.push(v[i]);
            assert(out@ + unix_lines(v@.skip(i + 1)) == before + (seq![rest[0]] + unix_lines(
                rest.skip(1),
            )));
            i += 1;
        }
    }
    assert(v@.skip(v@.len() as int) == Seq::<char>::empty());
    assert(out@ + Seq::<char>::empty() == out@);
    out
}

/// Cuts `text` short for display.
pub fn truncate_preview(text: &str, max_chars: usize) -> (r: String)
    ensures
        r@ == truncated(text@, max_chars as nat),
{
    let v = chars_of(text);
    let t = with_unix_lines(&v);
    if t.len() > max_chars {
        let mut r = slice_string(&t, 0, max_chars);
        r.append("…");
        proof {
            reveal_strlit("…");
            assert("…"@ == seq!['…']);
            assert(t@.subrange(0, max_chars as int) == t@.take(max_chars as int));
            assert(t@.take(max_chars as int) + seq!['…'] == t@.take(max_chars as int).push('…'));
        }
        r
    } else {
        string_of(&t)
    }
}

/// A raw file as the segments know it: by name, size and time of change.
pub struct RawFileSignature {
    pub name: String,
    pub size_bytes: u64,
    pub modified_ts: u64,
}

/// A raw file as the segments know it, as the contracts speak of it.
pub struct SignatureView {
    pub name: Seq<char>,
    pub size_bytes: u64,
    pub modified_ts: u64,
}

impl View for RawFileSignature {
    type V = SignatureView;

    open spec fn view(&self) -> SignatureView {
        SignatureView {
            name: self.name@,
            size_bytes: self.size_bytes,
            modified_ts: self.modified_ts,
        }
    }
}

/// What a vector of signatures holds, in order.
pub open spec fn signatures(v: Seq<RawFileSignature>) -> Seq<SignatureView> {
    v.map_values(|s: RawFileSignature| s@)
}

/// The note that the cleaning leaves of the raw files it has read.
pub enum ManifestFile {
    /// There is no note.
    Absent,
    /// There is a note, and it cannot be read.
    Unreadable,
    /// The text of the note.
    Text(String),
}

/// The integer under `key` of `j`, or zero where there is none.
pub open spec fn number_or_zero(j: Json, key: Seq<char>) -> u64 {
    match number_at(j, key) {
        Some(n) => n,
        None => 0,
    }
}

/// The raw file that an entry of the note names; none where the entry has no
/// name, or a blank one.
pub open spec fn noted_file(entry: Json) -> Option<SignatureView> {
    match text_at(entry, "name"@) {
        Some(name) => if is_blank(name) {
            None
        } else {
            Some(
                SignatureView {
                    name,
                    size_bytes: number_or_zero(entry, "size_bytes"@),
                    modified_ts: number_or_zero(entry, "modified_ts"@),
                },
            )
        },
        None => None,
    }
}

/// The raw files that the entries of the note name, in order.
pub open spec fn noted_files(entries: Seq<Json>) -> Seq<SignatureView>
    decreases entries.len(),
{
    if entries.len() == 0 {
        Seq::empty()
    } else {
        match noted_file(entries.last()) {
            Some(f) => noted_files(entries.drop_last()).push(f),
            None => noted_files(entries.drop_last()),
        }
    }
}

/// Whether two lists name the same files: as many, and each of either list
/// in the other, with the same size and time of change.
pub open spec fn same_files(a: Seq<SignatureView>, b: Seq<SignatureView>) -> bool {
    &&& a.len() == b.len()
    &&& forall|i: int| 0 <= i < a.len() ==> b.contains(#[trigger] a[i])
    &&& forall|j: int| 0 <= j < b.len() ==> a.contains(#[trigger] b[j])
}

/// The latest time of change among `raw`, zero where there is no file.
pub open spec fn newest_change(raw: Seq<SignatureView>) -> u64
    decreases raw.len(),
{
    if raw.len() == 0 {
        0
    } else {
        let before = newest_change(raw.drop_last());
        if raw.last().modified_ts > before {
            raw.last().modified_ts
        } else {
            before
        }
    }
}

/// Whether the segments are up to date with the raw files. With a note they
/// are when the note names exactly the raw files that there are; a note
/// that cannot be read, or is no JSON document, or lists no files, says that
/// they are not. Without a note they are when no raw file was changed after
/// the segments were written.
pub open spec fn up_to_date(
    raw: Seq<SignatureView>,
    segments_modified: u64,
    manifest: ManifestFile,
) -> bool {
    match manifest {
        ManifestFile::Absent => newest_change(raw) <= segments_modified,
        ManifestFile::Unreadable => false,
        ManifestFile::Text(t) => match parsed(t@) {
            Some(j) => match member(j, "raw_files"@) {
                Some(Json::Array(entries)) => same_files(raw, noted_files(entries)),
                _ => false,
            },
            None => false,
        },
    }
}

fn same_signature(a: &RawFileSignature, b: &RawFileSignature) -> (r: bool)
    ensures
        r == (a@ == b@),
{
    a.size_bytes == b.size_bytes && a.modified_ts == b.modified_ts && same_text(
        a.name.as_str(),
        b.name.as_str(),
    )
}

fn holds(list: &Vec<RawFileSignature>, x: &RawFileSignature) -> (r: bool)
    ensures
        r == signatures(list@).contains(x@),
{
    let mut i: usize = 0;
    while i < list.len()
        invariant
            i <= list.len(),
            forall|k: int| 0 <= k < i ==> signatures(list@)[k] != x@,
        decreases list.len() - i,
    {
        if same_signature(&list[i], x) {
            assert(signatures(list@)[i as int] == x@);
            return true;
        }
        i += 1;
    }
    false
}

fn all_within(a: &Vec<RawFileSignature>, b: &Vec<RawFileSignature>) -> (r: bool)
    ensures
        r == (forall|i: int|
            0 <= i < a.len() ==> signatures(b@).contains(#[trigger] signatures(a@)[i])),
{
    let mut i: usize = 0;
    while i < a.len()
        invariant
            i <= a.len(),
            forall|k: int| 0 <= k < i ==> signatures(b@).contains(#[trigger] signatures(a@)[k]),
        decreases a.len() - i,
    {
        if !holds(b, &a[i]) {
            assert(!signatures(b@).contains(signatures(a@)[i as int]));
            return false;
        }
        i += 1;
    }
    true
}

fn names_same_files(a: &Vec<RawFileSignature>, b: &Vec<RawFileSignature>) -> (r: bool)
    ensures
        r == same_files(signatures(a@), signatures(b@)),
{
    a.len() == b.len() && all_within(a, b) && all_within(b, a)
}

fn read_noted_files(entries: &Vec<serde_json::Value>) -> (r: Vec<RawFileSignature>)
    ensures
        signatures(r@) == noted_files(json_items(entries@)),
{
    let mut r: Vec<RawFileSignature> = Vec::new();
    let mut i: usize = 0;
    assert(signatures(r@) =~= Seq::<SignatureView>::empty());
    assert(json_items(entries@).take(0) == Seq::<Json>::empty());
    while i < entries.len()
        invariant
            i <= entries.len(),
            signatures(r@) == noted_files(json_items(entries@).take(i as int)),
        decreases entries.len() - i,
    {
        proof {
            let upto = json_items(entries@).take(i + 1);
            assert(upto.drop_last() == json_items(entries@).take(i as int));
            assert(upto.last() == json_of(entries@[i as int]));
        }
        let e = &entries[i];
        match text_field(e, "name") {
            Some(name) => {
                let v = chars_of(name.as_str());
                let (from, to) = trim_bounds(&v);
                if from < to {
                    let size_bytes = match number_field(e, "size_bytes") {
                        Some(n) => n,
                        None => 0,
                    };
                    let modified_ts = match number_field(e, "modified_ts") {
                        Some(n) => n,
                        None => 0,
                    };
                    let s = RawFileSignature { name, size_bytes, modified_ts };
                    assert(signatures(r@.push(s)) =~= signatures(r@).push(s@));
                    r.push(s);
                }
            },
            None => {},
        }
        i += 1;
    }
    assert(json_items(entries@).take(entries@.len() as int) == json_items(entries@));
    r
}

fn newest_of(raw: &Vec<RawFileSignature>) -> (r: u64)
    ensures
        r == newest_change(signatures(raw@)),
{
    let mut r: u64 = 0;
    let mut i: usize = 0;
    assert(signatures(raw@).take(0) == Seq::<SignatureView>::empty());
    while i < raw.len()
        invariant
            i <= raw.len(),
            r == newest_change(signatures(raw@).take(i as int)),
        decreases raw.len() - i,
    {
        proof {
            let upto = signatures(raw@).take(i + 1);
            assert(upto.drop_last() == signatures(raw@).take(i as int));
            assert(upto.last() == raw@[i as int]@);
        }
        if raw[i].modified_ts > r {
            r = raw[i].modified_ts;
        }
        i += 1;
    }
    assert(signatures(raw@).take(raw@.len() as int) == signatures(raw@));
    r
}

/// Finds out whether the segments are up to date with the raw files.
pub fn segments_up_to_date(
    raw: &Vec<RawFileSignature>,
    segments_modified: u64,
    manifest: &ManifestFile,
) -> (r: bool)
    ensures
        r == up_to_date(signatures(raw@), segments_modified, *manifest),
{
    match manifest {
        ManifestFile::Absent => newest_of(raw) <= segments_modified,
        ManifestFile::Unreadable => false,
        ManifestFile::Text(t) => match parse(t.as_str()) {
            Ok(v) => match field(&v, "raw_files") {
                Some(f) => match as_items(f) {
                    Some(entries) => {
                        let noted = read_noted_files(entries);
                        names_same_files(raw, &noted)
                    },
                    None => false,
                },
                None => false,
            },
            Err(_) => false,
        },
    }
}

/// One cleaned segment, as far as the preview reads it.
pub struct Segment {
    pub text: String,
    pub source_file: String,
    pub strategy: String,
    pub id: Option<u64>,
}

/// One cleaned segment, as the contracts speak of it.
pub struct SegmentView {
    pub text: Seq<char>,
    pub source_file: Seq<char>,
    pub strategy: Seq<char>,
    pub id: Option<u64>,
}

impl View for Segment {
    type V = SegmentView;

    open spec fn view(&self) -> SegmentView {
        SegmentView {
            text: self.text@,
            source_file: self.source_file@,
            strategy: self.strategy@,
            id: self.id,
        }
    }
}

/// What a vector of segments holds, in order.
pub open spec fn segments(v: Seq<Segment>) -> Seq<SegmentView> {
    v.map_values(|s: Segment| s@)
}

/// Whether one of `raw` has the name `name`.
pub open spec fn names_raw_file(raw: Seq<SignatureView>, name: Seq<char>) -> bool {
    exists|i: int| 0 <= i < raw.len() && (#[trigger] raw[i]).name == name
}

/// The text under `key` of `j`, empty where there is none.
pub open spec fn text_or_none(j: Json, key: Seq<char>) -> Seq<char> {
    match text_at(j, key) {
        Some(s) => s,
        None => Seq::empty(),
    }
}

/// The segment that a line of the segments file holds; none where the line
/// is no JSON document, holds no text, or names no raw file that there is.
pub open spec fn segment_of(line: Seq<char>, raw: Seq<SignatureView>) -> Option<SegmentView> {
    match parsed(line) {
        Some(j) => {
            let text = text_or_none(j, "text"@);
            let source = text_or_none(j, "source_file"@);
            if is_blank(text) || is_blank(source) || !names_raw_file(raw, trimmed(source)) {
                None
            } else {
                Some(
                    SegmentView {
                        text: trimmed(text),
                        source_file: trimmed(source),
                        strategy: match text_at(j, "strategy"@) {
                            Some(s) => s,
                            None => default_strategy(),
                        },
                        id: number_at(j, "id"@),
                    },
                )
            }
        },
        None => None,
    }
}

/// The segments that the lines hold, in order.
pub open spec fn segments_among(lines: Seq<Seq<char>>, raw: Seq<SignatureView>) -> Seq<
    SegmentView,
>
    decreases lines.len(),
{
    if lines.len() == 0 {
        Seq::empty()
    } else {
        match segment_of(lines.last(), raw) {
            Some(s) => segments_among(lines.drop_last(), raw).push(s),
            None => segments_among(lines.drop_last(), raw),
        }
    }
}

fn has_name(raw: &Vec<RawFileSignature>, name: &str) -> (r: bool)
    ensures
        r == names_raw_file(signatures(raw@), name@),
{
    let mut i: usize = 0;
    while i < raw.len()
        invariant
            i <= raw.len(),
            forall|k: int| 0 <= k < i ==> (#[trigger] signatures(raw@)[k]).name != name@,
        decreases raw.len() - i,
    {
        if same_text(raw[i].name.as_str(), name) {
            assert(signatures(raw@)[i as int].name == name@);
            return true;
        }
        i += 1;
    }
    false
}

fn text_or_nothing(v: &serde_json::Value, key: &str) -> (r: String)
    ensures
        r@ == text_or_none(json_of(*v), key@),
{
    match text_field(v, key) {
        Some(s) => s,
        None => String::new(),
    }
}

fn read_segment(line: &str, raw: &Vec<RawFileSignature>) -> (r: Option<Segment>)
    ensures
        match r {
            Some(s) => segment_of(line@, signatures(raw@)) == Some(s@),
            None => segment_of(line@, signatures(raw@)) is None,
        },
{
    match parse(line) {
        Err(_) => None,
        Ok(v) => {
            let text = text_or_nothing(&v, "text");
            let t = chars_of(text.as_str());
            let (from, to) = trim_bounds(&t);
            if from == to {
                return None;
            }
            let source = text_or_nothing(&v, "source_file");
            let s = chars_of(source.as_str());
            let (sfrom, sto) = trim_bounds(&s);
            if sfrom == sto {
                return None;
            }
            let source_file = slice_string(&s, sfrom, sto);
            if !has_name(raw, source_file.as_str()) {
                return None;
            }
            let strategy = match text_field(&v, "strategy") {
                Some(s) => s,
                None => "paragraph_balanced".to_owned(),
            };
            Some(
                Segment {
                    text: slice_string(&t, from, to),
                    source_file,
                    strategy,
                    id: number_field(&v, "id"),
                },
            )
        },
    }
}

/// Reads the segments that the segments file holds: one for each of its lines
/// that is a JSON document with a text and the name of a raw file that there
/// is.
pub fn read_segments(content: &str, raw: &Vec<RawFileSignature>) -> (r: Vec<Segment>)
    ensures
        segments(r@) == segments_among(content_lines(content@), signatures(raw@)),
{
    let lines = lines_with_content(content);
    let mut r: Vec<Segment> = Vec::new();
    let mut i: usize = 0;
    assert(segments(r@) =~= Seq::<SegmentView>::empty());
    assert(texts(lines@).take(0) == Seq::<Seq<char>>::empty());
    while i < lines.len()
        invariant
            i <= lines.len(),
            segments(r@) == segments_among(texts(lines@).take(i as int), signatures(raw@)),
        decreases lines.len() - i,
    {
        proof {
            let upto = texts(lines@).take(i + 1);
            assert(upto.drop_last() == texts(lines@).take(i as int));
            assert(upto.last() == lines@[i as int]@);
        }
        match read_segment(lines[i].as_str(), raw) {
            Some(s) => {
                assert(segments(r@.push(s)) =~= segments(r@).push(s@));
                r.push(s);
            },
            None => {},
        }
        i += 1;
    }
    assert(texts(lines@).take(lines@.len() as int) == texts(lines@));
    r
}

/// The figures over the lengths of the segments.
pub struct Figures {
    pub total: nat,
    pub sum: nat,
    pub min: nat,
    pub max: nat,
    pub short: nat,
    pub long: nat,
}

/// The figures over the segments `segs`: how many there are, how many
/// characters they hold together, the fewest and the most that one holds, and
/// how many are short and how many long.
pub open spec fn figures_of(segs: Seq<SegmentView>) -> Figures
    decreases segs.len(),
{
    if segs.len() == 0 {
        Figures { total: 0, sum: 0, min: 0, max: 0, short: 0, long: 0 }
    } else {
        let f = figures_of(segs.drop_last());
        let n = segs.last().text.len();
        Figures {
            total: f.total + 1,
            sum: f.sum + n,
            min: if f.total == 0 || n < f.min {
                n
            } else {
                f.min
            },
            max: if n > f.max {
                n
            } else {
                f.max
            },
            short: if n < SHORT_BELOW {
                f.short + 1
            } else {
                f.short
            },
            long: if n > LONG_ABOVE {
                f.long + 1
            } else {
                f.long
            },
        }
    }
}

/// How often each strategy occurs among `segs`, the strategies in the order
/// in which they first occur.
pub open spec fn tallies(segs: Seq<SegmentView>) -> Seq<(Seq<char>, nat)>
    decreases segs.len(),
{
    if segs.len() == 0 {
        Seq::empty()
    } else {
        tallied(tallies(segs.drop_last()), segs.last().strategy)
    }
}

/// The tallies `t` with one more occurrence of `strategy`.
pub open spec fn tallied(t: Seq<(Seq<char>, nat)>, strategy: Seq<char>) -> Seq<(Seq<char>, nat)> {
    match position_in(t, strategy) {
        Some(i) => t.update(i, (strategy, t[i].1 + 1)),
        None => t.push((strategy, 1)),
    }
}

/// Where `strategy` stands in the tallies `t`.
pub open spec fn position_in(t: Seq<(Seq<char>, nat)>, strategy: Seq<char>) -> Option<int>
    decreases t.len(),
{
    if t.len() == 0 {
        None
    } else {
        match position_in(t.drop_last(), strategy) {
            Some(i) => Some(i),
            None => if t.last().0 == strategy {
                Some(t.len() - 1)
            } else {
                None
            },
        }
    }
}

/// The index of the strategy of `t` that occurs most often, the first such
/// where several occur as often.
pub open spec fn most_frequent(t: Seq<(Seq<char>, nat)>) -> int
    decreases t.len(),
{
    if t.len() <= 1 {
        0
    } else {
        let best = most_frequent(t.drop_last());
        if t.last().1 > t[best].1 {
            t.len() - 1
        } else {
            best
        }
    }
}

/// The strategy that most of `segs` were cut by: the one that occurs most
/// often, the one that occurs first where several occur as often, and the
/// default strategy where there is no segment.
pub open spec fn primary_strategy(segs: Seq<SegmentView>) -> Seq<char> {
    let t = tallies(segs);
    if t.len() == 0 {
        default_strategy()
    } else {
        t[most_frequent(t)].0
    }
}

/// What a preview shows of the segment `s`, which is the one of index `index`
/// among the segments: its id, or its index where it has none; the beginning
/// of its text; and how many characters and lines it holds.
pub open spec fn shown_as(s: SegmentView, index: nat, item: SegmentPreviewItem) -> bool {
    &&& item.id as nat == capped(
        match s.id {
            Some(id) => id as nat,
            None => index,
        },
    )
    &&& item.text_preview@ == truncated(s.text, PREVIEW_CHARS as nat)
    &&& item.char_count as nat == capped(s.text.len())
    &&& item.line_count as nat == at_least_one(content_lines(s.text).len())
    &&& item.strategy@ == s.strategy
    &&& item.source_file@ == s.source_file
}

/// `n`, or the greatest number that fits where `n` does not.
pub open spec fn capped(n: nat) -> nat {
    if n > usize::MAX {
        usize::MAX as nat
    } else {
        n
    }
}

/// `n`, or one where `n` is zero.
pub open spec fn at_least_one(n: nat) -> nat {
    if n == 0 {
        1
    } else {
        n
    }
}

/// How many segments a preview shows for the limit asked for: the limit, but
/// at least one and no more than `MOST_ITEMS`; and `DEFAULT_ITEMS` where none
/// is asked for.
pub open spec fn items_shown(limit: Option<usize>) -> nat {
    match limit {
        Some(n) => if n < 1 {
            1
        } else if n > MOST_ITEMS {
            MOST_ITEMS as nat
        } else {
            n as nat
        },
        None => DEFAULT_ITEMS as nat,
    }
}

/// Whether `r` is the preview of the segments `segs` for the limit `limit`.
pub open spec fn previews(segs: Seq<SegmentView>, limit: Option<usize>, r: SegmentPreviewResponse) -> bool {
    let f = figures_of(segs);
    if segs.len() == 0 {
        r.is_empty()
    } else {
        &&& r.summary.total_segments as nat == capped(f.total)
        &&& r.summary.avg_chars as nat == capped(f.sum) / capped(f.total)
        &&& r.summary.min_chars as nat == capped(f.min)
        &&& r.summary.max_chars as nat == capped(f.max)
        &&& r.summary.short_segments as nat == capped(f.short)
        &&& r.summary.long_segments as nat == capped(f.long)
        &&& r.summary.primary_strategy@ == primary_strategy(segs)
        &&& r.items@.len() == (if segs.len() < items_shown(limit) {
            segs.len()
        } else {
            items_shown(limit)
        })
        &&& forall|k: int|
            0 <= k < r.items@.len() ==> shown_as(segs[k], k as nat, #[trigger] r.items@[k])
    }
}

/// A tally of the segments cut by one strategy.
struct Tally {
    strategy: String,
    count: usize,
}

spec fn tally_views(v: Seq<Tally>) -> Seq<(Seq<char>, nat)> {
    v.map_values(|t: Tally| (t.strategy@, t.count as nat))
}

fn find_tally(t: &Vec<Tally>, strategy: &str) -> (r: Option<usize>)
    ensures
        match r {
            Some(i) => position_in(tally_views(t@), strategy@) == Some(i as int) && i < t.len(),
            None => position_in(tally_views(t@), strategy@) is None,
        },
{
    let mut i: usize = 0;
    assert(tally_views(t@).take(0) == Seq::<(Seq<char>, nat)>::empty());
    while i < t.len()
        invariant
            i <= t.len(),
            position_in(tally_views(t@).take(i as int), strategy@) is None,
        decreases t.len() - i,
    {
        proof {
            let upto = tally_views(t@).take(i + 1);
            assert(upto.drop_last() == tally_views(t@).take(i as int));
            assert(upto.last() == (t@[i as int].strategy@, t@[i as int].count as nat));
        }
        if same_text(t[i].strategy.as_str(), strategy) {
            proof {
                lemma_position_stays(tally_views(t@), strategy@, i as int);
            }
            return Some(i);
        }
        i += 1;
    }
    assert(tally_views(t@).take(t@.len() as int) == tally_views(t@));
    None
}

proof fn lemma_position_stays(t: Seq<(Seq<char>, nat)>, strategy: Seq<char>, i: int)
    requires
        0 <= i < t.len(),
        position_in(t.take(i + 1), strategy) == Some(i),
    ensures
        position_in(t, strategy) == Some(i),
    decreases t.len(),
{
    if t.len() > i + 1 {
        assert(t.drop_last().take(i + 1) == t.take(i + 1));
        lemma_position_stays(t.drop_last(), strategy, i);
    } else {
        assert(t.take(i + 1) == t);
    }
}

fn best_tally(t: &Vec<Tally>) -> (r: usize)
    requires
        t.len() > 0,
    ensures
        r == most_frequent(tally_views(t@)),
        r < t.len(),
{
    let mut best: usize = 0;
    let mut i: usize = 1;
    proof {
        assert(tally_views(t@).take(1).len() == 1);
    }
    while i < t.len()
        invariant
            1 <= i <= t.len(),
            best < i,
            best == most_frequent(tally_views(t@).take(i as int)),
        decreases t.len() - i,
    {
        proof {
            let upto = tally_views(t@).take(i + 1);
            assert(upto.drop_last() == tally_views(t@).take(i as int));
            assert(upto.last() == (t@[i as int].strategy@, t@[i as int].count as nat));
            assert(upto[best as int] == (t@[best as int].strategy@, t@[best as int].count as nat));
        }
        if t[i].count > t[best].count {
            best = i;
        }
        i += 1;
    }
    assert(tally_views(t@).take(t@.len() as int) == tally_views(t@));
    best
}

fn count_lines(text: &str) -> (n: usize)
    ensures
        n as nat == at_least_one(content_lines(text@).len()),
{
    let lines = lines_with_content(text);
    assert(texts(lines@).len() == lines@.len());
    if lines.len() == 0 {
        1
    } else {
        lines.len()
    }
}

fn cap(n: u64) -> (r: usize)
    ensures
        r as nat == capped(n as nat),
{
    if n > usize::MAX as u64 {
        usize::MAX
    } else {
        n as usize
    }
}

/// Makes the preview of the segments `segs`.
pub fn preview_of(segs: &Vec<Segment>, limit: Option<usize>) -> (r: SegmentPreviewResponse)
    ensures
        previews(segments(segs@), limit, r),
{
    if segs.len() == 0 {
        assert(segments(segs@).len() == 0);
        return SegmentPreviewResponse::empty();
    }
    let most: usize = match limit {
        Some(n) => if n < 1 {
            1
        } else if n > MOST_ITEMS {
            MOST_ITEMS
        } else {
            n
        },
        None => DEFAULT_ITEMS,
    };
    let mut sum: usize = 0;
    let mut min: usize = 0;
    let mut max: usize = 0;
    let mut short: usize = 0;
    let mut long: usize = 0;
    let mut t: Vec<Tally> = Vec::new();
    let mut items: Vec<SegmentPreviewItem> = Vec::new();
    let mut i: usize = 0;
    proof {
        assert(segments(segs@).take(0) == Seq::<SegmentView>::empty());
        assert(tally_views(t@) =~= Seq::<(Seq<char>, nat)>::empty());
    }
    while i < segs.len()
        invariant
            i <= segs.len(),
            most == items_shown(limit),
            sum as nat == capped(figures_of(segments(segs@).take(i as int)).sum),
            min == figures_of(segments(segs@).take(i as int)).min,
            max == figures_of(segments(segs@).take(i as int)).max,
            short == figures_of(segments(segs@).take(i as int)).short,
            long == figures_of(segments(segs@).take(i as int)).long,
            figures_of(segments(segs@).take(i as int)).total == i,
            short <= i,
            long <= i,
            tally_views(t@) == tallies(segments(segs@).take(i as int)),
            forall|k: int| 0 <= k < t.len() ==> (#[trigger] t@[k]).count <= i,
            t.len() <= i,
            i > 0 ==> t.len() > 0,
            segs.len() > 0,
            items@.len() == (if i < most {
                i
            } else {
                most
            }),
            forall|k: int|
                0 <= k < items@.len() ==> shown_as(
                    segments(segs@)[k],
                    k as nat,
                    #[trigger] items@[k],
                ),
        decreases segs.len() - i,
    {
        proof {
            let upto = segments(segs@).take(i + 1);
            assert(upto.drop_last() == segments(segs@).take(i as int));
            assert(upto.last() == segs@[i as int]@);
        }
        let s = &segs[i];
        let n: usize = s.text.as_str().unicode_len();
        sum = sum.saturating_add(n);
        if i == 0 || n < min {
            min = n;
        }
        if n > max {
            max = n;
        }
        if n < SHORT_BELOW {
            short += 1;
        }
        if n > LONG_ABOVE {
            long += 1;
        }
        let ghost seen = tally_views(t@);
        match find_tally(&t, s.strategy.as_str()) {
            Some(at) => {
                let count: usize = t[at].count + 1;
                t.set(at, Tally { strategy: s.strategy.clone(), count });
                assert(tally_views(t@) =~= seen.update(at as int, (s.strategy@, seen[at as int].1 + 1)));
            },
            None => {
                t.push(Tally { strategy: s.strategy.clone(), count: 1 });
                assert(tally_views(t@) =~= seen.push((s.strategy@, 1nat)));
            },
        }
        if items.len() < most {
            let id: usize = match s.id {
                Some(id) => cap(id),
                None => i,
            };
            items.push(
                SegmentPreviewItem {
                    id,
                    text_preview: truncate_preview(s.text.as_str(), PREVIEW_CHARS),
                    char_count: n,
                    line_count: count_lines(s.text.as_str()),
                    strategy: s.strategy.clone(),
                    source_file: s.source_file.clone(),
                },
            );
        }
        i += 1;
    }
    proof {
        assert(segments(segs@).take(segs@.len() as int) == segments(segs@));
    }
    let best = best_tally(&t);
    SegmentPreviewResponse {
        summary: SegmentPreviewSummary {
            total_segments: segs.len(),
            avg_chars: sum / segs.len(),
            min_chars: min,
            max_chars: max,
            short_segments: short,
            long_segments: long,
            primary_strategy: t[best].strategy.clone(),
        },
        items,
    }
}

/// What is said where the segments file cannot be read, before the reason.
pub open spec fn unreadable_segments() -> Seq<char> {
    "Failed to read segments.jsonl: "@
}

/// The segments file as it was found.
pub struct SegmentsFile {
    /// What the file holds, or why it could not be read.
    pub content: Result<String, String>,
    pub modified_ts: u64,
}

/// Makes the preview of the cleaned segments of a project. It shows nothing
/// where there is no raw file or no segments file, and where the segments are
/// not up to date with the raw files. A segments file that cannot be read is
/// an error.
pub fn preview_clean_segments(
    raw: &Vec<RawFileSignature>,
    file: &Option<SegmentsFile>,
    manifest: &ManifestFile,
    limit: Option<usize>,
) -> (r: Result<SegmentPreviewResponse, String>)
    ensures
        match r {
            Ok(p) => if raw@.len() == 0 {
                p.is_empty()
            } else {
                match *file {
                    None => p.is_empty(),
                    Some(f) => if !up_to_date(signatures(raw@), f.modified_ts, *manifest) {
                        p.is_empty()
                    } else {
                        match f.content {
                            Ok(content) => previews(
                                segments_among(content_lines(content@), signatures(raw@)),
                                limit,
                                p,
                            ),
                            Err(_) => false,
                        }
                    },
                }
            },
            Err(m) => raw@.len() > 0 && (match *file {
                Some(f) => up_to_date(signatures(raw@), f.modified_ts, *manifest) && (
                match f.content {
                    Err(e) => m@ == unreadable_segments() + e@,
                    Ok(_) => false,
                }),
                None => false,
            }),
        },
{
    if raw.len() == 0 {
        return Ok(SegmentPreviewResponse::empty());
    }
    match file {
        None => Ok(SegmentPreviewResponse::empty()),
        Some(f) => {
            if !segments_up_to_date(raw, f.modified_ts, manifest) {
                return Ok(SegmentPreviewResponse::empty());
            }
            match &f.content {
                Err(e) => Err(chain("Failed to read segments.jsonl: ", e.as_str())),
                Ok(content) => {
                    let segs = read_segments(content.as_str(), raw);
                    Ok(preview_of(&segs, limit))
                },
            }
        },
    }
}

} // verus!
