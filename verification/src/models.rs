//! The models and adapters that are found on disk and in the daemon: what
//! counts as one, what it is called, and in which order they are shown. The
//! caller reads the directories and runs the commands.

use vstd::prelude::*;
use crate::json::{parsed, text_at, text_field};
use crate::order::{lemma_same_values_same_images, sort, Ranked};
use crate::reconciler::CommandResult;
use crate::text::{
    chain, chars_of, comes_before, ends_with, fold, folded, has_part, has_prefix, has_suffix,
    holds_part, lemma_precedes_total, lemma_precedes_transitive, occurs, pieces, precedes,
    same_text, split, split_words, starts_with, string_of, text_of, texts, words, Delimiter,
};
use crate::versioning::{child_of, child_path};

verus! {

/// Whether the daemon's program is there, and whether the daemon answers.
pub struct OllamaStatus {
    pub installed: bool,
    pub running: bool,
}

/// Tells whether the daemon answers: its program is there, and the command
/// that lists its models, run by that program, succeeded.
pub fn check_ollama_status(installed: bool, listed: &Option<CommandResult>) -> (r: OllamaStatus)
    ensures
        r.installed == installed,
        r.running == (installed && (*listed matches Some(
            CommandResult::Finished { success: true, .. },
        ))),
{
    let answered = match listed {
        Some(CommandResult::Finished { success, .. }) => *success,
        _ => false,
    };
    OllamaStatus { installed, running: installed && answered }
}

/// A model that the daemon knows.
pub struct OllamaModel {
    pub name: String,
    pub size: String,
}

/// A model that the daemon knows, as the contracts speak of it.
pub struct OllamaModelView {
    pub name: Seq<char>,
    pub size: Seq<char>,
}

impl View for OllamaModel {
    type V = OllamaModelView;

    open spec fn view(&self) -> OllamaModelView {
        OllamaModelView { name: self.name@, size: self.size@ }
    }
}

/// What a vector of models holds, in order.
pub open spec fn model_views(v: Seq<OllamaModel>) -> Seq<OllamaModelView> {
    v.map_values(|m: OllamaModel| m@)
}

/// The model that a line of the daemon's list names: its first word is the
/// name and its third the size, which is empty where the line has but two
/// words. A line of fewer than two words names none.
pub open spec fn listed_model(line: Seq<char>) -> Option<OllamaModelView> {
    let ws = words(line);
    if ws.len() >= 2 {
        Some(
            OllamaModelView {
                name: ws[0],
                size: if ws.len() > 2 {
                    ws[2]
                } else {
                    Seq::empty()
                },
            },
        )
    } else {
        None
    }
}

/// The models that the lines name, in order.
pub open spec fn listed_models(lines: Seq<Seq<char>>) -> Seq<OllamaModelView>
    decreases lines.len(),
{
    if lines.len() == 0 {
        Seq::empty()
    } else {
        match listed_model(lines.last()) {
            Some(m) => listed_models(lines.drop_last()).push(m),
            None => listed_models(lines.drop_last()),
        }
    }
}

/// The models that the daemon's list names: those of its lines but the
/// first, which is the heading.
pub open spec fn models_in_list(stdout: Seq<char>) -> Seq<OllamaModelView> {
    listed_models(pieces(stdout, Delimiter::Char('\n')).skip(1))
}

/// Reads the models from the daemon's list.
pub fn parse_ollama_list(stdout: &str) -> (r: Vec<OllamaModel>)
    ensures
        model_views(r@) == models_in_list(stdout@),
{
    let v = chars_of(stdout);
    let lines = split(&v, Delimiter::Char('\n'));
    let mut r: Vec<OllamaModel> = Vec::new();
    assert(model_views(r@) =~= Seq::<OllamaModelView>::empty());
    proof {
        crate::text::lemma_pieces_nonempty(v@, Delimiter::Char('\n'));
        assert(texts(lines@).len() == lines@.len());
        assert(texts(lines@).subrange(1, 1) == Seq::<Seq<char>>::empty());
    }
    let mut i: usize = 1;
    while i < lines.len()
        invariant
            1 <= i <= lines.len(),
            model_views(r@) == listed_models(texts(lines@).subrange(1, i as int)),
        decreases lines.len() - i,
    {
        proof {
            let upto = texts(lines@).subrange(1, i + 1);
            assert(upto.drop_last() == texts(lines@).subrange(1, i as int));
            assert(upto.last() == lines@[i as int]@);
        }
        let ws = split_words(lines[i].as_str());
        assert(texts(ws@).len() == ws@.len());
        if ws.len() >= 2 {
            let size = if ws.len() > 2 {
                ws[2].clone()
            } else {
                String::new()
            };
            let m = OllamaModel { name: ws[0].clone(), size };
            assert(model_views(r@.push(m)) =~= model_views(r@).push(m@));
            r.push(m);
        }
        i += 1;
    }
    assert(texts(lines@).subrange(1, lines@.len() as int) == texts(lines@).skip(1));
    r
}

/// Lists the models that the daemon knows, from the outcome of the command
/// that asks it. Without the daemon's program, and with a daemon that does
/// not answer, there are none; a command that could not be run is an error.
pub fn list_ollama_models(listed: &Option<CommandResult>) -> (r: Result<Vec<OllamaModel>, String>)
    ensures
        match *listed {
            Some(CommandResult::Unavailable(e)) => r matches Err(m) && m@
                == "Failed to run ollama list: "@ + e@,
            Some(CommandResult::Finished { success: true, stdout, .. }) => r matches Ok(v)
                && model_views(v@) == models_in_list(stdout@),
            _ => r matches Ok(v) && v@.len() == 0,
        },
{
    match listed {
        Some(CommandResult::Unavailable(e)) => Err(chain("Failed to run ollama list: ", e.as_str())),
        Some(CommandResult::Finished { success, stdout, .. }) => {
            if *success {
                Ok(parse_ollama_list(stdout.as_str()))
            } else {
                Ok(Vec::new())
            }
        },
        None => Ok(Vec::new()),
    }
}

/// Where the daemon keeps the list of its library below its directory.
pub open spec fn library_dir(base: Seq<char>) -> Seq<char> {
    child_path(child_path(child_path(base, "manifests"@), "registry.ollama.ai"@), "library"@)
}

/// Names the directory of the daemon's library below its directory `base`.
pub fn ollama_library_dir(base: &str) -> (r: String)
    ensures
        r@ == library_dir(base@),
{
    let m = child_of(base, "manifests");
    let reg = child_of(m.as_str(), "registry.ollama.ai");
    child_of(reg.as_str(), "library")
}

/// The directories of the daemon as the settings page shows them.
pub struct OllamaPathInfo {
    pub default_path: String,
    pub effective_path: String,
    pub configured_path: Option<String>,
    /// Whether the directory of the settings holds a library.
    pub configured_has_layout: bool,
    /// How many models the directory of the settings holds.
    pub configured_model_count: usize,
}

/// Puts together the directories of the daemon for the settings page. Of a
/// directory that the settings do not name nothing is counted.
pub fn get_ollama_path_info(
    default_path: String,
    effective_path: String,
    configured_path: Option<String>,
    has_layout: bool,
    model_count: usize,
) -> (r: OllamaPathInfo)
    ensures
        r.default_path == default_path,
        r.effective_path == effective_path,
        r.configured_path == configured_path,
        r.configured_has_layout == (configured_path is Some && has_layout),
        r.configured_model_count == (if configured_path is Some {
            model_count
        } else {
            0
        }),
{
    let named = configured_path.is_some();
    OllamaPathInfo {
        default_path,
        effective_path,
        configured_path,
        configured_has_layout: named && has_layout,
        configured_model_count: if named {
            model_count
        } else {
            0
        },
    }
}

/// A trained adapter.
pub struct AdapterInfo {
    pub name: String,
    pub path: String,
    /// When the adapter was last written, for display.
    pub created: String,
    pub has_weights: bool,
    pub base_model: String,
}

/// A trained adapter, as the contracts speak of it.
pub struct AdapterView {
    pub name: Seq<char>,
    pub path: Seq<char>,
    pub created: Seq<char>,
    pub has_weights: bool,
    pub base_model: Seq<char>,
}

impl View for AdapterInfo {
    type V = AdapterView;

    open spec fn view(&self) -> AdapterView {
        AdapterView {
            name: self.name@,
            path: self.path@,
            created: self.created@,
            has_weights: self.has_weights,
            base_model: self.base_model@,
        }
    }
}

/// What a vector of adapters holds, in order.
pub open spec fn adapter_views(v: Seq<AdapterInfo>) -> Seq<AdapterView> {
    v.map_values(|a: AdapterInfo| a@)
}

impl Ranked for AdapterInfo {
    /// An adapter stands before another when it was written at the same time
    /// or later.
    open spec fn stands_before(&self, other: &Self) -> bool {
        precedes(other.created@, self.created@)
    }

    fn goes_before(&self, other: &Self) -> (b: bool) {
        let mine = chars_of(self.created.as_str());
        let theirs = chars_of(other.created.as_str());
        comes_before(&theirs, &mine)
    }

    proof fn lemma_total(a: &Self, b: &Self) {
        lemma_precedes_total(b.created@, a.created@);
    }

    proof fn lemma_transitive(a: &Self, b: &Self, c: &Self) {
        lemma_precedes_transitive(c.created@, b.created@, a.created@);
    }
}

/// An entry of the adapters directory as it was found.
pub struct AdapterSnapshot {
    pub name: String,
    pub path: String,
    pub is_dir: bool,
    /// The names of the files that the entry holds.
    pub files: Vec<String>,
    /// When the entry was last written, for display; empty where unknown.
    pub modified: String,
    /// The note that the training left, if there is one that can be read.
    pub training_meta: Option<String>,
    /// The settings that the trainer left, if there are any that can be read.
    pub adapter_config: Option<String>,
}

/// Whether a file of the name `name` holds adapter weights: the final ones,
/// or a checkpoint.
pub open spec fn is_weights_file(name: Seq<char>) -> bool {
    name == "adapters.safetensors"@ || has_suffix(name, "_adapters.safetensors"@)
}

/// Whether one of the files `files` holds adapter weights.
pub open spec fn holds_weights(files: Seq<Seq<char>>) -> bool {
    exists|i: int| 0 <= i < files.len() && is_weights_file(#[trigger] files[i])
}

fn weights_file(name: &str) -> (r: bool)
    ensures
        r == is_weights_file(name@),
{
    same_text(name, "adapters.safetensors") || ends_with(
        &chars_of(name),
        &chars_of("_adapters.safetensors"),
    )
}

/// Tells whether one of the files holds adapter weights.
pub fn has_weights(files: &Vec<String>) -> (r: bool)
    ensures
        r == holds_weights(texts(files@)),
{
    let mut i: usize = 0;
    while i < files.len()
        invariant
            i <= files.len(),
            forall|k: int| 0 <= k < i ==> !is_weights_file(#[trigger] texts(files@)[k]),
        decreases files.len() - i,
    {
        if weights_file(files[i].as_str()) {
            assert(is_weights_file(texts(files@)[i as int]));
            return true;
        }
        i += 1;
    }
    false
}

/// The text under `key` of the document `text`, if `text` is a document that
/// holds one.
pub open spec fn text_in(text: Option<String>, key: Seq<char>) -> Option<Seq<char>> {
    match text {
        Some(t) => match parsed(t@) {
            Some(j) => text_at(j, key),
            None => None,
        },
        None => None,
    }
}

/// The model that an adapter was trained on: as the training noted it; else
/// as the trainer's own settings name it; else unknown, and empty.
pub open spec fn base_model_of(training_meta: Option<String>, adapter_config: Option<String>) -> Seq<
    char,
> {
    match text_in(training_meta, "base_model"@) {
        Some(m) => m,
        None => match text_in(adapter_config, "model"@) {
            Some(m) => m,
            None => Seq::empty(),
        },
    }
}

fn read_text_in(text: &Option<String>, key: &str) -> (r: Option<String>)
    ensures
        text_of(r) == text_in(*text, key@),
{
    match text {
        Some(t) => match crate::json::parse(t.as_str()) {
            Ok(v) => text_field(&v, key),
            Err(_) => None,
        },
        None => None,
    }
}

/// Finds the model that an adapter was trained on.
pub fn base_model(training_meta: &Option<String>, adapter_config: &Option<String>) -> (r: String)
    ensures
        r@ == base_model_of(*training_meta, *adapter_config),
{
    match read_text_in(training_meta, "base_model") {
        Some(m) => m,
        None => match read_text_in(adapter_config, "model") {
            Some(m) => m,
            None => String::new(),
        },
    }
}

/// What is shown of the adapter that the entry `e` is.
pub open spec fn adapter_of(e: AdapterSnapshot) -> AdapterView {
    AdapterView {
        name: e.name@,
        path: e.path@,
        created: e.modified@,
        has_weights: holds_weights(texts(e.files@)),
        base_model: base_model_of(e.training_meta, e.adapter_config),
    }
}

/// The adapters among `entries`: its directories, in the order of the
/// entries.
pub open spec fn adapters_among(entries: Seq<AdapterSnapshot>) -> Seq<AdapterView>
    decreases entries.len(),
{
    if entries.len() == 0 {
        Seq::empty()
    } else if entries.last().is_dir {
        adapters_among(entries.drop_last()).push(adapter_of(entries.last()))
    } else {
        adapters_among(entries.drop_last())
    }
}

/// Whether the adapters stand with the latest first.
pub open spec fn latest_first(vs: Seq<AdapterView>) -> bool {
    forall|i: int, j: int|
        0 <= i < j < vs.len() ==> precedes(#[trigger] vs[j].created, #[trigger] vs[i].created)
}

/// Lists the adapters of a project, the latest first.
pub fn list_adapters(entries: &Vec<AdapterSnapshot>) -> (r: Vec<AdapterInfo>)
    ensures
        latest_first(adapter_views(r@)),
        adapter_views(r@).to_multiset() == adapters_among(entries@).to_multiset(),
{
    let mut found: Vec<AdapterInfo> = Vec::new();
    let mut i: usize = 0;
    assert(adapter_views(found@) =~= Seq::<AdapterView>::empty());
    assert(entries@.take(0) == Seq::<AdapterSnapshot>::empty());
    while i < entries.len()
        invariant
            i <= entries.len(),
            adapter_views(found@) == adapters_among(entries@.take(i as int)),
        decreases entries.len() - i,
    {
        proof {
            assert(entries@.take(i + 1).drop_last() == entries@.take(i as int));
            assert(entries@.take(i + 1).last() == entries@[i as int]);
        }
        let e = &entries[i];
        if e.is_dir {
            let a = AdapterInfo {
                name: e.name.clone(),
                path: e.path.clone(),
                created: e.modified.clone(),
                has_weights: has_weights(&e.files),
                base_model: base_model(&e.training_meta, &e.adapter_config),
            };
            assert(adapter_views(found@.push(a)) =~= adapter_views(found@).push(a@));
            found.push(a);
        }
        i += 1;
    }
    assert(entries@.take(entries@.len() as int) == entries@);
    let out = sort(found);
    proof {
        let f = |a: AdapterInfo| a@;
        lemma_same_values_same_images(out@, found@, f);
        assert(out@.map_values(f) =~= adapter_views(out@));
        assert(found@.map_values(f) =~= adapter_views(found@));
        assert forall|i: int, j: int| 0 <= i < j < adapter_views(out@).len() implies precedes(
            #[trigger] adapter_views(out@)[j].created,
            #[trigger] adapter_views(out@)[i].created,
        ) by {
            assert(out@[i].stands_before(&out@[j]));
        }
    }
    out
}

/// Why an adapter may not be deleted, if it may not.
pub open spec fn delete_refusal(path: Seq<char>, exists: bool, is_dir: bool) -> Option<Seq<char>> {
    if !exists {
        Some("Adapter not found: "@ + path)
    } else if !is_dir {
        Some("Adapter path must be a directory"@)
    } else if !has_part(path, "/adapters/"@) {
        Some("Path does not look like an adapter directory"@)
    } else {
        None
    }
}

/// Checks that an adapter may be deleted: it is a directory that there is,
/// and it lies below an adapters directory.
pub fn check_delete_adapter(path: &str, exists: bool, is_dir: bool) -> (r: Result<(), String>)
    ensures
        match r {
            Ok(_) => delete_refusal(path@, exists, is_dir) is None,
            Err(m) => delete_refusal(path@, exists, is_dir) == Some(m@),
        },
{
    if !exists {
        Err(chain("Adapter not found: ", path))
    } else if !is_dir {
        Err("Adapter path must be a directory".to_owned())
    } else if !crate::text::contains(path, "/adapters/") {
        Err("Path does not look like an adapter directory".to_owned())
    } else {
        Ok(())
    }
}

/// Whether a directory with the files `files` holds a model that can be
/// loaded: its settings, and with them weights or a tokenizer.
pub open spec fn is_model_dir(files: Seq<Seq<char>>) -> bool {
    files.contains("config.json"@) && ((exists|i: int|
        0 <= i < files.len() && has_suffix(#[trigger] files[i], ".safetensors"@)) || files.contains(
        "tokenizer.json"@,
    ) || files.contains("tokenizer_config.json"@) || files.contains("tokenizer.model"@))
}

fn lists(files: &Vec<String>, name: &str) -> (r: bool)
    ensures
        r == texts(files@).contains(name@),
{
    let mut i: usize = 0;
    while i < files.len()
        invariant
            i <= files.len(),
            forall|k: int| 0 <= k < i ==> texts(files@)[k] != name@,
        decreases files.len() - i,
    {
        if same_text(files[i].as_str(), name) {
            assert(texts(files@)[i as int] == name@);
            return true;
        }
        i += 1;
    }
    false
}

fn lists_suffix(files: &Vec<String>, suffix: &str) -> (r: bool)
    ensures
        r == (exists|i: int| 0 <= i < files.len() && has_suffix(#[trigger] texts(files@)[i], suffix@)),
{
    let s = chars_of(suffix);
    let mut i: usize = 0;
    while i < files.len()
        invariant
            i <= files.len(),
            s@ == suffix@,
            forall|k: int| 0 <= k < i ==> !has_suffix(#[trigger] texts(files@)[k], suffix@),
        decreases files.len() - i,
    {
        if ends_with(&chars_of(files[i].as_str()), &s) {
            assert(has_suffix(texts(files@)[i as int], suffix@));
            return true;
        }
        i += 1;
    }
    false
}

/// Tells whether a path holds a model that can be loaded. A path that is no
/// directory holds none.
pub fn validate_model_path(is_dir: bool, files: &Vec<String>) -> (r: bool)
    ensures
        r == (is_dir && is_model_dir(texts(files@))),
{
    proof {
        assert(texts(files@).len() == files@.len());
    }
    is_dir && lists(files, "config.json") && (lists_suffix(files, ".safetensors") || lists(
        files,
        "tokenizer.json",
    ) || lists(files, "tokenizer_config.json") || lists(files, "tokenizer.model"))
}

/// A model found on disk.
pub struct LocalModelInfo {
    pub name: String,
    pub path: String,
    pub size_mb: u64,
    /// Whether the model is in the format of the trainer.
    pub is_mlx: bool,
    pub source: String,
}

/// A model found on disk, as the contracts speak of it.
pub struct LocalModelView {
    pub name: Seq<char>,
    pub path: Seq<char>,
    pub size_mb: u64,
    pub is_mlx: bool,
    pub source: Seq<char>,
}

impl View for LocalModelInfo {
    type V = LocalModelView;

    open spec fn view(&self) -> LocalModelView {
        LocalModelView {
            name: self.name@,
            path: self.path@,
            size_mb: self.size_mb,
            is_mlx: self.is_mlx,
            source: self.source@,
        }
    }
}

/// What a vector of models holds, in order.
pub open spec fn local_views(v: Seq<LocalModelInfo>) -> Seq<LocalModelView> {
    v.map_values(|m: LocalModelInfo| m@)
}

/// The order in which models are shown: those in the format of the trainer
/// first; among these and among the others by source; and within a source by
/// name.
pub open spec fn shown_before(a: LocalModelView, b: LocalModelView) -> bool {
    if a.is_mlx != b.is_mlx {
        a.is_mlx
    } else if !precedes(b.source, a.source) {
        true
    } else if !precedes(a.source, b.source) {
        false
    } else {
        precedes(a.name, b.name)
    }
}

impl Ranked for LocalModelInfo {
    open spec fn stands_before(&self, other: &Self) -> bool {
        shown_before(self@, other@)
    }

    fn goes_before(&self, other: &Self) -> (b: bool) {
        if self.is_mlx != other.is_mlx {
            return self.is_mlx;
        }
        let mine = chars_of(self.source.as_str());
        let theirs = chars_of(other.source.as_str());
        if !comes_before(&theirs, &mine) {
            true
        } else if !comes_before(&mine, &theirs) {
            false
        } else {
            comes_before(&chars_of(self.name.as_str()), &chars_of(other.name.as_str()))
        }
    }

    proof fn lemma_total(a: &Self, b: &Self) {
        lemma_precedes_total(a.source@, b.source@);
        lemma_precedes_total(a.name@, b.name@);
    }

    proof fn lemma_transitive(a: &Self, b: &Self, c: &Self) {
        lemma_chain(a.source@, b.source@, c.source@);
        lemma_chain(a.name@, b.name@, c.name@);
    }
}

/// Every way in which three texts can follow one another.
proof fn lemma_chain(x: Seq<char>, y: Seq<char>, z: Seq<char>)
    ensures
        precedes(x, y) && precedes(y, z) ==> precedes(x, z),
        precedes(x, z) && precedes(z, y) ==> precedes(x, y),
        precedes(y, x) && precedes(x, z) ==> precedes(y, z),
        precedes(y, z) && precedes(z, x) ==> precedes(y, x),
        precedes(z, x) && precedes(x, y) ==> precedes(z, y),
        precedes(z, y) && precedes(y, x) ==> precedes(z, x),
        precedes(x, y) || precedes(y, x),
        precedes(y, z) || precedes(z, y),
        precedes(x, z) || precedes(z, x),
{
    lemma_precedes_total(x, y);
    lemma_precedes_total(y, z);
    lemma_precedes_total(x, z);
    if precedes(x, y) && precedes(y, z) {
        lemma_precedes_transitive(x, y, z);
    }
    if precedes(x, z) && precedes(z, y) {
        lemma_precedes_transitive(x, z, y);
    }
    if precedes(y, x) && precedes(x, z) {
        lemma_precedes_transitive(y, x, z);
    }
    if precedes(y, z) && precedes(z, x) {
        lemma_precedes_transitive(y, z, x);
    }
    if precedes(z, x) && precedes(x, y) {
        lemma_precedes_transitive(z, x, y);
    }
    if precedes(z, y) && precedes(y, x) {
        lemma_precedes_transitive(z, y, x);
    }
}

/// Whether the models stand in the order in which they are shown.
pub open spec fn in_shown_order(vs: Seq<LocalModelView>) -> bool {
    forall|i: int, j: int| 0 <= i < j < vs.len() ==> shown_before(#[trigger] vs[i], #[trigger] vs[j])
}

/// Puts the models in the order in which they are shown.
pub fn sort_models(models: Vec<LocalModelInfo>) -> (out: Vec<LocalModelInfo>)
    ensures
        in_shown_order(local_views(out@)),
        local_views(out@).to_multiset() == local_views(models@).to_multiset(),
{
    let out = sort(models);
    proof {
        let f = |m: LocalModelInfo| m@;
        lemma_same_values_same_images(out@, models@, f);
        assert(out@.map_values(f) =~= local_views(out@));
        assert(models@.map_values(f) =~= local_views(models@));
        assert forall|i: int, j: int| 0 <= i < j < local_views(out@).len() implies shown_before(
            #[trigger] local_views(out@)[i],
            #[trigger] local_views(out@)[j],
        ) by {
            assert(out@[i].stands_before(&out@[j]));
        }
    }
    out
}

/// How the directory of a model in the cache of a hub begins.
pub open spec fn hub_prefix() -> Seq<char> {
    "models--"@
}

/// `s` without the hub prefix, however often it stands in front.
pub open spec fn without_hub_prefix(s: Seq<char>) -> Seq<char>
    decreases s.len(),
{
    if has_prefix(s, hub_prefix()) && hub_prefix().len() > 0 {
        without_hub_prefix(s.skip(hub_prefix().len() as int))
    } else {
        s
    }
}

/// `s` with every pair of dashes made a slash, read from the left.
pub open spec fn slashed(s: Seq<char>) -> Seq<char>
    decreases s.len(),
{
    if s.len() == 0 {
        Seq::empty()
    } else if s.len() > 1 && s[0] == '-' && s[1] == '-' {
        seq!['/'] + slashed(s.skip(2))
    } else {
        seq![s[0]] + slashed(s.skip(1))
    }
}

/// The name of the model that a directory of a hub's cache holds: the name
/// of the directory without the hub prefix, with a slash for every pair of
/// dashes.
pub open spec fn hub_model_name(dir_name: Seq<char>) -> Seq<char> {
    slashed(without_hub_prefix(dir_name))
}

/// Whether the name of a model says that it is in the format of the trainer.
pub open spec fn named_mlx(name: Seq<char>) -> bool {
    let n = folded(name);
    has_part(n, "mlx"@) || has_part(n, "4bit"@) || has_part(n, "8bit"@) || has_part(
        n,
        "-quantized"@,
    )
}

fn strip_hub_prefix(v: &Vec<char>) -> (from: usize)
    ensures
        from <= v.len(),
        v@.skip(from as int) == without_hub_prefix(v@),
{
    let prefix = chars_of("models--");
    proof {
        reveal_strlit("models--");
    }
    let mut from: usize = 0;
    assert(v@.skip(0) == v@);
    while v.len() - from >= prefix.len()
        invariant
            from <= v.len(),
            prefix@ == hub_prefix(),
            prefix@.len() == 8,
            without_hub_prefix(v@) == without_hub_prefix(v@.skip(from as int)),
        decreases v.len() - from,
    {
        proof {
            assert(v@.skip(from as int).take(prefix@.len() as int) == v@.subrange(
                from as int,
                from + prefix@.len(),
            ));
            assert(v@.skip(from as int).skip(prefix@.len() as int) == v@.skip(from + prefix@.len()));
        }
        if !occurs(v, &prefix, from) {
            return from;
        }
        from = from + prefix.len();
    }
    from
}

fn with_slashes(v: &Vec<char>, from: usize) -> (out: Vec<char>)
    requires
        from <= v.len(),
    ensures
        out@ == slashed(v@.skip(from as int)),
{
    let mut out: Vec<char> = Vec::new();
    let mut i: usize = from;
    proof {
        assert(Seq::<char>::empty() + slashed(v@.skip(from as int)) == slashed(v@.skip(from as int)));
    }
    while i < v.len()
        invariant
            from <= i <= v.len(),
            slashed(v@.skip(from as int)) == out@ + slashed(v@.skip(i as int)),
        decreases v.len() - i,
    {
        let ghost rest = v@.skip(i as int);
        let ghost before = out@;
        proof {
            assert(rest[0] == v@[i as int]);
            assert(rest.skip(1) == v@.skip(i + 1));
            if i + 1 < v.len() {
                assert(rest[1] == v@[i + 1]);
                assert(rest.skip(2) == v@.skip(i + 2));
            }
        }
        if i + 1 < v.len() && v[i] == '-' && v[i + 1] == '-' {
            out.push('/');
            assert(out@ + slashed(v@.skip(i + 2)) == before + (seq!['/'] + slashed(rest.skip(2))));
            i += 2;
        } else {
            out.push(v[i]);
            assert(out@ + slashed(v@.skip(i + 1)) == before + (seq![rest[0]] + slashed(
                rest.skip(1),
            )));
            i += 1;
        }
    }
    assert(v@.skip(v@.len() as int) == Seq::<char>::empty());
    assert(out@ + Seq::<char>::empty() == out@);
    out
}

/// A directory of a hub's cache as it was found.
pub struct HubSnapshot {
    pub dir_name: String,
    /// The latest snapshot of the model, if the directory holds one.
    pub snapshot_path: Option<String>,
    /// The names of the files of that snapshot.
    pub snapshot_files: Vec<String>,
    /// The size of the model's files, in megabytes.
    pub size_mb: u64,
}

/// Whether one of the files `files` is of a model: weights, or settings.
pub open spec fn holds_model_files(files: Seq<Seq<char>>) -> bool {
    exists|i: int|
        0 <= i < files.len() && (has_suffix(#[trigger] files[i], ".safetensors"@) || files[i]
            == "config.json"@)
}

/// The model that a directory of the cache of `source` holds, if it holds
/// one: it is named for a model, and its latest snapshot holds files of one.
pub open spec fn hub_model(e: HubSnapshot, source: Seq<char>) -> Option<LocalModelView> {
    match e.snapshot_path {
        Some(p) => if has_prefix(e.dir_name@, hub_prefix()) && holds_model_files(
            texts(e.snapshot_files@),
        ) {
            Some(
                LocalModelView {
                    name: hub_model_name(e.dir_name@),
                    path: p@,
                    size_mb: e.size_mb,
                    is_mlx: named_mlx(hub_model_name(e.dir_name@)),
                    source,
                },
            )
        } else {
            None
        },
        None => None,
    }
}

fn model_files(files: &Vec<String>) -> (r: bool)
    ensures
        r == holds_model_files(texts(files@)),
{
    let suffix = chars_of(".safetensors");
    let mut i: usize = 0;
    while i < files.len()
        invariant
            i <= files.len(),
            suffix@ == ".safetensors"@,
            forall|k: int|
                0 <= k < i ==> !(has_suffix(#[trigger] texts(files@)[k], ".safetensors"@) || texts(
                    files@,
                )[k] == "config.json"@),
        decreases files.len() - i,
    {
        if ends_with(&chars_of(files[i].as_str()), &suffix) || same_text(
            files[i].as_str(),
            "config.json",
        ) {
            assert(has_suffix(texts(files@)[i as int], ".safetensors"@) || texts(files@)[i as int]
                == "config.json"@);
            return true;
        }
        i += 1;
    }
    false
}

/// Reads the model that a directory of the cache of `source` holds.
pub fn scan_hub_entry(e: &HubSnapshot, source: &str) -> (r: Option<LocalModelInfo>)
    ensures
        match r {
            Some(m) => hub_model(*e, source@) == Some(m@),
            None => hub_model(*e, source@) is None,
        },
{
    match &e.snapshot_path {
        None => None,
        Some(p) => {
            let v = chars_of(e.dir_name.as_str());
            if !starts_with(&v, &chars_of("models--")) || !model_files(&e.snapshot_files) {
                return None;
            }
            let from = strip_hub_prefix(&v);
            let name = with_slashes(&v, from);
            let low = fold(&name);
            let is_mlx = holds_part(&low, &chars_of("mlx")) || holds_part(&low, &chars_of("4bit"))
                || holds_part(&low, &chars_of("8bit")) || holds_part(
                &low,
                &chars_of("-quantized"),
            );
            Some(
                LocalModelInfo {
                    name: string_of(&name),
                    path: p.clone(),
                    size_mb: e.size_mb,
                    is_mlx,
                    source: source.to_owned(),
                },
            )
        },
    }
}

/// How a model of the daemon is called: by its name for the tag `latest`,
/// and by name, colon and tag for any other.
pub open spec fn daemon_model_name(model: Seq<char>, tag: Seq<char>) -> Seq<char> {
    if tag == "latest"@ {
        model
    } else {
        model + ":"@ + tag
    }
}

/// Describes a model of the daemon, found under its tag in the library.
pub fn daemon_model(model: &str, tag: &str, models_dir: &str, source: &str) -> (r: LocalModelInfo)
    ensures
        r@ == (LocalModelView {
            name: daemon_model_name(model@, tag@),
            path: models_dir@,
            size_mb: 0,
            is_mlx: false,
            source: source@,
        }),
{
    let name = if same_text(tag, "latest") {
        model.to_owned()
    } else {
        let mut n = chain(model, ":");
        n.append(tag);
        n
    };
    LocalModelInfo {
        name,
        path: models_dir.to_owned(),
        size_mb: 0,
        is_mlx: false,
        source: source.to_owned(),
    }
}

} // verus!
