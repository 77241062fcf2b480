//! How workers are launched: the command line of each kind of job, the
//! command that wraps long jobs so that the host stays awake, and the checks
//! that refuse a job before anything is launched.

use vstd::prelude::*;
use crate::supervisor::{pairs, Correlation, Job, JobKind, JobView};
use crate::text::{
    chain, contains, decimal, decimal_string, has_part, lemma_texts_push, opt_text, same_text,
    text_of, texts,
};
use crate::versioning::{builtin_source, child_of, child_path};

verus! {

/// The command that wraps a long job and keeps the host from sleeping while
/// the job runs.
pub open spec fn keep_awake() -> Seq<Seq<char>> {
    seq!["caffeinate"@, "-i"@]
}

/// The time budget of an export, in seconds.
pub const EXPORT_TIMEOUT_SECS: u64 = 1800;

/// The language that a worker is told where the request names none.
pub open spec fn default_lang() -> Seq<char> {
    "en"@
}

/// The text `o`, or `d` where there is none.
pub open spec fn or_default(o: Option<Seq<char>>, d: Seq<char>) -> Seq<char> {
    match o {
        Some(s) => s,
        None => d,
    }
}

/// The arguments that tell a worker the language.
pub open spec fn lang_args(lang: Option<Seq<char>>) -> Seq<Seq<char>> {
    seq!["--lang"@, or_default(lang, default_lang())]
}

/// The program that is launched for a job, and its arguments: the worker
/// itself, or the wrapper with the worker and its arguments behind the
/// wrapper's own.
pub open spec fn command_line(job: JobView) -> (Seq<char>, Seq<Seq<char>>) {
    if job.wrapper.len() == 0 {
        (job.program, job.args)
    } else {
        (job.wrapper[0], job.wrapper.skip(1) + seq![job.program] + job.args)
    }
}

/// What is handed to the operating system to launch a job.
pub struct CommandLine {
    pub program: String,
    pub args: Vec<String>,
    /// Environment variables to set, as pairs of name and value.
    pub env: Vec<(String, String)>,
}

fn push_text(v: &mut Vec<String>, s: &str)
    ensures
        texts(final(v)@) == texts(old(v)@).push(s@),
{
    let t = s.to_owned();
    proof {
        lemma_texts_push(v@, t);
    }
    v.push(t);
}

fn push_pair(v: &mut Vec<(String, String)>, name: &str, value: &str)
    ensures
        pairs(final(v)@) == pairs(old(v)@).push((name@, value@)),
{
    v.push((name.to_owned(), value.to_owned()));
    assert(pairs(v@) =~= pairs(old(v)@).push((name@, value@)));
}

fn no_texts() -> (v: Vec<String>)
    ensures
        texts(v@) == Seq::<Seq<char>>::empty(),
{
    let v: Vec<String> = Vec::new();
    assert(texts(v@) =~= Seq::<Seq<char>>::empty());
    v
}

fn no_pairs() -> (v: Vec<(String, String)>)
    ensures
        pairs(v@) == Seq::<(Seq<char>, Seq<char>)>::empty(),
{
    let v: Vec<(String, String)> = Vec::new();
    assert(pairs(v@) =~= Seq::<(Seq<char>, Seq<char>)>::empty());
    v
}

fn push_lang(v: &mut Vec<String>, lang: Option<&str>)
    ensures
        texts(final(v)@) == texts(old(v)@) + lang_args(opt_text(lang)),
{
    push_text(v, "--lang");
    match lang {
        Some(l) => push_text(v, l),
        None => push_text(v, "en"),
    }
    assert(texts(v@) =~= texts(old(v)@) + lang_args(opt_text(lang)));
}

/// Puts together what is handed to the operating system to launch `job`.
pub fn launch_command(job: &Job) -> (r: CommandLine)
    ensures
        r.program@ == command_line(job@).0,
        texts(r.args@) == command_line(job@).1,
        pairs(r.env@) == job@.env,
{
    let mut args = no_texts();
    let program = if job.wrapper.len() == 0 {
        job.program.clone()
    } else {
        let mut k: usize = 1;
        assert(texts(job.wrapper@).subrange(1, 1) == Seq::<Seq<char>>::empty());
        while k < job.wrapper.len()
            invariant
                1 <= k <= job.wrapper.len(),
                texts(args@) == texts(job.wrapper@).subrange(1, k as int),
            decreases job.wrapper.len() - k,
        {
            push_text(&mut args, job.wrapper[k].as_str());
            assert(texts(job.wrapper@).subrange(1, k + 1) == texts(job.wrapper@).subrange(
                1,
                k as int,
            ).push(job.wrapper@[k as int]@));
            k += 1;
        }
        assert(texts(job.wrapper@).subrange(1, job.wrapper@.len() as int) == texts(
            job.wrapper@,
        ).skip(1));
        push_text(&mut args, job.program.as_str());
        job.wrapper[0].clone()
    };
    let ghost head = texts(args@);
    let mut i: usize = 0;
    assert(texts(job.args@).take(0) == Seq::<Seq<char>>::empty());
    assert(head + Seq::<Seq<char>>::empty() == head);
    while i < job.args.len()
        invariant
            i <= job.args.len(),
            texts(args@) == head + texts(job.args@).take(i as int),
        decreases job.args.len() - i,
    {
        push_text(&mut args, job.args[i].as_str());
        assert(head + texts(job.args@).take(i + 1) == (head + texts(job.args@).take(
            i as int,
        )).push(job.args@[i as int]@));
        i += 1;
    }
    assert(texts(job.args@).take(job.args@.len() as int) == texts(job.args@));
    let mut env = no_pairs();
    let mut j: usize = 0;
    assert(pairs(job.env@).take(0) == Seq::<(Seq<char>, Seq<char>)>::empty());
    while j < job.env.len()
        invariant
            j <= job.env.len(),
            pairs(env@) == pairs(job.env@).take(j as int),
        decreases job.env.len() - j,
    {
        push_pair(&mut env, job.env[j].0.as_str(), job.env[j].1.as_str());
        assert(pairs(job.env@).take(j + 1) == pairs(job.env@).take(j as int).push(
            (job.env@[j as int].0@, job.env@[j as int].1@),
        ));
        j += 1;
    }
    assert(pairs(job.env@).take(job.env@.len() as int) == pairs(job.env@));
    proof {
        if job.wrapper.len() == 0 {
            assert(head + texts(job.args@) == texts(job.args@));
        }
    }
    CommandLine { program, args, env }
}

/// Whether a worker script takes the language argument: its text names the
/// argument, or the helper that adds it. A script that could not be read is
/// taken not to.
pub open spec fn supports_lang(script_text: Option<Seq<char>>) -> bool {
    match script_text {
        Some(t) => has_part(t, "--lang"@) || has_part(t, "add_lang_arg"@),
        None => false,
    }
}

/// Looks in the text of a worker script for the language argument.
pub fn script_supports_lang_arg(script_text: Option<&str>) -> (r: bool)
    ensures
        r == supports_lang(opt_text(script_text)),
{
    match script_text {
        Some(t) => contains(t, "--lang") || contains(t, "add_lang_arg"),
        None => false,
    }
}

/// What the user is told when a worker script does not take the language
/// argument and runs in its own default language instead.
pub open spec fn lang_fallback_message(kind: JobKind) -> Seq<char> {
    match kind {
        JobKind::Cleaning => "⚠️ Cleaning script does not support --lang, fallback to script default language."@,
        _ => "⚠️ Dataset script does not support --lang, fallback to script default language."@,
    }
}

/// Says that a worker script runs in its own default language.
pub fn lang_fallback_text(kind: JobKind) -> (r: &'static str)
    ensures
        r@ == lang_fallback_message(kind),
{
    match kind {
        JobKind::Cleaning => "⚠️ Cleaning script does not support --lang, fallback to script default language.",
        _ => "⚠️ Dataset script does not support --lang, fallback to script default language.",
    }
}

/// A job of the kind that cleans the raw data of a project.
pub open spec fn cleaning_job_of(
    job_id: Seq<char>,
    project_id: Seq<char>,
    project_dir: Seq<char>,
    python: Seq<char>,
    script: Seq<char>,
    lang: Option<Seq<char>>,
    with_lang: bool,
) -> JobView {
    JobView {
        kind: JobKind::Cleaning,
        job_id,
        program: python,
        args: seq![script, "--project-dir"@, project_dir] + (if with_lang {
            lang_args(lang)
        } else {
            Seq::empty()
        }),
        inputs: seq![child_path(project_dir, "raw"@)],
        env: Seq::empty(),
        wrapper: keep_awake(),
        timeout_secs: None,
        correlation_key: "project_id"@,
        correlation_id: project_id,
        tentative: None,
    }
}

/// Why a cleaning job is refused, if it is.
pub open spec fn cleaning_refusal(
    env_ready: bool,
    raw_exists: bool,
    script_exists: bool,
    script: Seq<char>,
) -> Option<Seq<char>> {
    if !env_ready {
        Some("Python environment is not ready. Please set up the environment first."@)
    } else if !raw_exists {
        Some("No raw data directory found. Import files first."@)
    } else if !script_exists {
        Some("Cleaning script not found at: "@ + script)
    } else {
        None
    }
}

/// Checks that a cleaning job can start.
pub fn check_cleaning(env_ready: bool, raw_exists: bool, script_exists: bool, script: &str) -> (r:
    Result<(), String>)
    ensures
        match r {
            Ok(_) => cleaning_refusal(env_ready, raw_exists, script_exists, script@) is None,
            Err(m) => cleaning_refusal(env_ready, raw_exists, script_exists, script@) == Some(m@),
        },
{
    if !env_ready {
        Err("Python environment is not ready. Please set up the environment first.".to_owned())
    } else if !raw_exists {
        Err("No raw data directory found. Import files first.".to_owned())
    } else if !script_exists {
        Err(chain("Cleaning script not found at: ", script))
    } else {
        Ok(())
    }
}

fn wrapper_command() -> (v: Vec<String>)
    ensures
        texts(v@) == keep_awake(),
{
    let mut v = no_texts();
    push_text(&mut v, "caffeinate");
    push_text(&mut v, "-i");
    assert(texts(v@) =~= keep_awake());
    v
}

/// Sets up the job that cleans the raw data of a project.
pub fn cleaning_job(
    job_id: &str,
    project_id: &str,
    project_dir: &str,
    python: &str,
    script: &str,
    lang: Option<&str>,
    with_lang: bool,
) -> (job: Job)
    ensures
        job@ == cleaning_job_of(
            job_id@,
            project_id@,
            project_dir@,
            python@,
            script@,
            opt_text(lang),
            with_lang,
        ),
{
    let mut args = no_texts();
    push_text(&mut args, script);
    push_text(&mut args, "--project-dir");
    push_text(&mut args, project_dir);
    if with_lang {
        push_lang(&mut args, lang);
    }
    let mut inputs = no_texts();
    let raw = child_of(project_dir, "raw");
    push_text(&mut inputs, raw.as_str());
    let job = Job {
        kind: JobKind::Cleaning,
        job_id: job_id.to_owned(),
        program: python.to_owned(),
        args,
        inputs,
        env: no_pairs(),
        wrapper: wrapper_command(),
        timeout_secs: None,
        correlation: Correlation { key: "project_id".to_owned(), id: project_id.to_owned() },
        tentative: None,
    };
    proof {
        let want = cleaning_job_of(
            job_id@,
            project_id@,
            project_dir@,
            python@,
            script@,
            opt_text(lang),
            with_lang,
        );
        assert(job@.args =~= want.args);
        assert(job@.inputs =~= want.inputs);
    }
    job
}

/// The worker script that generates a dataset from the given source.
pub open spec fn dataset_script(source: Seq<char>) -> Seq<char> {
    if source == "ollama"@ {
        "generate_dataset_ollama.py"@
    } else if source == builtin_source() {
        "generate_dataset_builtin.py"@
    } else {
        "generate_dataset.py"@
    }
}

/// Names the worker script that generates a dataset from the given source.
pub fn dataset_script_name(source: &str) -> (r: &'static str)
    ensures
        r@ == dataset_script(source@),
{
    if same_text(source, "ollama") {
        "generate_dataset_ollama.py"
    } else if same_text(source, "builtin") {
        "generate_dataset_builtin.py"
    } else {
        "generate_dataset.py"
    }
}

/// Why a dataset job is refused, if it is.
pub open spec fn dataset_refusal(
    env_ready: bool,
    segments_exist: bool,
    script_exists: bool,
    script: Seq<char>,
) -> Option<Seq<char>> {
    if !env_ready {
        Some("Python environment is not ready."@)
    } else if !segments_exist {
        Some("No cleaned data found. Run cleaning first."@)
    } else if !script_exists {
        Some("Dataset generation script not found: "@ + script)
    } else {
        None
    }
}

/// Checks that a dataset job can start.
pub fn check_dataset(
    env_ready: bool,
    segments_exist: bool,
    script_exists: bool,
    script: &str,
) -> (r: Result<(), String>)
    ensures
        match r {
            Ok(_) => dataset_refusal(env_ready, segments_exist, script_exists, script@) is None,
            Err(m) => dataset_refusal(env_ready, segments_exist, script_exists, script@) == Some(
                m@,
            ),
        },
{
    if !env_ready {
        Err("Python environment is not ready.".to_owned())
    } else if !segments_exist {
        Err("No cleaned data found. Run cleaning first.".to_owned())
    } else if !script_exists {
        Err(chain("Dataset generation script not found: ", script))
    } else {
        Ok(())
    }
}

/// What a request for a dataset asks for.
pub struct DatasetRequest {
    pub project_id: String,
    pub project_dir: String,
    pub model: String,
    pub mode: String,
    pub source: String,
    pub resume: bool,
    pub lang: Option<String>,
}

/// The arguments of the worker that generates a dataset.
pub open spec fn dataset_args(
    req: DatasetRequest,
    script: Seq<char>,
    output_dir: Seq<char>,
    with_lang: bool,
) -> Seq<Seq<char>> {
    seq![
        script,
        "--project-dir"@,
        req.project_dir@,
        "--output-dir"@,
        output_dir,
        "--mode"@,
        req.mode@,
    ] + (if req.source@ != builtin_source() {
        seq!["--model"@, req.model@]
    } else {
        Seq::empty()
    }) + (if req.resume {
        seq!["--resume"@]
    } else {
        Seq::empty()
    }) + (if with_lang {
        lang_args(
            text_of(req.lang),
        )
    } else {
        Seq::empty()
    })
}

/// A job of the kind that generates a dataset, writing to the output
/// version `version` under the dataset directory of the project.
pub open spec fn dataset_job_of(
    req: DatasetRequest,
    job_id: Seq<char>,
    python: Seq<char>,
    script: Seq<char>,
    version: Seq<char>,
    with_lang: bool,
) -> JobView {
    JobView {
        kind: JobKind::Dataset,
        job_id,
        program: python,
        args: dataset_args(
            req,
            script,
            child_path(child_path(req.project_dir@, "dataset"@), version),
            with_lang,
        ),
        inputs: seq![child_path(child_path(req.project_dir@, "cleaned"@), "segments.jsonl"@)],
        env: Seq::empty(),
        wrapper: keep_awake(),
        timeout_secs: None,
        correlation_key: "project_id"@,
        correlation_id: req.project_id@,
        tentative: Some(version),
    }
}

/// Sets up the job that generates a dataset.
pub fn dataset_job(
    req: &DatasetRequest,
    job_id: &str,
    python: &str,
    script: &str,
    version: &str,
    with_lang: bool,
) -> (job: Job)
    ensures
        job@ == dataset_job_of(*req, job_id@, python@, script@, version@, with_lang),
{
    let dataset_root = child_of(req.project_dir.as_str(), "dataset");
    let output_dir = child_of(dataset_root.as_str(), version);
    let mut args = no_texts();
    push_text(&mut args, script);
    push_text(&mut args, "--project-dir");
    push_text(&mut args, req.project_dir.as_str());
    push_text(&mut args, "--output-dir");
    push_text(&mut args, output_dir.as_str());
    push_text(&mut args, "--mode");
    push_text(&mut args, req.mode.as_str());
    if !same_text(req.source.as_str(), "builtin") {
        push_text(&mut args, "--model");
        push_text(&mut args, req.model.as_str());
    }
    if req.resume {
        push_text(&mut args, "--resume");
    }
    if with_lang {
        match &req.lang {
            Some(l) => push_lang(&mut args, Some(l.as_str())),
            None => push_lang(&mut args, None),
        }
    }
    let cleaned = child_of(req.project_dir.as_str(), "cleaned");
    let segments = child_of(cleaned.as_str(), "segments.jsonl");
    let mut inputs = no_texts();
    push_text(&mut inputs, segments.as_str());
    let job = Job {
        kind: JobKind::Dataset,
        job_id: job_id.to_owned(),
        program: python.to_owned(),
        args,
        inputs,
        env: no_pairs(),
        wrapper: wrapper_command(),
        timeout_secs: None,
        correlation: Correlation { key: "project_id".to_owned(), id: req.project_id.clone() },
        tentative: Some(version.to_owned()),
    };
    proof {
        let want = dataset_job_of(*req, job_id@, python@, script@, version@, with_lang);
        assert(job@.args =~= want.args);
        assert(job@.inputs =~= want.inputs);
    }
    job
}

/// Why an export is refused, if it is. `script_label` opens the reason where
/// the script is missing.
pub open spec fn export_refusal(
    env_ready: bool,
    script_exists: bool,
    script_label: Seq<char>,
    script: Seq<char>,
    adapter: Option<Seq<char>>,
    adapter_exists: bool,
) -> Option<Seq<char>> {
    if !env_ready {
        Some("Python environment is not ready."@)
    } else if !script_exists {
        Some(script_label + script)
    } else {
        match adapter {
            Some(a) => if adapter_exists {
                None
            } else {
                Some("Adapter path not found: "@ + a)
            },
            None => Some("No trained adapter found. Complete training first."@),
        }
    }
}

/// How the reason opens that refuses an export for want of its script.
pub open spec fn export_script_label(kind: JobKind) -> Seq<char> {
    match kind {
        JobKind::ExportGguf => "GGUF export script not found at: "@,
        _ => "Export script not found at: "@,
    }
}

/// Checks that an export can start. `adapter` is the adapter that the
/// request names, or else the latest one of the project, if there is any.
pub fn check_export(
    kind: JobKind,
    env_ready: bool,
    script_exists: bool,
    script: &str,
    adapter: Option<&str>,
    adapter_exists: bool,
) -> (r: Result<(), String>)
    ensures
        match r {
            Ok(_) => export_refusal(
                env_ready,
                script_exists,
                export_script_label(kind),
                script@,
                opt_text(adapter),
                adapter_exists,
            ) is None,
            Err(m) => export_refusal(
                env_ready,
                script_exists,
                export_script_label(kind),
                script@,
                opt_text(adapter),
                adapter_exists,
            ) == Some(m@),
        },
{
    if !env_ready {
        Err("Python environment is not ready.".to_owned())
    } else if !script_exists {
        match kind {
            JobKind::ExportGguf => Err(chain("GGUF export script not found at: ", script)),
            _ => Err(chain("Export script not found at: ", script)),
        }
    } else {
        match adapter {
            Some(a) => if adapter_exists {
                Ok(())
            } else {
                Err(chain("Adapter path not found: ", a))
            },
            None => Err("No trained adapter found. Complete training first.".to_owned()),
        }
    }
}

/// The directory that an export to the daemon works in.
pub open spec fn ollama_export_dir(project_dir: Seq<char>) -> Seq<char> {
    child_path(child_path(project_dir, "export"@), "ollama"@)
}

/// A job of the kind that exports a model to the daemon.
pub open spec fn ollama_export_job_of(
    job_id: Seq<char>,
    project_id: Seq<char>,
    project_dir: Seq<char>,
    python: Seq<char>,
    script: Seq<char>,
    model: Seq<char>,
    adapter: Seq<char>,
    model_name: Seq<char>,
    quantization: Option<Seq<char>>,
    models_dir: Seq<char>,
    lang: Option<Seq<char>>,
) -> JobView {
    JobView {
        kind: JobKind::ExportOllama,
        job_id,
        program: python,
        args: seq![
            "-u"@,
            script,
            "--model"@,
            model,
            "--adapter-path"@,
            adapter,
            "--model-name"@,
            model_name,
            "--output-dir"@,
            ollama_export_dir(project_dir),
            "--quantization"@,
            or_default(quantization, "q4"@),
            "--ollama-models-dir"@,
            models_dir,
        ] + lang_args(lang),
        inputs: seq![adapter],
        env: seq![("PYTHONUNBUFFERED"@, "1"@), ("OLLAMA_MODELS"@, models_dir)],
        wrapper: Seq::empty(),
        timeout_secs: Some(EXPORT_TIMEOUT_SECS),
        correlation_key: "project_id"@,
        correlation_id: project_id,
        tentative: None,
    }
}

/// What a request for an export to the daemon asks for.
pub struct OllamaExportRequest {
    pub project_id: String,
    pub project_dir: String,
    pub model_name: String,
    pub model: String,
    /// The adapter to export.
    pub adapter: String,
    pub quantization: Option<String>,
    /// The directory of the daemon that the export goes to.
    pub models_dir: String,
    pub lang: Option<String>,
}

/// Sets up the job that exports a model to the daemon.
pub fn ollama_export_job(req: &OllamaExportRequest, job_id: &str, python: &str, script: &str) -> (job:
    Job)
    ensures
        job@ == ollama_export_job_of(
            job_id@,
            req.project_id@,
            req.project_dir@,
            python@,
            script@,
            req.model@,
            req.adapter@,
            req.model_name@,
            text_of(req.quantization),
            req.models_dir@,
            text_of(req.lang),
        ),
{
    let export = child_of(req.project_dir.as_str(), "export");
    let output_dir = child_of(export.as_str(), "ollama");
    let mut args = no_texts();
    push_text(&mut args, "-u");
    push_text(&mut args, script);
    push_text(&mut args, "--model");
    push_text(&mut args, req.model.as_str());
    push_text(&mut args, "--adapter-path");
    push_text(&mut args, req.adapter.as_str());
    push_text(&mut args, "--model-name");
    push_text(&mut args, req.model_name.as_str());
    push_text(&mut args, "--output-dir");
    push_text(&mut args, output_dir.as_str());
    push_text(&mut args, "--quantization");
    match &req.quantization {
        Some(q) => push_text(&mut args, q.as_str()),
        None => push_text(&mut args, "q4"),
    }
    push_text(&mut args, "--ollama-models-dir");
    push_text(&mut args, req.models_dir.as_str());
    match &req.lang {
        Some(l) => push_lang(&mut args, Some(l.as_str())),
        None => push_lang(&mut args, None),
    }
    let mut inputs = no_texts();
    push_text(&mut inputs, req.adapter.as_str());
    let mut env = no_pairs();
    push_pair(&mut env, "PYTHONUNBUFFERED", "1");
    push_pair(&mut env, "OLLAMA_MODELS", req.models_dir.as_str());
    let job = Job {
        kind: JobKind::ExportOllama,
        job_id: job_id.to_owned(),
        program: python.to_owned(),
        args,
        inputs,
        env,
        wrapper: no_texts(),
        timeout_secs: Some(EXPORT_TIMEOUT_SECS),
        correlation: Correlation { key: "project_id".to_owned(), id: req.project_id.clone() },
        tentative: None,
    };
    proof {
        let want = ollama_export_job_of(
            job_id@,
            req.project_id@,
            req.project_dir@,
            python@,
            script@,
            req.model@,
            req.adapter@,
            req.model_name@,
            text_of(req.quantization),
            req.models_dir@,
            text_of(req.lang),
        );
        assert(job@.args =~= want.args);
        assert(job@.inputs =~= want.inputs);
        assert(job@.env =~= want.env);
    }
    job
}

/// The directory that a GGUF export is meant to write to: under the export
/// directory of the settings where they name one, and else in the project.
pub open spec fn gguf_preferred_dir(
    export_path: Option<Seq<char>>,
    project_id: Seq<char>,
    project_dir: Seq<char>,
) -> Seq<char> {
    match export_path {
        Some(e) => child_path(child_path(e, project_id), "gguf"@),
        None => gguf_fallback_dir(project_dir),
    }
}

/// The directory that a GGUF export writes to where the one it is meant to
/// write to cannot be used.
pub open spec fn gguf_fallback_dir(project_dir: Seq<char>) -> Seq<char> {
    child_path(child_path(project_dir, "export"@), "gguf"@)
}

/// Names the directory that a GGUF export is meant to write to.
pub fn gguf_preferred(export_path: Option<&str>, project_id: &str, project_dir: &str) -> (r: String)
    ensures
        r@ == gguf_preferred_dir(opt_text(export_path), project_id@, project_dir@),
{
    match export_path {
        Some(e) => {
            let p = child_of(e, project_id);
            child_of(p.as_str(), "gguf")
        },
        None => gguf_fallback(project_dir),
    }
}

/// Names the directory that a GGUF export falls back to.
pub fn gguf_fallback(project_dir: &str) -> (r: String)
    ensures
        r@ == gguf_fallback_dir(project_dir@),
{
    let e = child_of(project_dir, "export");
    child_of(e.as_str(), "gguf")
}

/// A job of the kind that exports a model as a GGUF file.
pub open spec fn gguf_export_job_of(
    job_id: Seq<char>,
    project_id: Seq<char>,
    python: Seq<char>,
    script: Seq<char>,
    model: Seq<char>,
    adapter: Seq<char>,
    output_dir: Seq<char>,
    lang: Option<Seq<char>>,
) -> JobView {
    JobView {
        kind: JobKind::ExportGguf,
        job_id,
        program: python,
        args: seq![
            "-u"@,
            script,
            "--model"@,
            model,
            "--adapter-path"@,
            adapter,
            "--output-dir"@,
            output_dir,
        ] + lang_args(lang),
        inputs: seq![adapter],
        env: seq![("PYTHONUNBUFFERED"@, "1"@)],
        wrapper: Seq::empty(),
        timeout_secs: Some(EXPORT_TIMEOUT_SECS),
        correlation_key: "project_id"@,
        correlation_id: project_id,
        tentative: None,
    }
}

/// Sets up the job that exports a model as a GGUF file.
pub fn gguf_export_job(
    job_id: &str,
    project_id: &str,
    python: &str,
    script: &str,
    model: &str,
    adapter: &str,
    output_dir: &str,
    lang: Option<&str>,
) -> (job: Job)
    ensures
        job@ == gguf_export_job_of(
            job_id@,
            project_id@,
            python@,
            script@,
            model@,
            adapter@,
            output_dir@,
            opt_text(lang),
        ),
{
    let mut args = no_texts();
    push_text(&mut args, "-u");
    push_text(&mut args, script);
    push_text(&mut args, "--model");
    push_text(&mut args, model);
    push_text(&mut args, "--adapter-path");
    push_text(&mut args, adapter);
    push_text(&mut args, "--output-dir");
    push_text(&mut args, output_dir);
    push_lang(&mut args, lang);
    let mut inputs = no_texts();
    push_text(&mut inputs, adapter);
    let mut env = no_pairs();
    push_pair(&mut env, "PYTHONUNBUFFERED", "1");
    let job = Job {
        kind: JobKind::ExportGguf,
        job_id: job_id.to_owned(),
        program: python.to_owned(),
        args,
        inputs,
        env,
        wrapper: no_texts(),
        timeout_secs: Some(EXPORT_TIMEOUT_SECS),
        correlation: Correlation { key: "project_id".to_owned(), id: project_id.to_owned() },
        tentative: None,
    };
    proof {
        let want = gguf_export_job_of(
            job_id@,
            project_id@,
            python@,
            script@,
            model@,
            adapter@,
            output_dir@,
            opt_text(lang),
        );
        assert(job@.args =~= want.args);
        assert(job@.inputs =~= want.inputs);
        assert(job@.env =~= want.env);
    }
    job
}

/// Why an inference is refused, if it is.
pub open spec fn inference_refusal(env_ready: bool, script_exists: bool, script: Seq<char>) -> Option<
    Seq<char>,
> {
    if !env_ready {
        Some("Python environment is not ready."@)
    } else if !script_exists {
        Some("Inference script not found at: "@ + script)
    } else {
        None
    }
}

/// Checks that an inference can start.
pub fn check_inference(env_ready: bool, script_exists: bool, script: &str) -> (r: Result<
    (),
    String,
>)
    ensures
        match r {
            Ok(_) => inference_refusal(env_ready, script_exists, script@) is None,
            Err(m) => inference_refusal(env_ready, script_exists, script@) == Some(m@),
        },
{
    if !env_ready {
        Err("Python environment is not ready.".to_owned())
    } else if !script_exists {
        Err(chain("Inference script not found at: ", script))
    } else {
        Ok(())
    }
}

/// How many tokens an inference may write where the request does not say.
pub const DEFAULT_MAX_TOKENS: u32 = 512;

/// What a request for an inference asks for.
pub struct InferenceRequest {
    pub prompt: String,
    pub model: String,
    /// The adapter to apply; none, or an empty one, applies none.
    pub adapter: Option<String>,
    pub max_tokens: Option<u32>,
    /// The sampling temperature, written with two decimals.
    pub temperature: String,
    pub lang: Option<String>,
    /// The id by which the requester knows the request.
    pub request_id: String,
}

/// The arguments of the worker that answers a prompt.
pub open spec fn inference_args(req: InferenceRequest, script: Seq<char>) -> Seq<Seq<char>> {
    seq![
        script,
        "--model"@,
        req.model@,
        "--prompt"@,
        req.prompt@,
        "--max-tokens"@,
        decimal(
            (match req.max_tokens {
                Some(n) => n,
                None => DEFAULT_MAX_TOKENS,
            }) as nat,
        ),
        "--temp"@,
        req.temperature@,
    ] + (match req.adapter {
        Some(a) => if a@.len() > 0 {
            seq!["--adapter-path"@, a@]
        } else {
            Seq::empty()
        },
        None => Seq::empty(),
    }) + lang_args(
        text_of(req.lang),
    )
}

/// A job of the kind that answers a prompt.
pub open spec fn inference_job_of(
    req: InferenceRequest,
    job_id: Seq<char>,
    python: Seq<char>,
    script: Seq<char>,
) -> JobView {
    JobView {
        kind: JobKind::Inference,
        job_id,
        program: python,
        args: inference_args(req, script),
        inputs: Seq::empty(),
        env: Seq::empty(),
        wrapper: Seq::empty(),
        timeout_secs: None,
        correlation_key: "request_id"@,
        correlation_id: req.request_id@,
        tentative: None,
    }
}

/// Sets up the job that answers a prompt.
pub fn inference_job(req: &InferenceRequest, job_id: &str, python: &str, script: &str) -> (job: Job)
    ensures
        job@ == inference_job_of(*req, job_id@, python@, script@),
{
    let max_tokens: u32 = match req.max_tokens {
        Some(n) => n,
        None => DEFAULT_MAX_TOKENS,
    };
    let mut args = no_texts();
    push_text(&mut args, script);
    push_text(&mut args, "--model");
    push_text(&mut args, req.model.as_str());
    push_text(&mut args, "--prompt");
    push_text(&mut args, req.prompt.as_str());
    push_text(&mut args, "--max-tokens");
    push_text(&mut args, decimal_string(max_tokens as u64).as_str());
    push_text(&mut args, "--temp");
    push_text(&mut args, req.temperature.as_str());
    match &req.adapter {
        Some(a) => {
            if a.as_str().unicode_len() > 0 {
                push_text(&mut args, "--adapter-path");
                push_text(&mut args, a.as_str());
            }
        },
        None => {},
    }
    match &req.lang {
        Some(l) => push_lang(&mut args, Some(l.as_str())),
        None => push_lang(&mut args, None),
    }
    let job = Job {
        kind: JobKind::Inference,
        job_id: job_id.to_owned(),
        program: python.to_owned(),
        args,
        inputs: no_texts(),
        env: no_pairs(),
        wrapper: no_texts(),
        timeout_secs: None,
        correlation: Correlation { key: "request_id".to_owned(), id: req.request_id.clone() },
        tentative: None,
    };
    proof {
        let want = inference_job_of(*req, job_id@, python@, script@);
        assert(job@.args =~= want.args);
    }
    job
}

} // verus!
