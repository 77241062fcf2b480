//! Training jobs: what a request for training asks for, with the value that
//! stands in for each thing left unsaid, and the command line that it turns
//! into.

use vstd::prelude::*;
use crate::json::{
    error_text, flag_at, flag_field, json_of, number_at, number_field, parse, parsed, text_at,
    text_field, Json,
};
use crate::launcher::keep_awake;
use crate::supervisor::{Correlation, Job, JobKind, JobView};
use crate::text::{
    chain, chars_of, decimal, decimal_string, has_prefix, is_blank, lemma_texts_push, opt_text,
    same_text, texts, trim_bounds,
};

verus! {

/// The numbers of a request that are not whole, written as the worker is to
/// read them.
pub struct Fractions {
    pub lora_scale: String,
    pub lora_dropout: String,
    pub learning_rate: String,
}

/// What a request for training asks for.
pub struct TrainingParams {
    pub model: String,
    pub fine_tune_type: String,
    pub optimizer: String,
    pub iters: u64,
    pub batch_size: u64,
    pub lora_layers: u64,
    pub lora_rank: u64,
    pub lora_scale: String,
    pub lora_dropout: String,
    pub learning_rate: String,
    pub max_seq_length: u64,
    pub grad_checkpoint: bool,
    pub grad_accumulation_steps: u64,
    pub save_every: u64,
    pub mask_prompt: bool,
    pub steps_per_eval: u64,
    pub steps_per_report: u64,
    pub val_batches: u64,
    pub seed: u64,
}

/// The text under `key` of `j`, or `d` where there is none.
pub open spec fn text_or(j: Json, key: Seq<char>, d: Seq<char>) -> Seq<char> {
    match text_at(j, key) {
        Some(s) => s,
        None => d,
    }
}

/// The integer under `key` of `j`, or `d` where there is none.
pub open spec fn number_or(j: Json, key: Seq<char>, d: u64) -> u64 {
    match number_at(j, key) {
        Some(n) => n,
        None => d,
    }
}

/// The boolean under `key` of `j`, or `false` where there is none.
pub open spec fn flag_or_false(j: Json, key: Seq<char>) -> bool {
    match flag_at(j, key) {
        Some(b) => b,
        None => false,
    }
}

/// Whether `p` holds what the document `j` asks for, with the usual value in
/// place of each thing that the document leaves unsaid, and the numbers of
/// `f` for those that are not whole.
pub open spec fn asks_for(j: Json, f: Fractions, p: TrainingParams) -> bool {
    &&& text_at(j, "model"@) == Some(p.model@)
    &&& p.fine_tune_type@ == text_or(j, "fine_tune_type"@, "lora"@)
    &&& p.optimizer@ == text_or(j, "optimizer"@, "adam"@)
    &&& p.iters == number_or(j, "iters"@, 1000)
    &&& p.batch_size == number_or(j, "batch_size"@, 4)
    &&& p.lora_layers == number_or(j, "lora_layers"@, 16)
    &&& p.lora_rank == number_or(j, "lora_rank"@, 8)
    &&& p.lora_scale == f.lora_scale
    &&& p.lora_dropout == f.lora_dropout
    &&& p.learning_rate == f.learning_rate
    &&& p.max_seq_length == number_or(j, "max_seq_length"@, 2048)
    &&& p.grad_checkpoint == flag_or_false(j, "grad_checkpoint"@)
    &&& p.grad_accumulation_steps == number_or(j, "grad_accumulation_steps"@, 1)
    &&& p.save_every == number_or(j, "save_every"@, 100)
    &&& p.mask_prompt == flag_or_false(j, "mask_prompt"@)
    &&& p.steps_per_eval == number_or(j, "steps_per_eval"@, 200)
    &&& p.steps_per_report == number_or(j, "steps_per_report"@, 10)
    &&& p.val_batches == number_or(j, "val_batches"@, 25)
    &&& p.seed == number_or(j, "seed"@, 0)
}

fn text_with_default(v: &serde_json::Value, key: &str, d: &str) -> (r: String)
    ensures
        r@ == text_or(json_of(*v), key@, d@),
{
    match text_field(v, key) {
        Some(s) => s,
        None => d.to_owned(),
    }
}

fn number_with_default(v: &serde_json::Value, key: &str, d: u64) -> (r: u64)
    ensures
        r == number_or(json_of(*v), key@, d),
{
    match number_field(v, key) {
        Some(n) => n,
        None => d,
    }
}

fn flag_with_default(v: &serde_json::Value, key: &str) -> (r: bool)
    ensures
        r == flag_or_false(json_of(*v), key@),
{
    match flag_field(v, key) {
        Some(b) => b,
        None => false,
    }
}

/// Reads what a request for training asks for. A request that is no JSON
/// document is refused, and so is one that names no model.
pub fn read_training_params(text: &str, fractions: Fractions) -> (r: Result<TrainingParams, String>)
    ensures
        match r {
            Ok(p) => parsed(text@) matches Some(j) && asks_for(j, fractions, p),
            Err(m) => match parsed(text@) {
                Some(j) => text_at(j, "model"@) is None && m@ == "Missing model parameter"@,
                None => has_prefix(m@, "Invalid params: "@),
            },
        },
{
    match parse(text) {
        Err(e) => {
            let detail = error_text(&e);
            let m = chain("Invalid params: ", detail.as_str());
            assert(m@.take("Invalid params: "@.len() as int) == "Invalid params: "@);
            Err(m)
        },
        Ok(v) => match text_field(&v, "model") {
            None => Err("Missing model parameter".to_owned()),
            Some(model) => Ok(
                TrainingParams {
                    model,
                    fine_tune_type: text_with_default(&v, "fine_tune_type", "lora"),
                    optimizer: text_with_default(&v, "optimizer", "adam"),
                    iters: number_with_default(&v, "iters", 1000),
                    batch_size: number_with_default(&v, "batch_size", 4),
                    lora_layers: number_with_default(&v, "lora_layers", 16),
                    lora_rank: number_with_default(&v, "lora_rank", 8),
                    lora_scale: fractions.lora_scale,
                    lora_dropout: fractions.lora_dropout,
                    learning_rate: fractions.learning_rate,
                    max_seq_length: number_with_default(&v, "max_seq_length", 2048),
                    grad_checkpoint: flag_with_default(&v, "grad_checkpoint"),
                    grad_accumulation_steps: number_with_default(&v, "grad_accumulation_steps", 1),
                    save_every: number_with_default(&v, "save_every", 100),
                    mask_prompt: flag_with_default(&v, "mask_prompt"),
                    steps_per_eval: number_with_default(&v, "steps_per_eval", 200),
                    steps_per_report: number_with_default(&v, "steps_per_report", 10),
                    val_batches: number_with_default(&v, "val_batches", 25),
                    seed: number_with_default(&v, "seed", 0),
                },
            ),
        },
    }
}

/// Whether a request names the dataset to train on: a path that holds more
/// than white space.
pub open spec fn names_dataset(dataset_path: Option<Seq<char>>) -> bool {
    match dataset_path {
        Some(p) => !is_blank(p),
        None => false,
    }
}

/// Why a training job is refused before its request is read, if it is.
pub open spec fn training_refusal(
    env_ready: bool,
    dataset_path: Option<Seq<char>>,
    train_exists: bool,
    valid_exists: bool,
) -> Option<Seq<char>> {
    if !env_ready {
        Some("Python environment not ready. Please configure it in Settings."@)
    } else if !names_dataset(dataset_path) {
        Some(
            "Dataset version is required. Please select a dataset version before starting training."@,
        )
    } else if !train_exists {
        Some("Dataset train.jsonl not found. Please generate a dataset first."@)
    } else if !valid_exists {
        Some("Dataset valid.jsonl not found. Please generate a dataset first."@)
    } else {
        None
    }
}

/// Checks that a training job can start: the interpreter is there, the
/// request names a dataset, and the dataset holds its two files.
pub fn check_training(
    env_ready: bool,
    dataset_path: Option<&str>,
    train_exists: bool,
    valid_exists: bool,
) -> (r: Result<(), String>)
    ensures
        match r {
            Ok(_) => training_refusal(
                env_ready,
                opt_text(dataset_path),
                train_exists,
                valid_exists,
            ) is None,
            Err(m) => training_refusal(env_ready, opt_text(dataset_path), train_exists, valid_exists)
                == Some(m@),
        },
{
    let named = match dataset_path {
        Some(p) => {
            let v = chars_of(p);
            let (from, to) = trim_bounds(&v);
            from < to
        },
        None => false,
    };
    if !env_ready {
        Err("Python environment not ready. Please configure it in Settings.".to_owned())
    } else if !named {
        Err(
            "Dataset version is required. Please select a dataset version before starting training.".to_owned(),
        )
    } else if !train_exists {
        Err("Dataset train.jsonl not found. Please generate a dataset first.".to_owned())
    } else if !valid_exists {
        Err("Dataset valid.jsonl not found. Please generate a dataset first.".to_owned())
    } else {
        Ok(())
    }
}

/// The batch size that a training runs with: the one asked for, but no more
/// than the smaller part of the dataset holds records, unless that part is
/// empty.
pub open spec fn batch_size_for(asked: u64, train_count: usize, valid_count: usize) -> u64 {
    let least = if train_count <= valid_count {
        train_count
    } else {
        valid_count
    };
    if least > 0 && asked > least {
        least as u64
    } else {
        asked
    }
}

/// Fits the batch size to the dataset.
pub fn clamp_batch_size(asked: u64, train_count: usize, valid_count: usize) -> (r: u64)
    ensures
        r == batch_size_for(asked, train_count, valid_count),
        r <= asked,
{
    let least: usize = if train_count <= valid_count {
        train_count
    } else {
        valid_count
    };
    if least > 0 && asked > least as u64 {
        least as u64
    } else {
        asked
    }
}

/// The way of tuning that changes the whole model and takes no adapter
/// settings.
pub open spec fn full_tuning() -> Seq<char> {
    "full"@
}

/// Twice `rank`, or the greatest number there is where that does not fit.
pub open spec fn alpha_of(rank: u64) -> u64 {
    if rank as int * 2 > u64::MAX {
        u64::MAX
    } else {
        (rank * 2) as u64
    }
}

/// The settings of the adapter as the worker reads them from a file: empty
/// for a full tuning.
pub open spec fn lora_config(p: TrainingParams) -> Seq<char> {
    if p.fine_tune_type@ == full_tuning() {
        Seq::empty()
    } else {
        "lora_parameters:\n  rank: "@ + decimal(p.lora_rank as nat) + "\n  alpha: "@ + decimal(
            alpha_of(p.lora_rank) as nat,
        ) + "\n  dropout: "@ + p.lora_dropout@ + "\n  scale: "@ + p.lora_scale@ + "\n"@
    }
}

/// Writes the settings of the adapter as the worker reads them from a file.
pub fn lora_config_text(p: &TrainingParams) -> (r: String)
    ensures
        r@ == lora_config(*p),
{
    if same_text(p.fine_tune_type.as_str(), "full") {
        String::new()
    } else {
        let alpha: u64 = if p.lora_rank > u64::MAX / 2 {
            u64::MAX
        } else {
            p.lora_rank * 2
        };
        let mut r = chain("lora_parameters:\n  rank: ", decimal_string(p.lora_rank).as_str());
        r.append("\n  alpha: ");
        r.append(decimal_string(alpha).as_str());
        r.append("\n  dropout: ");
        r.append(p.lora_dropout.as_str());
        r.append("\n  scale: ");
        r.append(p.lora_scale.as_str());
        r.append("\n");
        r
    }
}

/// The arguments that every training takes.
pub open spec fn fixed_training_args(
    p: TrainingParams,
    data_dir: Seq<char>,
    adapter_path: Seq<char>,
    batch_size: u64,
) -> Seq<Seq<char>> {
    seq![
        "-m"@,
        "mlx_lm"@,
        "lora"@,
        "--train"@,
        "--model"@,
        p.model@,
        "--data"@,
        data_dir,
        "--fine-tune-type"@,
        p.fine_tune_type@,
        "--optimizer"@,
        p.optimizer@,
        "--adapter-path"@,
        adapter_path,
        "--iters"@,
        decimal(p.iters as nat),
        "--batch-size"@,
        decimal(batch_size as nat),
        "--learning-rate"@,
        p.learning_rate@,
        "--max-seq-length"@,
        decimal(p.max_seq_length as nat),
        "--steps-per-eval"@,
        decimal(p.steps_per_eval as nat),
        "--steps-per-report"@,
        decimal(p.steps_per_report as nat),
        "--val-batches"@,
        decimal(p.val_batches as nat),
        "--save-every"@,
        decimal(p.save_every as nat),
        "--seed"@,
        decimal(p.seed as nat),
    ]
}

/// The arguments that a training takes only where the request asks for them:
/// the adapter settings unless the whole model is tuned, and the switches.
pub open spec fn optional_training_args(p: TrainingParams, config_path: Seq<char>) -> Seq<
    Seq<char>,
> {
    (if p.fine_tune_type@ != full_tuning() {
        seq!["-c"@, config_path, "--num-layers"@, decimal(p.lora_layers as nat)]
    } else {
        Seq::empty()
    }) + (if p.grad_checkpoint {
        seq!["--grad-checkpoint"@]
    } else {
        Seq::empty()
    }) + (if p.mask_prompt {
        seq!["--mask-prompt"@]
    } else {
        Seq::empty()
    }) + (if p.grad_accumulation_steps > 1 {
        seq!["--grad-accumulation-steps"@, decimal(p.grad_accumulation_steps as nat)]
    } else {
        Seq::empty()
    })
}

/// The arguments of the worker that trains.
pub open spec fn training_args(
    p: TrainingParams,
    data_dir: Seq<char>,
    adapter_path: Seq<char>,
    config_path: Seq<char>,
    batch_size: u64,
) -> Seq<Seq<char>> {
    fixed_training_args(p, data_dir, adapter_path, batch_size) + optional_training_args(
        p,
        config_path,
    )
}

/// A job of the kind that trains.
pub open spec fn training_job_of(
    p: TrainingParams,
    job_id: Seq<char>,
    python: Seq<char>,
    data_dir: Seq<char>,
    adapter_path: Seq<char>,
    config_path: Seq<char>,
    batch_size: u64,
    endpoint: Option<Seq<char>>,
) -> JobView {
    JobView {
        kind: JobKind::Training,
        job_id,
        program: python,
        args: training_args(p, data_dir, adapter_path, config_path, batch_size),
        inputs: seq![data_dir],
        env: match endpoint {
            Some(e) => seq![("HF_ENDPOINT"@, e)],
            None => Seq::empty(),
        },
        wrapper: keep_awake(),
        timeout_secs: None,
        correlation_key: "job_id"@,
        correlation_id: job_id,
        tentative: None,
    }
}

fn push_text(v: &mut Vec<String>, s: &str)
    ensures
        texts(final(v)@) == texts(old(v)@).push(s@),
{
    let t = s.to_owned();
    proof {
        lemma_texts_push(v@, t);
    }
    v.push(t);
}

fn push_number(v: &mut Vec<String>, n: u64)
    ensures
        texts(final(v)@) == texts(old(v)@).push(decimal(n as nat)),
{
    let t = decimal_string(n);
    proof {
        lemma_texts_push(v@, t);
    }
    v.push(t);
}

fn fixed_args(p: &TrainingParams, data_dir: &str, adapter_path: &str, batch_size: u64) -> (args:
    Vec<String>)
    ensures
        texts(args@) == fixed_training_args(*p, data_dir@, adapter_path@, batch_size),
{
    let mut args: Vec<String> = Vec::new();
    assert(texts(args@) =~= Seq::<Seq<char>>::empty());
    push_text(&mut args, "-m");
    push_text(&mut args, "mlx_lm");
    push_text(&mut args, "lora");
    push_text(&mut args, "--train");
    push_text(&mut args, "--model");
    push_text(&mut args, p.model.as_str());
    push_text(&mut args, "--data");
    push_text(&mut args, data_dir);
    push_text(&mut args, "--fine-tune-type");
    push_text(&mut args, p.fine_tune_type.as_str());
    push_text(&mut args, "--optimizer");
    push_text(&mut args, p.optimizer.as_str());
    push_text(&mut args, "--adapter-path");
    push_text(&mut args, adapter_path);
    push_text(&mut args, "--iters");
    push_number(&mut args, p.iters);
    push_text(&mut args, "--batch-size");
    push_number(&mut args, batch_size);
    push_text(&mut args, "--learning-rate");
    push_text(&mut args, p.learning_rate.as_str());
    push_text(&mut args, "--max-seq-length");
    push_number(&mut args, p.max_seq_length);
    push_text(&mut args, "--steps-per-eval");
    push_number(&mut args, p.steps_per_eval);
    push_text(&mut args, "--steps-per-report");
    push_number(&mut args, p.steps_per_report);
    push_text(&mut args, "--val-batches");
    push_number(&mut args, p.val_batches);
    push_text(&mut args, "--save-every");
    push_number(&mut args, p.save_every);
    push_text(&mut args, "--seed");
    push_number(&mut args, p.seed);
    args
}

fn add_optional_args(args: &mut Vec<String>, p: &TrainingParams, config_path: &str)
    ensures
        texts(final(args)@) == texts(old(args)@) + optional_training_args(*p, config_path@),
{
    if !same_text(p.fine_tune_type.as_str(), "full") {
        push_text(args, "-c");
        push_text(args, config_path);
        push_text(args, "--num-layers");
        push_number(args, p.lora_layers);
    }
    let ghost first = texts(args@);
    assert(first =~= texts(old(args)@) + (if p.fine_tune_type@ != full_tuning() {
        seq!["-c"@, config_path@, "--num-layers"@, decimal(p.lora_layers as nat)]
    } else {
        Seq::empty()
    }));
    if p.grad_checkpoint {
        push_text(args, "--grad-checkpoint");
    }
    if p.mask_prompt {
        push_text(args, "--mask-prompt");
    }
    let ghost second = texts(args@);
    assert(second =~= first + (if p.grad_checkpoint {
        seq!["--grad-checkpoint"@]
    } else {
        Seq::empty()
    }) + (if p.mask_prompt {
        seq!["--mask-prompt"@]
    } else {
        Seq::empty()
    }));
    if p.grad_accumulation_steps > 1 {
        push_text(args, "--grad-accumulation-steps");
        push_number(args, p.grad_accumulation_steps);
    }
    assert(texts(args@) =~= second + (if p.grad_accumulation_steps > 1 {
        seq!["--grad-accumulation-steps"@, decimal(p.grad_accumulation_steps as nat)]
    } else {
        Seq::empty()
    }));
    assert(texts(args@) =~= texts(old(args)@) + optional_training_args(*p, config_path@));
}

/// Sets up the job that trains. `endpoint` is the address that downloads go
/// through, if they go through one.
pub fn training_job(
    p: &TrainingParams,
    job_id: &str,
    python: &str,
    data_dir: &str,
    adapter_path: &str,
    config_path: &str,
    batch_size: u64,
    endpoint: Option<&str>,
) -> (job: Job)
    ensures
        job@ == training_job_of(
            *p,
            job_id@,
            python@,
            data_dir@,
            adapter_path@,
            config_path@,
            batch_size,
            opt_text(endpoint),
        ),
{
    let mut args = fixed_args(p, data_dir, adapter_path, batch_size);
    add_optional_args(&mut args, p, config_path);
    let mut inputs: Vec<String> = Vec::new();
    assert(texts(inputs@) =~= Seq::<Seq<char>>::empty());
    push_text(&mut inputs, data_dir);
    let mut env: Vec<(String, String)> = Vec::new();
    match endpoint {
        Some(e) => {
            env.push(("HF_ENDPOINT".to_owned(), e.to_owned()));
        },
        None => {},
    }
    let mut wrapper: Vec<String> = Vec::new();
    assert(texts(wrapper@) =~= Seq::<Seq<char>>::empty());
    push_text(&mut wrapper, "caffeinate");
    push_text(&mut wrapper, "-i");
    let job = Job {
        kind: JobKind::Training,
        job_id: job_id.to_owned(),
        program: python.to_owned(),
        args,
        inputs,
        env,
        wrapper,
        timeout_secs: None,
        correlation: Correlation { key: "job_id".to_owned(), id: job_id.to_owned() },
        tentative: None,
    };
    proof {
        let want = training_job_of(
            *p,
            job_id@,
            python@,
            data_dir@,
            adapter_path@,
            config_path@,
            batch_size,
            opt_text(endpoint),
        );
        assert(job@.inputs =~= want.inputs);
        assert(job@.env =~= want.env);
        assert(job@.wrapper =~= want.wrapper);
    }
    job
}

} // verus!
