//! The check of an exported model: the daemon is asked to show the model
//! and then to answer a prompt or two. The caller runs the commands, each
//! under a time limit; this module reads how they ended.

use vstd::prelude::*;
use crate::reconciler::CommandResult;
use crate::text::{
    chain, chars_of, contains, contains_folded, each_trimmed, first_chars, has_part,
    has_part_folded, is_blank, join, join_from, joined, last_lines, lemma_texts_push, lines_of,
    opt_text, slice_string, text_lines, text_of, texts, trim, trim_bounds, trimmed,
};

verus! {

/// How the check of an exported model ended.
pub struct VerifyResult {
    pub ok: bool,
    /// The beginning of what the model answered.
    pub preview: String,
    pub error: Option<String>,
}

/// How a command ended that ran under a time limit.
pub enum Attempt {
    /// The time limit passed before the command ended.
    TimedOut,
    Ran(CommandResult),
}

/// How many characters of the model's answer are shown.
pub const ANSWER_CHARS: usize = 120;

/// How many lines of the daemon's log are searched for a diagnosis.
pub const LOG_LINES: usize = 200;

/// How many lines of the daemon's log a diagnosis quotes.
pub const QUOTED_LINES: usize = 3;

/// What the daemon says when it cannot load a model.
pub open spec fn load_failure() -> Seq<char> {
    "unable to load model"@
}

/// What a command said: the first of its standard error, its standard
/// output, both trimmed, that is not empty; and `otherwise` where both are.
pub open spec fn said(stdout: Seq<char>, stderr: Seq<char>, otherwise: Seq<char>) -> Seq<char> {
    if !is_blank(stderr) {
        trimmed(stderr)
    } else if !is_blank(stdout) {
        trimmed(stdout)
    } else {
        otherwise
    }
}

fn what_it_said(stdout: &str, stderr: &str, otherwise: &str) -> (r: String)
    ensures
        r@ == said(stdout@, stderr@, otherwise@),
{
    let e = chars_of(stderr);
    let (from, to) = trim_bounds(&e);
    if from < to {
        return slice_string(&e, from, to);
    }
    let o = chars_of(stdout);
    let (from, to) = trim_bounds(&o);
    if from < to {
        slice_string(&o, from, to)
    } else {
        otherwise.to_owned()
    }
}

/// Why the model cannot be checked, as the attempt to show it tells; none
/// where the daemon showed the model.
pub open spec fn show_failure(attempt: Attempt) -> Option<Seq<char>> {
    match attempt {
        Attempt::TimedOut => Some(
            "Verification timed out while checking model metadata (15 s)."@,
        ),
        Attempt::Ran(CommandResult::Unavailable(e)) => Some(e@),
        Attempt::Ran(CommandResult::Finished { success, stdout, stderr }) => if success {
            None
        } else {
            Some(said(stdout@, stderr@, "Failed to inspect exported model"@))
        },
    }
}

/// Reads the attempt to show the model. Where the daemon did not show it the
/// check has failed, and the result says why; where it did the check goes
/// on, and there is no result yet.
pub fn verify_show(attempt: &Attempt) -> (r: Option<VerifyResult>)
    ensures
        match r {
            Some(v) => !v.ok && v.preview@.len() == 0 && text_of(v.error) == show_failure(*attempt)
                && v.error is Some,
            None => show_failure(*attempt) is None,
        },
{
    let error = match attempt {
        Attempt::TimedOut => "Verification timed out while checking model metadata (15 s).".to_owned(),
        Attempt::Ran(CommandResult::Unavailable(e)) => e.clone(),
        Attempt::Ran(CommandResult::Finished { success, stdout, stderr }) => {
            if *success {
                return None;
            }
            what_it_said(stdout.as_str(), stderr.as_str(), "Failed to inspect exported model")
        },
    };
    Some(VerifyResult { ok: false, preview: String::new(), error: Some(error) })
}

/// The prompts that the model is asked, in order, until it answers one.
pub fn verify_prompts() -> (r: Vec<String>)
    ensures
        texts(r@) == seq!["Reply with exactly one word: OK"@, "Say OK"@],
{
    let mut r: Vec<String> = Vec::new();
    r.push("Reply with exactly one word: OK".to_owned());
    r.push("Say OK".to_owned());
    assert(texts(r@) =~= seq!["Reply with exactly one word: OK"@, "Say OK"@]);
    r
}

/// What follows from the attempt to have the model answer a prompt.
pub enum Verdict {
    /// The model answered: the check has passed, with this much of the
    /// answer to show.
    Passed(String),
    /// The model did not answer, for the reason given; the next prompt is to
    /// be tried, if there is one.
    TryNext(String),
    /// The model cannot be loaded, as the reason given says; no other prompt
    /// will do better.
    GiveUp(String),
}

/// What follows from an attempt to have the model answer, as the contracts speak of it.
pub enum VerdictView {
    Passed(Seq<char>),
    TryNext(Seq<char>),
    GiveUp(Seq<char>),
}

impl View for Verdict {
    type V = VerdictView;

    open spec fn view(&self) -> VerdictView {
        match self {
            Verdict::Passed(p) => VerdictView::Passed(p@),
            Verdict::TryNext(e) => VerdictView::TryNext(e@),
            Verdict::GiveUp(e) => VerdictView::GiveUp(e@),
        }
    }
}

/// What is shown of the answer `stdout`: its beginning, trimmed; and a note
/// where the model answered nothing.
pub open spec fn answer_preview(stdout: Seq<char>) -> Seq<char> {
    if is_blank(stdout) {
        "(model loaded; empty response)"@
    } else {
        first_chars(trimmed(stdout), ANSWER_CHARS as nat)
    }
}

/// What follows from the attempt to have the model answer a prompt.
pub open spec fn verdict_of(attempt: Attempt) -> VerdictView {
    match attempt {
        Attempt::TimedOut => VerdictView::TryNext(
            "Verification timed out (45 s). Model may still be loading — try again shortly."@,
        ),
        Attempt::Ran(CommandResult::Unavailable(e)) => VerdictView::TryNext(e@),
        Attempt::Ran(CommandResult::Finished { success, stdout, stderr }) => if success {
            VerdictView::Passed(answer_preview(stdout@))
        } else {
            let reason = said(stdout@, stderr@, "Model returned no output"@);
            if has_part_folded(reason, load_failure()) {
                VerdictView::GiveUp(reason)
            } else {
                VerdictView::TryNext(reason)
            }
        },
    }
}

/// Reads the attempt to have the model answer a prompt.
pub fn verify_run(attempt: &Attempt) -> (r: Verdict)
    ensures
        r@ == verdict_of(*attempt),
{
    match attempt {
        Attempt::TimedOut => Verdict::TryNext(
            "Verification timed out (45 s). Model may still be loading — try again shortly.".to_owned(),
        ),
        Attempt::Ran(CommandResult::Unavailable(e)) => Verdict::TryNext(e.clone()),
        Attempt::Ran(CommandResult::Finished { success, stdout, stderr }) => {
            if *success {
                let o = chars_of(stdout.as_str());
                let (from, to) = trim_bounds(&o);
                if from == to {
                    Verdict::Passed("(model loaded; empty response)".to_owned())
                } else {
                    let end: usize = if to - from > ANSWER_CHARS {
                        from + ANSWER_CHARS
                    } else {
                        to
                    };
                    let p = slice_string(&o, from, end);
                    proof {
                        let t = o@.subrange(from as int, to as int);
                        if to - from > ANSWER_CHARS {
                            assert(t.take(ANSWER_CHARS as int) == o@.subrange(
                                from as int,
                                end as int,
                            ));
                        }
                    }
                    Verdict::Passed(p)
                }
            } else {
                let reason = what_it_said(
                    stdout.as_str(),
                    stderr.as_str(),
                    "Model returned no output",
                );
                if contains_folded(reason.as_str(), "unable to load model") {
                    Verdict::GiveUp(reason)
                } else {
                    Verdict::TryNext(reason)
                }
            }
        },
    }
}

/// Whether a line of the daemon's log tells of a model that failed to load.
pub open spec fn tells_of_load(line: Seq<char>) -> bool {
    has_part(line, "gguf_init_from_file_impl"@) || has_part(line, "llama_model_load"@) || has_part(
        line,
        "failed to load model"@,
    )
}

/// The lines among `lines` that tell of a model that failed to load.
pub open spec fn telling_lines(lines: Seq<Seq<char>>) -> Seq<Seq<char>>
    decreases lines.len(),
{
    if lines.len() == 0 {
        Seq::empty()
    } else if tells_of_load(lines.last()) {
        telling_lines(lines.drop_last()).push(lines.last())
    } else {
        telling_lines(lines.drop_last())
    }
}

/// What is said of a model whose weights are listed twice.
pub open spec fn duplicate_tensors() -> Seq<char> {
    "Ollama server log detected duplicate tensor names in the exported model blob. This usually means stale or duplicate safetensors shards were imported. Please re-export with a clean output directory."@
}

/// What the last lines of the daemon's log add to an error: a word on
/// weights that are listed twice, where the log names any; else the last
/// lines that tell of the failed load, trimmed; and nothing where there are
/// none.
pub open spec fn log_diagnosis(log: Seq<char>) -> Option<Seq<char>> {
    let tail = last_lines(text_lines(log), LOG_LINES as nat);
    if has_part_folded(joined(tail, "\n"@), "duplicate tensor name"@) {
        Some(duplicate_tensors())
    } else {
        let told = last_lines(telling_lines(tail), QUOTED_LINES as nat);
        if told.len() == 0 {
            None
        } else {
            Some("Ollama server diagnostics: "@ + joined(each_trimmed(told), " | "@))
        }
    }
}

/// What the daemon's log adds to the error `raw_error`: nothing unless the
/// error says that the model could not be loaded and the log can be read.
pub open spec fn diagnosis(raw_error: Seq<char>, log: Option<Seq<char>>) -> Option<Seq<char>> {
    if !has_part_folded(raw_error, load_failure()) {
        None
    } else {
        match log {
            Some(l) => log_diagnosis(l),
            None => None,
        }
    }
}

fn tells(line: &str) -> (r: bool)
    ensures
        r == tells_of_load(line@),
{
    contains(line, "gguf_init_from_file_impl") || contains(line, "llama_model_load") || contains(
        line,
        "failed to load model",
    )
}

fn diagnose_log(log: &str) -> (r: Option<String>)
    ensures
        text_of(r) == log_diagnosis(log@),
{
    let lines = lines_of(log);
    let n: usize = lines.len();
    assert(texts(lines@).len() == lines@.len());
    let from: usize = if n <= LOG_LINES {
        0
    } else {
        n - LOG_LINES
    };
    let ghost tail = last_lines(text_lines(log@), LOG_LINES as nat);
    assert(texts(lines@).skip(0) == texts(lines@));
    assert(tail == texts(lines@).skip(from as int));
    let joined_tail = join_from(&lines, from, "\n");
    if contains_folded(joined_tail.as_str(), "duplicate tensor name") {
        return Some(
            "Ollama server log detected duplicate tensor names in the exported model blob. This usually means stale or duplicate safetensors shards were imported. Please re-export with a clean output directory.".to_owned(),
        );
    }
    let mut told: Vec<String> = Vec::new();
    let mut i: usize = from;
    proof {
        assert(texts(told@) =~= Seq::<Seq<char>>::empty());
        assert(texts(lines@).subrange(from as int, from as int) == Seq::<Seq<char>>::empty());
    }
    while i < n
        invariant
            from <= i <= n,
            n == lines.len(),
            texts(told@) == telling_lines(texts(lines@).subrange(from as int, i as int)),
        decreases n - i,
    {
        proof {
            let upto = texts(lines@).subrange(from as int, i + 1);
            assert(upto.drop_last() == texts(lines@).subrange(from as int, i as int));
            assert(upto.last() == lines@[i as int]@);
        }
        if tells(lines[i].as_str()) {
            proof {
                lemma_texts_push(told@, lines@[i as int]);
            }
            told.push(lines[i].clone());
        }
        i += 1;
    }
    proof {
        assert(texts(lines@).subrange(from as int, n as int) == texts(lines@).skip(from as int));
        assert(texts(told@).len() == told@.len());
    }
    let m: usize = told.len();
    if m == 0 {
        return None;
    }
    let first: usize = if m <= QUOTED_LINES {
        0
    } else {
        m - QUOTED_LINES
    };
    let mut quoted: Vec<String> = Vec::new();
    let mut k: usize = first;
    let ghost picked = last_lines(texts(told@), QUOTED_LINES as nat);
    proof {
        assert(texts(told@).skip(0) == texts(told@));
        assert(picked == texts(told@).skip(first as int));
        assert(texts(quoted@) =~= each_trimmed(picked.take(0)));
    }
    while k < m
        invariant
            first <= k <= m,
            m == told.len(),
            picked == texts(told@).skip(first as int),
            texts(quoted@) == each_trimmed(picked.take(k - first)),
        decreases m - k,
    {
        let t = trim(told[k].as_str());
        proof {
            lemma_texts_push(quoted@, t);
            assert(picked[k - first] == told@[k as int]@);
            assert(each_trimmed(picked.take(k - first + 1)) =~= each_trimmed(
                picked.take(k - first),
            ).push(trimmed(picked[k - first])));
        }
        quoted.push(t);
        k += 1;
    }
    assert(picked.take(m - first) == picked);
    let list = join(&quoted, " | ");
    Some(chain("Ollama server diagnostics: ", list.as_str()))
}

/// Finds what the daemon's log adds to an error of the check.
pub fn diagnose_ollama_load_error(raw_error: &str, log: Option<&str>) -> (r: Option<String>)
    ensures
        text_of(r) == diagnosis(
            raw_error@,
            opt_text(log),
        ),
{
    if !contains_folded(raw_error, "unable to load model") {
        return None;
    }
    match log {
        Some(l) => diagnose_log(l),
        None => None,
    }
}

/// What is said of a check that failed: the last error, with what the
/// daemon's log adds to it on a line of its own; and a word where there is
/// no error to tell.
pub open spec fn failure_report(last_error: Seq<char>, log: Option<Seq<char>>) -> Seq<char> {
    let told = match diagnosis(last_error, log) {
        Some(d) => last_error + "\n"@ + d,
        None => last_error,
    };
    if told.len() == 0 {
        "Model verification failed for unknown reason"@
    } else {
        told
    }
}

/// The result of a check in which the model answered no prompt.
pub fn verify_failure(last_error: &str, log: Option<&str>) -> (r: VerifyResult)
    ensures
        !r.ok,
        r.preview@.len() == 0,
        r.error matches Some(e) && e@ == failure_report(
            last_error@,
            opt_text(log),
        ),
{
    let mut told = last_error.to_owned();
    match diagnose_ollama_load_error(last_error, log) {
        Some(d) => {
            told.append("\n");
            told.append(d.as_str());
        },
        None => {},
    }
    let error = if told.as_str().unicode_len() == 0 {
        "Model verification failed for unknown reason".to_owned()
    } else {
        told
    };
    VerifyResult { ok: false, preview: String::new(), error: Some(error) }
}

/// The result of a check in which the model answered.
pub fn verify_success(preview: String) -> (r: VerifyResult)
    ensures
        r.ok,
        r.preview == preview,
        r.error is None,
{
    VerifyResult { ok: true, preview, error: None }
}

} // verus!
