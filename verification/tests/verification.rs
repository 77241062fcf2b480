use courtyard::reconciler::CommandResult;
use courtyard::verification::{
    diagnose_ollama_load_error, verify_failure, verify_prompts, verify_run, verify_show,
    verify_success, Attempt, Verdict,
};

fn ran(success: bool, stdout: &str, stderr: &str) -> Attempt {
    Attempt::Ran(CommandResult::Finished { success, stdout: stdout.to_string(), stderr: stderr.to_string() })
}

#[test]
fn a_model_that_is_shown_goes_on_to_the_prompts() {
    assert!(verify_show(&ran(true, "Model\n  arch qwen2", "")).is_none());
    assert_eq!(verify_prompts(), vec!["Reply with exactly one word: OK", "Say OK"]);
}

#[test]
fn a_model_that_is_not_shown_fails_the_check() {
    let r = verify_show(&ran(false, " out ", " Error: model 'x' not found \n")).unwrap();
    assert!(!r.ok);
    assert_eq!(r.preview, "");
    assert_eq!(r.error.as_deref(), Some("Error: model 'x' not found"));
    assert_eq!(verify_show(&ran(false, " out ", " ")).unwrap().error.as_deref(), Some("out"));
    assert_eq!(verify_show(&ran(false, "", "")).unwrap().error.as_deref(), Some("Failed to inspect exported model"));
    let gone = Attempt::Ran(CommandResult::Unavailable("No such file".to_string()));
    assert_eq!(verify_show(&gone).unwrap().error.as_deref(), Some("No such file"));
    assert_eq!(
        verify_show(&Attempt::TimedOut).unwrap().error.as_deref(),
        Some("Verification timed out while checking model metadata (15 s).")
    );
}

#[test]
fn an_answer_passes_the_check() {
    match verify_run(&ran(true, "  OK \n", "")) {
        Verdict::Passed(p) => assert_eq!(p, "OK"),
        _ => panic!("the check should have passed"),
    }
    match verify_run(&ran(true, " \n", "noise")) {
        Verdict::Passed(p) => assert_eq!(p, "(model loaded; empty response)"),
        _ => panic!("the check should have passed"),
    }
    let long = "é".repeat(300);
    match verify_run(&ran(true, &format!(" {} ", long), "")) {
        Verdict::Passed(p) => assert_eq!(p, "é".repeat(120)),
        _ => panic!("the check should have passed"),
    }
    let exact = "x".repeat(120);
    match verify_run(&ran(true, &exact, "")) {
        Verdict::Passed(p) => assert_eq!(p, exact),
        _ => panic!("the check should have passed"),
    }
    let r = verify_success("OK".to_string());
    assert!(r.ok);
    assert_eq!(r.preview, "OK");
    assert_eq!(r.error, None);
}

#[test]
fn a_failure_tries_the_next_prompt_unless_the_model_cannot_be_loaded() {
    match verify_run(&ran(false, "", " connection refused ")) {
        Verdict::TryNext(e) => assert_eq!(e, "connection refused"),
        _ => panic!("the next prompt should be tried"),
    }
    match verify_run(&ran(false, "", "")) {
        Verdict::TryNext(e) => assert_eq!(e, "Model returned no output"),
        _ => panic!("the next prompt should be tried"),
    }
    match verify_run(&ran(false, "", "Error: Unable To Load Model: /blobs/sha256-1")) {
        Verdict::GiveUp(e) => assert_eq!(e, "Error: Unable To Load Model: /blobs/sha256-1"),
        _ => panic!("no other prompt should be tried"),
    }
    match verify_run(&Attempt::Ran(CommandResult::Unavailable("gone".to_string()))) {
        Verdict::TryNext(e) => assert_eq!(e, "gone"),
        _ => panic!("the next prompt should be tried"),
    }
    match verify_run(&Attempt::TimedOut) {
        Verdict::TryNext(e) => {
            assert_eq!(e, "Verification timed out (45 s). Model may still be loading — try again shortly.")
        }
        _ => panic!("the next prompt should be tried"),
    }
}

#[test]
fn the_log_is_read_only_for_a_model_that_cannot_be_loaded() {
    let log = "llama_model_load: error loading model\n";
    assert_eq!(diagnose_ollama_load_error("connection refused", Some(log)), None);
    assert_eq!(diagnose_ollama_load_error("unable to load model", None), None);
    assert_eq!(
        diagnose_ollama_load_error("Error: unable to load model", Some(log)).as_deref(),
        Some("Ollama server diagnostics: llama_model_load: error loading model")
    );
    assert_eq!(diagnose_ollama_load_error("unable to load model", Some("all fine\n")), None);
    assert_eq!(diagnose_ollama_load_error("unable to load model", Some("")), None);
}

#[test]
fn the_last_three_telling_lines_are_quoted() {
    let log = "time=1 msg=start\n\
               \tgguf_init_from_file_impl: first  \n\
               llama_model_load: second\r\n\
               nothing to see\n\
               failed to load model third\n\
               llama_model_load: fourth\n\
               bye";
    assert_eq!(
        diagnose_ollama_load_error("UNABLE TO LOAD MODEL", Some(log)).as_deref(),
        Some("Ollama server diagnostics: llama_model_load: second | failed to load model third | llama_model_load: fourth")
    );
}

#[test]
fn duplicate_tensors_are_named_first() {
    let log = "llama_model_load: x\nerror: Duplicate Tensor Name blk.0\nllama_model_load: y\n";
    assert_eq!(
        diagnose_ollama_load_error("unable to load model", Some(log)).as_deref(),
        Some("Ollama server log detected duplicate tensor names in the exported model blob. This usually means stale or duplicate safetensors shards were imported. Please re-export with a clean output directory.")
    );
}

#[test]
fn only_the_last_two_hundred_lines_of_the_log_count() {
    let mut log = String::from("duplicate tensor name far back\nllama_model_load: old\n");
    for k in 0..199 {
        log.push_str(&format!("line {}\n", k));
    }
    log.push_str("llama_model_load: recent\n");
    assert_eq!(
        diagnose_ollama_load_error("unable to load model", Some(&log)).as_deref(),
        Some("Ollama server diagnostics: llama_model_load: recent")
    );
    let mut near = String::from("llama_model_load: old\n");
    for k in 0..199 {
        near.push_str(&format!("line {}\n", k));
    }
    assert_eq!(
        diagnose_ollama_load_error("unable to load model", Some(&near)).as_deref(),
        Some("Ollama server diagnostics: llama_model_load: old")
    );
}

#[test]
fn the_report_of_a_failed_check() {
    let r = verify_failure("connection refused", Some("llama_model_load: x\n"));
    assert!(!r.ok);
    assert_eq!(r.preview, "");
    assert_eq!(r.error.as_deref(), Some("connection refused"));
    let d = verify_failure("unable to load model", Some("llama_model_load: x\n"));
    assert_eq!(d.error.as_deref(), Some("unable to load model\nOllama server diagnostics: llama_model_load: x"));
    let u = verify_failure("", None);
    assert_eq!(u.error.as_deref(), Some("Model verification failed for unknown reason"));
}
