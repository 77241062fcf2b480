use courtyard::launcher::{
    check_cleaning, check_dataset, check_export, check_inference, cleaning_job, dataset_job,
    dataset_script_name, gguf_export_job, gguf_fallback, gguf_preferred, inference_job,
    lang_fallback_text, launch_command, ollama_export_job, script_supports_lang_arg,
    DatasetRequest, InferenceRequest, OllamaExportRequest,
};
use courtyard::supervisor::JobKind;

fn request(source: &str, resume: bool, lang: Option<&str>) -> DatasetRequest {
    DatasetRequest {
        project_id: "p1".to_string(),
        project_dir: "/projects/p1".to_string(),
        model: "qwen2.5".to_string(),
        mode: "qa".to_string(),
        source: source.to_string(),
        resume,
        lang: lang.map(String::from),
    }
}

#[test]
fn a_cleaning_job_is_wrapped_to_keep_the_host_awake() {
    let job = cleaning_job("j", "p1", "/projects/p1", "/venv/bin/python", "/s/clean_data.py", Some("zh"), true);
    assert!(matches!(job.kind, JobKind::Cleaning));
    assert_eq!(job.program, "/venv/bin/python");
    assert_eq!(job.args, vec!["/s/clean_data.py", "--project-dir", "/projects/p1", "--lang", "zh"]);
    assert_eq!(job.inputs, vec!["/projects/p1/raw"]);
    assert_eq!(job.wrapper, vec!["caffeinate", "-i"]);
    assert_eq!(job.timeout_secs, None);
    assert_eq!(job.tentative, None);
    assert_eq!(job.correlation.key, "project_id");
    assert_eq!(job.correlation.id, "p1");
    let cmd = launch_command(&job);
    assert_eq!(cmd.program, "caffeinate");
    assert_eq!(
        cmd.args,
        vec!["-i", "/venv/bin/python", "/s/clean_data.py", "--project-dir", "/projects/p1", "--lang", "zh"]
    );
    assert!(cmd.env.is_empty());
}

#[test]
fn the_language_defaults_to_english_and_is_left_out_for_old_scripts() {
    let with = cleaning_job("j", "p1", "/p", "py", "s.py", None, true);
    assert_eq!(with.args, vec!["s.py", "--project-dir", "/p", "--lang", "en"]);
    let without = cleaning_job("j", "p1", "/p", "py", "s.py", Some("zh"), false);
    assert_eq!(without.args, vec!["s.py", "--project-dir", "/p"]);
}

#[test]
fn the_language_argument_is_found_in_the_text_of_the_script() {
    assert!(script_supports_lang_arg(Some("parser.add_argument(\"--lang\", default=\"en\")")));
    assert!(script_supports_lang_arg(Some("from i18n import add_lang_arg\nadd_lang_arg(p)")));
    assert!(script_supports_lang_arg(Some("parser.add_argument(\"--language\")")));
    assert!(!script_supports_lang_arg(Some("parser.add_argument(\"--locale\")")));
    assert!(!script_supports_lang_arg(Some("")));
    assert!(!script_supports_lang_arg(None));
}

#[test]
fn what_is_said_when_the_language_is_left_out() {
    assert_eq!(
        lang_fallback_text(JobKind::Cleaning),
        "⚠️ Cleaning script does not support --lang, fallback to script default language."
    );
    assert_eq!(
        lang_fallback_text(JobKind::Dataset),
        "⚠️ Dataset script does not support --lang, fallback to script default language."
    );
}

#[test]
fn the_dataset_script_goes_by_the_source() {
    assert_eq!(dataset_script_name("ollama"), "generate_dataset_ollama.py");
    assert_eq!(dataset_script_name("builtin"), "generate_dataset_builtin.py");
    assert_eq!(dataset_script_name("mlx"), "generate_dataset.py");
    assert_eq!(dataset_script_name(""), "generate_dataset.py");
}

#[test]
fn a_dataset_job_writes_to_its_tentative_version() {
    let job = dataset_job(&request("ollama", true, Some("zh")), "j", "py", "/s/gen.py", "20260101_120000", true);
    assert!(matches!(job.kind, JobKind::Dataset));
    assert_eq!(
        job.args,
        vec![
            "/s/gen.py",
            "--project-dir",
            "/projects/p1",
            "--output-dir",
            "/projects/p1/dataset/20260101_120000",
            "--mode",
            "qa",
            "--model",
            "qwen2.5",
            "--resume",
            "--lang",
            "zh"
        ]
    );
    assert_eq!(job.inputs, vec!["/projects/p1/cleaned/segments.jsonl"]);
    assert_eq!(job.tentative.as_deref(), Some("20260101_120000"));
    assert_eq!(job.wrapper, vec!["caffeinate", "-i"]);
    let cmd = launch_command(&job);
    assert_eq!(cmd.program, "caffeinate");
    assert_eq!(cmd.args[0], "-i");
    assert_eq!(cmd.args[1], "py");
    assert_eq!(cmd.args.len(), job.args.len() + 2);
}

#[test]
fn the_built_in_source_takes_no_model() {
    let job = dataset_job(&request("builtin", false, None), "j", "py", "/s/gen.py", "v", false);
    assert_eq!(
        job.args,
        vec!["/s/gen.py", "--project-dir", "/projects/p1", "--output-dir", "/projects/p1/dataset/v", "--mode", "qa"]
    );
}

#[test]
fn an_export_to_the_daemon_sets_the_environment_and_a_budget() {
    let req = OllamaExportRequest {
        project_id: "p1".to_string(),
        project_dir: "/projects/p1".to_string(),
        model_name: "my-model".to_string(),
        model: "qwen".to_string(),
        adapter: "/projects/p1/adapters/a1".to_string(),
        quantization: None,
        models_dir: "/Volumes/big/models".to_string(),
        lang: None,
    };
    let job = ollama_export_job(&req, "j", "/venv/bin/python", "/s/export_ollama.py");
    assert!(matches!(job.kind, JobKind::ExportOllama));
    assert_eq!(
        job.args,
        vec![
            "-u",
            "/s/export_ollama.py",
            "--model",
            "qwen",
            "--adapter-path",
            "/projects/p1/adapters/a1",
            "--model-name",
            "my-model",
            "--output-dir",
            "/projects/p1/export/ollama",
            "--quantization",
            "q4",
            "--ollama-models-dir",
            "/Volumes/big/models",
            "--lang",
            "en"
        ]
    );
    assert_eq!(
        job.env,
        vec![
            ("PYTHONUNBUFFERED".to_string(), "1".to_string()),
            ("OLLAMA_MODELS".to_string(), "/Volumes/big/models".to_string())
        ]
    );
    assert!(job.wrapper.is_empty());
    assert_eq!(job.timeout_secs, Some(1800));
    let cmd = launch_command(&job);
    assert_eq!(cmd.program, "/venv/bin/python");
    assert_eq!(cmd.args, job.args);
    assert_eq!(cmd.env, job.env);
}

#[test]
fn a_gguf_export_and_its_directories() {
    let job = gguf_export_job("j", "p1", "py", "/s/export_gguf.py", "qwen", "/a1", "/out/p1/gguf", Some("zh"));
    assert_eq!(
        job.args,
        vec!["-u", "/s/export_gguf.py", "--model", "qwen", "--adapter-path", "/a1", "--output-dir", "/out/p1/gguf", "--lang", "zh"]
    );
    assert_eq!(job.env, vec![("PYTHONUNBUFFERED".to_string(), "1".to_string())]);
    assert_eq!(job.timeout_secs, Some(1800));
    assert_eq!(gguf_preferred(Some("/exports"), "p1", "/projects/p1"), "/exports/p1/gguf");
    assert_eq!(gguf_preferred(None, "p1", "/projects/p1"), "/projects/p1/export/gguf");
    assert_eq!(gguf_fallback("/projects/p1"), "/projects/p1/export/gguf");
}

#[test]
fn an_inference_job() {
    let req = InferenceRequest {
        prompt: "Hello there".to_string(),
        model: "qwen".to_string(),
        adapter: Some("/a1".to_string()),
        max_tokens: None,
        temperature: "0.70".to_string(),
        lang: None,
        request_id: "r-9".to_string(),
    };
    let job = inference_job(&req, "j", "py", "/s/inference.py");
    assert_eq!(
        job.args,
        vec![
            "/s/inference.py",
            "--model",
            "qwen",
            "--prompt",
            "Hello there",
            "--max-tokens",
            "512",
            "--temp",
            "0.70",
            "--adapter-path",
            "/a1",
            "--lang",
            "en"
        ]
    );
    assert_eq!(job.correlation.key, "request_id");
    assert_eq!(job.correlation.id, "r-9");
    let bare = InferenceRequest {
        prompt: "x".to_string(),
        model: "m".to_string(),
        adapter: Some(String::new()),
        max_tokens: Some(64),
        temperature: "0.00".to_string(),
        lang: Some("zh".to_string()),
        request_id: String::new(),
    };
    let job = inference_job(&bare, "j", "py", "s.py");
    assert_eq!(
        job.args,
        vec!["s.py", "--model", "m", "--prompt", "x", "--max-tokens", "64", "--temp", "0.00", "--lang", "zh"]
    );
}

#[test]
fn jobs_are_refused_before_anything_is_launched() {
    assert_eq!(
        check_cleaning(false, true, true, "/s/c.py"),
        Err("Python environment is not ready. Please set up the environment first.".to_string())
    );
    assert_eq!(
        check_cleaning(true, false, false, "/s/c.py"),
        Err("No raw data directory found. Import files first.".to_string())
    );
    assert_eq!(check_cleaning(true, true, false, "/s/c.py"), Err("Cleaning script not found at: /s/c.py".to_string()));
    assert_eq!(check_cleaning(true, true, true, "/s/c.py"), Ok(()));
    assert_eq!(check_dataset(false, false, false, "g.py"), Err("Python environment is not ready.".to_string()));
    assert_eq!(check_dataset(true, false, true, "g.py"), Err("No cleaned data found. Run cleaning first.".to_string()));
    assert_eq!(check_dataset(true, true, false, "g.py"), Err("Dataset generation script not found: g.py".to_string()));
    assert_eq!(check_dataset(true, true, true, "g.py"), Ok(()));
    assert_eq!(check_inference(false, true, "i.py"), Err("Python environment is not ready.".to_string()));
    assert_eq!(check_inference(true, false, "i.py"), Err("Inference script not found at: i.py".to_string()));
    assert_eq!(check_inference(true, true, "i.py"), Ok(()));
}

#[test]
fn exports_are_refused_without_script_or_adapter() {
    let k = JobKind::ExportOllama;
    assert_eq!(check_export(k, false, true, "e.py", Some("/a"), true), Err("Python environment is not ready.".to_string()));
    assert_eq!(check_export(k, true, false, "e.py", Some("/a"), true), Err("Export script not found at: e.py".to_string()));
    assert_eq!(
        check_export(JobKind::ExportGguf, true, false, "e.py", Some("/a"), true),
        Err("GGUF export script not found at: e.py".to_string())
    );
    assert_eq!(check_export(k, true, true, "e.py", Some("/a"), false), Err("Adapter path not found: /a".to_string()));
    assert_eq!(
        check_export(k, true, true, "e.py", None, false),
        Err("No trained adapter found. Complete training first.".to_string())
    );
    assert_eq!(check_export(k, true, true, "e.py", Some("/a"), true), Ok(()));
}
