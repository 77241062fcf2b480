use courtyard::supervisor::JobKind;
use courtyard::training::{
    check_training, clamp_batch_size, lora_config_text, read_training_params, training_job,
    Fractions, TrainingParams,
};

fn fractions() -> Fractions {
    Fractions {
        lora_scale: "20".to_string(),
        lora_dropout: "0".to_string(),
        learning_rate: "1.00e-5".to_string(),
    }
}

fn params(text: &str) -> TrainingParams {
    read_training_params(text, fractions()).unwrap()
}

#[test]
fn what_a_request_leaves_unsaid_takes_the_usual_value() {
    let p = params("{\"model\":\"mlx-community/Qwen2.5-0.5B\"}");
    assert_eq!(p.model, "mlx-community/Qwen2.5-0.5B");
    assert_eq!(p.fine_tune_type, "lora");
    assert_eq!(p.optimizer, "adam");
    assert_eq!(p.iters, 1000);
    assert_eq!(p.batch_size, 4);
    assert_eq!(p.lora_layers, 16);
    assert_eq!(p.lora_rank, 8);
    assert_eq!(p.lora_scale, "20");
    assert_eq!(p.lora_dropout, "0");
    assert_eq!(p.learning_rate, "1.00e-5");
    assert_eq!(p.max_seq_length, 2048);
    assert!(!p.grad_checkpoint);
    assert_eq!(p.grad_accumulation_steps, 1);
    assert_eq!(p.save_every, 100);
    assert!(!p.mask_prompt);
    assert_eq!(p.steps_per_eval, 200);
    assert_eq!(p.steps_per_report, 10);
    assert_eq!(p.val_batches, 25);
    assert_eq!(p.seed, 0);
}

#[test]
fn what_a_request_says_is_taken() {
    let p = params(
        "{\"model\":\"m\",\"fine_tune_type\":\"dora\",\"optimizer\":\"adamw\",\"iters\":50,\"batch_size\":2,\
         \"lora_layers\":8,\"lora_rank\":4,\"max_seq_length\":512,\"grad_checkpoint\":true,\
         \"grad_accumulation_steps\":4,\"save_every\":10,\"mask_prompt\":true,\"steps_per_eval\":20,\
         \"steps_per_report\":5,\"val_batches\":3,\"seed\":42}",
    );
    assert_eq!(p.fine_tune_type, "dora");
    assert_eq!(p.optimizer, "adamw");
    assert_eq!(p.iters, 50);
    assert_eq!(p.batch_size, 2);
    assert_eq!(p.lora_layers, 8);
    assert_eq!(p.lora_rank, 4);
    assert_eq!(p.max_seq_length, 512);
    assert!(p.grad_checkpoint);
    assert_eq!(p.grad_accumulation_steps, 4);
    assert_eq!(p.save_every, 10);
    assert!(p.mask_prompt);
    assert_eq!(p.steps_per_eval, 20);
    assert_eq!(p.steps_per_report, 5);
    assert_eq!(p.val_batches, 3);
    assert_eq!(p.seed, 42);
}

#[test]
fn values_of_the_wrong_kind_count_as_unsaid() {
    let p = params("{\"model\":\"m\",\"iters\":\"50\",\"batch_size\":-2,\"seed\":1.5,\"grad_checkpoint\":1,\"optimizer\":7}");
    assert_eq!(p.iters, 1000);
    assert_eq!(p.batch_size, 4);
    assert_eq!(p.seed, 0);
    assert!(!p.grad_checkpoint);
    assert_eq!(p.optimizer, "adam");
}

#[test]
fn a_request_without_a_model_is_refused() {
    for text in ["{}", "{\"model\":5}", "[]", "null", "{\"iters\":3}"] {
        match read_training_params(text, fractions()) {
            Err(m) => assert_eq!(m, "Missing model parameter", "{:?}", text),
            Ok(_) => panic!("{:?} should have been refused", text),
        }
    }
}

#[test]
fn a_request_that_is_no_json_is_refused_with_the_reason() {
    match read_training_params("{\"model\":", fractions()) {
        Err(m) => {
            assert!(m.starts_with("Invalid params: "));
            assert!(m.len() > "Invalid params: ".len());
        }
        Ok(_) => panic!("the request should have been refused"),
    }
}

#[test]
fn training_is_refused_without_environment_or_dataset() {
    assert_eq!(
        check_training(false, Some("/d"), true, true),
        Err("Python environment not ready. Please configure it in Settings.".to_string())
    );
    let required = "Dataset version is required. Please select a dataset version before starting training.";
    assert_eq!(check_training(true, None, true, true), Err(required.to_string()));
    assert_eq!(check_training(true, Some(""), true, true), Err(required.to_string()));
    assert_eq!(check_training(true, Some("  \t"), true, true), Err(required.to_string()));
    assert_eq!(
        check_training(true, Some("/d"), false, true),
        Err("Dataset train.jsonl not found. Please generate a dataset first.".to_string())
    );
    assert_eq!(
        check_training(true, Some("/d"), true, false),
        Err("Dataset valid.jsonl not found. Please generate a dataset first.".to_string())
    );
    assert_eq!(check_training(true, Some("/d"), true, true), Ok(()));
}

#[test]
fn the_batch_size_never_exceeds_the_smaller_part_of_the_dataset() {
    assert_eq!(clamp_batch_size(4, 100, 10), 4);
    assert_eq!(clamp_batch_size(4, 100, 3), 3);
    assert_eq!(clamp_batch_size(4, 2, 30), 2);
    assert_eq!(clamp_batch_size(4, 0, 30), 4);
    assert_eq!(clamp_batch_size(4, 30, 0), 4);
    assert_eq!(clamp_batch_size(4, 4, 4), 4);
    assert_eq!(clamp_batch_size(0, 4, 4), 0);
    assert_eq!(clamp_batch_size(u64::MAX, 1, 1), 1);
}

#[test]
fn the_adapter_settings_as_the_worker_reads_them() {
    let p = params("{\"model\":\"m\",\"lora_rank\":16}");
    assert_eq!(
        lora_config_text(&p),
        "lora_parameters:\n  rank: 16\n  alpha: 32\n  dropout: 0\n  scale: 20\n"
    );
    let full = params("{\"model\":\"m\",\"fine_tune_type\":\"full\"}");
    assert_eq!(lora_config_text(&full), "");
    let huge = params("{\"model\":\"m\",\"lora_rank\":18446744073709551615}");
    assert_eq!(
        lora_config_text(&huge),
        "lora_parameters:\n  rank: 18446744073709551615\n  alpha: 18446744073709551615\n  dropout: 0\n  scale: 20\n"
    );
}

#[test]
fn the_command_line_of_a_training() {
    let p = params("{\"model\":\"m\",\"grad_checkpoint\":true,\"grad_accumulation_steps\":2}");
    let job = training_job(&p, "job-7", "py", "/d", "/p/adapters/job-7", "/p/adapters/job-7/lora_config.yaml", 3, Some("https://hf-mirror.com"));
    assert!(matches!(job.kind, JobKind::Training));
    assert_eq!(
        job.args,
        vec![
            "-m", "mlx_lm", "lora", "--train", "--model", "m", "--data", "/d", "--fine-tune-type", "lora",
            "--optimizer", "adam", "--adapter-path", "/p/adapters/job-7", "--iters", "1000", "--batch-size", "3",
            "--learning-rate", "1.00e-5", "--max-seq-length", "2048", "--steps-per-eval", "200",
            "--steps-per-report", "10", "--val-batches", "25", "--save-every", "100", "--seed", "0", "-c",
            "/p/adapters/job-7/lora_config.yaml", "--num-layers", "16", "--grad-checkpoint",
            "--grad-accumulation-steps", "2"
        ]
    );
    assert_eq!(job.env, vec![("HF_ENDPOINT".to_string(), "https://hf-mirror.com".to_string())]);
    assert_eq!(job.wrapper, vec!["caffeinate", "-i"]);
    assert_eq!(job.correlation.key, "job_id");
    assert_eq!(job.correlation.id, "job-7");
    assert_eq!(job.job_id, "job-7");
    assert_eq!(job.inputs, vec!["/d"]);
}

#[test]
fn a_full_tuning_takes_no_adapter_settings() {
    let p = params("{\"model\":\"m\",\"fine_tune_type\":\"full\",\"mask_prompt\":true}");
    let job = training_job(&p, "j", "py", "/d", "/a", "/a/c.yaml", 4, None);
    assert_eq!(job.args.len(), 33);
    assert_eq!(job.args[32], "--mask-prompt");
    assert!(!job.args.contains(&"-c".to_string()));
    assert!(job.env.is_empty());
}
