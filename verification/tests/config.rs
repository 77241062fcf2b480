use courtyard::config::{
    config_ollama_models_dir, default_hf_source, get_app_config, hf_endpoint_for_source,
    resolve_model_paths, set_export_path, set_hf_source, set_model_source_path, AppConfig,
    ModelPaths,
};
use courtyard::executor::{
    find_binary, first_existing, get_shell_path, scripts_dir, scripts_dir_candidates,
    PythonExecutor,
};
use courtyard::reconciler::CommandResult;

#[test]
fn only_the_mirror_has_an_endpoint() {
    assert_eq!(hf_endpoint_for_source("hf-mirror").as_deref(), Some("https://hf-mirror.com"));
    assert_eq!(hf_endpoint_for_source("huggingface"), None);
    assert_eq!(hf_endpoint_for_source("modelscope"), None);
    assert_eq!(hf_endpoint_for_source(""), None);
    assert_eq!(default_hf_source(), "huggingface");
}

#[test]
fn the_default_settings_choose_nothing() {
    let c = AppConfig::default();
    assert_eq!(c.model_paths.huggingface, None);
    assert_eq!(c.model_paths.modelscope, None);
    assert_eq!(c.model_paths.ollama, None);
    assert_eq!(c.export_path, None);
    assert_eq!(c.hf_source, "");
    let p = ModelPaths::default();
    assert!(p.huggingface.is_none() && p.modelscope.is_none() && p.ollama.is_none());
}

#[test]
fn directories_are_the_chosen_ones_or_the_usual_ones() {
    let mut c = AppConfig::default();
    let r = resolve_model_paths(&c, Some("/Users/u"));
    assert_eq!(r.huggingface, "/Users/u/.cache/huggingface/hub");
    assert_eq!(r.modelscope, "/Users/u/.cache/modelscope/hub");
    assert_eq!(r.ollama, "/Users/u/.ollama/models");
    c.model_paths.modelscope = Some("/big/ms".to_string());
    c.model_paths.ollama = Some("/big/ollama".to_string());
    let r = resolve_model_paths(&c, None);
    assert_eq!(r.huggingface, "./.cache/huggingface/hub");
    assert_eq!(r.modelscope, "/big/ms");
    assert_eq!(r.ollama, "/big/ollama");
    assert_eq!(config_ollama_models_dir(&c).as_deref(), Some("/big/ollama"));
    assert_eq!(config_ollama_models_dir(&AppConfig::default()), None);
}

#[test]
fn the_settings_page() {
    let mut c = AppConfig::default();
    c.model_paths.huggingface = Some("/hf".to_string());
    c.export_path = Some("/exports".to_string());
    c.hf_source = "hf-mirror".to_string();
    let r = get_app_config(c, Some("/Users/u"), "/Users/u/Courtyard/projects".to_string(), true);
    assert_eq!(r.huggingface, "/hf");
    assert!(r.huggingface_custom);
    assert_eq!(r.modelscope, "/Users/u/.cache/modelscope/hub");
    assert!(!r.modelscope_custom);
    assert_eq!(r.ollama, "/Users/u/.ollama/models");
    assert!(!r.ollama_custom);
    assert_eq!(r.export_path.as_deref(), Some("/exports"));
    assert_eq!(r.default_export_root, "/Users/u/Courtyard/projects");
    assert!(r.ollama_installed);
    assert_eq!(r.hf_source, "hf-mirror");
}

#[test]
fn a_directory_is_set_for_a_known_source_only() {
    let mut c = AppConfig::default();
    assert_eq!(set_model_source_path(&mut c, "ollama", Some("/m".to_string())), Ok(()));
    assert_eq!(c.model_paths.ollama.as_deref(), Some("/m"));
    assert_eq!(set_model_source_path(&mut c, "huggingface", Some("/h".to_string())), Ok(()));
    assert_eq!(set_model_source_path(&mut c, "modelscope", Some("/s".to_string())), Ok(()));
    assert_eq!(c.model_paths.huggingface.as_deref(), Some("/h"));
    assert_eq!(c.model_paths.modelscope.as_deref(), Some("/s"));
    assert_eq!(set_model_source_path(&mut c, "ollama", None), Ok(()));
    assert_eq!(c.model_paths.ollama, None);
    assert_eq!(
        set_model_source_path(&mut c, "civitai", Some("/x".to_string())),
        Err("Unknown source: civitai".to_string())
    );
    assert_eq!(c.model_paths.huggingface.as_deref(), Some("/h"));
    set_export_path(&mut c, Some("/e".to_string()));
    assert_eq!(c.export_path.as_deref(), Some("/e"));
    set_export_path(&mut c, None);
    assert_eq!(c.export_path, None);
}

#[test]
fn a_site_is_set_only_if_it_is_known() {
    let mut c = AppConfig::default();
    for s in ["huggingface", "hf-mirror", "modelscope"] {
        assert_eq!(set_hf_source(&mut c, s.to_string()), Ok(()));
        assert_eq!(c.hf_source, s);
    }
    assert_eq!(
        set_hf_source(&mut c, "github".to_string()),
        Err("Invalid source: github. Must be one of: [\"huggingface\", \"hf-mirror\", \"modelscope\"]".to_string())
    );
    assert_eq!(
        set_hf_source(&mut c, "github".to_string()).unwrap_err(),
        format!("Invalid source: {}. Must be one of: {:?}", "github", ["huggingface", "hf-mirror", "modelscope"])
    );
    assert_eq!(c.hf_source, "modelscope");
}

#[test]
fn the_interpreter_lies_below_the_base_directory() {
    let e = PythonExecutor::new(Some("/Users/u"));
    assert_eq!(e.python_bin(), "/Users/u/Courtyard/python/.venv/bin/python");
    assert_eq!(e.venv_dir(), "/Users/u/Courtyard/python/.venv");
    let here = PythonExecutor::new(None);
    assert_eq!(here.python_bin(), "./Courtyard/python/.venv/bin/python");
    assert_eq!(here.venv_dir(), "./Courtyard/python/.venv");
}

#[test]
fn programs_are_looked_for_in_the_usual_places_and_on_the_search_path() {
    assert_eq!(
        PythonExecutor::find_ollama("/usr/bin::/opt/bin"),
        vec!["/usr/local/bin/ollama", "/opt/homebrew/bin/ollama", "/usr/bin/ollama", "/opt/bin/ollama"]
    );
    assert_eq!(PythonExecutor::find_ollama(""), vec!["/usr/local/bin/ollama", "/opt/homebrew/bin/ollama"]);
    let uv = PythonExecutor::find_uv("/Users/u", "/bin");
    assert_eq!(
        uv,
        vec![
            "/usr/local/bin/uv",
            "/opt/homebrew/bin/uv",
            "/Users/u/.cargo/bin/uv",
            "/Users/u/.local/bin/uv",
            "/Users/u/.uv/bin/uv",
            "/opt/homebrew/Caskroom/miniconda/base/bin/uv",
            "/Users/u/miniconda3/bin/uv",
            "/Users/u/miniforge3/bin/uv",
            "/Users/u/anaconda3/bin/uv",
            "/Users/u/mambaforge/bin/uv",
            "/bin/uv"
        ]
    );
    assert_eq!(find_binary("x", vec!["/first/x".to_string()], ":/a:"), vec!["/first/x", "/a/x"]);
}

#[test]
fn the_first_place_that_exists_is_taken() {
    let c = vec!["/a".to_string(), "/b".to_string(), "/c".to_string()];
    assert_eq!(first_existing(&c, &vec![false, true, true]).as_deref(), Some("/b"));
    assert_eq!(first_existing(&c, &vec![false, false, false]), None);
    assert_eq!(first_existing(&c, &vec![true]).as_deref(), Some("/a"));
    assert_eq!(first_existing(&c, &vec![false]), None);
    assert_eq!(first_existing(&c, &vec![]), None);
    assert_eq!(first_existing(&vec![], &vec![true]), None);
}

#[test]
fn the_search_path_comes_from_the_login_shell() {
    let printed = CommandResult::Finished { success: true, stdout: "/a:/b\n".to_string(), stderr: String::new() };
    assert_eq!(get_shell_path(&printed, "/own"), "/a:/b");
    let empty = CommandResult::Finished { success: true, stdout: "\n".to_string(), stderr: String::new() };
    assert_eq!(get_shell_path(&empty, "/own"), "/own");
    let failed = CommandResult::Finished { success: false, stdout: "/a".to_string(), stderr: String::new() };
    assert_eq!(get_shell_path(&failed, "/own"), "/own");
    assert_eq!(get_shell_path(&CommandResult::Unavailable("x".to_string()), "/own"), "/own");
}

#[test]
fn the_scripts_are_looked_for_around_the_program() {
    assert_eq!(
        scripts_dir_candidates("/App/Contents/MacOS"),
        vec![
            "/App/Contents/MacOS/../Resources/scripts",
            "/App/Contents/MacOS/scripts",
            "/App/Contents/MacOS/../scripts",
            "/App/Contents/MacOS/../../scripts"
        ]
    );
    assert_eq!(scripts_dir(Some("/x"), &vec![false, false, true, true], "/src/scripts"), "/x/../scripts");
    assert_eq!(scripts_dir(Some("/x"), &vec![false, false, false, false], "/src/scripts"), "/src/scripts");
    assert_eq!(scripts_dir(None, &vec![true], "/src/scripts"), "/src/scripts");
}

#[test]
fn the_directory_of_the_models_of_a_source() {
    let resolved = resolve_model_paths(&AppConfig::default(), Some("/Users/u"));
    let dir = |source: Option<&str>| courtyard::config::model_cache_dir(source, &resolved, "/daemon/models");
    assert_eq!(dir(Some("ollama")), "/daemon/models");
    assert_eq!(dir(Some("modelscope")), "/Users/u/.cache/modelscope/hub");
    assert_eq!(dir(Some("huggingface")), "/Users/u/.cache/huggingface/hub");
    assert_eq!(dir(Some("anything")), "/Users/u/.cache/huggingface/hub");
    assert_eq!(dir(None), "/Users/u/.cache/huggingface/hub");
}
