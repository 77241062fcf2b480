//! The settings of the application and what follows from them: where models
//! are looked for, and from which site they are fetched.

use vstd::prelude::*;
use crate::text::{chain, opt_text, same_text, text_of};
use crate::versioning::{child_of, child_path};

verus! {

/// The directories that the user chose for the models of each source.
pub struct ModelPaths {
    pub huggingface: Option<String>,
    pub modelscope: Option<String>,
    pub ollama: Option<String>,
}

/// The settings of the application.
pub struct AppConfig {
    pub model_paths: ModelPaths,
    pub export_path: Option<String>,
    /// The site that models are fetched from: `huggingface`, `hf-mirror` or
    /// `modelscope`.
    pub hf_source: String,
}

/// The site that models are fetched from where the settings name none.
pub fn default_hf_source() -> (r: String)
    ensures
        r@ == "huggingface"@,
{
    "huggingface".to_owned()
}

impl Default for ModelPaths {
    fn default() -> (r: ModelPaths)
        ensures
            r.huggingface is None,
            r.modelscope is None,
            r.ollama is None,
    {
        ModelPaths { huggingface: None, modelscope: None, ollama: None }
    }
}

impl Default for AppConfig {
    fn default() -> (r: AppConfig)
        ensures
            r.model_paths.huggingface is None,
            r.model_paths.modelscope is None,
            r.model_paths.ollama is None,
            r.export_path is None,
            r.hf_source@ == Seq::<char>::empty(),
    {
        AppConfig {
            model_paths: ModelPaths { huggingface: None, modelscope: None, ollama: None },
            export_path: None,
            hf_source: String::new(),
        }
    }
}

/// Where the models of each source are looked for.
pub struct ResolvedPaths {
    pub huggingface: String,
    pub modelscope: String,
    pub ollama: String,
}

/// The home directory, or the current one where no home is known.
pub open spec fn home_or_here(home: Option<Seq<char>>) -> Seq<char> {
    match home {
        Some(h) => h,
        None => "."@,
    }
}

/// The cache of a hub below the home directory.
pub open spec fn hub_cache(home: Option<Seq<char>>, hub: Seq<char>) -> Seq<char> {
    child_path(child_path(child_path(home_or_here(home), ".cache"@), hub), "hub"@)
}

/// The directory of the model daemon below the home directory.
pub open spec fn daemon_models(home: Option<Seq<char>>) -> Seq<char> {
    child_path(child_path(home_or_here(home), ".ollama"@), "models"@)
}

/// The directory that the user chose, or `fallback` where none was chosen.
pub open spec fn chosen_or(chosen: Option<String>, fallback: Seq<char>) -> Seq<char> {
    match chosen {
        Some(c) => c@,
        None => fallback,
    }
}

fn home_dir_or_here(home: Option<&str>) -> (r: String)
    ensures
        r@ == home_or_here(opt_text(home)),
{
    match home {
        Some(h) => h.to_owned(),
        None => ".".to_owned(),
    }
}

/// Resolves where the models of each source are looked for: in the directory
/// that the settings name, and else in the usual place of the source below
/// the home directory.
pub fn resolve_model_paths(config: &AppConfig, home: Option<&str>) -> (r: ResolvedPaths)
    ensures
        r.huggingface@ == chosen_or(
            config.model_paths.huggingface,
            hub_cache(opt_text(home), "huggingface"@),
        ),
        r.modelscope@ == chosen_or(
            config.model_paths.modelscope,
            hub_cache(opt_text(home), "modelscope"@),
        ),
        r.ollama@ == chosen_or(
            config.model_paths.ollama,
            daemon_models(opt_text(home)),
        ),
{
    let base = home_dir_or_here(home);
    let cache = child_of(base.as_str(), ".cache");
    let huggingface = match &config.model_paths.huggingface {
        Some(p) => p.clone(),
        None => {
            let d = child_of(cache.as_str(), "huggingface");
            child_of(d.as_str(), "hub")
        },
    };
    let modelscope = match &config.model_paths.modelscope {
        Some(p) => p.clone(),
        None => {
            let d = child_of(cache.as_str(), "modelscope");
            child_of(d.as_str(), "hub")
        },
    };
    let ollama = match &config.model_paths.ollama {
        Some(p) => p.clone(),
        None => {
            let d = child_of(base.as_str(), ".ollama");
            child_of(d.as_str(), "models")
        },
    };
    ResolvedPaths { huggingface, modelscope, ollama }
}

/// The directory that holds the models of `source`: that of the daemon for
/// `ollama`, that of ModelScope for `modelscope`, and the cache of the hub
/// for any other source, and for none.
pub fn model_cache_dir(source: Option<&str>, resolved: &ResolvedPaths, daemon_dir: &str) -> (r:
    String)
    ensures
        r@ == (match source {
            Some(s) => if s@ == "ollama"@ {
                daemon_dir@
            } else if s@ == "modelscope"@ {
                resolved.modelscope@
            } else {
                resolved.huggingface@
            },
            None => resolved.huggingface@,
        }),
{
    match source {
        Some(s) => if same_text(s, "ollama") {
            daemon_dir.to_owned()
        } else if same_text(s, "modelscope") {
            resolved.modelscope.clone()
        } else {
            resolved.huggingface.clone()
        },
        None => resolved.huggingface.clone(),
    }
}

/// The directory of the model daemon that the settings name.
pub fn config_ollama_models_dir(config: &AppConfig) -> (r: Option<String>)
    ensures
        text_of(r) == text_of(config.model_paths.ollama),
{
    match &config.model_paths.ollama {
        Some(p) => Some(p.clone()),
        None => None,
    }
}

/// What the settings page shows.
pub struct AppConfigResponse {
    pub huggingface: String,
    pub modelscope: String,
    pub ollama: String,
    pub huggingface_custom: bool,
    pub modelscope_custom: bool,
    pub ollama_custom: bool,
    pub export_path: Option<String>,
    pub default_export_root: String,
    pub ollama_installed: bool,
    pub hf_source: String,
}

/// Puts together what the settings page shows: each directory in force,
/// whether the user chose it, and the rest of the settings.
pub fn get_app_config(
    config: AppConfig,
    home: Option<&str>,
    default_export_root: String,
    ollama_installed: bool,
) -> (r: AppConfigResponse)
    ensures
        r.huggingface@ == chosen_or(
            config.model_paths.huggingface,
            hub_cache(opt_text(home), "huggingface"@),
        ),
        r.modelscope@ == chosen_or(
            config.model_paths.modelscope,
            hub_cache(opt_text(home), "modelscope"@),
        ),
        r.ollama@ == chosen_or(
            config.model_paths.ollama,
            daemon_models(opt_text(home)),
        ),
        r.huggingface_custom == config.model_paths.huggingface.is_some(),
        r.modelscope_custom == config.model_paths.modelscope.is_some(),
        r.ollama_custom == config.model_paths.ollama.is_some(),
        r.export_path == config.export_path,
        r.default_export_root == default_export_root,
        r.ollama_installed == ollama_installed,
        r.hf_source == config.hf_source,
{
    let resolved = resolve_model_paths(&config, home);
    AppConfigResponse {
        huggingface: resolved.huggingface,
        modelscope: resolved.modelscope,
        ollama: resolved.ollama,
        huggingface_custom: config.model_paths.huggingface.is_some(),
        modelscope_custom: config.model_paths.modelscope.is_some(),
        ollama_custom: config.model_paths.ollama.is_some(),
        export_path: config.export_path,
        default_export_root,
        ollama_installed,
        hf_source: config.hf_source,
    }
}

/// Whether `source` names a source of models that has a directory of its own.
pub open spec fn is_model_source(source: Seq<char>) -> bool {
    source == "huggingface"@ || source == "modelscope"@ || source == "ollama"@
}

/// The settings with the directory of the source `source` set to `path`.
pub open spec fn with_source_path(old: ModelPaths, source: Seq<char>, path: Option<String>) -> ModelPaths {
    if source == "huggingface"@ {
        ModelPaths { huggingface: path, ..old }
    } else if source == "modelscope"@ {
        ModelPaths { modelscope: path, ..old }
    } else {
        ModelPaths { ollama: path, ..old }
    }
}

/// Sets, or with no `path` clears, the directory that the user chose for the
/// models of `source`. A source that is not known is refused, and the
/// settings stay as they are.
pub fn set_model_source_path(config: &mut AppConfig, source: &str, path: Option<String>) -> (r:
    Result<(), String>)
    ensures
        match r {
            Ok(_) => is_model_source(source@) && final(config).model_paths == with_source_path(
                old(config).model_paths,
                source@,
                path,
            ) && final(config).export_path == old(config).export_path && final(config).hf_source
                == old(config).hf_source,
            Err(m) => !is_model_source(source@) && m@ == "Unknown source: "@ + source@
                && *final(config) == *old(config),
        },
{
    if same_text(source, "huggingface") {
        config.model_paths.huggingface = path;
        Ok(())
    } else if same_text(source, "modelscope") {
        config.model_paths.modelscope = path;
        Ok(())
    } else if same_text(source, "ollama") {
        config.model_paths.ollama = path;
        Ok(())
    } else {
        Err(chain("Unknown source: ", source))
    }
}

/// Sets, or with no `path` clears, the directory that exports are written to.
pub fn set_export_path(config: &mut AppConfig, path: Option<String>)
    ensures
        final(config).export_path == path,
        final(config).model_paths == old(config).model_paths,
        final(config).hf_source == old(config).hf_source,
{
    config.export_path = path;
}

/// Whether `source` names a site that models can be fetched from.
pub open spec fn is_download_source(source: Seq<char>) -> bool {
    source == "huggingface"@ || source == "hf-mirror"@ || source == "modelscope"@
}

/// What is said of a site that is not known.
pub open spec fn invalid_source_message(source: Seq<char>) -> Seq<char> {
    "Invalid source: "@ + source
        + ". Must be one of: [\"huggingface\", \"hf-mirror\", \"modelscope\"]"@
}

/// Sets the site that models are fetched from. A site that is not known is
/// refused, and the settings stay as they are.
pub fn set_hf_source(config: &mut AppConfig, source: String) -> (r: Result<(), String>)
    ensures
        match r {
            Ok(_) => is_download_source(source@) && final(config).hf_source == source
                && final(config).model_paths == old(config).model_paths
                && final(config).export_path == old(config).export_path,
            Err(m) => !is_download_source(source@) && m@ == invalid_source_message(source@)
                && *final(config) == *old(config),
        },
{
    if same_text(source.as_str(), "huggingface") || same_text(source.as_str(), "hf-mirror")
        || same_text(source.as_str(), "modelscope") {
        config.hf_source = source;
        Ok(())
    } else {
        let mut m = chain("Invalid source: ", source.as_str());
        m.append(". Must be one of: [\"huggingface\", \"hf-mirror\", \"modelscope\"]");
        Err(m)
    }
}

/// The address that downloads go through for the site `source`: that of the
/// mirror for `hf-mirror`, none for any other site.
pub open spec fn endpoint_of(source: Seq<char>) -> Option<Seq<char>> {
    if source == "hf-mirror"@ {
        Some("https://hf-mirror.com"@)
    } else {
        None
    }
}

/// The address that downloads go through for the site `source`.
pub fn hf_endpoint_for_source(source: &str) -> (r: Option<String>)
    ensures
        text_of(r) == endpoint_of(source@),
{
    if same_text(source, "hf-mirror") {
        Some("https://hf-mirror.com".to_owned())
    } else {
        None
    }
}

} // verus!
