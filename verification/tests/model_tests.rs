use llama_server_loader::config::sync_models;
use llama_server_loader::model::{
    cache_dir_for_model, cache_dir_from_settings, default_ctx_size, default_flash_attn,
    default_gpu_layers, default_kv, default_penalty, default_spec_draft, default_spec_type,
    default_temp, default_top_k, default_top_p, default_true, default_update_script,
    model_dir_from_common, model_dir_from_server_path, name_ends_in_gguf, select_model_files,
    server_path_for_model, strip_gguf_suffix, AppConfig, CommonSettings, ModelFieldId,
    ModelFileEntry, ModelSettings,
};
use std::path::Path;

fn common() -> CommonSettings {
    CommonSettings::default_for_home("/home/u")
}

fn entries(dir: &str, names: &[&str]) -> Vec<ModelFileEntry> {
    select_model_files(dir, names.iter().map(|s| s.to_string()).collect())
}

#[test]
fn common_defaults() {
    let c = common();
    assert_eq!(c.llama_server_path, "llama-server");
    assert_eq!(c.host, "0.0.0.0");
    assert_eq!(c.port, 11400);
    assert_eq!(c.cache_dir, "");
    assert_eq!(c.mid_pane_height, 19);
    assert_eq!(
        c.update_script_path,
        "/home/u/Develop/llamacpp_loader/llama-server-loader/llama-server-update.sh"
    );
    assert_eq!(c.extra_args, "");
    assert_eq!(c.model_dir, "");
    assert_eq!(default_update_script("/root"), "/root/Develop/llamacpp_loader/llama-server-loader/llama-server-update.sh");
    let cfg = AppConfig::default_for_home("/home/u");
    assert_eq!(cfg.common, c);
    assert!(cfg.models.is_empty());
}

#[test]
fn default_helpers() {
    assert!(default_true());
    assert_eq!(default_flash_attn(), "on");
    assert_eq!(default_spec_type(), "none");
    assert_eq!(default_spec_draft(), 2);
    assert_eq!(default_gpu_layers(), "75");
    assert_eq!(default_ctx_size(), 262144);
    assert_eq!(default_kv(), "q8_0");
    assert_eq!(default_top_k(), 40);
    assert_eq!(default_temp().shown, "1");
    assert_eq!(default_temp().two_places, "1.00");
    assert_eq!(default_top_p().shown, "0.95");
    assert_eq!(default_penalty().shown, "1");
}

#[test]
fn model_defaults() {
    let m = ModelSettings::named("Qwen3".to_string(), "Qwen3.gguf".to_string());
    assert_eq!(m.name, "Qwen3");
    assert_eq!(m.file, "Qwen3.gguf");
    assert_eq!(m.gpu_layers, "75");
    assert_eq!(m.ctx_size, 262144);
    assert_eq!(m.kv_k, "q8_0");
    assert_eq!(m.kv_v, "q8_0");
    assert_eq!(m.top_k, 40);
    assert_eq!(m.batch_size, 2048);
    assert_eq!(m.ubatch_size, 512);
    assert_eq!(m.parallel, 1);
    assert_eq!(m.fit, "on");
    assert_eq!(m.flash_attn, "on");
    assert_eq!(m.spec_type, "none");
    assert_eq!(m.spec_draft_n_max, 2);
    assert!(m.no_mmap);
    assert!(m.is_checked(ModelFieldId::Model));
    assert!(m.is_checked(ModelFieldId::Alias));
    assert!(m.is_checked(ModelFieldId::CtxSize));
    assert!(!m.is_checked(ModelFieldId::LlamaServerPath));
    assert!(!m.is_checked(ModelFieldId::ExtraArgs));
    assert!(!m.is_checked(ModelFieldId::Jinja));
    let d = ModelSettings::default();
    assert_eq!(d.name, "");
    assert_eq!(d.file, "");
}

#[test]
fn gguf_suffix_handling() {
    assert!(name_ends_in_gguf("a.gguf"));
    assert!(name_ends_in_gguf(".gguf"));
    assert!(!name_ends_in_gguf("a.GGUF"));
    assert!(!name_ends_in_gguf("gguf"));
    assert_eq!(strip_gguf_suffix("Qwen3-8B.gguf"), "Qwen3-8B");
    assert_eq!(strip_gguf_suffix("notes.txt"), "notes.txt");
    assert_eq!(strip_gguf_suffix(".gguf"), "");
}

#[test]
fn model_files_are_filtered_and_sorted() {
    let found = entries("/m", &["z.gguf", "readme.txt", "a.gguf", ".gguf", "B.gguf", "x.gguf.part"]);
    let names: Vec<&str> = found.iter().map(|e| e.file_name.as_str()).collect();
    assert_eq!(names, vec!["B.gguf", "a.gguf", "z.gguf"]);
    assert_eq!(found[0].file_path, "/m/B.gguf");
    assert!(entries("/m", &[]).is_empty());
    // the filter is the one `Path::extension` gives
    for n in ["a.gguf", ".gguf", "..gguf", "a.b.gguf", "gguf", "a.ggu"] {
        let kept = !entries("/m", &[n]).is_empty();
        assert_eq!(kept, Path::new(n).extension().map_or(false, |e| e == "gguf"), "{n:?}");
    }
}

#[test]
fn derived_directories() {
    assert_eq!(model_dir_from_server_path("/opt/llama/bin/llama-server"), "/opt/llama/bin/../model");
    assert_eq!(model_dir_from_server_path("llama-server"), "../model");
    let mut c = common();
    c.llama_server_path = "/opt/llama/bin/llama-server".to_string();
    assert_eq!(model_dir_from_common(&c), "/opt/llama/bin/../model");
    c.model_dir = "relative/models".to_string();
    assert_eq!(model_dir_from_common(&c), "relative/models");
    c.model_dir = "/data/models".to_string();
    assert_eq!(model_dir_from_common(&c), "/data/models");
    assert_eq!(cache_dir_from_settings(&c), "/opt/llama/bin/../cache");
    c.cache_dir = "/data/cache".to_string();
    assert_eq!(cache_dir_from_settings(&c), "/data/cache");
    let expected = Path::new("/opt/llama/bin/llama-server").parent().unwrap().join("..").join("model");
    assert_eq!(model_dir_from_server_path("/opt/llama/bin/llama-server"), expected.to_string_lossy());
}

#[test]
fn per_model_overrides_need_their_checkbox() {
    let mut c = common();
    c.llama_server_path = "/opt/bin/llama-server".to_string();
    let mut m = ModelSettings::named("m".to_string(), "m.gguf".to_string());
    m.llama_server_path = "/other/llama-server".to_string();
    m.cache_dir = "/other/cache".to_string();
    assert_eq!(server_path_for_model(&c, &m), "/opt/bin/llama-server");
    assert_eq!(cache_dir_for_model(&c, &m), "/opt/bin/../cache");
    llama_server_loader::field_edit::model_field_toggle(&mut m, ModelFieldId::LlamaServerPath);
    llama_server_loader::field_edit::model_field_toggle(&mut m, ModelFieldId::CacheDir);
    assert_eq!(server_path_for_model(&c, &m), "/other/llama-server");
    assert_eq!(cache_dir_for_model(&c, &m), "/other/cache");
    m.llama_server_path.clear();
    assert_eq!(server_path_for_model(&c, &m), "/opt/bin/llama-server");
}

#[test]
fn sync_keeps_saved_settings_and_adds_new_files() {
    let mut cfg = AppConfig::default_for_home("/h");
    let mut saved = ModelSettings::named("My Alias".to_string(), "b.gguf".to_string());
    saved.ctx_size = 4096;
    cfg.models.push(saved);
    cfg.models.push(ModelSettings::named("gone".to_string(), "gone.gguf".to_string()));
    let disk = entries("/m", &["b.gguf", "a.gguf"]);
    sync_models(&mut cfg, &disk);
    assert_eq!(cfg.models.len(), 2);
    assert_eq!(cfg.models[0].file, "a.gguf");
    assert_eq!(cfg.models[0].name, "a");
    assert_eq!(cfg.models[0].ctx_size, 262144);
    assert_eq!(cfg.models[1].file, "b.gguf");
    assert_eq!(cfg.models[1].name, "My Alias");
    assert_eq!(cfg.models[1].ctx_size, 4096);
}

#[test]
fn sync_is_idempotent_on_example() {
    let mut cfg = AppConfig::default_for_home("/h");
    cfg.models.push(ModelSettings::named("x".to_string(), "x.gguf".to_string()));
    let disk = entries("/m", &["x.gguf", "y.gguf"]);
    sync_models(&mut cfg, &disk);
    let once: Vec<(String, String)> = cfg.models.iter().map(|m| (m.name.clone(), m.file.clone())).collect();
    sync_models(&mut cfg, &disk);
    let twice: Vec<(String, String)> = cfg.models.iter().map(|m| (m.name.clone(), m.file.clone())).collect();
    assert_eq!(once, twice);
}

#[test]
fn sync_with_duplicate_saved_files_keeps_the_last() {
    let mut cfg = AppConfig::default_for_home("/h");
    cfg.models.push(ModelSettings::named("first".to_string(), "x.gguf".to_string()));
    cfg.models.push(ModelSettings::named("second".to_string(), "x.gguf".to_string()));
    let disk = entries("/m", &["x.gguf"]);
    sync_models(&mut cfg, &disk);
    assert_eq!(cfg.models.len(), 1);
    assert_eq!(cfg.models[0].name, "second");
}

#[test]
fn sync_with_a_repeated_disk_name_matches_a_map_by_file() {
    let mut cfg = AppConfig::default_for_home("/h");
    let mut saved = ModelSettings::named("kept".to_string(), "x.gguf".to_string());
    saved.ctx_size = 4096;
    cfg.models.push(saved);
    let disk = entries("/m", &["x.gguf", "x.gguf"]);
    sync_models(&mut cfg, &disk);
    assert_eq!(cfg.models[0].name, "kept");
    assert_eq!(cfg.models[1].name, "x");
    // the second sync finds the fresh entry last for that file
    sync_models(&mut cfg, &disk);
    assert_eq!(cfg.models[0].name, "x");
    assert_eq!(cfg.models[0].ctx_size, 262144);
    assert_eq!(cfg.models[1].name, "x");
}
