use llama_server_loader::field_edit::{model_field_set, model_field_toggle};
use llama_server_loader::model::{model_field_index, CommonSettings, ModelFieldId, ModelSettings};
use llama_server_loader::server_manager::{
    build_args_display, stop_step, ServerManager, StopStep, STOP_GRACE_MS, STOP_POLL_MS,
};

fn common() -> CommonSettings {
    CommonSettings::default_for_home("/h")
}

fn strs(v: &[&str]) -> Vec<String> {
    v.iter().map(|s| s.to_string()).collect()
}

#[test]
fn default_model_arguments() {
    let m = ModelSettings::named("a".to_string(), "a.gguf".to_string());
    let args = build_args_display(&common(), &m);
    assert_eq!(
        args,
        strs(&[
            "--log-colors", "on", "--port", "11400", "--host", "0.0.0.0", "--slot-save-path",
            "../cache", "-m", "../model/a.gguf", "--alias", "a", "--n-gpu-layers", "75",
            "--ctx-size", "262144", "-ctk", "q8_0", "-ctv", "q8_0", "--temp", "1", "--top-p",
            "0.95", "--top-k", "40", "--min-p", "0", "--repeat-penalty", "1",
            "--presence-penalty", "0", "--no-mmap", "--flash-attn", "on", "--kv-offload",
        ])
    );
}

#[test]
fn every_parameter_checked() {
    let mut c = common();
    c.llama_server_path = "/opt/bin/llama-server".to_string();
    c.model_dir = "/models".to_string();
    c.extra_args = "  --metrics  ".to_string();
    let mut m = ModelSettings::named("alias".to_string(), "m.gguf".to_string());
    for i in 0..31 {
        m.enabled[i] = true;
    }
    m.model_draft = "/models/draft.gguf".to_string();
    m.load_mode = "mmap".to_string();
    m.cache_dir = "/cache".to_string();
    m.extra_args = "--reasoning-format none".to_string();
    m.spec_type = "ngram".to_string();
    m.threads = 8;
    let args = build_args_display(&c, &m);
    assert_eq!(
        args,
        strs(&[
            "--log-colors", "on", "--port", "11400", "--host", "0.0.0.0", "--slot-save-path",
            "/cache", "-m", "/models/m.gguf", "--alias", "alias", "--n-gpu-layers", "75",
            "--n-cpu-moe", "0", "--ctx-size", "262144", "-ctk", "q8_0", "-ctv", "q8_0", "--temp",
            "1", "--top-p", "0.95", "--top-k", "40", "--min-p", "0", "--repeat-penalty", "1",
            "--presence-penalty", "0", "--no-mmap", "--flash-attn", "on", "--spec-type", "ngram",
            "--spec-draft-n-max", "2", "--model-draft", "/models/draft.gguf", "--cache-ram", "0",
            "--load-mode", "mmap", "--parallel", "1", "--threads", "8",
            "--moe-expert-cache-size", "0", "--fit", "on", "--kv-offload", "--jinja",
            "--batch-size", "2048", "--ubatch-size", "512", "--reasoning-format", "none",
            "--metrics",
        ])
    );
}

#[test]
fn empty_optional_values_are_skipped_even_when_checked() {
    let mut m = ModelSettings::named("a".to_string(), "a.gguf".to_string());
    model_field_toggle(&mut m, ModelFieldId::ModelDraft);
    model_field_toggle(&mut m, ModelFieldId::LoadMode);
    let args = build_args_display(&common(), &m);
    assert!(!args.contains(&"--model-draft".to_string()));
    assert!(!args.contains(&"--load-mode".to_string()));
}

#[test]
fn no_mmap_needs_both_checkbox_and_value() {
    let mut m = ModelSettings::named("a".to_string(), "a.gguf".to_string());
    model_field_set(&mut m, ModelFieldId::NoMmap, "false".to_string());
    assert!(!build_args_display(&common(), &m).contains(&"--no-mmap".to_string()));
}

#[test]
fn unchecked_model_gets_only_fixed_arguments() {
    let mut m = ModelSettings::named("a".to_string(), "a.gguf".to_string());
    for i in 0..31 {
        m.enabled[i] = false;
    }
    m.extra_args = "--ignored".to_string();
    let args = build_args_display(&common(), &m);
    assert_eq!(
        args,
        strs(&[
            "--log-colors", "on", "--port", "11400", "--host", "0.0.0.0", "--slot-save-path",
            "../cache",
        ])
    );
}

#[test]
fn unchecked_values_do_not_change_the_command() {
    let a = ModelSettings::named("a".to_string(), "a.gguf".to_string());
    let mut b = ModelSettings::named("a".to_string(), "a.gguf".to_string());
    b.threads = 64;
    b.cache_ram = 9;
    b.extra_args = "--whatever".to_string();
    b.model_draft = "d.gguf".to_string();
    assert!(!b.enabled[model_field_index(ModelFieldId::Threads)]);
    assert_eq!(build_args_display(&common(), &a), build_args_display(&common(), &b));
}

#[test]
fn spawn_plan_uses_the_model_binary_and_its_directory() {
    let mut c = common();
    c.llama_server_path = "/opt/llama/bin/llama-server".to_string();
    let m = ModelSettings::named("a".to_string(), "a.gguf".to_string());
    let mgr = ServerManager::new();
    assert!(!mgr.is_running());
    let plan = mgr.spawn_plan(&c, &m).ok().unwrap();
    assert_eq!(plan.program, "/opt/llama/bin/llama-server");
    assert_eq!(plan.work_dir, "/opt/llama/bin");
    assert_eq!(plan.args, build_args_display(&c, &m));
}

#[test]
fn spawn_refused_while_running() {
    let mut mgr = ServerManager::new();
    mgr.record_spawned(42);
    assert!(mgr.is_running());
    let m = ModelSettings::named("a".to_string(), "a.gguf".to_string());
    match mgr.spawn_plan(&common(), &m) {
        Err(e) => assert_eq!(e, "Server is already running"),
        Ok(_) => panic!("spawn allowed while running"),
    }
}

#[test]
fn stopping_hands_out_the_pid_once() {
    let mut mgr = ServerManager::new();
    assert_eq!(mgr.begin_stop(), Err("No server running".to_string()));
    mgr.record_spawned(1234);
    assert_eq!(mgr.begin_stop(), Ok(1234));
    assert_eq!(mgr.begin_stop(), Err("No server running".to_string()));
    assert!(mgr.is_running());
    mgr.finish_stop();
    assert!(!mgr.is_running());
    mgr.set_running(true);
    assert!(mgr.is_running());
}

#[test]
fn stop_steps() {
    assert_eq!(STOP_GRACE_MS, 20000);
    assert_eq!(STOP_POLL_MS, 200);
    assert_eq!(stop_step(true, 0), StopStep::Finished);
    assert_eq!(stop_step(true, 99999), StopStep::Finished);
    assert_eq!(stop_step(false, 0), StopStep::WaitAndRetry);
    assert_eq!(stop_step(false, 19999), StopStep::WaitAndRetry);
    assert_eq!(stop_step(false, 20000), StopStep::ForceKill);
}

#[test]
fn running_flag_over_a_history() {
    let mut mgr = ServerManager::new();
    assert!(!mgr.is_running());
    mgr.record_spawned(7);
    assert!(mgr.is_running());
    mgr.set_running(true);
    assert!(mgr.is_running());
    assert_eq!(mgr.begin_stop(), Ok(7));
    assert!(mgr.is_running());
    mgr.finish_stop();
    assert!(!mgr.is_running());
    mgr.record_spawned(8);
    mgr.set_running(false);
    assert!(!mgr.is_running());
}
