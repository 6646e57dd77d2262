use llama_server_loader::app::{App, AppTab, ConfigEdit, ConfigSection, Key, ServerState, UiAction};
use llama_server_loader::field_edit::model_field_toggle;
use llama_server_loader::fields::{
    checkbox_mark, common_field_get, common_field_label, field_value_shown, model_field,
    model_field_enabled, model_field_get,
};
use llama_server_loader::keys::{area_contains, target_at, Area, ClickMap, ClickTarget, ServerButton};
use llama_server_loader::model::{
    select_model_files, AppConfig, DecimalValue, ModelFieldId, ModelSettings,
};
use llama_server_loader::server_manager::ServerEvent;

fn app_with(names: &[&str]) -> App {
    let mut cfg = AppConfig::default_for_home("/h");
    cfg.common.llama_server_path = "/opt/bin/llama-server".to_string();
    let files = select_model_files("/opt/model", names.iter().map(|s| s.to_string()).collect());
    App::new(cfg, files, false)
}

fn configure(app: &mut App) {
    assert_eq!(app.handle_key(Key::Tab, ""), UiAction::Nothing);
    assert_eq!(app.tab, AppTab::Configure);
}

#[test]
fn startup_state() {
    let app = app_with(&["b.gguf", "a.gguf"]);
    assert_eq!(app.tab, AppTab::Server);
    assert_eq!(app.server_state, ServerState::Idle);
    assert_eq!(app.selected_model_idx, 0);
    assert_eq!(app.config.models.len(), 2);
    assert_eq!(app.config.models[0].name, "a");
    assert_eq!(app.config.models[1].file, "b.gguf");
    assert_eq!(app.config_edit, ConfigEdit::new());
    assert!(app.log_lines.is_empty());
    assert!(app.log_auto_scroll);
    assert!(!app.should_quit);
    assert_eq!(app.max_log_lines, 1000);
    assert!(app.selected_model_settings().is_some());
}

#[test]
fn model_directory_is_resolved_once() {
    let mut cfg = AppConfig::default_for_home("/h");
    cfg.common.llama_server_path = "/opt/bin/llama-server".to_string();
    App::resolve_model_dir(&mut cfg);
    assert_eq!(cfg.common.model_dir, "/opt/bin/../model");
    cfg.common.model_dir = "/data".to_string();
    App::resolve_model_dir(&mut cfg);
    assert_eq!(cfg.common.model_dir, "/data");
}

#[test]
fn server_tab_selection_and_start() {
    let mut app = app_with(&["a.gguf", "b.gguf", "c.gguf"]);
    app.handle_key(Key::Down, "");
    app.handle_key(Key::Char('j'), "");
    app.handle_key(Key::Down, "");
    assert_eq!(app.selected_model_idx, 2);
    app.handle_key(Key::Up, "");
    app.handle_key(Key::Char('k'), "");
    app.handle_key(Key::Up, "");
    assert_eq!(app.selected_model_idx, 0);
    assert_eq!(app.handle_key(Key::Enter, ""), UiAction::StartServer);
    assert_eq!(app.handle_key(Key::Char('R'), ""), UiAction::StartServer);
    assert_eq!(app.handle_key(Key::Char('s'), ""), UiAction::Nothing);
    let plan = app.start_plan().ok().unwrap();
    assert_eq!(plan.program, "/opt/bin/llama-server");
    assert!(plan.args.contains(&"/opt/bin/../model/a.gguf".to_string()));
    app.on_server_started(4242, "10:00:00");
    assert_eq!(app.server_state, ServerState::Running);
    assert_eq!(app.log_lines.last().unwrap(), "[10:00:00] llama-server started: a");
    app.handle_key(Key::Down, "");
    assert_eq!(app.selected_model_idx, 0);
    assert_eq!(app.handle_key(Key::Enter, ""), UiAction::Nothing);
    assert_eq!(app.handle_key(Key::Char('S'), ""), UiAction::StopServer);
    match app.start_plan() {
        Err(e) => assert_eq!(e, "Server is already running"),
        Ok(_) => panic!("start allowed while running"),
    }
    assert_eq!(app.begin_stop(), Ok(4242));
    app.on_server_stopped("10:05:00");
    assert_eq!(app.server_state, ServerState::Idle);
    assert_eq!(app.log_lines.last().unwrap(), "[10:05:00] llama-server stopped");
    assert_eq!(app.begin_stop(), Err("No server running".to_string()));
}

#[test]
fn start_without_models_is_refused() {
    let app = app_with(&[]);
    match app.start_plan() {
        Err(e) => assert_eq!(e, "No model selected"),
        Ok(_) => panic!("start without a model"),
    }
}

#[test]
fn server_tab_toggles_and_quit() {
    let mut app = app_with(&["a.gguf"]);
    app.handle_key(Key::Char('g'), "");
    assert!(app.graph_mode);
    app.handle_key(Key::Char('G'), "");
    assert!(!app.graph_mode);
    app.handle_key(Key::Char('l'), "");
    assert!(app.show_args_popup);
    // the popup takes every key
    assert_eq!(app.handle_key(Key::Char('q'), ""), UiAction::Nothing);
    assert!(!app.should_quit);
    app.handle_key(Key::Esc, "");
    assert!(!app.show_args_popup);
    app.handle_key(Key::Esc, "");
    assert!(app.should_quit);
}

#[test]
fn configure_navigation() {
    let mut app = app_with(&["a.gguf", "b.gguf"]);
    configure(&mut app);
    for _ in 0..10 {
        app.handle_key(Key::Down, "");
    }
    assert_eq!(app.config_edit.common_idx, 6);
    assert_eq!(app.config_edit.common_scroll, 0);
    app.handle_key(Key::Right, "");
    assert_eq!(app.config_edit.section, ConfigSection::ModelList);
    app.handle_key(Key::Char('j'), "");
    app.handle_key(Key::Char('j'), "");
    assert_eq!(app.config_edit.model_list_idx, 1);
    app.handle_key(Key::Char('l'), "");
    assert_eq!(app.config_edit.section, ConfigSection::ModelSettings);
    app.handle_key(Key::PageDown, "");
    app.handle_key(Key::PageDown, "");
    app.handle_key(Key::PageDown, "");
    assert_eq!(app.config_edit.model_field_idx, 15);
    assert!(app.config_edit.model_scroll <= 15 && 15 < app.config_edit.model_scroll + 11);
    for _ in 0..40 {
        app.handle_key(Key::Down, "");
    }
    assert_eq!(app.config_edit.model_field_idx, 30);
    assert_eq!(app.config_edit.model_scroll, 20);
    app.handle_key(Key::PageUp, "");
    assert_eq!(app.config_edit.model_field_idx, 25);
    app.handle_key(Key::Left, "");
    app.handle_key(Key::Char('h'), "");
    app.handle_key(Key::Left, "");
    assert_eq!(app.config_edit.section, ConfigSection::Common);
    app.handle_key(Key::Tab, "");
    assert_eq!(app.tab, AppTab::Server);
}

#[test]
fn editing_a_common_field() {
    let mut app = app_with(&["a.gguf"]);
    configure(&mut app);
    app.handle_key(Key::Down, "");
    app.handle_key(Key::Down, "");
    app.handle_key(Key::Down, "");
    assert_eq!(app.handle_key(Key::Enter, ""), UiAction::BeginEdit("11400".to_string()));
    assert!(app.config_edit.editing);
    assert_eq!(app.handle_key(Key::Char('9'), "114009"), UiAction::EditText);
    assert_eq!(app.handle_key(Key::Tab, "114009"), UiAction::EditText);
    assert_eq!(app.handle_key(Key::Enter, "not a port"), UiAction::EndEdit);
    assert_eq!(app.config.common.port, 11400);
    app.handle_key(Key::Char('e'), "");
    assert_eq!(app.handle_key(Key::Enter, "8080"), UiAction::EndEdit);
    assert_eq!(app.config.common.port, 8080);
    app.handle_key(Key::Enter, "");
    assert_eq!(app.handle_key(Key::Esc, "1"), UiAction::EndEdit);
    assert_eq!(app.config.common.port, 8080);
    assert!(!app.config_edit.editing);
}

#[test]
fn editing_the_model_directory_asks_for_a_rescan() {
    let mut app = app_with(&["a.gguf"]);
    configure(&mut app);
    app.handle_key(Key::Down, "");
    app.handle_key(Key::Enter, "");
    assert_eq!(app.handle_key(Key::Enter, "/new/models"), UiAction::RescanModels);
    assert_eq!(app.config.common.model_dir, "/new/models");
    let files = select_model_files("/new/models", vec!["z.gguf".to_string()]);
    app.rescan_models(files);
    assert_eq!(app.config.models.len(), 1);
    assert_eq!(app.config.models[0].file, "z.gguf");
}

#[test]
fn editing_model_fields() {
    let mut app = app_with(&["a.gguf"]);
    configure(&mut app);
    app.handle_key(Key::Right, "");
    assert_eq!(app.handle_key(Key::Enter, ""), UiAction::Nothing);
    assert_eq!(app.config_edit.section, ConfigSection::ModelSettings);
    assert_eq!(app.config_edit.model_field_idx, 0);
    // alias
    for _ in 0..3 {
        app.handle_key(Key::Down, "");
    }
    assert_eq!(app.handle_key(Key::Enter, ""), UiAction::BeginEdit("a".to_string()));
    assert_eq!(app.handle_key(Key::Enter, "Qwen"), UiAction::EndEdit);
    assert_eq!(app.config.models[0].name, "Qwen");
    // ctx_size
    for _ in 0..8 {
        app.handle_key(Key::Down, "");
    }
    assert_eq!(app.handle_key(Key::Enter, ""), UiAction::BeginEdit("262144".to_string()));
    app.handle_key(Key::Enter, "8192");
    assert_eq!(app.config.models[0].ctx_size, 8192);
    // temperature is decimal: the caller reads the number
    for _ in 0..3 {
        app.handle_key(Key::Down, "");
    }
    assert_eq!(app.handle_key(Key::Enter, ""), UiAction::BeginEdit("1".to_string()));
    let act = app.handle_key(Key::Enter, "0.7");
    assert_eq!(
        act,
        UiAction::CommitDecimal { model_idx: 0, field: ModelFieldId::Temperature, text: "0.7".to_string() }
    );
    assert!(!app.config_edit.editing);
    app.commit_decimal(0, ModelFieldId::Temperature, DecimalValue::from_texts("0.7", "0.70"));
    assert_eq!(app.config.models[0].temperature.shown, "0.7");
    app.commit_decimal(5, ModelFieldId::Temperature, DecimalValue::from_texts("9", "9.00"));
    assert_eq!(app.config.models.len(), 1);
}

#[test]
fn space_toggles_the_selected_checkbox() {
    let mut app = app_with(&["a.gguf"]);
    configure(&mut app);
    app.handle_key(Key::Right, "");
    app.handle_key(Key::Right, "");
    assert!(!model_field_enabled(&app.config.models[0], ModelFieldId::LlamaServerPath));
    app.handle_key(Key::Char(' '), "");
    assert!(model_field_enabled(&app.config.models[0], ModelFieldId::LlamaServerPath));
    app.handle_key(Key::Char(' '), "");
    assert!(!model_field_enabled(&app.config.models[0], ModelFieldId::LlamaServerPath));
    // outside the per-model section space does nothing
    app.handle_key(Key::Left, "");
    let before = app.config.models[0].enabled;
    app.handle_key(Key::Char(' '), "");
    assert_eq!(app.config.models[0].enabled, before);
}

#[test]
fn save_and_update_check() {
    let mut app = app_with(&["a.gguf"]);
    configure(&mut app);
    assert_eq!(app.handle_key(Key::Char('s'), ""), UiAction::SaveConfig);
    app.on_config_saved(Ok(()));
    assert_eq!(app.log_lines.last().unwrap(), "[info] Config saved.");
    app.on_config_saved(Err("disk full".to_string()));
    assert_eq!(app.log_lines.last().unwrap(), "[error] Save failed: disk full");
    app.update_output.push("old".to_string());
    assert_eq!(app.handle_key(Key::Char('c'), ""), UiAction::StartUpdateCheck);
    assert!(app.show_update_popup);
    assert!(app.update_output.is_empty());
    app.on_update_line("line".to_string());
    assert_eq!(app.handle_key(Key::Char('x'), ""), UiAction::Nothing);
    assert!(app.show_update_popup);
    app.handle_key(Key::Enter, "");
    assert!(!app.show_update_popup);
    app.handle_key(Key::Char('Q'), "");
    assert!(app.should_quit);
}

#[test]
fn edit_round_trip_changes_nothing() {
    let mut app = app_with(&["a.gguf"]);
    configure(&mut app);
    for i in 0..7 {
        let before = app.config.common.clone();
        if let UiAction::BeginEdit(v) = app.handle_key(Key::Enter, "") {
            app.handle_key(Key::Enter, &v);
        } else {
            panic!("no edit for common field {i}");
        }
        assert_eq!(app.config.common, before);
        app.handle_key(Key::Down, "");
    }
    app.handle_key(Key::Right, "");
    app.handle_key(Key::Right, "");
    for _ in 0..31 {
        let before: Vec<String> = (0..31)
            .map(|j| model_field_get(&app.config.models[0], model_field(j).unwrap().id))
            .collect();
        if let UiAction::BeginEdit(v) = app.handle_key(Key::Enter, "") {
            app.handle_key(Key::Enter, &v);
        }
        let after: Vec<String> = (0..31)
            .map(|j| model_field_get(&app.config.models[0], model_field(j).unwrap().id))
            .collect();
        assert_eq!(before, after);
        app.handle_key(Key::Down, "");
    }
}

#[test]
fn clicks() {
    let mut app = app_with(&["a.gguf", "b.gguf"]);
    app.handle_click(ClickTarget::Model(1));
    assert_eq!(app.selected_model_idx, 1);
    app.handle_click(ClickTarget::Model(7));
    assert_eq!(app.selected_model_idx, 1);
    assert_eq!(app.handle_click(ClickTarget::Button(ServerButton::Run)), UiAction::StartServer);
    app.handle_click(ClickTarget::Button(ServerButton::LlamaArgs));
    assert!(app.show_args_popup);
    assert_eq!(app.handle_click(ClickTarget::Button(ServerButton::Exit)), UiAction::Nothing);
    assert!(!app.should_quit);
    app.handle_key(Key::Enter, "");
    app.handle_click(ClickTarget::Tab(AppTab::Configure));
    assert_eq!(app.tab, AppTab::Configure);
    app.handle_click(ClickTarget::ModelField(12));
    assert_eq!(app.config_edit.section, ConfigSection::ModelSettings);
    assert_eq!(app.config_edit.model_field_idx, 12);
    app.handle_click(ClickTarget::ModelEntry(1));
    assert_eq!(app.config_edit.section, ConfigSection::ModelList);
    assert_eq!(app.config_edit.model_list_idx, 1);
    assert_eq!(app.config_edit.model_field_idx, 0);
    app.handle_click(ClickTarget::CommonField(3));
    assert_eq!(app.config_edit.section, ConfigSection::Common);
    assert_eq!(app.config_edit.common_idx, 3);
    app.handle_click(ClickTarget::CommonField(30));
    assert_eq!(app.config_edit.common_idx, 3);
    app.handle_click(ClickTarget::Tab(AppTab::Server));
    app.handle_click(ClickTarget::Button(ServerButton::Exit));
    assert!(app.should_quit);
}

#[test]
fn mouse_wheel() {
    let mut app = app_with(&["a.gguf"]);
    app.handle_scroll(true);
    app.handle_scroll(true);
    assert_eq!(app.log_scroll, 6);
    assert!(!app.log_auto_scroll);
    app.handle_scroll(false);
    assert_eq!(app.log_scroll, 3);
    assert!(!app.log_auto_scroll);
    app.handle_scroll(false);
    assert_eq!(app.log_scroll, 0);
    assert!(app.log_auto_scroll);
    configure(&mut app);
    app.handle_scroll(false);
    assert_eq!(app.config_edit.common_idx, 1);
    app.handle_scroll(true);
    assert_eq!(app.config_edit.common_idx, 0);
}

#[test]
fn scroll_round_trip() {
    let mut app = app_with(&[]);
    app.scroll_up(10);
    app.scroll_down(10);
    assert_eq!(app.log_scroll, 0);
    assert!(app.log_auto_scroll);
    app.scroll_up(u16::MAX);
    app.scroll_up(5);
    assert_eq!(app.log_scroll, u16::MAX);
}

#[test]
fn server_events_fill_the_log() {
    let mut app = app_with(&["a.gguf"]);
    app.max_log_lines = 3;
    app.on_server_started(1, "t");
    assert!(app.on_server_event(ServerEvent::StdoutLine("one".to_string()), "t"));
    assert!(app.on_server_event(ServerEvent::StderrLine("two".to_string()), "t"));
    assert!(app.on_server_event(ServerEvent::StdoutLine("three".to_string()), "t"));
    assert_eq!(app.log_lines, vec!["one", "two", "three"]);
    assert!(!app.on_server_event(ServerEvent::Exited(137), "12:00:00"));
    assert_eq!(app.log_lines, vec!["two", "three", "[12:00:00] llama-server exited with code 137"]);
    assert_eq!(app.server_state, ServerState::Idle);
    assert!(!app.receiving_events);
    app.note_error("spawn failed");
    assert_eq!(app.log_lines.last().unwrap(), "[error] spawn failed");
    app.on_events_disconnected();
    assert_eq!(app.server_state, ServerState::Idle);
}

#[test]
fn gpu_samples_are_recorded() {
    let mut app = app_with(&[]);
    assert_eq!(app.record_gpu(55, 1, 1, 4), 50);
    assert_eq!(app.gpu_util_history.back(), Some(&55));
    assert_eq!(app.gpu_mem_history.back(), Some(&50));
}

#[test]
fn field_rows() {
    let mut app = app_with(&["a.gguf"]);
    assert_eq!(common_field_label(0), "llama_server_path (master)");
    assert_eq!(common_field_get(&app.config.common, 3), "11400");
    let f = model_field(0).unwrap();
    assert_eq!(f.label, "llama_server_path");
    assert!(f.has_fallback);
    assert_eq!(field_value_shown(&app.config.common, &app.config.models[0], f), "/opt/bin/llama-server");
    app.config.models[0].llama_server_path = "/x".to_string();
    assert_eq!(field_value_shown(&app.config.common, &app.config.models[0], f), "/x");
    let g = model_field(17).unwrap();
    assert_eq!(g.label, "min_p");
    assert_eq!(field_value_shown(&app.config.common, &app.config.models[0], g), "0.00");
    assert!(model_field(31).is_none());
    assert_eq!(checkbox_mark(true), "[x] ");
    assert_eq!(checkbox_mark(false), "[ ] ");
}

#[test]
fn toggling_twice_restores() {
    let mut m = ModelSettings::named("a".to_string(), "a.gguf".to_string());
    let before = m.enabled;
    let texts: Vec<String> = (0..31).map(|j| model_field_get(&m, model_field(j).unwrap().id)).collect();
    model_field_toggle(&mut m, ModelFieldId::Jinja);
    for j in 0..31 {
        let id = model_field(j).unwrap().id;
        assert_eq!(model_field_enabled(&m, id), before[j] != (id == ModelFieldId::Jinja));
        assert_eq!(model_field_get(&m, id), texts[j]);
    }
    model_field_toggle(&mut m, ModelFieldId::Jinja);
    assert_eq!(m.enabled, before);
}

#[test]
fn click_map_lookup() {
    let a = |x, y, width, height| Area { x, y, width, height };
    let map = ClickMap {
        tabs: a(0, 0, 80, 1),
        buttons: vec![(a(0, 10, 18, 1), ServerButton::Run), (a(18, 10, 18, 1), ServerButton::Stop)],
        model_list: Some((a(1, 2, 40, 6), 3)),
        common: None,
        model_entries: None,
        model_fields: Some((a(50, 2, 20, 5), 7)),
    };
    assert_eq!(target_at(&map, 3, 0), Some(ClickTarget::Tab(AppTab::Server)));
    assert_eq!(target_at(&map, 12, 0), Some(ClickTarget::Tab(AppTab::Configure)));
    assert_eq!(target_at(&map, 30, 0), None);
    assert_eq!(target_at(&map, 20, 10), Some(ClickTarget::Button(ServerButton::Stop)));
    assert_eq!(target_at(&map, 5, 2), Some(ClickTarget::Model(3)));
    assert_eq!(target_at(&map, 5, 4), Some(ClickTarget::Model(5)));
    assert_eq!(target_at(&map, 55, 6), Some(ClickTarget::ModelField(11)));
    assert_eq!(target_at(&map, 75, 6), None);
    assert!(area_contains(a(2, 2, 1, 1), 2, 2));
    assert!(!area_contains(a(2, 2, 1, 1), 3, 2));
    assert!(!area_contains(a(2, 2, 0, 0), 2, 2));
}
