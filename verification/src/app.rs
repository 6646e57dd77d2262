//! The application state and the decisions of the terminal UI: which tab
//! and section are shown, how keys move the selection and edit the
//! configuration, and how server events and logs are recorded. Everything
//! that needs the terminal, the file system or the child process is an
//! action that the caller performs.

use std::collections::VecDeque;
use vstd::prelude::*;
use vstd::string::*;
use crate::config::{synced, sync_models};
use crate::fields::COMMON_FIELD_COUNT;
use crate::model::{
    entry_names, model_dir_from_common, spec_model_dir_from_common, AppConfig, ModelFieldId,
    ModelFileEntry, ModelSettings, MODEL_FIELD_COUNT,
};
use crate::monitor::{record_gpu_sample, spec_mem_used_percent, spec_push_history};
use crate::server_manager::{ServerEvent, ServerManager, SpawnPlan};
use crate::text::{dec_int, i32_to_string, views};

verus! {

/// The two tabs.
#[derive(Debug, Clone, Copy, PartialEq, Eq, Structural)]
pub enum AppTab {
    Server,
    Configure,
}

/// Whether a server is running.
#[derive(Debug, Clone, Copy, PartialEq, Eq, Structural)]
pub enum ServerState {
    Idle,
    Running,
}

/// Which section is focused in the Configure tab.
#[derive(Debug, Clone, Copy, PartialEq, Eq, Structural)]
pub enum ConfigSection {
    Common,
    ModelList,
    ModelSettings,
}

/// A key press, as far as the UI tells keys apart.
#[derive(Debug, Clone, Copy, PartialEq, Eq, Structural)]
pub enum Key {
    Tab,
    Up,
    Down,
    Left,
    Right,
    PageUp,
    PageDown,
    Enter,
    Esc,
    Char(char),
    Other,
}

/// What the caller must do after a key press.
#[derive(Debug, Clone, PartialEq)]
pub enum UiAction {
    Nothing,
    /// Spawn the selected model's server (see `App::start_plan`).
    StartServer,
    /// Stop the running server (see `App::begin_stop`).
    StopServer,
    /// Write the configuration file.
    SaveConfig,
    /// Launch the update script.
    StartUpdateCheck,
    /// Start editing: the text input now holds this value.
    BeginEdit(String),
    /// Stop editing: the text input is cleared.
    EndEdit,
    /// Pass the key to the text input.
    EditText,
    /// Stop editing, and set decimal field `field` of model `model_idx` to
    /// the value `text` reads as, if it reads as a number.
    CommitDecimal { model_idx: usize, field: ModelFieldId, text: String },
    /// Stop editing, and rescan the model directory, whose setting changed.
    RescanModels,
}

/// How many common settings are visible at once.
pub const PANEL_VISIBLE_COMMON: u16 = 7;

/// How many per-model fields are visible at once.
pub const PANEL_VISIBLE_MODEL: u16 = 11;

/// Edit state for the Configure tab: the focused section, the selection in
/// each section, whether a value is being edited, and the scroll offsets.
#[derive(Debug, Clone, Copy, PartialEq, Eq, Structural)]
pub struct ConfigEdit {
    pub section: ConfigSection,
    pub common_idx: usize,
    pub model_list_idx: usize,
    pub model_field_idx: usize,
    pub editing: bool,
    pub common_scroll: u16,
    pub model_scroll: u16,
}

/// `e` with the scroll offset of the focused section moved just enough to
/// show the selected field.
pub open spec fn spec_follow(e: ConfigEdit) -> ConfigEdit {
    match e.section {
        ConfigSection::Common => {
            let sel = e.common_idx as u16;
            if sel < e.common_scroll {
                ConfigEdit { common_scroll: sel, ..e }
            } else if sel >= e.common_scroll + PANEL_VISIBLE_COMMON {
                ConfigEdit { common_scroll: (sel - PANEL_VISIBLE_COMMON + 1) as u16, ..e }
            } else {
                e
            }
        },
        ConfigSection::ModelSettings => {
            let sel = e.model_field_idx as u16;
            if sel < e.model_scroll {
                ConfigEdit { model_scroll: sel, ..e }
            } else if sel >= e.model_scroll + PANEL_VISIBLE_MODEL {
                ConfigEdit { model_scroll: (sel - PANEL_VISIBLE_MODEL + 1) as u16, ..e }
            } else {
                e
            }
        },
        ConfigSection::ModelList => e,
    }
}

/// The scroll offsets are small enough that following the selection cannot
/// overflow.
pub open spec fn scroll_ok(e: ConfigEdit) -> bool {
    e.common_scroll <= u16::MAX - PANEL_VISIBLE_COMMON && e.model_scroll <= u16::MAX
        - PANEL_VISIBLE_MODEL
}

/// The selections are small enough that moving down or a page down cannot
/// overflow.
pub open spec fn nav_ok(e: ConfigEdit) -> bool {
    &&& scroll_ok(e)
    &&& e.common_idx <= usize::MAX - 5
    &&& e.model_list_idx < usize::MAX
    &&& e.model_field_idx <= usize::MAX - 5
}

/// The edit state reachable from `ConfigEdit::new`: selections inside their
/// lists and scroll offsets no further than the last field.
pub open spec fn edit_wf(e: ConfigEdit) -> bool {
    &&& e.common_idx < COMMON_FIELD_COUNT
    &&& e.model_field_idx < MODEL_FIELD_COUNT
    &&& e.common_scroll < COMMON_FIELD_COUNT
    &&& e.model_scroll < MODEL_FIELD_COUNT
}

/// `n.saturating_sub(k)`.
pub open spec fn sat_sub(n: int, k: int) -> int {
    if n > k {
        n - k
    } else {
        0
    }
}

/// The smaller of two integers.
pub open spec fn min_int(a: int, b: int) -> int {
    if a < b {
        a
    } else {
        b
    }
}

/// The index of the last entry of a list of `n` (0 when empty).
pub open spec fn last_index(n: nat) -> int {
    sat_sub(n as int, 1)
}

/// The navigation keys of the Configure tab.
pub open spec fn is_up(key: Key) -> bool {
    key == Key::Up || key == Key::Char('k')
}

pub open spec fn is_down(key: Key) -> bool {
    key == Key::Down || key == Key::Char('j')
}

pub open spec fn is_left(key: Key) -> bool {
    key == Key::Left || key == Key::Char('h')
}

pub open spec fn is_right(key: Key) -> bool {
    key == Key::Right || key == Key::Char('l')
}

pub open spec fn is_nav_key(key: Key) -> bool {
    is_up(key) || is_down(key) || is_left(key) || is_right(key) || key == Key::PageUp || key
        == Key::PageDown
}

/// The edit state after navigation key `key`, with `n_models` models.
pub open spec fn spec_nav(e: ConfigEdit, key: Key, n_models: nat) -> ConfigEdit {
    if is_left(key) {
        ConfigEdit {
            section: match e.section {
                ConfigSection::ModelSettings => ConfigSection::ModelList,
                _ => ConfigSection::Common,
            },
            ..e
        }
    } else if is_right(key) {
        ConfigEdit {
            section: match e.section {
                ConfigSection::Common => ConfigSection::ModelList,
                _ => ConfigSection::ModelSettings,
            },
            ..e
        }
    } else if is_up(key) {
        spec_follow(
            match e.section {
                ConfigSection::Common => ConfigEdit {
                    common_idx: sat_sub(e.common_idx as int, 1) as usize,
                    ..e
                },
                ConfigSection::ModelList => ConfigEdit {
                    model_list_idx: sat_sub(e.model_list_idx as int, 1) as usize,
                    model_field_idx: 0,
                    ..e
                },
                ConfigSection::ModelSettings => ConfigEdit {
                    model_field_idx: sat_sub(e.model_field_idx as int, 1) as usize,
                    ..e
                },
            },
        )
    } else if is_down(key) {
        spec_follow(
            match e.section {
                ConfigSection::Common => ConfigEdit {
                    common_idx: min_int(e.common_idx + 1, COMMON_FIELD_COUNT - 1) as usize,
                    ..e
                },
                ConfigSection::ModelList => ConfigEdit {
                    model_list_idx: min_int(e.model_list_idx + 1, last_index(n_models)) as usize,
                    model_field_idx: 0,
                    ..e
                },
                ConfigSection::ModelSettings => ConfigEdit {
                    model_field_idx: min_int(e.model_field_idx + 1, MODEL_FIELD_COUNT - 1) as usize,
                    ..e
                },
            },
        )
    } else if key == Key::PageUp {
        spec_follow(
            match e.section {
                ConfigSection::Common => ConfigEdit {
                    common_scroll: sat_sub(e.common_scroll as int, 5) as u16,
                    common_idx: sat_sub(e.common_idx as int, 5) as usize,
                    ..e
                },
                ConfigSection::ModelSettings => ConfigEdit {
                    model_scroll: sat_sub(e.model_scroll as int, 5) as u16,
                    model_field_idx: sat_sub(e.model_field_idx as int, 5) as usize,
                    ..e
                },
                ConfigSection::ModelList => e,
            },
        )
    } else if key == Key::PageDown {
        spec_follow(
            match e.section {
                ConfigSection::Common => ConfigEdit {
                    common_scroll: min_int(
                        min_int(e.common_scroll + 5, u16::MAX as int),
                        COMMON_FIELD_COUNT - 1,
                    ) as u16,
                    common_idx: min_int(e.common_idx + 5, COMMON_FIELD_COUNT - 1) as usize,
                    ..e
                },
                ConfigSection::ModelSettings => ConfigEdit {
                    model_scroll: min_int(
                        min_int(e.model_scroll + 5, u16::MAX as int),
                        MODEL_FIELD_COUNT - 1,
                    ) as u16,
                    model_field_idx: min_int(e.model_field_idx + 5, MODEL_FIELD_COUNT - 1) as usize,
                    ..e
                },
                ConfigSection::ModelList => e,
            },
        )
    } else {
        e
    }
}

/// The initial edit state: the common section, first entries, not editing,
/// no scroll.
pub open spec fn initial_config_edit() -> ConfigEdit {
    ConfigEdit {
        section: ConfigSection::Common,
        common_idx: 0,
        model_list_idx: 0,
        model_field_idx: 0,
        editing: false,
        common_scroll: 0,
        model_scroll: 0,
    }
}

impl ConfigEdit {
    /// The initial edit state.
    pub fn new() -> (e: Self)
        ensures
            e == initial_config_edit(),
    {
        ConfigEdit {
            section: ConfigSection::Common,
            common_idx: 0,
            model_list_idx: 0,
            model_field_idx: 0,
            editing: false,
            common_scroll: 0,
            model_scroll: 0,
        }
    }

    /// Adjusts the scroll offset of the focused section so that the selected
    /// field is visible.
    pub fn follow_selection(&mut self)
        requires
            scroll_ok(*old(self)),
        ensures
            *final(self) == spec_follow(*old(self)),
    {
        match self.section {
            ConfigSection::Common => {
                let sel = self.common_idx as u16;
                if sel < self.common_scroll {
                    self.common_scroll = sel;
                } else if sel >= self.common_scroll + PANEL_VISIBLE_COMMON {
                    self.common_scroll = sel - PANEL_VISIBLE_COMMON + 1;
                }
            },
            ConfigSection::ModelSettings => {
                let sel = self.model_field_idx as u16;
                if sel < self.model_scroll {
                    self.model_scroll = sel;
                } else if sel >= self.model_scroll + PANEL_VISIBLE_MODEL {
                    self.model_scroll = sel - PANEL_VISIBLE_MODEL + 1;
                }
            },
            _ => {},
        }
    }

    /// Applies a navigation key.
    pub fn navigate(&mut self, key: Key, n_models: usize)
        requires
            is_nav_key(key),
            nav_ok(*old(self)),
        ensures
            *final(self) == spec_nav(*old(self), key, n_models as nat),
    {
        if key == Key::Left || key == Key::Char('h') {
            self.section = match self.section {
                ConfigSection::ModelSettings => ConfigSection::ModelList,
                _ => ConfigSection::Common,
            };
        } else if key == Key::Right || key == Key::Char('l') {
            self.section = match self.section {
                ConfigSection::Common => ConfigSection::ModelList,
                _ => ConfigSection::ModelSettings,
            };
        } else if key == Key::Up || key == Key::Char('k') {
            match self.section {
                ConfigSection::Common => {
                    self.common_idx = self.common_idx.saturating_sub(1);
                },
                ConfigSection::ModelList => {
                    self.model_list_idx = self.model_list_idx.saturating_sub(1);
                    self.model_field_idx = 0;
                },
                ConfigSection::ModelSettings => {
                    self.model_field_idx = self.model_field_idx.saturating_sub(1);
                },
            }
            self.follow_selection();
        } else if key == Key::Down || key == Key::Char('j') {
            match self.section {
                ConfigSection::Common => {
                    let idx = self.common_idx + 1;
                    self.common_idx = if idx < COMMON_FIELD_COUNT - 1 { idx } else { COMMON_FIELD_COUNT - 1 };
                },
                ConfigSection::ModelList => {
                    let idx = self.model_list_idx + 1;
                    let last = n_models.saturating_sub(1);
                    self.model_list_idx = if idx < last { idx } else { last };
                    self.model_field_idx = 0;
                },
                ConfigSection::ModelSettings => {
                    let idx = self.model_field_idx + 1;
                    self.model_field_idx = if idx < MODEL_FIELD_COUNT - 1 { idx } else { MODEL_FIELD_COUNT - 1 };
                },
            }
            self.follow_selection();
        } else if key == Key::PageUp {
            match self.section {
                ConfigSection::Common => {
                    self.common_scroll = self.common_scroll.saturating_sub(5);
                    self.common_idx = self.common_idx.saturating_sub(5);
                },
                ConfigSection::ModelSettings => {
                    self.model_scroll = self.model_scroll.saturating_sub(5);
                    self.model_field_idx = self.model_field_idx.saturating_sub(5);
                },
                _ => {},
            }
            self.follow_selection();
        } else {
            match self.section {
                ConfigSection::Common => {
                    let s = self.common_scroll.saturating_add(5);
                    let cap: u16 = 6;
                    self.common_scroll = if s < cap { s } else { cap };
                    let idx = self.common_idx + 5;
                    self.common_idx = if idx < COMMON_FIELD_COUNT - 1 { idx } else { COMMON_FIELD_COUNT - 1 };
                },
                ConfigSection::ModelSettings => {
                    let s = self.model_scroll.saturating_add(5);
                    let cap: u16 = 30;
                    self.model_scroll = if s < cap { s } else { cap };
                    let idx = self.model_field_idx + 5;
                    self.model_field_idx = if idx < MODEL_FIELD_COUNT - 1 { idx } else { MODEL_FIELD_COUNT - 1 };
                },
                _ => {},
            }
            self.follow_selection();
        }
    }
}

/// After following the selection, the selected field of a well-formed edit
/// state is within the visible window of its section.
pub proof fn law_follow_shows_selection(e: ConfigEdit)
    requires
        edit_wf(e),
    ensures
        edit_wf(spec_follow(e)),
        e.section == ConfigSection::Common ==> spec_follow(e).common_scroll <= e.common_idx
            < spec_follow(e).common_scroll + PANEL_VISIBLE_COMMON,
        e.section == ConfigSection::ModelSettings ==> spec_follow(e).model_scroll
            <= e.model_field_idx < spec_follow(e).model_scroll + PANEL_VISIBLE_MODEL,
{
}

/// Navigation keeps the edit state well formed: selections stay inside
/// their lists and scroll offsets within range.
pub proof fn law_navigation_keeps_edit_wf(e: ConfigEdit, key: Key, n_models: nat)
    requires
        edit_wf(e),
        is_nav_key(key),
    ensures
        edit_wf(spec_nav(e, key, n_models)),
        spec_nav(e, key, n_models).model_list_idx <= e.model_list_idx || spec_nav(
            e,
            key,
            n_models,
        ).model_list_idx < n_models,
{
}

/// Up and Down move the selection of the focused section by one entry
/// (stopping at either end) and nothing else in the selection; in the model
/// list they also go back to the first per-model field. Left and Right
/// only change the section. So Up after a Down that moved comes back.
#[verifier::spinoff_prover]
pub proof fn law_arrows_move_by_one(e: ConfigEdit, n_models: nat)
    requires
        edit_wf(e),
        n_models <= usize::MAX,
    ensures
        e.section == ConfigSection::Common ==> {
            &&& spec_nav(e, Key::Up, n_models).common_idx == (if e.common_idx > 0 {
                e.common_idx - 1
            } else {
                0
            })
            &&& spec_nav(e, Key::Down, n_models).common_idx == (if e.common_idx + 1
                < COMMON_FIELD_COUNT {
                e.common_idx + 1
            } else {
                e.common_idx as int
            })
            &&& spec_nav(e, Key::Up, n_models).model_list_idx == e.model_list_idx
            &&& spec_nav(e, Key::Down, n_models).model_field_idx == e.model_field_idx
        },
        e.section == ConfigSection::ModelList && e.model_list_idx < n_models ==> {
            &&& spec_nav(e, Key::Up, n_models).model_list_idx == (if e.model_list_idx > 0 {
                e.model_list_idx - 1
            } else {
                0
            })
            &&& spec_nav(e, Key::Down, n_models).model_list_idx == (if e.model_list_idx + 1
                < n_models {
                e.model_list_idx + 1
            } else {
                e.model_list_idx as int
            })
            &&& spec_nav(e, Key::Up, n_models).model_field_idx == 0
            &&& spec_nav(e, Key::Down, n_models).model_field_idx == 0
            &&& spec_nav(e, Key::Up, n_models).common_idx == e.common_idx
            &&& spec_nav(e, Key::Char('k'), n_models) == spec_nav(e, Key::Up, n_models)
            &&& spec_nav(e, Key::Char('j'), n_models) == spec_nav(e, Key::Down, n_models)
        },
        e.section == ConfigSection::ModelSettings ==> {
            &&& spec_nav(e, Key::Up, n_models).model_field_idx == (if e.model_field_idx > 0 {
                e.model_field_idx - 1
            } else {
                0
            })
            &&& spec_nav(e, Key::Down, n_models).model_field_idx == (if e.model_field_idx + 1
                < MODEL_FIELD_COUNT {
                e.model_field_idx + 1
            } else {
                e.model_field_idx as int
            })
            &&& spec_nav(e, Key::Up, n_models).model_list_idx == e.model_list_idx
        },
        e.section == ConfigSection::ModelList && 0 < e.model_list_idx < n_models ==> spec_nav(
            spec_nav(e, Key::Up, n_models),
            Key::Down,
            n_models,
        ).model_list_idx == e.model_list_idx,
        spec_nav(e, Key::Left, n_models) == (ConfigEdit { section: spec_nav(e, Key::Left, n_models).section, ..e }),
        spec_nav(e, Key::Right, n_models) == (ConfigEdit { section: spec_nav(e, Key::Right, n_models).section, ..e }),
{
}

// ── The application ──

/// The state of the launcher: the configuration, the UI selection, the
/// server, the log, the update popup and the GPU histories.
pub struct App {
    pub config: AppConfig,
    pub tab: AppTab,
    pub server_state: ServerState,
    pub model_files: Vec<ModelFileEntry>,
    pub selected_model_idx: usize,
    pub config_edit: ConfigEdit,
    pub config_dirty: bool,
    pub server_manager: ServerManager,
    /// Whether server events are still being received.
    pub receiving_events: bool,
    pub log_lines: Vec<String>,
    pub max_log_lines: usize,
    pub log_scroll: u16,
    pub log_auto_scroll: bool,
    pub show_update_popup: bool,
    pub show_args_popup: bool,
    pub update_output: Vec<String>,
    pub should_quit: bool,
    pub gpu_util_history: VecDeque<u32>,
    pub gpu_mem_history: VecDeque<u32>,
    pub gpu_available: bool,
    pub graph_mode: bool,
    pub mouse_select_start: Option<(u16, u16)>,
    pub mouse_select_end: Option<(u16, u16)>,
}

/// The states that key handling keeps: a well-formed edit state whose
/// model-list selection can still move down.
pub open spec fn app_wf(a: App) -> bool {
    &&& edit_wf(a.config_edit)
    &&& a.config_edit.model_list_idx < usize::MAX
}

/// How many log lines are kept.
pub const MAX_LOG_LINES: usize = 1000;

/// The selection after asking to select `idx` among `n` models: it moves
/// only to an existing model.
pub open spec fn spec_select(current: usize, idx: usize, n: nat) -> usize {
    if idx < n {
        idx
    } else {
        current
    }
}

/// The log after appending `line`: the oldest line goes when the log grows
/// past `max`.
pub open spec fn spec_push_log(log: Seq<Seq<char>>, line: Seq<char>, max: nat) -> Seq<Seq<char>> {
    if log.len() + 1 > max {
        log.push(line).subrange(1, log.len() as int + 1)
    } else {
        log.push(line)
    }
}

/// The model directory setting after startup: the derived directory when
/// none was set.
pub open spec fn spec_resolved_model_dir(c: AppConfig) -> Seq<char> {
    if c.common.model_dir@.len() == 0 {
        spec_model_dir_from_common(c.common)
    } else {
        c.common.model_dir@
    }
}

impl App {
    /// Fills in the model directory when none is set, with the one derived
    /// from the server path, so that the configuration records it.
    pub fn resolve_model_dir(config: &mut AppConfig)
        ensures
            final(config).common.model_dir@ == spec_resolved_model_dir(*old(config)),
            final(config).common == (crate::model::CommonSettings {
                model_dir: final(config).common.model_dir,
                ..old(config).common
            }),
            final(config).models == old(config).models,
    {
        let resolved = model_dir_from_common(&config.common);
        if config.common.model_dir.as_str().unicode_len() == 0 {
            config.common.model_dir = resolved;
        }
    }

    /// The application at startup, from the loaded configuration, the model
    /// files found in its model directory, and whether GPU metrics can be
    /// read.
    pub fn new(config: AppConfig, model_files: Vec<ModelFileEntry>, gpu_available: bool) -> (app: Self)
        ensures
            synced(config.models@, entry_names(model_files@), app.config.models@),
            app.config.common == config.common,
            app.model_files@ == model_files@,
            app.tab == AppTab::Server,
            app.server_state == ServerState::Idle,
            app.selected_model_idx == 0,
            app.config_edit == initial_config_edit(),
            !app.config_dirty,
            app.server_manager.pid_of() is None,
            !app.server_manager.running_flag(),
            !app.receiving_events,
            app.log_lines@.len() == 0,
            app.max_log_lines == MAX_LOG_LINES,
            app.log_scroll == 0,
            app.log_auto_scroll,
            !app.show_update_popup,
            !app.show_args_popup,
            app.update_output@.len() == 0,
            !app.should_quit,
            app.gpu_util_history@.len() == 0,
            app.gpu_mem_history@.len() == 0,
            app.gpu_available == gpu_available,
            !app.graph_mode,
            app.mouse_select_start is None,
            app.mouse_select_end is None,
            app_wf(app),
    {
        let mut config = config;
        sync_models(&mut config, &model_files);
        App {
            config,
            tab: AppTab::Server,
            server_state: ServerState::Idle,
            model_files,
            selected_model_idx: 0,
            config_edit: ConfigEdit::new(),
            config_dirty: false,
            server_manager: ServerManager::new(),
            receiving_events: false,
            log_lines: Vec::new(),
            max_log_lines: MAX_LOG_LINES,
            log_scroll: 0,
            log_auto_scroll: true,
            show_update_popup: false,
            show_args_popup: false,
            update_output: Vec::new(),
            should_quit: false,
            gpu_util_history: VecDeque::new(),
            gpu_mem_history: VecDeque::new(),
            gpu_available,
            graph_mode: false,
            mouse_select_start: None,
            mouse_select_end: None,
        }
    }

    /// The settings of the selected model, if the selection is a model.
    pub fn selected_model_settings(&self) -> (r: Option<&ModelSettings>)
        ensures
            match r {
                Some(m) => self.selected_model_idx < self.config.models@.len() && *m
                    == self.config.models@[self.selected_model_idx as int],
                None => self.selected_model_idx >= self.config.models@.len(),
            },
    {
        if self.selected_model_idx < self.config.models.len() {
            Some(&self.config.models[self.selected_model_idx])
        } else {
            None
        }
    }

    /// Selects model `idx` if there is one.
    pub fn select_model(&mut self, idx: usize)
        ensures
            *final(self) == (App {
                selected_model_idx: spec_select(
                    old(self).selected_model_idx,
                    idx,
                    old(self).config.models@.len(),
                ),
                ..*old(self)
            }),
    {
        if idx < self.config.models.len() {
            self.selected_model_idx = idx;
        }
    }

    /// Appends a line to the log, dropping the oldest line past the limit,
    /// and returns the view to the end when it follows the end.
    pub fn push_log(&mut self, line: String)
        ensures
            views(final(self).log_lines@) == spec_push_log(
                views(old(self).log_lines@),
                line@,
                old(self).max_log_lines as nat,
            ),
            final(self).log_scroll == (if old(self).log_auto_scroll {
                0
            } else {
                old(self).log_scroll
            }),
            *final(self) == (App {
                log_lines: final(self).log_lines,
                log_scroll: final(self).log_scroll,
                ..*old(self)
            }),
    {
        proof {
            crate::text::lemma_views_push(self.log_lines@, line);
        }
        self.log_lines.push(line);
        if self.log_lines.len() > self.max_log_lines {
            let ghost pushed = self.log_lines@;
            self.log_lines.remove(0);
            assert(views(self.log_lines@) =~= views(pushed).subrange(1, pushed.len() as int));
        }
        if self.log_auto_scroll {
            self.log_scroll = 0;
        }
    }

    /// Appends a line to the log without a limit (the launcher's own notes).
    fn note(&mut self, line: String)
        ensures
            views(final(self).log_lines@) == views(old(self).log_lines@).push(line@),
            *final(self) == (App { log_lines: final(self).log_lines, ..*old(self) }),
    {
        proof {
            crate::text::lemma_views_push(self.log_lines@, line);
        }
        self.log_lines.push(line);
    }

    /// Scrolls the log view up by `n` lines and stops following the end.
    pub fn scroll_up(&mut self, n: u16)
        ensures
            *final(self) == (App {
                log_scroll: if old(self).log_scroll + n > u16::MAX {
                    u16::MAX
                } else {
                    (old(self).log_scroll + n) as u16
                },
                log_auto_scroll: false,
                ..*old(self)
            }),
    {
        self.log_scroll = self.log_scroll.saturating_add(n);
        self.log_auto_scroll = false;
    }

    /// Scrolls the log view down by `n` lines; back at the end, follows the
    /// end again.
    pub fn scroll_down(&mut self, n: u16)
        ensures
            final(self).log_scroll == sat_sub(old(self).log_scroll as int, n as int),
            final(self).log_auto_scroll == (old(self).log_auto_scroll || final(self).log_scroll
                == 0),
            *final(self) == (App {
                log_scroll: final(self).log_scroll,
                log_auto_scroll: final(self).log_auto_scroll,
                ..*old(self)
            }),
    {
        self.log_scroll = self.log_scroll.saturating_sub(n);
        if self.log_scroll == 0 {
            self.log_auto_scroll = true;
        }
    }
}

// ── Server and log events ──

/// The log line of a started server.
pub open spec fn started_line(now: Seq<char>, name: Seq<char>) -> Seq<char> {
    "["@ + now + "] llama-server started: "@ + name
}

/// The log line of a stopped server.
pub open spec fn stopped_line(now: Seq<char>) -> Seq<char> {
    "["@ + now + "] llama-server stopped"@
}

/// The log line of a server that exited with `code`.
pub open spec fn exited_line(now: Seq<char>, code: i32) -> Seq<char> {
    "["@ + now + "] llama-server exited with code "@ + dec_int(code as int)
}

impl App {
    /// What to spawn for the selected model: refused without a selected
    /// model, or while a server runs.
    pub fn start_plan(&self) -> (r: Result<SpawnPlan, String>)
        ensures
            match r {
                Ok(plan) => {
                    &&& self.selected_model_idx < self.config.models@.len()
                    &&& !self.server_manager.running_flag()
                    &&& plan.program@ == crate::model::spec_server_path_for_model(
                        self.config.common,
                        self.config.models@[self.selected_model_idx as int],
                    )
                    &&& views(plan.args@) == crate::server_manager::spec_build_args(
                        self.config.common,
                        self.config.models@[self.selected_model_idx as int],
                    )
                    &&& plan.work_dir@ == crate::paths::parent_or_dot(plan.program@)
                },
                Err(e) => {
                    ||| self.selected_model_idx >= self.config.models@.len() && e@
                        == "No model selected"@
                    ||| self.selected_model_idx < self.config.models@.len()
                        && self.server_manager.running_flag() && e@
                        == "Server is already running"@
                },
            },
    {
        match self.selected_model_settings() {
            Some(model) => self.server_manager.spawn_plan(&self.config.common, model),
            None => Err(String::from_str("No model selected")),
        }
    }

    /// Records a spawned server: its pid, the running state, the start of
    /// event reception, and a log line stamped `now`.
    pub fn on_server_started(&mut self, pid: u32, now: &str)
        requires
            old(self).selected_model_idx < old(self).config.models@.len(),
        ensures
            final(self).server_manager.pid_of() == Some(pid),
            final(self).server_manager.running_flag(),
            views(final(self).log_lines@) == views(old(self).log_lines@).push(
                started_line(now@, old(self).config.models@[old(self).selected_model_idx as int].name@),
            ),
            *final(self) == (App {
                server_manager: final(self).server_manager,
                server_state: ServerState::Running,
                receiving_events: true,
                log_lines: final(self).log_lines,
                ..*old(self)
            }),
    {
        self.server_manager.record_spawned(pid);
        self.server_state = ServerState::Running;
        self.receiving_events = true;
        let mut line = String::from_str("[");
        line.append(now);
        line.append("] llama-server started: ");
        line.append(self.config.models[self.selected_model_idx].name.as_str());
        self.note(line);
    }

    /// Begins stopping the server: the pid to signal, or an error when none
    /// was started.
    pub fn begin_stop(&mut self) -> (r: Result<u32, String>)
        ensures
            match old(self).server_manager.pid_of() {
                Some(p) => r == Ok::<u32, String>(p),
                None => r matches Err(e) && e@ == "No server running"@,
            },
            final(self).server_manager.pid_of() is None,
            final(self).server_manager.running_flag() == old(self).server_manager.running_flag(),
            *final(self) == (App { server_manager: final(self).server_manager, ..*old(self) }),
    {
        self.server_manager.begin_stop()
    }

    /// Records a completed stop: the server is idle, events are no longer
    /// received, and a log line stamped `now` says so.
    pub fn on_server_stopped(&mut self, now: &str)
        ensures
            !final(self).server_manager.running_flag(),
            final(self).server_manager.pid_of() == old(self).server_manager.pid_of(),
            views(final(self).log_lines@) == views(old(self).log_lines@).push(stopped_line(now@)),
            *final(self) == (App {
                server_manager: final(self).server_manager,
                server_state: ServerState::Idle,
                receiving_events: false,
                log_lines: final(self).log_lines,
                ..*old(self)
            }),
    {
        self.server_manager.finish_stop();
        self.server_state = ServerState::Idle;
        self.receiving_events = false;
        let mut line = String::from_str("[");
        line.append(now);
        line.append("] llama-server stopped");
        self.note(line);
    }

    /// Records what the process watcher saw: whether the child still runs.
    pub fn observe_process(&mut self, running: bool)
        ensures
            final(self).server_manager.running_flag() == running,
            final(self).server_manager.pid_of() == old(self).server_manager.pid_of(),
            *final(self) == (App { server_manager: final(self).server_manager, ..*old(self) }),
    {
        self.server_manager.set_running(running);
    }

    /// Records a server event stamped `now`; returns whether more events
    /// should be read. Output lines go to the log; an exit is logged and
    /// makes the server idle.
    pub fn on_server_event(&mut self, event: ServerEvent, now: &str) -> (more: bool)
        ensures
            match event {
                ServerEvent::StdoutLine(line) => more && views(final(self).log_lines@) == spec_push_log(
                    views(old(self).log_lines@),
                    line@,
                    old(self).max_log_lines as nat,
                ) && *final(self) == (App {
                    log_lines: final(self).log_lines,
                    log_scroll: final(self).log_scroll,
                    ..*old(self)
                }),
                ServerEvent::StderrLine(line) => more && views(final(self).log_lines@) == spec_push_log(
                    views(old(self).log_lines@),
                    line@,
                    old(self).max_log_lines as nat,
                ) && *final(self) == (App {
                    log_lines: final(self).log_lines,
                    log_scroll: final(self).log_scroll,
                    ..*old(self)
                }),
                ServerEvent::Exited(code) => !more && views(final(self).log_lines@) == spec_push_log(
                    views(old(self).log_lines@),
                    exited_line(now@, code),
                    old(self).max_log_lines as nat,
                ) && *final(self) == (App {
                    log_lines: final(self).log_lines,
                    log_scroll: final(self).log_scroll,
                    server_state: ServerState::Idle,
                    receiving_events: false,
                    ..*old(self)
                }),
            },
            final(self).log_scroll == (if old(self).log_auto_scroll {
                0
            } else {
                old(self).log_scroll
            }),
    {
        match event {
            ServerEvent::StdoutLine(line) => {
                self.push_log(line);
                true
            },
            ServerEvent::StderrLine(line) => {
                self.push_log(line);
                true
            },
            ServerEvent::Exited(code) => {
                let mut line = String::from_str("[");
                line.append(now);
                line.append("] llama-server exited with code ");
                let c = i32_to_string(code);
                line.append(c.as_str());
                self.push_log(line);
                self.server_state = ServerState::Idle;
                self.receiving_events = false;
                false
            },
        }
    }

    /// Records that the server's event channel closed: the server is idle.
    pub fn on_events_disconnected(&mut self)
        ensures
            *final(self) == (App {
                server_state: ServerState::Idle,
                receiving_events: false,
                ..*old(self)
            }),
    {
        self.server_state = ServerState::Idle;
        self.receiving_events = false;
    }

    /// Logs an error message.
    pub fn note_error(&mut self, error: &str)
        ensures
            views(final(self).log_lines@) == views(old(self).log_lines@).push("[error] "@ + error@),
            *final(self) == (App { log_lines: final(self).log_lines, ..*old(self) }),
    {
        let mut line = String::from_str("[error] ");
        line.append(error);
        self.note(line);
    }

    /// Logs the outcome of saving the configuration.
    pub fn on_config_saved(&mut self, result: Result<(), String>)
        ensures
            views(final(self).log_lines@) == views(old(self).log_lines@).push(
                match result {
                    Ok(_) => "[info] Config saved."@,
                    Err(e) => "[error] Save failed: "@ + e@,
                },
            ),
            *final(self) == (App { log_lines: final(self).log_lines, ..*old(self) }),
    {
        match result {
            Ok(_) => {
                self.note(String::from_str("[info] Config saved."));
            },
            Err(e) => {
                let mut line = String::from_str("[error] Save failed: ");
                line.append(e.as_str());
                self.note(line);
            },
        }
    }

    /// Marks the configuration as saved.
    pub fn mark_saved(&mut self)
        ensures
            *final(self) == (App { config_dirty: false, ..*old(self) }),
    {
        self.config_dirty = false;
    }

    /// Replaces the model files with a fresh scan and syncs the models with
    /// them.
    pub fn rescan_models(&mut self, model_files: Vec<ModelFileEntry>)
        ensures
            synced(old(self).config.models@, entry_names(model_files@), final(self).config.models@),
            final(self).config.common == old(self).config.common,
            final(self).model_files@ == model_files@,
            *final(self) == (App {
                config: final(self).config,
                model_files: final(self).model_files,
                ..*old(self)
            }),
    {
        self.model_files = model_files;
        sync_models(&mut self.config, &self.model_files);
    }

    /// Appends a line of the update script's output.
    pub fn on_update_line(&mut self, line: String)
        ensures
            final(self).update_output@ == old(self).update_output@.push(line),
            *final(self) == (App { update_output: final(self).update_output, ..*old(self) }),
    {
        self.update_output.push(line);
    }

    /// Records a GPU poll in the histories; gives the memory percentage.
    pub fn record_gpu(&mut self, gpu_util: u32, mem_used: u64, mem_reserved: u64, mem_total: u64) -> (pct: u32)
        requires
            (mem_used + mem_reserved) * 100 <= u64::MAX,
        ensures
            pct == spec_mem_used_percent(mem_used, mem_reserved, mem_total),
            final(self).gpu_util_history@ == spec_push_history(old(self).gpu_util_history@, gpu_util),
            final(self).gpu_mem_history@ == spec_push_history(old(self).gpu_mem_history@, pct),
            *final(self) == (App {
                gpu_util_history: final(self).gpu_util_history,
                gpu_mem_history: final(self).gpu_mem_history,
                ..*old(self)
            }),
    {
        record_gpu_sample(
            &mut self.gpu_util_history,
            &mut self.gpu_mem_history,
            gpu_util,
            mem_used,
            mem_reserved,
            mem_total,
        )
    }
}

/// Scrolling up then down by the same amount restores the scroll offset
/// when nothing saturated; reaching the bottom follows the end again.
pub proof fn law_scroll_round_trip(scroll: u16, n: u16)
    requires
        scroll + n <= u16::MAX,
    ensures
        sat_sub((scroll + n) as int, n as int) == scroll,
        sat_sub(scroll as int, scroll as int) == 0,
{
}

/// The log never holds more than its limit once it is within it.
pub proof fn law_log_is_bounded(log: Seq<Seq<char>>, line: Seq<char>, max: nat)
    requires
        log.len() <= max,
        max > 0,
    ensures
        spec_push_log(log, line, max).len() <= max,
        spec_push_log(log, line, max).last() == line,
{
}

} // verus!
