//! Key handling: what each key does in each tab, popup and mode, as a step
//! of the application state that yields an action for the caller.

use vstd::prelude::*;
use vstd::string::*;
use crate::app::{
    app_wf, is_nav_key, is_up, is_down, last_index, min_int, sat_sub, spec_nav, spec_select, App,
    AppTab, ConfigEdit, ConfigSection, Key, ServerState, UiAction,
};
use crate::field_edit::{
    common_field_set, law_common_field_write_back, law_model_field_write_back,
    law_toggle_flips_one_checkbox, model_field_set,
    model_field_toggle, set_decimal_field,
};
use crate::fields::{
    common_field_get, is_decimal_field, model_field, model_field_get, model_field_is_decimal,
    spec_common_field_get, spec_common_field_set, spec_model_field_get, spec_model_field_id,
    spec_model_field_enabled, spec_model_field_set, spec_model_field_toggled, spec_set_decimal_field,
    same_fields,
    COMMON_FIELD_COUNT,
};
use crate::model::{AppConfig, DecimalValue, ModelFieldId, MODEL_FIELD_COUNT};

verus! {

/// Whether `key` is one of the characters `lower` and `upper`.
pub open spec fn is_letter(key: Key, lower: char, upper: char) -> bool {
    key == Key::Char(lower) || key == Key::Char(upper)
}

/// The keys that quit: `q`, `Q` and `Esc`.
pub open spec fn is_quit(key: Key) -> bool {
    is_letter(key, 'q', 'Q') || key == Key::Esc
}

/// The keys that close a popup: `Esc` and `Enter`.
pub open spec fn closes_popup(key: Key) -> bool {
    key == Key::Esc || key == Key::Enter
}

/// `r` and `act` are the state and the action after `key` on the Server
/// tab of `a`.
pub open spec fn server_tab_step(a: App, key: Key, r: App, act: UiAction) -> bool {
    let sel = a.selected_model_idx;
    let n = a.config.models@.len();
    let idle = a.server_state != ServerState::Running;
    if key == Key::Tab {
        r == (App { tab: AppTab::Configure, ..a }) && act is Nothing
    } else if is_up(key) {
        act is Nothing && r == (App {
            selected_model_idx: if idle {
                spec_select(sel, sat_sub(sel as int, 1) as usize, n)
            } else {
                sel
            },
            ..a
        })
    } else if is_down(key) {
        act is Nothing && r == (App {
            selected_model_idx: if idle {
                spec_select(sel, min_int(sel + 1, last_index(n)) as usize, n)
            } else {
                sel
            },
            ..a
        })
    } else if key == Key::Enter || is_letter(key, 'r', 'R') {
        r == a && (if a.server_state == ServerState::Idle {
            act is StartServer
        } else {
            act is Nothing
        })
    } else if is_letter(key, 's', 'S') {
        r == a && (if a.server_state == ServerState::Running {
            act is StopServer
        } else {
            act is Nothing
        })
    } else if is_letter(key, 'g', 'G') {
        r == (App { graph_mode: !a.graph_mode, ..a }) && act is Nothing
    } else if key == Key::Char('l') {
        r == (App { show_args_popup: true, ..a }) && act is Nothing
    } else if is_quit(key) {
        r == (App { should_quit: true, ..a }) && act is Nothing
    } else {
        r == a && act is Nothing
    }
}

impl App {
    /// Handles a key on the Server tab: `Tab` switches tab, `Up`/`k` and
    /// `Down`/`j` move the model selection while no server runs, `Enter`/`r`
    /// starts the server when idle, `s` stops a running one, `g` switches
    /// the graph mode, `l` shows the arguments popup, `q`/`Esc` quit.
    pub fn handle_server_tab_key(&mut self, key: Key) -> (act: UiAction)
        ensures
            server_tab_step(*old(self), key, *final(self), act),
    {
        if key == Key::Tab {
            self.tab = AppTab::Configure;
            UiAction::Nothing
        } else if key == Key::Up || key == Key::Char('k') {
            if self.server_state != ServerState::Running {
                let idx = self.selected_model_idx.saturating_sub(1);
                self.select_model(idx);
            }
            UiAction::Nothing
        } else if key == Key::Down || key == Key::Char('j') {
            if self.server_state != ServerState::Running {
                let last = self.config.models.len().saturating_sub(1);
                let idx = if self.selected_model_idx < last {
                    self.selected_model_idx + 1
                } else {
                    last
                };
                self.select_model(idx);
            }
            UiAction::Nothing
        } else if key == Key::Enter || key == Key::Char('r') || key == Key::Char('R') {
            if self.server_state == ServerState::Idle {
                UiAction::StartServer
            } else {
                UiAction::Nothing
            }
        } else if key == Key::Char('s') || key == Key::Char('S') {
            if self.server_state == ServerState::Running {
                UiAction::StopServer
            } else {
                UiAction::Nothing
            }
        } else if key == Key::Char('g') || key == Key::Char('G') {
            self.graph_mode = !self.graph_mode;
            UiAction::Nothing
        } else if key == Key::Char('l') {
            self.show_args_popup = true;
            UiAction::Nothing
        } else if key == Key::Char('q') || key == Key::Char('Q') || key == Key::Esc {
            self.should_quit = true;
            UiAction::Nothing
        } else {
            UiAction::Nothing
        }
    }
}

/// On the Server tab, `s` and `S` (what the Stop button sends too) ask to
/// stop a running server and do nothing otherwise; `Enter`, `r` and `R`
/// ask to start the server when idle and do nothing otherwise. Neither
/// changes the state.
pub proof fn law_server_keys_start_and_stop(a: App, key: Key, r: App, act: UiAction)
    requires
        server_tab_step(a, key, r, act),
    ensures
        key == Key::Char('s') || key == Key::Char('S') ==> r == a && (act is StopServer
            <==> a.server_state == ServerState::Running) && (act is StopServer || act is Nothing),
        key == Key::Enter || key == Key::Char('r') || key == Key::Char('R') ==> r == a && (
        act is StartServer <==> a.server_state == ServerState::Idle) && (act is StartServer
            || act is Nothing),
        act is StartServer ==> key == Key::Enter || key == Key::Char('r') || key == Key::Char('R'),
        act is StopServer ==> key == Key::Char('s') || key == Key::Char('S'),
{
}

/// On the Server tab, while no server runs, Down and `j` move the model
/// selection to the next model and Up and `k` to the previous one, staying
/// put at either end; while a server runs they leave it alone. No other
/// part of the state changes.
pub proof fn law_server_selection_moves_by_one(a: App, key: Key, r: App, act: UiAction)
    requires
        server_tab_step(a, key, r, act),
        is_up(key) || is_down(key),
        a.selected_model_idx < a.config.models@.len(),
    ensures
        act is Nothing,
        r == (App { selected_model_idx: r.selected_model_idx, ..a }),
        a.server_state == ServerState::Running ==> r.selected_model_idx == a.selected_model_idx,
        a.server_state != ServerState::Running && is_down(key) ==> r.selected_model_idx == (if a.selected_model_idx
            + 1 < a.config.models@.len() {
            a.selected_model_idx + 1
        } else {
            a.selected_model_idx as int
        }),
        a.server_state != ServerState::Running && is_up(key) ==> r.selected_model_idx == (if a.selected_model_idx
            > 0 {
            a.selected_model_idx - 1
        } else {
            0
        }),
{
    // a list's length fits in a `usize`
    assert(a.config.models.len() == a.config.models@.len());
}

/// `e` with editing stopped.
pub open spec fn edit_done(e: ConfigEdit) -> ConfigEdit {
    ConfigEdit { editing: false, ..e }
}

/// `r` and `act` after committing the edited text `text` in `a`: the
/// selected common field or per-model field takes it (a decimal field is
/// handed to the caller to read), and editing stops; a new model directory
/// asks for a rescan.
pub open spec fn commit_step(a: App, text: Seq<char>, r: App, act: UiAction) -> bool {
    let e = a.config_edit;
    let i = e.model_list_idx;
    let n = a.config.models@.len();
    let id = spec_model_field_id(e.model_field_idx as int);
    if e.section == ConfigSection::Common && e.common_idx < COMMON_FIELD_COUNT {
        &&& spec_common_field_set(a.config.common, e.common_idx as int, text, r.config.common)
        &&& r == (App {
            config: AppConfig { common: r.config.common, ..a.config },
            config_edit: edit_done(e),
            ..a
        })
        &&& if e.common_idx == 1 {
            act is RescanModels
        } else {
            act is EndEdit
        }
    } else if e.section == ConfigSection::ModelSettings && i < n && e.model_field_idx
        < MODEL_FIELD_COUNT && is_decimal_field(id) {
        &&& r == (App { config_edit: edit_done(e), ..a })
        &&& act matches UiAction::CommitDecimal { model_idx, field, text: t } && model_idx == i
            && field == id && t@ == text
    } else if e.section == ConfigSection::ModelSettings && i < n && e.model_field_idx
        < MODEL_FIELD_COUNT {
        &&& spec_model_field_set(a.config.models@[i as int], id, text, r.config.models@[i as int])
        &&& r.config.models@ == a.config.models@.update(i as int, r.config.models@[i as int])
        &&& r == (App {
            config: AppConfig { models: r.config.models, ..a.config },
            config_edit: edit_done(e),
            ..a
        })
        &&& act is EndEdit
    } else {
        r == (App { config_edit: edit_done(e), ..a }) && act is EndEdit
    }
}

impl App {
    /// Commits the edited text to the selected field and stops editing.
    #[verifier::spinoff_prover]
    pub fn commit_edit(&mut self, text: String) -> (act: UiAction)
        ensures
            commit_step(*old(self), text@, *final(self), act),
    {
        let section = self.config_edit.section;
        let i = self.config_edit.model_list_idx;
        let f = self.config_edit.model_field_idx;
        let mut act = UiAction::EndEdit;
        if section == ConfigSection::Common && self.config_edit.common_idx < COMMON_FIELD_COUNT {
            let c = self.config_edit.common_idx;
            common_field_set(&mut self.config.common, c, text);
            if c == 1 {
                act = UiAction::RescanModels;
            }
        } else if section == ConfigSection::ModelSettings && i < self.config.models.len() {
            match model_field(f) {
                Some(field) => {
                    if model_field_is_decimal(field.id) {
                        act = UiAction::CommitDecimal { model_idx: i, field: field.id, text };
                    } else {
                        model_field_set(&mut self.config.models[i], field.id, text);
                    }
                },
                None => {},
            }
        }
        self.config_edit.editing = false;
        act
    }
}

/// `r` and `act` after `key` on the Configure tab of `a` outside edit mode.
pub open spec fn config_nav_step(a: App, key: Key, r: App, act: UiAction) -> bool {
    let e = a.config_edit;
    let i = e.model_list_idx;
    let n = a.config.models@.len();
    let id = spec_model_field_id(e.model_field_idx as int);
    let field_selected = e.section == ConfigSection::ModelSettings && i < n && e.model_field_idx
        < MODEL_FIELD_COUNT;
    if key == Key::Tab {
        r == (App { tab: AppTab::Server, ..a }) && act is Nothing
    } else if is_nav_key(key) {
        r == (App { config_edit: spec_nav(e, key, n), ..a }) && act is Nothing
    } else if key == Key::Enter || key == Key::Char('e') {
        if e.section == ConfigSection::Common && e.common_idx < COMMON_FIELD_COUNT {
            &&& r == (App { config_edit: ConfigEdit { editing: true, ..e }, ..a })
            &&& act matches UiAction::BeginEdit(v) && v@ == spec_common_field_get(
                a.config.common,
                e.common_idx as int,
            )
        } else if field_selected {
            &&& r == (App { config_edit: ConfigEdit { editing: true, ..e }, ..a })
            &&& act matches UiAction::BeginEdit(v) && v@ == spec_model_field_get(
                a.config.models@[i as int],
                id,
            )
        } else if e.section == ConfigSection::ModelList {
            &&& r == (App {
                config_edit: ConfigEdit {
                    section: ConfigSection::ModelSettings,
                    model_field_idx: 0,
                    ..e
                },
                ..a
            })
            &&& act is Nothing
        } else {
            r == a && act is Nothing
        }
    } else if key == Key::Char(' ') {
        &&& act is Nothing
        &&& if field_selected {
            &&& spec_model_field_toggled(a.config.models@[i as int], id, r.config.models@[i as int])
            &&& r.config.models@ == a.config.models@.update(i as int, r.config.models@[i as int])
            &&& r == (App { config: AppConfig { models: r.config.models, ..a.config }, ..a })
        } else {
            r == a
        }
    } else if is_letter(key, 's', 'S') {
        r == a && act is SaveConfig
    } else if is_letter(key, 'c', 'C') {
        &&& r.update_output@.len() == 0
        &&& r == (App { update_output: r.update_output, show_update_popup: true, ..a })
        &&& act is StartUpdateCheck
    } else if is_quit(key) {
        r == (App { should_quit: true, ..a }) && act is Nothing
    } else {
        r == a && act is Nothing
    }
}

/// Space in the per-model section flips the checkbox of the selected field
/// of the model shown there (`model_list_idx`), whichever model the Server
/// tab has selected: that checkbox alone changes, every other checkbox and
/// every field's text of that model stay, and every other model and the
/// rest of the state are unchanged. Elsewhere Space changes nothing.
#[verifier::spinoff_prover]
pub proof fn law_space_toggles_the_shown_model(a: App, r: App, act: UiAction)
    requires
        config_nav_step(a, Key::Char(' '), r, act),
    ensures
        act is Nothing,
        r.config.models@.len() == a.config.models@.len(),
        r.config.common == a.config.common,
        r == (App { config: r.config, ..a }),
        forall|j: int| 0 <= j < a.config.models@.len() && j != a.config_edit.model_list_idx
            ==> r.config.models@[j] == #[trigger] a.config.models@[j],
        a.config_edit.section == ConfigSection::ModelSettings && a.config_edit.model_list_idx
            < a.config.models@.len() && a.config_edit.model_field_idx < MODEL_FIELD_COUNT ==> {
            let i = a.config_edit.model_list_idx as int;
            let id = spec_model_field_id(a.config_edit.model_field_idx as int);
            &&& spec_model_field_enabled(r.config.models@[i], id) == !spec_model_field_enabled(
                a.config.models@[i],
                id,
            )
            &&& forall|other: ModelFieldId| other != id ==> spec_model_field_enabled(
                r.config.models@[i],
                other,
            ) == #[trigger] spec_model_field_enabled(a.config.models@[i], other)
            &&& forall|other: ModelFieldId| spec_model_field_get(r.config.models@[i], other)
                == #[trigger] spec_model_field_get(a.config.models@[i], other)
        },
        !(a.config_edit.section == ConfigSection::ModelSettings && a.config_edit.model_list_idx
            < a.config.models@.len() && a.config_edit.model_field_idx < MODEL_FIELD_COUNT) ==> r
            == a,
{
    let e = a.config_edit;
    if e.section == ConfigSection::ModelSettings && e.model_list_idx < a.config.models@.len()
        && e.model_field_idx < MODEL_FIELD_COUNT {
        let i = e.model_list_idx as int;
        let id = spec_model_field_id(e.model_field_idx as int);
        law_toggle_flips_one_checkbox(a.config.models@[i], id, r.config.models@[i]);
    }
}

/// `r` and `act` after `key` on the Configure tab of `a`: while editing,
/// `Enter` commits the text `text` of the input, `Esc` drops it, and other
/// keys go to the input.
pub open spec fn config_tab_step(a: App, key: Key, text: Seq<char>, r: App, act: UiAction) -> bool {
    if a.config_edit.editing {
        if key == Key::Enter {
            commit_step(a, text, r, act)
        } else if key == Key::Esc {
            r == (App { config_edit: edit_done(a.config_edit), ..a }) && act is EndEdit
        } else {
            r == a && act is EditText
        }
    } else {
        config_nav_step(a, key, r, act)
    }
}

impl App {
    /// Starts editing the selected field, or opens the selected model's
    /// settings from the model list.
    #[verifier::spinoff_prover]
    fn begin_edit(&mut self) -> (act: UiAction)
        requires
            !old(self).config_edit.editing,
        ensures
            config_nav_step(*old(self), Key::Enter, *final(self), act),
    {
        let section = self.config_edit.section;
        let i = self.config_edit.model_list_idx;
        if section == ConfigSection::Common && self.config_edit.common_idx < COMMON_FIELD_COUNT {
            let v = common_field_get(&self.config.common, self.config_edit.common_idx);
            self.config_edit.editing = true;
            UiAction::BeginEdit(v)
        } else if section == ConfigSection::ModelSettings && i < self.config.models.len() {
            match model_field(self.config_edit.model_field_idx) {
                Some(field) => {
                    let v = model_field_get(&self.config.models[i], field.id);
                    self.config_edit.editing = true;
                    UiAction::BeginEdit(v)
                },
                None => UiAction::Nothing,
            }
        } else if section == ConfigSection::ModelList {
            self.config_edit.section = ConfigSection::ModelSettings;
            self.config_edit.model_field_idx = 0;
            UiAction::Nothing
        } else {
            UiAction::Nothing
        }
    }

    /// Flips the checkbox of the selected per-model field.
    #[verifier::spinoff_prover]
    fn toggle_selected_field(&mut self)
        ensures
            config_nav_step(*old(self), Key::Char(' '), *final(self), UiAction::Nothing),
    {
        let i = self.config_edit.model_list_idx;
        if self.config_edit.section == ConfigSection::ModelSettings && i < self.config.models.len() {
            match model_field(self.config_edit.model_field_idx) {
                Some(field) => {
                    model_field_toggle(&mut self.config.models[i], field.id);
                },
                None => {},
            }
        }
    }

    /// Handles a key on the Configure tab. In edit mode `Enter` commits the
    /// input's text `edit_text`, `Esc` cancels, and other keys edit the
    /// text. Otherwise `Tab` switches tab, the arrows and `h`/`j`/`k`/`l`
    /// and the page keys move, `Enter`/`e` start editing, `Space` flips the
    /// selected field's checkbox, `s` saves, `c` runs the update check, and
    /// `q`/`Esc` quit.
    #[verifier::spinoff_prover]
    pub fn handle_config_tab_key(&mut self, key: Key, edit_text: &str) -> (act: UiAction)
        requires
            app_wf(*old(self)),
        ensures
            config_tab_step(*old(self), key, edit_text@, *final(self), act),
    {
        if self.config_edit.editing {
            if key == Key::Enter {
                self.commit_edit(edit_text.to_string())
            } else if key == Key::Esc {
                self.config_edit.editing = false;
                UiAction::EndEdit
            } else {
                UiAction::EditText
            }
        } else if key == Key::Tab {
            self.tab = AppTab::Server;
            UiAction::Nothing
        } else if key == Key::Up || key == Key::Char('k') || key == Key::Down || key == Key::Char('j')
            || key == Key::Left || key == Key::Char('h') || key == Key::Right || key == Key::Char(
            'l',
        ) || key == Key::PageUp || key == Key::PageDown {
            let n = self.config.models.len();
            self.config_edit.navigate(key, n);
            UiAction::Nothing
        } else if key == Key::Enter || key == Key::Char('e') {
            self.begin_edit()
        } else if key == Key::Char(' ') {
            self.toggle_selected_field();
            UiAction::Nothing
        } else if key == Key::Char('s') || key == Key::Char('S') {
            UiAction::SaveConfig
        } else if key == Key::Char('c') || key == Key::Char('C') {
            self.update_output.clear();
            self.show_update_popup = true;
            UiAction::StartUpdateCheck
        } else if key == Key::Char('q') || key == Key::Char('Q') || key == Key::Esc {
            self.should_quit = true;
            UiAction::Nothing
        } else {
            UiAction::Nothing
        }
    }
}

/// `r` and `act` after `key` in `a`, with `text` in the edit input: an open
/// popup takes every key and closes on `Esc` or `Enter`; otherwise the tab
/// decides.
pub open spec fn key_step(a: App, key: Key, text: Seq<char>, r: App, act: UiAction) -> bool {
    if a.show_update_popup {
        act is Nothing && r == (App { show_update_popup: !closes_popup(key), ..a })
    } else if a.show_args_popup {
        act is Nothing && r == (App { show_args_popup: !closes_popup(key), ..a })
    } else if a.tab == AppTab::Server {
        server_tab_step(a, key, r, act)
    } else {
        config_tab_step(a, key, text, r, act)
    }
}

impl App {
    /// Handles a key press; `edit_text` is the text of the edit input. The
    /// result says what the caller must do.
    #[verifier::spinoff_prover]
    pub fn handle_key(&mut self, key: Key, edit_text: &str) -> (act: UiAction)
        requires
            app_wf(*old(self)),
        ensures
            key_step(*old(self), key, edit_text@, *final(self), act),
            app_wf(*final(self)),
    {
        if self.show_update_popup {
            if key == Key::Esc || key == Key::Enter {
                self.show_update_popup = false;
            }
            UiAction::Nothing
        } else if self.show_args_popup {
            if key == Key::Esc || key == Key::Enter {
                self.show_args_popup = false;
            }
            UiAction::Nothing
        } else {
            match self.tab {
                AppTab::Server => self.handle_server_tab_key(key),
                AppTab::Configure => {
                    let ghost before = *self;
                    let act = self.handle_config_tab_key(key, edit_text);
                    proof {
                        // a list index is below the largest `usize`
                        assert(before.config.models.len() == before.config.models@.len());
                        if !before.config_edit.editing && is_nav_key(key) {
                            crate::app::law_navigation_keeps_edit_wf(
                                before.config_edit,
                                key,
                                before.config.models@.len(),
                            );
                        }
                    }
                    act
                },
            }
        }
    }
}

/// The server is only asked to start from the idle state and to stop from
/// the running state, and no key changes the server state itself.
pub proof fn law_keys_respect_server_state(a: App, key: Key, text: Seq<char>, r: App, act: UiAction)
    requires
        key_step(a, key, text, r, act),
    ensures
        act is StartServer ==> a.server_state == ServerState::Idle,
        act is StopServer ==> a.server_state == ServerState::Running,
        r.server_state == a.server_state,
        r.server_manager == a.server_manager,
        r.log_lines == a.log_lines,
{
}

/// While a popup is open, keys change nothing but whether it stays open.
pub proof fn law_popup_takes_every_key(a: App, key: Key, text: Seq<char>, r: App, act: UiAction)
    requires
        key_step(a, key, text, r, act),
        a.show_update_popup || a.show_args_popup,
    ensures
        act is Nothing,
        r.config == a.config,
        r.tab == a.tab,
        r.config_edit == a.config_edit,
        r.selected_model_idx == a.selected_model_idx,
        !r.should_quit || a.should_quit,
{
}

/// Leaving edit mode with `Esc` changes no setting.
pub proof fn law_cancel_keeps_config(a: App, text: Seq<char>, r: App, act: UiAction)
    requires
        key_step(a, Key::Esc, text, r, act),
        !a.show_update_popup,
        !a.show_args_popup,
        a.tab == AppTab::Configure,
        a.config_edit.editing,
    ensures
        r.config == a.config,
        !r.config_edit.editing,
        act is EndEdit,
{
}

/// Opening a field's editor and committing the text it showed leaves every
/// setting showing what it showed before, and the edit state as it was.
#[verifier::spinoff_prover]
pub proof fn law_edit_round_trip(a: App, shown: Seq<char>, b: App, begin: UiAction, r: App, act: UiAction)
    requires
        app_wf(a),
        !a.show_update_popup,
        !a.show_args_popup,
        a.tab == AppTab::Configure,
        !a.config_edit.editing,
        key_step(a, Key::Enter, shown, b, begin),
        begin matches UiAction::BeginEdit(v) && v@ == shown,
        key_step(b, Key::Enter, shown, r, act),
    ensures
        r.config_edit == a.config_edit,
        forall|j: int| 0 <= j < COMMON_FIELD_COUNT ==> spec_common_field_get(r.config.common, j)
            == #[trigger] spec_common_field_get(a.config.common, j),
        r.config.models@.len() == a.config.models@.len(),
        forall|j: int| 0 <= j < a.config.models@.len() ==> same_fields(
            #[trigger] r.config.models@[j],
            a.config.models@[j],
        ),
{
    let e = a.config_edit;
    if e.section == ConfigSection::Common {
        law_common_field_write_back(a.config.common, e.common_idx as int, r.config.common);
        assert(r.config.models == a.config.models);
    } else {
        let i = e.model_list_idx as int;
        let id = spec_model_field_id(e.model_field_idx as int);
        assert(b.config == a.config);
        if !is_decimal_field(id) {
            law_model_field_write_back(a.config.models@[i], id, r.config.models@[i]);
            assert forall|j: int| 0 <= j < a.config.models@.len() implies same_fields(
                #[trigger] r.config.models@[j],
                a.config.models@[j],
            ) by {}
        }
    }
}

impl App {
    /// Sets decimal field `field` of model `model_idx` to `d`, the value the
    /// committed text read as; changes nothing without such a model.
    #[verifier::spinoff_prover]
    pub fn commit_decimal(&mut self, model_idx: usize, field: ModelFieldId, d: DecimalValue)
        ensures
            model_idx < old(self).config.models@.len() ==> {
                &&& spec_set_decimal_field(
                    old(self).config.models@[model_idx as int],
                    field,
                    d,
                    final(self).config.models@[model_idx as int],
                )
                &&& final(self).config.models@ == old(self).config.models@.update(
                    model_idx as int,
                    final(self).config.models@[model_idx as int],
                )
                &&& *final(self) == (App {
                    config: AppConfig { models: final(self).config.models, ..old(self).config },
                    ..*old(self)
                })
            },
            model_idx >= old(self).config.models@.len() ==> *final(self) == *old(self),
    {
        if model_idx < self.config.models.len() {
            set_decimal_field(&mut self.config.models[model_idx], field, d);
        }
    }
}

// ── Mouse ──

/// The buttons of the Server tab.
#[derive(Debug, Clone, Copy, PartialEq, Eq, Structural)]
pub enum ServerButton {
    Run,
    Stop,
    LlamaArgs,
    Exit,
}

/// What a click landed on.
#[derive(Debug, Clone, Copy, PartialEq, Eq, Structural)]
pub enum ClickTarget {
    /// A tab title.
    Tab(AppTab),
    /// A button of the Server tab.
    Button(ServerButton),
    /// Entry `i` of the Server tab's model list.
    Model(usize),
    /// Common setting `i` of the Configure tab.
    CommonField(usize),
    /// Entry `i` of the Configure tab's model list.
    ModelEntry(usize),
    /// Per-model field `i` of the Configure tab.
    ModelField(usize),
}

/// The key that a button stands for.
pub open spec fn button_key(b: ServerButton) -> Key {
    match b {
        ServerButton::Run => Key::Enter,
        ServerButton::Stop => Key::Char('s'),
        ServerButton::LlamaArgs => Key::Char('l'),
        ServerButton::Exit => Key::Char('q'),
    }
}

/// `r` and `act` after a click on `t` in `a`: nothing happens while a popup
/// is open; a button acts as its key; a list entry or field is selected
/// when it exists (on the Configure tab only outside edit mode, on the
/// Server tab only while no server runs).
pub open spec fn click_step(a: App, t: ClickTarget, r: App, act: UiAction) -> bool {
    let e = a.config_edit;
    let config_clicks = a.tab == AppTab::Configure && !e.editing;
    if a.show_update_popup || a.show_args_popup {
        r == a && act is Nothing
    } else {
        match t {
            ClickTarget::Tab(tab) => r == (App { tab, ..a }) && act is Nothing,
            ClickTarget::Button(b) => if a.tab == AppTab::Server {
                server_tab_step(a, button_key(b), r, act)
            } else {
                r == a && act is Nothing
            },
            ClickTarget::Model(i) => act is Nothing && if a.tab == AppTab::Server
                && a.server_state != ServerState::Running {
                r == (App {
                    selected_model_idx: spec_select(
                        a.selected_model_idx,
                        i,
                        a.config.models@.len(),
                    ),
                    ..a
                })
            } else {
                r == a
            },
            ClickTarget::CommonField(i) => act is Nothing && if config_clicks && i
                < COMMON_FIELD_COUNT {
                r == (App {
                    config_edit: ConfigEdit { section: ConfigSection::Common, common_idx: i, ..e },
                    ..a
                })
            } else {
                r == a
            },
            ClickTarget::ModelEntry(i) => act is Nothing && if config_clicks && i
                < a.config.models@.len() {
                r == (App {
                    config_edit: ConfigEdit {
                        section: ConfigSection::ModelList,
                        model_list_idx: i,
                        model_field_idx: 0,
                        ..e
                    },
                    ..a
                })
            } else {
                r == a
            },
            ClickTarget::ModelField(i) => act is Nothing && if config_clicks && i
                < MODEL_FIELD_COUNT {
                r == (App {
                    config_edit: ConfigEdit {
                        section: ConfigSection::ModelSettings,
                        model_field_idx: i,
                        ..e
                    },
                    ..a
                })
            } else {
                r == a
            },
        }
    }
}

/// A rectangle of the screen, in cells.
#[derive(Debug, Clone, Copy, PartialEq, Eq, Structural)]
pub struct Area {
    pub x: u16,
    pub y: u16,
    pub width: u16,
    pub height: u16,
}

/// The cell `(x, y)` lies in `a`.
pub open spec fn in_area(a: Area, x: u16, y: u16) -> bool {
    a.x <= x < a.x + a.width && a.y <= y < a.y + a.height
}

/// Whether the cell `(x, y)` lies in `a`.
pub fn area_contains(a: Area, x: u16, y: u16) -> (b: bool)
    ensures
        b == in_area(a, x, y),
{
    x >= a.x && (x - a.x) < a.width && y >= a.y && (y - a.y) < a.height
}

/// Where the clickable things were drawn: the tab bar, the Server tab's
/// buttons, and the inner areas of the lists with their first shown entry.
pub struct ClickMap {
    pub tabs: Area,
    pub buttons: Vec<(Area, ServerButton)>,
    pub model_list: Option<(Area, usize)>,
    pub common: Option<(Area, u16)>,
    pub model_entries: Option<(Area, usize)>,
    pub model_fields: Option<(Area, u16)>,
}

/// The entry at row `y` of a list drawn in `a` from entry `first` on (the
/// largest index where that overflows).
pub open spec fn row_entry(a: Area, first: int, y: u16) -> usize {
    if first + (y - a.y) > usize::MAX {
        usize::MAX
    } else {
        (first + (y - a.y)) as usize
    }
}

/// The list drawn in `o`, if any, holds the cell `(x, y)`.
pub open spec fn list_hit(o: Option<(Area, usize)>, x: u16, y: u16) -> bool {
    match o {
        Some((a, _)) => in_area(a, x, y),
        None => false,
    }
}

/// The entry of the list drawn in `o` at row `y`.
pub open spec fn hit_entry(o: Option<(Area, usize)>, y: u16) -> usize {
    match o {
        Some((a, first)) => row_entry(a, first as int, y),
        None => 0,
    }
}

/// The same list with its first shown entry as an index.
pub open spec fn widen(o: Option<(Area, u16)>) -> Option<(Area, usize)> {
    match o {
        Some((a, first)) => Some((a, first as usize)),
        None => None,
    }
}

/// The first button whose area holds `(x, y)`, if any.
pub open spec fn button_at(buttons: Seq<(Area, ServerButton)>, x: u16, y: u16) -> Option<ServerButton>
    decreases buttons.len(),
{
    if buttons.len() == 0 {
        None
    } else if in_area(buttons[0].0, x, y) {
        Some(buttons[0].1)
    } else {
        button_at(buttons.drop_first(), x, y)
    }
}

/// What a click at `(x, y)` lands on: the tab titles (` Server ` in the
/// first ten columns of the bar, ` Configure ` in the next fourteen), then
/// the buttons, then the rows of the lists, in that order.
pub open spec fn spec_target_at(m: ClickMap, x: u16, y: u16) -> Option<ClickTarget> {
    if in_area(m.tabs, x, y) {
        if x - m.tabs.x < 10 {
            Some(ClickTarget::Tab(AppTab::Server))
        } else if x - m.tabs.x < 24 {
            Some(ClickTarget::Tab(AppTab::Configure))
        } else {
            None
        }
    } else if button_at(m.buttons@, x, y) is Some {
        Some(ClickTarget::Button(button_at(m.buttons@, x, y)->0))
    } else if list_hit(m.model_list, x, y) {
        Some(ClickTarget::Model(hit_entry(m.model_list, y)))
    } else if list_hit(widen(m.common), x, y) {
        Some(ClickTarget::CommonField(hit_entry(widen(m.common), y)))
    } else if list_hit(m.model_entries, x, y) {
        Some(ClickTarget::ModelEntry(hit_entry(m.model_entries, y)))
    } else if list_hit(widen(m.model_fields), x, y) {
        Some(ClickTarget::ModelField(hit_entry(widen(m.model_fields), y)))
    } else {
        None
    }
}

/// The row of a list that `y` points at, counted from `first`.
fn list_row(a: Area, first: usize, y: u16) -> (r: usize)
    requires
        a.y <= y,
    ensures
        r == row_entry(a, first as int, y),
{
    first.saturating_add((y - a.y) as usize)
}

/// What a click at `(x, y)` lands on.
pub fn target_at(m: &ClickMap, x: u16, y: u16) -> (t: Option<ClickTarget>)
    ensures
        t == spec_target_at(*m, x, y),
{
    if area_contains(m.tabs, x, y) {
        let rel = x - m.tabs.x;
        return if rel < 10 {
            Some(ClickTarget::Tab(AppTab::Server))
        } else if rel < 24 {
            Some(ClickTarget::Tab(AppTab::Configure))
        } else {
            None
        };
    }
    let mut i: usize = 0;
    assert(m.buttons@.skip(0) =~= m.buttons@);
    while i < m.buttons.len()
        invariant
            !in_area(m.tabs, x, y),
            i <= m.buttons@.len(),
            button_at(m.buttons@, x, y) == button_at(m.buttons@.skip(i as int), x, y),
        decreases m.buttons@.len() - i,
    {
        let (a, b) = m.buttons[i];
        assert(m.buttons@.skip(i as int)[0] == m.buttons@[i as int]);
        assert(m.buttons@.skip(i as int).drop_first() =~= m.buttons@.skip(i + 1));
        if area_contains(a, x, y) {
            assert(button_at(m.buttons@.skip(i as int), x, y) == Some(b));
            return Some(ClickTarget::Button(b));
        }
        i = i + 1;
    }
    assert(m.buttons@.skip(i as int).len() == 0);
    match m.model_list {
        Some((a, first)) => {
            if area_contains(a, x, y) {
                return Some(ClickTarget::Model(list_row(a, first, y)));
            }
        },
        None => {},
    }
    match m.common {
        Some((a, first)) => {
            if area_contains(a, x, y) {
                return Some(ClickTarget::CommonField(list_row(a, first as usize, y)));
            }
        },
        None => {},
    }
    match m.model_entries {
        Some((a, first)) => {
            if area_contains(a, x, y) {
                return Some(ClickTarget::ModelEntry(list_row(a, first, y)));
            }
        },
        None => {},
    }
    match m.model_fields {
        Some((a, first)) => {
            if area_contains(a, x, y) {
                return Some(ClickTarget::ModelField(list_row(a, first as usize, y)));
            }
        },
        None => {},
    }
    None
}

impl App {
    /// Handles a click on `target`.
    #[verifier::spinoff_prover]
    pub fn handle_click(&mut self, target: ClickTarget) -> (act: UiAction)
        requires
            app_wf(*old(self)),
        ensures
            click_step(*old(self), target, *final(self), act),
            app_wf(*final(self)),
    {
        if self.show_update_popup || self.show_args_popup {
            return UiAction::Nothing;
        }
        let config_clicks = self.tab == AppTab::Configure && !self.config_edit.editing;
        match target {
            ClickTarget::Tab(tab) => {
                self.tab = tab;
                UiAction::Nothing
            },
            ClickTarget::Button(b) => {
                if self.tab == AppTab::Server {
                    let key = match b {
                        ServerButton::Run => Key::Enter,
                        ServerButton::Stop => Key::Char('s'),
                        ServerButton::LlamaArgs => Key::Char('l'),
                        ServerButton::Exit => Key::Char('q'),
                    };
                    self.handle_server_tab_key(key)
                } else {
                    UiAction::Nothing
                }
            },
            ClickTarget::Model(i) => {
                if self.tab == AppTab::Server && self.server_state != ServerState::Running {
                    self.select_model(i);
                }
                UiAction::Nothing
            },
            ClickTarget::CommonField(i) => {
                if config_clicks && i < COMMON_FIELD_COUNT {
                    self.config_edit.section = ConfigSection::Common;
                    self.config_edit.common_idx = i;
                }
                UiAction::Nothing
            },
            ClickTarget::ModelEntry(i) => {
                if config_clicks && i < self.config.models.len() {
                    self.config_edit.section = ConfigSection::ModelList;
                    self.config_edit.model_list_idx = i;
                    self.config_edit.model_field_idx = 0;
                }
                UiAction::Nothing
            },
            ClickTarget::ModelField(i) => {
                if config_clicks && i < MODEL_FIELD_COUNT {
                    self.config_edit.section = ConfigSection::ModelSettings;
                    self.config_edit.model_field_idx = i;
                }
                UiAction::Nothing
            },
        }
    }

    /// Handles the mouse wheel: on the Server tab it scrolls the log by
    /// three lines; on the Configure tab, outside edit mode, it moves the
    /// selection of the focused section as `Up` and `Down` do.
    #[verifier::spinoff_prover]
    pub fn handle_scroll(&mut self, up: bool)
        requires
            app_wf(*old(self)),
        ensures
            app_wf(*final(self)),
            old(self).tab == AppTab::Server ==> *final(self) == (App {
                log_scroll: final(self).log_scroll,
                log_auto_scroll: final(self).log_auto_scroll,
                ..*old(self)
            }) && if up {
                final(self).log_scroll == (if old(self).log_scroll + 3 > u16::MAX {
                    u16::MAX as int
                } else {
                    old(self).log_scroll + 3
                }) && !final(self).log_auto_scroll
            } else {
                final(self).log_scroll == sat_sub(old(self).log_scroll as int, 3)
                    && final(self).log_auto_scroll == (old(self).log_auto_scroll
                    || final(self).log_scroll == 0)
            },
            old(self).tab == AppTab::Configure && !old(self).config_edit.editing ==> *final(self)
                == (App {
                config_edit: spec_nav(
                    old(self).config_edit,
                    if up {
                        Key::Up
                    } else {
                        Key::Down
                    },
                    old(self).config.models@.len(),
                ),
                ..*old(self)
            }),
            old(self).tab == AppTab::Configure && old(self).config_edit.editing ==> *final(self)
                == *old(self),
    {
        if self.tab == AppTab::Server {
            if up {
                self.scroll_up(3);
            } else {
                self.scroll_down(3);
            }
        } else if !self.config_edit.editing {
            let key = if up {
                Key::Up
            } else {
                Key::Down
            };
            let n = self.config.models.len();
            proof {
                crate::app::law_navigation_keeps_edit_wf(self.config_edit, key, n as nat);
            }
            self.config_edit.navigate(key, n);
        }
    }
}

} // verus!
