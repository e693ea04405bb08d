//! Keys for the dialogs. Each dialog takes every key until it closes.
use vstd::prelude::*;
use vstd::string::*;

use crate::app::forms::{edit_single_line, line_edited, ConnectionForm, ConnectionFormView};
use crate::app::row_detail::{row_read_only_reason, RowDetail, RowDetailView};
use crate::app::workspace::{Overlay, OverlayView, SessionAction};
use crate::app::{App, AppView, Effect, EffectView};
use crate::db::sessions::{SessionState, TargetView};
use crate::editor::{types, EditorView};
use crate::keys::{KeyCode, KeyEvent};
use crate::storage::Settings;
use crate::text::{join, joined};

verus! {

/// The settings with one of them switched.
pub open spec fn switched_setting(draft: Settings, selected: usize) -> Settings {
    if selected == 0 {
        Settings { show_all_databases: !draft.show_all_databases, ..draft }
    } else if selected == 1 {
        Settings { show_system_schemas: !draft.show_system_schemas, ..draft }
    } else {
        Settings { show_utility_schemas: !draft.show_utility_schemas, ..draft }
    }
}

/// The position behind a key in a list of which `count` entries exist.
pub open spec fn moved(selected: usize, count: nat, code: KeyCode) -> usize {
    let last = if count > 0 { count - 1 } else { 0 };
    if code == KeyCode::Up || code == KeyCode::Char('k') {
        if selected > 0 {
            (selected - 1) as usize
        } else {
            0
        }
    } else if code == KeyCode::Down || code == KeyCode::Char('j') {
        if selected < last {
            (selected + 1) as usize
        } else {
            last as usize
        }
    } else if code == KeyCode::Home || code == KeyCode::Char('g') {
        0
    } else if code == KeyCode::End || code == KeyCode::Char('G') {
        last as usize
    } else {
        selected
    }
}

/// The position behind a key in a list of `count` entries.
pub fn move_in_list(selected: usize, count: usize, code: KeyCode) -> (next: usize)
    ensures
        next == moved(selected, count as nat, code),
{
    let last: usize = if count > 0 {
        count - 1
    } else {
        0
    };
    if code == KeyCode::Up || code == KeyCode::Char('k') {
        if selected > 0 {
            selected - 1
        } else {
            0
        }
    } else if code == KeyCode::Down || code == KeyCode::Char('j') {
        if selected < last {
            selected + 1
        } else {
            last
        }
    } else if code == KeyCode::Home || code == KeyCode::Char('g') {
        0
    } else if code == KeyCode::End || code == KeyCode::Char('G') {
        last
    } else {
        selected
    }
}

/// Whether a key agrees to a question that only Y answers.
pub open spec fn agrees(code: KeyCode) -> bool {
    code == KeyCode::Char('y')
}

/// Whether a key declines a question.
pub open spec fn declines(code: KeyCode) -> bool {
    code == KeyCode::Char('n') || code == KeyCode::Esc
}

impl RowDetailView {
    /// The row behind a key that neither stages nor closes it, while no field is edited.
    pub open spec fn browsed(self, key: KeyEvent) -> RowDetailView {
        let code = key.code;
        if code == KeyCode::Up || code == KeyCode::Char('k') {
            self.select(if self.selected > 0 { self.selected - 1 } else { 0 })
        } else if code == KeyCode::Down || code == KeyCode::Char('j') {
            self.select(self.selected + 1)
        } else if code == KeyCode::Home || code == KeyCode::Char('g') {
            self.select(0)
        } else if code == KeyCode::End || code == KeyCode::Char('G') {
            self.select(self.columns.len() as int)
        } else if code == KeyCode::Enter {
            self.edited()
        } else if key.is_control('n') {
            self.null_toggled()
        } else {
            self
        }
    }
}

impl AppView {
    /// The preferences dialog behind a key.
    #[verifier::opaque]
    pub open spec fn settings_key(self, draft: Settings, selected: usize, key: KeyEvent) -> AppView {
        if key.code == KeyCode::Esc {
            self.without_overlay()
        } else if key.is_control('s') {
            self.with_effect(EffectView::SaveSettings(draft))
        } else {
            match key.code {
                KeyCode::Down | KeyCode::Tab => self.with_overlay(
                    OverlayView::Settings { draft, selected: ((selected + 1) % 3) as usize },
                ),
                KeyCode::Up | KeyCode::BackTab => self.with_overlay(
                    OverlayView::Settings { draft, selected: ((selected + 2) % 3) as usize },
                ),
                KeyCode::Enter => self.with_overlay(
                    OverlayView::Settings { draft: switched_setting(draft, selected), selected },
                ),
                KeyCode::Char(c) => if c == ' ' {
                    self.with_overlay(
                        OverlayView::Settings { draft: switched_setting(draft, selected), selected },
                    )
                } else {
                    self
                },
                _ => self,
            }
        }
    }

    /// The connection form behind a key. It stays open until the profile is saved.
    #[verifier::opaque]
    pub open spec fn connection_key(self, form: ConnectionFormView, key: KeyEvent, now: u128) -> AppView {
        if key.code == KeyCode::Esc {
            self.without_overlay()
        } else if key.is_control('s') {
            match self.connection_requested(form, now) {
                Ok(next) => next,
                Err(problem) => self.with_status(problem, true),
            }
        } else {
            self.with_overlay(OverlayView::Connection(form.pressed(key)))
        }
    }

    /// The script name dialog behind a key. It stays open until the script is written.
    #[verifier::opaque]
    pub open spec fn save_script_key(self, name: Seq<char>, cursor: usize, key: KeyEvent) -> AppView {
        if key.code == KeyCode::Esc {
            self.without_overlay()
        } else if key.code == KeyCode::Enter {
            self.with_effect(
                EffectView::SaveScript { name, sql: joined(self.sql.lines, "\n"@) },
            )
        } else {
            let (name, cursor) = line_edited(name, cursor as int, key);
            self.with_overlay(OverlayView::SaveScript { name, cursor: cursor as usize })
        }
    }

    /// The script picker behind a key. Deleting asks first, and loading closes the picker only on success.
    #[verifier::opaque]
    pub open spec fn load_script_key(self, selected: usize, key: KeyEvent) -> AppView {
        let deletes = key.code == KeyCode::Char('d') || key.code == KeyCode::Delete;
        if key.code == KeyCode::Esc {
            self.without_overlay()
        } else if deletes || key.code == KeyCode::Enter {
            if selected >= self.scripts.len() {
                self.without_overlay().with_status("No saved scripts"@, true)
            } else if deletes {
                self.with_overlay(
                    OverlayView::ConfirmDeleteScript {
                        name: self.scripts[selected as int],
                        selected,
                    },
                )
            } else {
                self.with_effect(EffectView::LoadScript { name: self.scripts[selected as int] })
            }
        } else {
            self.with_overlay(
                OverlayView::LoadScript { selected: moved(selected, self.scripts.len(), key.code) },
            )
        }
    }

    /// The question about a script behind a key.
    #[verifier::opaque]
    pub open spec fn delete_script_key(self, name: Seq<char>, selected: usize, key: KeyEvent) -> AppView {
        if agrees(key.code) || key.code == KeyCode::Enter {
            self.with_effect(EffectView::DeleteScript { name })
        } else if declines(key.code) {
            self.with_overlay(OverlayView::LoadScript { selected })
        } else {
            self
        }
    }

    /// The state with a row staged, and its dialog closed where that worked.
    pub open spec fn form_staged(self, form: RowDetailView) -> AppView {
        match self.row_staged(form) {
            Ok(next) => next.without_overlay(),
            Err(problem) => self.with_overlay(OverlayView::RowDetail(form)).with_status(
                problem,
                true,
            ),
        }
    }

    /// The row dialog behind a key. `typed` is what the key makes of its editor, where it takes the key.
    #[verifier::opaque]
    pub open spec fn row_key(self, form: RowDetailView, key: KeyEvent, typed: EditorView) -> AppView {
        if form.is_new && form.field_editable() && form.has_field() && key.is_control('d') {
            self.with_overlay(OverlayView::RowDetail(form.defaulted()))
        } else if form.editing {
            if key.is_control('s') {
                self.form_staged(form.finished())
            } else if key.code == KeyCode::Esc {
                self.with_overlay(OverlayView::RowDetail(form.finished()))
            } else if key.is_control('n') {
                self.with_overlay(OverlayView::RowDetail(form.null_toggled()))
            } else {
                self.with_overlay(OverlayView::RowDetail(RowDetailView { editor: typed, ..form }))
            }
        } else if key.code == KeyCode::Esc {
            self.without_overlay()
        } else if key.is_control('s') {
            self.form_staged(form)
        } else {
            let next = self.with_overlay(OverlayView::RowDetail(form.browsed(key)));
            if key.code == KeyCode::Enter && !form.field_editable() {
                next.with_status(form.obstacle(), true)
            } else {
                next
            }
        }
    }

    /// The question before a refresh behind a key.
    #[verifier::opaque]
    pub open spec fn refresh_key(self, key: KeyEvent) -> AppView {
        if agrees(key.code) {
            match self.without_overlay().refreshed(true) {
                Ok(next) => next,
                Err(problem) => self.without_overlay().with_status(problem, true),
            }
        } else if declines(key.code) {
            self.without_overlay()
        } else {
            self
        }
    }

    /// The question before a lifecycle action behind a key. Enter is no consent.
    #[verifier::opaque]
    pub open spec fn session_key(self, action: SessionAction, key: KeyEvent) -> AppView {
        if agrees(key.code) {
            self.without_overlay().performed(action)
        } else if declines(key.code) {
            self.without_overlay()
        } else {
            self
        }
    }

    /// The question before closing a group behind a key. The group is the one that was asked about.
    #[verifier::opaque]
    pub open spec fn group_key(
        self,
        targets: Seq<TargetView>,
        key: KeyEvent,
        states: Seq<(TargetView, SessionState)>,
    ) -> AppView {
        if agrees(key.code) {
            self.without_overlay().disconnected(true, Some(targets), states)
        } else if declines(key.code) {
            self.without_overlay()
        } else {
            self
        }
    }

    /// The question about a connection behind a key.
    #[verifier::opaque]
    pub open spec fn delete_connection_key(self, profile_id: Seq<char>, key: KeyEvent) -> AppView {
        if agrees(key.code) || key.code == KeyCode::Enter {
            self.without_overlay().deletion_requested(profile_id)
        } else if declines(key.code) {
            self.without_overlay()
        } else {
            self
        }
    }

    /// The open dialog behind a key. `states` are the session states that were just observed, `now` is the
    /// time in nanoseconds, and `typed` is what the key makes of a text editor that takes it.
    pub open spec fn overlay_key(
        self,
        key: KeyEvent,
        states: Seq<(TargetView, SessionState)>,
        now: u128,
        typed: EditorView,
    ) -> AppView {
        match self.workspace.overlay {
            None => self,
            Some(overlay) => match overlay {
                OverlayView::Settings { draft, selected } => {
                    self.settings_key(draft, selected, key)
                },
                OverlayView::Connection(form) => self.connection_key(form, key, now),
                OverlayView::SaveScript { name, cursor } => self.save_script_key(name, cursor, key),
                OverlayView::LoadScript { selected } => self.load_script_key(selected, key),
                OverlayView::ConfirmDeleteScript { name, selected } => self.delete_script_key(
                    name,
                    selected,
                    key,
                ),
                OverlayView::RowDetail(form) => self.row_key(form, key, typed),
                OverlayView::ConfirmRefresh => self.refresh_key(key),
                OverlayView::ConfirmSession(action) => self.session_key(action, key),
                OverlayView::ConfirmExplorerDisconnect { targets, .. } => self.group_key(
                    targets,
                    key,
                    states,
                ),
                OverlayView::ConfirmDelete { profile_id, .. } => self.delete_connection_key(
                    profile_id,
                    key,
                ),
            },
        }
    }

    /// What is known of what a key makes of the editor of an open row that takes it.
    pub open spec fn row_typing(self, key: KeyEvent, typed: EditorView) -> bool {
        self.workspace.overlay matches Some(OverlayView::RowDetail(form)) ==> form.typing(key, typed)
    }
}

impl RowDetailView {
    /// Whether the editor of the selected field takes a key.
    pub open spec fn takes(self, key: KeyEvent) -> bool {
        self.editing && !(self.is_new && self.field_editable() && self.has_field()
            && key.is_control('d')) && !key.is_control('s') && key.code != KeyCode::Esc
            && !key.is_control('n')
    }

    /// What is known of what a key makes of the editor, where it takes the key.
    pub open spec fn typing(self, key: KeyEvent, typed: EditorView) -> bool {
        self.takes(key) ==> types(self.editor, key, typed)
    }
}

fn setting_switched(draft: Settings, selected: usize) -> (next: Settings)
    ensures
        next == switched_setting(draft, selected),
{
    let mut draft = draft;
    if selected == 0 {
        draft.show_all_databases = !draft.show_all_databases;
    } else if selected == 1 {
        draft.show_system_schemas = !draft.show_system_schemas;
    } else {
        draft.show_utility_schemas = !draft.show_utility_schemas;
    }
    draft
}

/// Takes a key that neither stages nor closes the row, while no field is edited.
fn browse(form: &mut RowDetail, key: KeyEvent)
    ensures
        final(form)@ == old(form)@.browsed(key),
{
    let code = key.code;
    let count: usize = form.columns.len();
    assert(form@.columns.len() == count);
    if code == KeyCode::Up || code == KeyCode::Char('k') {
        let next: usize = if form.selected > 0 {
            form.selected - 1
        } else {
            0
        };
        form.select(next);
    } else if code == KeyCode::Down || code == KeyCode::Char('j') {
        let next: usize = if form.selected < count {
            form.selected + 1
        } else {
            form.selected
        };
        form.select(next);
    } else if code == KeyCode::Home || code == KeyCode::Char('g') {
        form.select(0);
    } else if code == KeyCode::End || code == KeyCode::Char('G') {
        form.select(count);
    } else if code == KeyCode::Enter {
        form.begin_edit();
    } else if key.control('n') {
        form.toggle_null();
    }
}

impl App {
    fn take_overlay(&mut self) -> (overlay: Option<Overlay>)
        requires
            old(self)@.valid(),
        ensures
            final(self)@.valid(),
            final(self)@ == old(self)@.without_overlay(),
            overlay.deep_view() == old(self)@.workspace.overlay,
    {
        let mut overlay: Option<Overlay> = None;
        std::mem::swap(&mut overlay, &mut self.workspace.overlay);
        overlay
    }

    fn handle_settings_key(&mut self, draft: Settings, selected: usize, key: KeyEvent)
        requires
            old(self)@.valid(),
            old(self)@.workspace.overlay == Some(OverlayView::Settings { draft, selected }),
        ensures
            final(self)@.valid(),
            final(self)@ == old(self)@.settings_key(draft, selected, key),
    {
        proof {
            reveal(AppView::settings_key);
        }
        if key.code == KeyCode::Esc {
            self.workspace.overlay = None;
            return;
        }
        if key.control('s') {
            self.push_effect(Effect::SaveSettings(draft));
            return;
        }
        match key.code {
            KeyCode::Down | KeyCode::Tab => {
                let selected: usize = (selected % 3 + 1) % 3;
                self.open_overlay(Overlay::Settings { draft, selected });
            },
            KeyCode::Up | KeyCode::BackTab => {
                let selected: usize = (selected % 3 + 2) % 3;
                self.open_overlay(Overlay::Settings { draft, selected });
            },
            KeyCode::Enter => {
                let draft = setting_switched(draft, selected);
                self.open_overlay(Overlay::Settings { draft, selected });
            },
            KeyCode::Char(c) => {
                if c == ' ' {
                    let draft = setting_switched(draft, selected);
                    self.open_overlay(Overlay::Settings { draft, selected });
                }
            },
            _ => {},
        }
    }

    fn handle_connection_key(&mut self, form: Box<ConnectionForm>, key: KeyEvent, now: u128)
        requires
            old(self)@.valid(),
            form@.valid(),
            old(self)@.workspace.overlay is None,
        ensures
            final(self)@.valid(),
            final(self)@ == old(self)@.with_overlay(
                OverlayView::Connection(form@),
            ).connection_key(form@, key, now),
    {
        proof {
            reveal(AppView::connection_key);
        }
        if key.code == KeyCode::Esc {
            return;
        }
        let ghost shown = self@.with_overlay(OverlayView::Connection(form@));
        if key.control('s') {
            let result = self.save_connection(&*form, now);
            proof {
                lemma_requests_ignore_dialogs(old(self)@, OverlayView::Connection(form@), form@, now);
            }
            self.open_overlay(Overlay::Connection(form));
            match result {
                Ok(_) => {},
                Err(problem) => self.set_status(problem, true),
            }
            return;
        }
        let mut form = form;
        form.press(key);
        self.open_overlay(Overlay::Connection(form));
    }

    fn handle_save_script_key(&mut self, name: String, cursor: usize, key: KeyEvent)
        requires
            old(self)@.valid(),
            cursor <= name@.len(),
            old(self)@.workspace.overlay == Some(OverlayView::SaveScript { name: name@, cursor }),
        ensures
            final(self)@.valid(),
            final(self)@ == old(self)@.save_script_key(name@, cursor, key),
    {
        proof {
            reveal(AppView::save_script_key);
        }
        if key.code == KeyCode::Esc {
            self.workspace.overlay = None;
            return;
        }
        if key.code == KeyCode::Enter {
            let sql = join(&self.sql.lines(), "\n");
            self.push_effect(Effect::SaveScript { name, sql });
            return;
        }
        let mut name = name;
        let mut cursor = cursor;
        edit_single_line(&mut name, &mut cursor, key);
        self.open_overlay(Overlay::SaveScript { name, cursor });
    }

    fn handle_load_script_key(&mut self, selected: usize, key: KeyEvent)
        requires
            old(self)@.valid(),
            old(self)@.workspace.overlay == Some(OverlayView::LoadScript { selected }),
        ensures
            final(self)@.valid(),
            final(self)@ == old(self)@.load_script_key(selected, key),
    {
        proof {
            reveal(AppView::load_script_key);
        }
        if key.code == KeyCode::Esc {
            self.workspace.overlay = None;
            return;
        }
        let deletes = key.code == KeyCode::Char('d') || key.code == KeyCode::Delete;
        let count: usize = self.scripts.len();
        assert(self@.scripts.len() == count);
        if deletes || key.code == KeyCode::Enter {
            if selected >= count {
                self.workspace.overlay = None;
                self.report("No saved scripts", true);
                return;
            }
            let name = self.scripts[selected].clone();
            assert(self@.scripts[selected as int] == name@);
            if deletes {
                self.open_overlay(Overlay::ConfirmDeleteScript { name, selected });
            } else {
                self.push_effect(Effect::LoadScript { name });
            }
            return;
        }
        let selected = move_in_list(selected, count, key.code);
        self.open_overlay(Overlay::LoadScript { selected });
    }

    fn handle_delete_script_key(&mut self, name: String, selected: usize, key: KeyEvent)
        requires
            old(self)@.valid(),
        ensures
            final(self)@.valid(),
            final(self)@ == old(self)@.delete_script_key(name@, selected, key),
    {
        proof {
            reveal(AppView::delete_script_key);
        }
        if key.code == KeyCode::Char('y') || key.code == KeyCode::Enter {
            self.push_effect(Effect::DeleteScript { name });
        } else if key.code == KeyCode::Char('n') || key.code == KeyCode::Esc {
            self.open_overlay(Overlay::LoadScript { selected });
        }
    }

    fn stage_form(&mut self, form: Box<RowDetail>)
        requires
            old(self)@.valid(),
            old(self)@.workspace.overlay is None,
        ensures
            final(self)@.valid(),
            forall|shown: RowDetailView|
                final(self)@ == (#[trigger] old(self)@.with_overlay(
                    OverlayView::RowDetail(shown),
                )).form_staged(form@),
    {
        let result = self.stage_row(&*form);
        match result {
            Ok(_) => {
                proof {
                    assert forall|shown: RowDetailView|
                        self@ == (#[trigger] old(self)@.with_overlay(
                            OverlayView::RowDetail(shown),
                        )).form_staged(form@) by {
                        lemma_staging_ignores_dialogs(old(self)@, shown, form@);
                    }
                }
            },
            Err(problem) => {
                self.open_overlay(Overlay::RowDetail(form));
                self.set_status(problem, true);
                proof {
                    assert forall|shown: RowDetailView|
                        self@ == (#[trigger] old(self)@.with_overlay(
                            OverlayView::RowDetail(shown),
                        )).form_staged(form@) by {
                        lemma_staging_ignores_dialogs(old(self)@, shown, form@);
                    }
                }
            },
        }
    }

    fn handle_row_key(&mut self, form: Box<RowDetail>, key: KeyEvent) -> (typed: Ghost<EditorView>)
        requires
            old(self)@.valid(),
            old(self)@.workspace.overlay is None,
        ensures
            final(self)@.valid(),
            form@.typing(key, typed@),
            final(self)@ == old(self)@.with_overlay(OverlayView::RowDetail(form@)).row_key(
                form@,
                key,
                typed@,
            ),
    {
        proof {
            reveal(AppView::row_key);
        }
        let ghost mut typed = form@.editor;
        let mut form = form;
        if form.is_new && form.selected_is_editable() && form.selected < form.values.len()
            && form.selected < form.defaults.len() && key.control('d') {
            form.set_default();
            self.open_overlay(Overlay::RowDetail(form));
            return Ghost(typed);
        }
        if form.editing {
            if key.control('s') {
                form.finish_edit();
                self.stage_form(form);
                return Ghost(typed);
            }
            if key.code == KeyCode::Esc {
                form.finish_edit();
            } else if key.control('n') {
                form.toggle_null();
            } else {
                let _ = form.editor.input(key);
                proof {
                    typed = form@.editor;
                }
            }
            self.open_overlay(Overlay::RowDetail(form));
            return Ghost(typed);
        }
        if key.code == KeyCode::Esc {
            return Ghost(typed);
        }
        if key.control('s') {
            self.stage_form(form);
            return Ghost(typed);
        }
        if key.code == KeyCode::Enter && !form.selected_is_editable() {
            let reason = row_read_only_reason(&*form);
            self.open_overlay(Overlay::RowDetail(form));
            self.set_status(reason, true);
            return Ghost(typed);
        }
        browse(&mut *form, key);
        self.open_overlay(Overlay::RowDetail(form));
        Ghost(typed)
    }

    fn handle_question_key(
        &mut self,
        overlay: Overlay,
        key: KeyEvent,
        states: &Vec<((String, String), SessionState)>,
    )
        requires
            old(self)@.valid(),
            old(self)@.workspace.overlay is None,
            overlay@ is ConfirmRefresh || overlay@ is ConfirmSession
                || overlay@ is ConfirmExplorerDisconnect || overlay@ is ConfirmDelete,
        ensures
            final(self)@.valid(),
            final(self)@ == (match overlay@ {
                OverlayView::ConfirmRefresh => old(self)@.with_overlay(overlay@).refresh_key(key),
                OverlayView::ConfirmSession(action) => old(self)@.with_overlay(
                    overlay@,
                ).session_key(action, key),
                OverlayView::ConfirmExplorerDisconnect { targets, .. } => old(self)@.with_overlay(
                    overlay@,
                ).group_key(targets, key, states.deep_view()),
                OverlayView::ConfirmDelete { profile_id, .. } => old(self)@.with_overlay(
                    overlay@,
                ).delete_connection_key(profile_id, key),
                _ => old(self)@,
            }),
    {
        proof {
            reveal(AppView::refresh_key);
            reveal(AppView::session_key);
            reveal(AppView::group_key);
            reveal(AppView::delete_connection_key);
        }
        proof {
            assert(self@.with_overlay(overlay@).without_overlay() == self@);
        }
        if key.code == KeyCode::Char('n') || key.code == KeyCode::Esc {
            return;
        }
        let agreed = key.code == KeyCode::Char('y');
        match overlay {
            Overlay::ConfirmRefresh => {
                if agreed {
                    match self.refresh_results(true) {
                        Ok(_) => {},
                        Err(problem) => self.set_status(problem, true),
                    }
                } else {
                    self.open_overlay(Overlay::ConfirmRefresh);
                }
            },
            Overlay::ConfirmSession(action) => {
                if agreed {
                    self.perform_session_action(action);
                } else {
                    self.open_overlay(Overlay::ConfirmSession(action));
                }
            },
            Overlay::ConfirmExplorerDisconnect { targets, label } => {
                if agreed {
                    self.disconnect_selected(true, Some(targets), states);
                } else {
                    self.open_overlay(Overlay::ConfirmExplorerDisconnect { targets, label });
                }
            },
            Overlay::ConfirmDelete { profile_id, name } => {
                if agreed || key.code == KeyCode::Enter {
                    self.delete_connection(profile_id.as_str());
                } else {
                    self.open_overlay(Overlay::ConfirmDelete { profile_id, name });
                }
            },
            _ => {},
        }
    }

    /// Hands a key to the open dialog.
    pub(crate) fn handle_overlay_key(
        &mut self,
        key: KeyEvent,
        states: &Vec<((String, String), SessionState)>,
        now: u128,
    ) -> (typed: Ghost<EditorView>)
        requires
            old(self)@.valid(),
        ensures
            final(self)@.valid(),
            old(self)@.row_typing(key, typed@),
            final(self)@ == old(self)@.overlay_key(key, states.deep_view(), now, typed@),
    {
        let ghost before = self@;
        let ghost typed = self@.sql;
        let overlay = match self.take_overlay() {
            Some(overlay) => overlay,
            None => {
                return Ghost(typed);
            },
        };
        let ghost dialog = overlay@;
        assert(before == self@.with_overlay(dialog));
        match overlay {
            Overlay::Settings { draft, selected } => {
                self.open_overlay(Overlay::Settings { draft, selected });
                self.handle_settings_key(draft, selected, key);
                Ghost(typed)
            },
            Overlay::Connection(form) => {
                self.handle_connection_key(form, key, now);
                Ghost(typed)
            },
            Overlay::SaveScript { name, cursor } => {
                self.open_overlay(Overlay::SaveScript { name: name.clone(), cursor });
                self.handle_save_script_key(name, cursor, key);
                Ghost(typed)
            },
            Overlay::LoadScript { selected } => {
                self.open_overlay(Overlay::LoadScript { selected });
                self.handle_load_script_key(selected, key);
                Ghost(typed)
            },
            Overlay::ConfirmDeleteScript { name, selected } => {
                self.open_overlay(Overlay::ConfirmDeleteScript { name: name.clone(), selected });
                self.handle_delete_script_key(name, selected, key);
                Ghost(typed)
            },
            Overlay::RowDetail(form) => self.handle_row_key(form, key),
            overlay => {
                self.handle_question_key(overlay, key, states);
                Ghost(typed)
            },
        }
    }
}

proof fn lemma_requests_ignore_dialogs(
    app: AppView,
    overlay: OverlayView,
    form: ConnectionFormView,
    now: u128,
)
    requires
        app.workspace.overlay is None,
    ensures
        app.with_overlay(overlay).connection_requested(form, now) == (match app.connection_requested(
            form,
            now,
        ) {
            Ok(next) => Ok(next.with_overlay(overlay)),
            Err(problem) => Err(problem),
        }),
{
    let shown = app.with_overlay(overlay);
    let id = match form.editing_id {
        Some(id) => id,
        None => crate::app::connections::fresh_id(now),
    };
    assert(shown.workspace.staged() == app.workspace.staged());
    assert(shown.profile_is_busy(id) == app.profile_is_busy(id));
    assert(shown.profile_is_staged(id) == app.profile_is_staged(id));
}

proof fn lemma_staging_ignores_dialogs(app: AppView, shown: RowDetailView, form: RowDetailView)
    requires
        app.workspace.overlay is None,
    ensures
        ({
            let open = app.with_overlay(OverlayView::RowDetail(shown));
            match app.row_staged(form) {
                Ok(next) => open.row_staged(form) is Ok
                    && open.row_staged(form)->Ok_0.without_overlay() == next,
                Err(problem) => open.row_staged(form) == Err::<AppView, Seq<char>>(problem),
            }
        }),
{
    reveal(AppView::row_staged);
    let open = app.with_overlay(OverlayView::RowDetail(shown));
    assert(open.edit_source() == app.edit_source());
    if app.edit_source() is Ok {
        assert(open.stage_problem(form, app.edit_source()->Ok_0) == app.stage_problem(
            form,
            app.edit_source()->Ok_0,
        ));
    }
}

/// Escape closes every dialog but the question about a script, which returns to the picker, and an edited
/// field, which is left first.
pub proof fn escape_closes_dialogs(
    app: AppView,
    key: KeyEvent,
    states: Seq<(TargetView, SessionState)>,
    now: u128,
    typed: EditorView,
)
    requires
        key.code == KeyCode::Esc,
        app.workspace.overlay is Some,
        !(app.workspace.overlay->Some_0 is ConfirmDeleteScript),
        app.workspace.overlay matches Some(OverlayView::RowDetail(form)) ==> !form.editing,
    ensures
        app.overlay_key(key, states, now, typed) == app.without_overlay(),
{
    reveal(AppView::settings_key);
    reveal(AppView::connection_key);
    reveal(AppView::save_script_key);
    reveal(AppView::load_script_key);
    reveal(AppView::delete_script_key);
    reveal(AppView::row_key);
    reveal(AppView::refresh_key);
    reveal(AppView::session_key);
    reveal(AppView::group_key);
    reveal(AppView::delete_connection_key);
}

} // verus!
