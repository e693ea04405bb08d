//! Saved scripts and saved preferences.
use vstd::prelude::*;
use vstd::string::*;

use crate::app::workspace::{Focus, Overlay, OverlayView, WorkspaceView};
use crate::app::{App, AppView};
use crate::editor::{editor_at_start, sql_editor};
use crate::storage::{Script, ScriptView};
use crate::text::{concat, concat3, same_text, split_lines};
use crate::value::Value;

verus! {

/// What came of writing a script.
#[derive(Debug, PartialEq, Eq)]
pub enum ScriptSave {
    /// The script is written; these are all scripts now.
    Saved(Vec<String>),
    /// The script is written, but the scripts could not be listed.
    Unlisted(String),
    Failed(String),
}

/// What a `ScriptSave` denotes.
pub ghost enum ScriptSaveView {
    Saved(Seq<Seq<char>>),
    Unlisted(Seq<char>),
    Failed(Seq<char>),
}

impl DeepView for ScriptSave {
    type V = ScriptSaveView;

    open spec fn deep_view(&self) -> ScriptSaveView {
        match self {
            ScriptSave::Saved(value) => ScriptSaveView::Saved(value.deep_view()),
            ScriptSave::Unlisted(value) => ScriptSaveView::Unlisted(value@),
            ScriptSave::Failed(value) => ScriptSaveView::Failed(value@),
        }
    }
}

impl Clone for ScriptSave {
    fn clone(&self) -> (copy: ScriptSave)
        ensures
            copy@ == self@,
    {
        self.duplicate()
    }
}

impl View for ScriptSave {
    type V = ScriptSaveView;

    open spec fn view(&self) -> ScriptSaveView {
        self.deep_view()
    }
}

impl Value for ScriptSave {
    fn duplicate(&self) -> (copy: ScriptSave) {
        match self {
            ScriptSave::Saved(value) => ScriptSave::Saved(value.duplicate()),
            ScriptSave::Unlisted(value) => ScriptSave::Unlisted(value.duplicate()),
            ScriptSave::Failed(value) => ScriptSave::Failed(value.duplicate()),
        }
    }

    fn same(&self, other: &ScriptSave) -> (same: bool) {
        match (self, other) {
            (ScriptSave::Saved(value_a), ScriptSave::Saved(value_b)) => value_a.same(value_b),
            (ScriptSave::Unlisted(value_a), ScriptSave::Unlisted(value_b)) => value_a.same(value_b),
            (ScriptSave::Failed(value_a), ScriptSave::Failed(value_b)) => value_a.same(value_b),
            _ => false,
        }
    }
}

/// The names without one of them.
pub open spec fn without_name(names: Seq<Seq<char>>, name: Seq<char>) -> Seq<Seq<char>>
    decreases names.len(),
{
    if names.len() == 0 {
        Seq::empty()
    } else if names.last() == name {
        without_name(names.drop_last(), name)
    } else {
        without_name(names.drop_last(), name).push(names.last())
    }
}

impl AppView {
    /// The state behind an attempt to write preferences. Changing visibility changes neither the SQL target
    /// nor hidden sessions.
    pub open spec fn settings_saved(self, result: Result<(), Seq<char>>) -> AppView {
        match self.workspace.overlay {
            Some(OverlayView::Settings { draft, .. }) => match result {
                Ok(_) => AppView { settings: draft, ..self.without_overlay() }.clamped().with_status(
                    "Settings saved"@,
                    false,
                ),
                Err(problem) => self.with_status("Could not save settings: "@ + problem, true),
            },
            _ => self,
        }
    }

    /// The state behind an attempt to write a script.
    pub open spec fn script_saved(self, outcome: ScriptSaveView) -> AppView {
        match self.workspace.overlay {
            Some(OverlayView::SaveScript { name, .. }) => match outcome {
                ScriptSaveView::Saved(scripts) => AppView {
                    scripts,
                    ..self.without_overlay()
                }.with_status("Saved "@ + name + ".sql"@, false),
                ScriptSaveView::Unlisted(problem) => self.without_overlay().with_status(
                    "Saved, but refresh failed: "@ + problem,
                    true,
                ),
                ScriptSaveView::Failed(problem) => self.with_status(
                    "Could not save script: "@ + problem,
                    true,
                ),
            },
            _ => self,
        }
    }

    /// The state behind an attempt to read a script.
    pub open spec fn script_loaded(self, result: Result<ScriptView, Seq<char>>) -> AppView {
        match result {
            Ok(script) => {
                let next = self.without_overlay();
                AppView {
                    sql: editor_at_start(split_lines(script.sql)),
                    workspace: WorkspaceView { focus: Focus::Sql, ..next.workspace },
                    ..next
                }.with_status("Loaded "@ + script.name + ".sql"@, false)
            },
            Err(problem) => self.with_status("Could not load script: "@ + problem, true),
        }
    }

    /// The state behind an attempt to delete a script. The listed name goes only with the file, and the text
    /// in the editor stays.
    pub open spec fn script_deleted(self, result: Result<(), Seq<char>>) -> AppView {
        match self.workspace.overlay {
            Some(OverlayView::ConfirmDeleteScript { name, selected }) => match result {
                Ok(_) => {
                    let scripts = without_name(self.scripts, name);
                    let next = AppView { scripts, ..self.without_overlay() }.with_status(
                        "Deleted "@ + name + ".sql"@,
                        false,
                    );
                    if scripts.len() == 0 {
                        next
                    } else {
                        next.with_overlay(
                            OverlayView::LoadScript {
                                selected: if selected < scripts.len() {
                                    selected
                                } else {
                                    (scripts.len() - 1) as usize
                                },
                            },
                        )
                    }
                },
                Err(problem) => self.with_status("Could not delete script: "@ + problem, true),
            },
            _ => self,
        }
    }

    /// The state with the script picker open.
    pub open spec fn picker_opened(self) -> AppView {
        if self.scripts.len() == 0 {
            self.with_status("No saved scripts"@, true)
        } else {
            self.with_overlay(OverlayView::LoadScript { selected: 0 })
        }
    }
}

/// The text of a failure.
pub open spec fn failure_text(result: Result<(), String>) -> Result<(), Seq<char>> {
    match result {
        Ok(_) => Ok(()),
        Err(problem) => Err(problem@),
    }
}

fn keep_other_names(names: &Vec<String>, name: &str) -> (kept: Vec<String>)
    ensures
        kept.deep_view() == without_name(names.deep_view(), name@),
{
    let ghost all = names.deep_view();
    let mut kept: Vec<String> = Vec::new();
    let mut i: usize = 0;
    assert(kept.deep_view() =~= without_name(all.take(0), name@));
    while i < names.len()
        invariant
            i <= names@.len(),
            all == names.deep_view(),
            kept.deep_view() == without_name(all.take(i as int), name@),
        decreases names@.len() - i,
    {
        proof {
            let next = all.take(i + 1);
            assert(next.drop_last() =~= all.take(i as int));
            assert(next.last() == names@[i as int]@);
        }
        if !same_text(names[i].as_str(), name) {
            let ghost before = kept.deep_view();
            kept.push(names[i].clone());
            assert(kept.deep_view() =~= before.push(all[i as int]));
        }
        i += 1;
    }
    assert(all.take(i as int) =~= all);
    kept
}

impl App {
    /// Takes what came of writing the preferences that the dialog holds.
    pub fn settings_saved(&mut self, result: Result<(), String>)
        requires
            old(self)@.valid(),
        ensures
            final(self)@.valid(),
            final(self)@ == old(self)@.settings_saved(failure_text(result)),
    {
        let draft = match &self.workspace.overlay {
            Some(Overlay::Settings { draft, selected: _ }) => *draft,
            _ => {
                return;
            },
        };
        match result {
            Ok(_) => {
                self.workspace.overlay = None;
                self.settings = draft;
                self.clamp_selection();
                self.report("Settings saved", false);
            },
            Err(problem) => self.set_status(
                concat("Could not save settings: ", problem.as_str()),
                true,
            ),
        }
    }

    /// Takes what came of writing the script that the dialog names.
    pub fn script_saved(&mut self, outcome: ScriptSave)
        requires
            old(self)@.valid(),
        ensures
            final(self)@.valid(),
            final(self)@ == old(self)@.script_saved(outcome@),
    {
        let name = match &self.workspace.overlay {
            Some(Overlay::SaveScript { name, cursor: _ }) => name.clone(),
            _ => {
                return;
            },
        };
        match outcome {
            ScriptSave::Saved(scripts) => {
                self.workspace.overlay = None;
                self.scripts = scripts;
                self.set_status(concat3("Saved ", name.as_str(), ".sql"), false);
            },
            ScriptSave::Unlisted(problem) => {
                self.workspace.overlay = None;
                self.set_status(concat("Saved, but refresh failed: ", problem.as_str()), true);
            },
            ScriptSave::Failed(problem) => self.set_status(
                concat("Could not save script: ", problem.as_str()),
                true,
            ),
        }
    }

    /// Takes what came of reading a script.
    pub fn script_loaded(&mut self, result: Result<Script, String>)
        requires
            old(self)@.valid(),
        ensures
            final(self)@.valid(),
            final(self)@ == old(self)@.script_loaded(
                match result {
                    Ok(script) => Ok(script@),
                    Err(problem) => Err(problem@),
                },
            ),
    {
        match result {
            Ok(script) => {
                self.workspace.overlay = None;
                self.sql = sql_editor(script.sql.as_str());
                self.workspace.focus = Focus::Sql;
                self.set_status(concat3("Loaded ", script.name.as_str(), ".sql"), false);
            },
            Err(problem) => self.set_status(
                concat("Could not load script: ", problem.as_str()),
                true,
            ),
        }
    }

    /// Takes what came of deleting the script that the dialog names.
    pub fn script_deleted(&mut self, result: Result<(), String>)
        requires
            old(self)@.valid(),
        ensures
            final(self)@.valid(),
            final(self)@ == old(self)@.script_deleted(failure_text(result)),
    {
        let (name, selected) = match &self.workspace.overlay {
            Some(Overlay::ConfirmDeleteScript { name, selected }) => (name.clone(), *selected),
            _ => {
                return;
            },
        };
        match result {
            Ok(_) => {
                self.workspace.overlay = None;
                let scripts = keep_other_names(&self.scripts, name.as_str());
                self.scripts = scripts;
                self.set_status(concat3("Deleted ", name.as_str(), ".sql"), false);
                assert(self@.scripts.len() == self.scripts@.len());
                let count: usize = self.scripts.len();
                if count > 0 {
                    self.open_overlay(
                        Overlay::LoadScript {
                            selected: if selected < count {
                                selected
                            } else {
                                count - 1
                            },
                        },
                    );
                }
            },
            Err(problem) => self.set_status(
                concat("Could not delete script: ", problem.as_str()),
                true,
            ),
        }
    }

    /// Opens the script picker.
    pub fn open_script_picker(&mut self)
        ensures
            final(self)@ == old(self)@.picker_opened(),
            old(self)@.valid() ==> final(self)@.valid(),
    {
        assert(self@.scripts.len() == self.scripts@.len());
        if self.scripts.len() == 0 {
            self.report("No saved scripts", true);
            return;
        }
        self.open_overlay(Overlay::LoadScript { selected: 0 });
    }
}

/// A script that was read stands in the editor as it was written.
pub proof fn loaded_scripts_are_unchanged(app: AppView, script: ScriptView)
    ensures
        crate::text::joined(app.script_loaded(Ok(script)).sql.lines, seq!['\n']) == script.sql,
{
    crate::text::lines_round_trip(script.sql);
    crate::text::lemma_split_lines_nonempty(script.sql);
}

/// Deleting a script keeps the text in the editor, and a failed deletion keeps the list and the question.
pub proof fn deleting_scripts_keeps_the_editor(app: AppView, result: Result<(), Seq<char>>)
    ensures
        app.script_deleted(result).sql == app.sql,
        result is Err ==> app.script_deleted(result).scripts == app.scripts
            && app.script_deleted(result).workspace.overlay == app.workspace.overlay,
{
}

/// A failed write of preferences applies none of them, and keeps the draft.
pub proof fn failed_settings_stay_drafts(app: AppView, problem: Seq<char>)
    ensures
        app.settings_saved(Err(problem)).settings == app.settings,
        app.settings_saved(Err(problem)).workspace.overlay == app.workspace.overlay,
{
}

/// Saved preferences change neither the target nor any workspace but for the dialog and the status.
pub proof fn settings_keep_sessions(app: AppView)
    ensures
        app.settings_saved(Ok(())).active_target == app.active_target,
        app.settings_saved(Ok(())).workspaces == app.workspaces,
        app.settings_saved(Ok(())).workspace.session_state == app.workspace.session_state,
        app.settings_saved(Ok(())).workspace.result == app.workspace.result,
{
}

} // verus!
