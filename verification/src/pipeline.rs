//! The import orchestrator: a state machine that sequences fetching,
//! validating, linking, relocating and rendering. The machine makes every
//! decision of the pipeline but performs no side effect itself: each step
//! hands the caller an [`Action`] to carry out (a clone, a rename, a file
//! read or write, a render), and the caller reports what happened as an
//! [`Event`]. The pipeline is single-writer and synchronous: the
//! surrounding tool must run at most one import at a time per project, as
//! nothing here locks the staging directory or the host manifest.
//!
//! No step is retried and no failure is rolled back: a failed import
//! leaves the fetched tree and any manifest edit in place for manual
//! inspection, and reports the stage that failed.

use vstd::prelude::*;
use vstd::string::StringExecFns;

use crate::editor::check_deps_table_in_config_file;
use crate::editor::add_deps_to_root_cargo_toml;
use crate::editor::remove_project_dep_from_cargo_toml;
use crate::editor::update_project_dep_in_task_cargo_toml;
use crate::editor::spec_add_path_dependency;
use crate::editor::spec_ensure_deps_section;
use crate::editor::spec_remove_self_dependency;
use crate::editor::spec_set_self_dependency;
use crate::errors::ErrorModel;
use crate::errors::ImportError;
use crate::errors::Stage;
use crate::inspect::inspect_manifest;
use crate::inspect::spec_inspect_manifest;
use crate::source::derive_provisional_ident;
use crate::source::provisional_ident;

verus! {

/// Whether the task manifest keeps a link back to the host project, or is
/// made a fully independent package.
#[derive(Clone, Copy, PartialEq, Eq, Structural, Debug)]
pub enum LinkageMode {
    Linked,
    Standalone,
}

/// The configuration of one import: where tasks live, where the host
/// manifest lives, what the host application is called, and the linkage
/// mode for the task manifest.
pub struct ImportConfig {
    pub tasks_root: String,
    pub host_manifest_path: String,
    pub host_app_name: String,
    pub linkage: LinkageMode,
}

pub struct ConfigModel {
    pub tasks_root: Seq<char>,
    pub host_manifest_path: Seq<char>,
    pub host_app_name: Seq<char>,
    pub linkage: LinkageMode,
}

impl View for ImportConfig {
    type V = ConfigModel;

    open spec fn view(&self) -> ConfigModel {
        ConfigModel {
            tasks_root: self.tasks_root@,
            host_manifest_path: self.host_manifest_path@,
            host_app_name: self.host_app_name@,
            linkage: self.linkage,
        }
    }
}

/// The variable bindings handed to the template renderer.
pub struct RenderVars {
    pub name: String,
    pub pkg_name: String,
    pub is_git_task: bool,
}

pub struct RenderVarsModel {
    pub name: Seq<char>,
    pub pkg_name: Seq<char>,
    pub is_git_task: bool,
}

impl View for RenderVars {
    type V = RenderVarsModel;

    open spec fn view(&self) -> RenderVarsModel {
        RenderVarsModel { name: self.name@, pkg_name: self.pkg_name@, is_git_task: self.is_git_task }
    }
}

/// The per-file outcome reported by the template renderer.
#[derive(Clone, Debug)]
pub enum RenderOutcome {
    Created(String),
    Overwritten(String),
    Skipped(String),
    Failed(String, String),
}

pub enum RenderOutcomeModel {
    Created(Seq<char>),
    Overwritten(Seq<char>),
    Skipped(Seq<char>),
    Failed(Seq<char>, Seq<char>),
}

impl View for RenderOutcome {
    type V = RenderOutcomeModel;

    open spec fn view(&self) -> RenderOutcomeModel {
        match self {
            RenderOutcome::Created(p) => RenderOutcomeModel::Created(p@),
            RenderOutcome::Overwritten(p) => RenderOutcomeModel::Overwritten(p@),
            RenderOutcome::Skipped(p) => RenderOutcomeModel::Skipped(p@),
            RenderOutcome::Failed(p, c) => RenderOutcomeModel::Failed(p@, c@),
        }
    }
}

impl DeepView for RenderOutcome {
    type V = RenderOutcomeModel;

    open spec fn deep_view(&self) -> RenderOutcomeModel {
        self.view()
    }
}

/// What the pipeline asks its caller to do next.
pub enum Action {
    /// Report whether a directory exists at `path`.
    CheckPath { path: String },
    /// Create the tasks root if absent and clone `url` into `dest`.
    CloneRepo { url: String, dest: String },
    /// Rename `from` to `to`.
    RenamePath { from: String, to: String },
    /// Read the file at `path`, `None` when it does not exist or cannot be
    /// read.
    ReadFile { path: String },
    /// Write `content` to the file at `path`.
    WriteFile { path: String, content: String },
    /// Run the template renderer with the given variable bindings.
    Render { vars: RenderVars },
}

pub enum ActionModel {
    CheckPath { path: Seq<char> },
    CloneRepo { url: Seq<char>, dest: Seq<char> },
    RenamePath { from: Seq<char>, to: Seq<char> },
    ReadFile { path: Seq<char> },
    WriteFile { path: Seq<char>, content: Seq<char> },
    Render { vars: RenderVarsModel },
}

impl View for Action {
    type V = ActionModel;

    open spec fn view(&self) -> ActionModel {
        match self {
            Action::CheckPath { path } => ActionModel::CheckPath { path: path@ },
            Action::CloneRepo { url, dest } => ActionModel::CloneRepo { url: url@, dest: dest@ },
            Action::RenamePath { from, to } => ActionModel::RenamePath { from: from@, to: to@ },
            Action::ReadFile { path } => ActionModel::ReadFile { path: path@ },
            Action::WriteFile { path, content } => ActionModel::WriteFile {
                path: path@,
                content: content@,
            },
            Action::Render { vars } => ActionModel::Render { vars: vars@ },
        }
    }
}

pub open spec fn action_model(r: Option<Action>) -> Option<ActionModel> {
    match r {
        None => None,
        Some(a) => Some(a@),
    }
}

/// What the caller reports back after carrying out an action. Failure
/// answers carry the underlying cause, so a stage failure can wrap it.
pub enum Event {
    /// Answer to `CheckPath`.
    PathChecked { exists: bool },
    /// Answer to `CloneRepo`: `None` on success, else the cause.
    Cloned { error: Option<String> },
    /// Answer to `RenamePath`: `None` on success, else the cause.
    Renamed { error: Option<String> },
    /// Answer to `ReadFile`: the file's text, or the cause it could not
    /// be read (a missing file included).
    FileRead { result: Result<String, String> },
    /// Answer to `WriteFile`: `None` on success, else the cause.
    Wrote { error: Option<String> },
    /// Answer to `Render`: the per-file outcomes, or the cause when the
    /// renderer failed outright.
    Rendered { result: Result<Vec<RenderOutcome>, String> },
}

pub enum EventModel {
    PathChecked { exists: bool },
    Cloned { error: Option<Seq<char>> },
    Renamed { error: Option<Seq<char>> },
    FileRead { result: Result<Seq<char>, Seq<char>> },
    Wrote { error: Option<Seq<char>> },
    Rendered { result: Result<Seq<RenderOutcomeModel>, Seq<char>> },
}

pub open spec fn opt_text_model(o: Option<String>) -> Option<Seq<char>> {
    match o {
        None => None,
        Some(s) => Some(s@),
    }
}

pub open spec fn text_result_model(r: Result<String, String>) -> Result<Seq<char>, Seq<char>> {
    match r {
        Ok(s) => Ok(s@),
        Err(s) => Err(s@),
    }
}

impl View for Event {
    type V = EventModel;

    open spec fn view(&self) -> EventModel {
        match self {
            Event::PathChecked { exists } => EventModel::PathChecked { exists: *exists },
            Event::Cloned { error } => EventModel::Cloned { error: opt_text_model(*error) },
            Event::Renamed { error } => EventModel::Renamed { error: opt_text_model(*error) },
            Event::FileRead { result } => EventModel::FileRead {
                result: text_result_model(*result),
            },
            Event::Wrote { error } => EventModel::Wrote { error: opt_text_model(*error) },
            Event::Rendered { result } => EventModel::Rendered {
                result: match result {
                    Ok(v) => Ok(v.deep_view()),
                    Err(s) => Err(s@),
                },
            },
        }
    }
}

/// Where the pipeline stands, together with everything it has learned so
/// far. States between `Idle` and `Done`/`Failed` are named after the
/// answer they await.
pub enum PipelineState {
    Idle,
    CheckingProvisional { url: String, ident: String },
    Cloning { ident: String },
    CommittingFetch { ident: String },
    ReadingTaskManifest { ident: String },
    ReadingHostManifest { ident: String, task_name: String, task_doc: String },
    WritingHostManifest { ident: String, task_name: String, task_doc: String },
    WritingTaskManifest { ident: String, task_name: String },
    CheckingCanonical { ident: String, task_name: String },
    MovingToCanonical { ident: String, task_name: String },
    RenderingTemplates { task_name: String },
    Done { outcomes: Vec<RenderOutcome> },
    Failed { stage: Stage, error: ImportError },
}

pub enum StateModel {
    Idle,
    CheckingProvisional { url: Seq<char>, ident: Seq<char> },
    Cloning { ident: Seq<char> },
    CommittingFetch { ident: Seq<char> },
    ReadingTaskManifest { ident: Seq<char> },
    ReadingHostManifest { ident: Seq<char>, task_name: Seq<char>, task_doc: Seq<char> },
    WritingHostManifest { ident: Seq<char>, task_name: Seq<char>, task_doc: Seq<char> },
    WritingTaskManifest { ident: Seq<char>, task_name: Seq<char> },
    CheckingCanonical { ident: Seq<char>, task_name: Seq<char> },
    MovingToCanonical { ident: Seq<char>, task_name: Seq<char> },
    RenderingTemplates { task_name: Seq<char> },
    Done { outcomes: Seq<RenderOutcomeModel> },
    Failed { stage: Stage, error: ErrorModel },
}

impl View for PipelineState {
    type V = StateModel;

    open spec fn view(&self) -> StateModel {
        match self {
            PipelineState::Idle => StateModel::Idle,
            PipelineState::CheckingProvisional { url, ident } => StateModel::CheckingProvisional {
                url: url@,
                ident: ident@,
            },
            PipelineState::Cloning { ident } => StateModel::Cloning { ident: ident@ },
            PipelineState::CommittingFetch { ident } => StateModel::CommittingFetch {
                ident: ident@,
            },
            PipelineState::ReadingTaskManifest { ident } => StateModel::ReadingTaskManifest {
                ident: ident@,
            },
            PipelineState::ReadingHostManifest { ident, task_name, task_doc } => {
                StateModel::ReadingHostManifest {
                    ident: ident@,
                    task_name: task_name@,
                    task_doc: task_doc@,
                }
            },
            PipelineState::WritingHostManifest { ident, task_name, task_doc } => {
                StateModel::WritingHostManifest {
                    ident: ident@,
                    task_name: task_name@,
                    task_doc: task_doc@,
                }
            },
            PipelineState::WritingTaskManifest { ident, task_name } => {
                StateModel::WritingTaskManifest { ident: ident@, task_name: task_name@ }
            },
            PipelineState::CheckingCanonical { ident, task_name } => {
                StateModel::CheckingCanonical { ident: ident@, task_name: task_name@ }
            },
            PipelineState::MovingToCanonical { ident, task_name } => {
                StateModel::MovingToCanonical { ident: ident@, task_name: task_name@ }
            },
            PipelineState::RenderingTemplates { task_name } => StateModel::RenderingTemplates {
                task_name: task_name@,
            },
            PipelineState::Done { outcomes } => StateModel::Done {
                outcomes: outcomes.deep_view(),
            },
            PipelineState::Failed { stage, error } => StateModel::Failed {
                stage: *stage,
                error: error@,
            },
        }
    }
}

/// `root/name`.
pub open spec fn joined_path(root: Seq<char>, name: Seq<char>) -> Seq<char> {
    root + "/"@ + name
}

/// The sibling temporary path a repository is cloned into before the
/// rename that commits the fetch.
pub open spec fn temp_clone_path(root: Seq<char>, ident: Seq<char>) -> Seq<char> {
    joined_path(root, ident) + "-temp"@
}

/// The manifest file inside a task directory.
pub open spec fn manifest_path_in(dir: Seq<char>) -> Seq<char> {
    dir + "/Cargo.toml"@
}

fn joined_path_exec(root: &str, name: &str) -> (r: String)
    ensures
        r@ == joined_path(root@, name@),
{
    let mut r = root.to_owned();
    r.append("/");
    r.append(name);
    r
}

fn temp_clone_path_exec(root: &str, ident: &str) -> (r: String)
    ensures
        r@ == temp_clone_path(root@, ident@),
{
    let mut r = joined_path_exec(root, ident);
    r.append("-temp");
    r
}

fn manifest_path_in_exec(dir: &str) -> (r: String)
    ensures
        r@ == manifest_path_in(dir@),
{
    let mut r = dir.to_owned();
    r.append("/Cargo.toml");
    r
}

/// The host manifest with the task registered as a path dependency: the
/// dependency section is ensured, then the entry for the canonical task
/// name is inserted, pointing at the task's canonical location.
pub open spec fn host_doc_with_task(c: ConfigModel, doc: Seq<char>, name: Seq<char>) -> Seq<char> {
    spec_add_path_dependency(
        spec_ensure_deps_section(doc),
        name,
        joined_path(c.tasks_root, name),
    )
}

/// The task manifest after linking: the dependency section is ensured,
/// then the self-reference entry is set or removed per the linkage mode.
pub open spec fn task_doc_after_linking(c: ConfigModel, doc: Seq<char>) -> Seq<char> {
    let ensured = spec_ensure_deps_section(doc);
    if c.linkage is Linked {
        spec_set_self_dependency(ensured, c.host_app_name)
    } else {
        spec_remove_self_dependency(ensured)
    }
}

/// Which event answers the action a state awaits.
pub open spec fn expects_event(s: StateModel, e: EventModel) -> bool {
    match s {
        StateModel::CheckingProvisional { .. } => e is PathChecked,
        StateModel::Cloning { .. } => e is Cloned,
        StateModel::CommittingFetch { .. } => e is Renamed,
        StateModel::ReadingTaskManifest { .. } => e is FileRead,
        StateModel::ReadingHostManifest { .. } => e is FileRead,
        StateModel::WritingHostManifest { .. } => e is Wrote,
        StateModel::WritingTaskManifest { .. } => e is Wrote,
        StateModel::CheckingCanonical { .. } => e is PathChecked,
        StateModel::MovingToCanonical { .. } => e is Renamed,
        StateModel::RenderingTemplates { .. } => e is Rendered,
        _ => false,
    }
}

/// The state reached and the action requested by one step.
pub struct StepModel {
    pub state: StateModel,
    pub action: Option<ActionModel>,
}

/// What starting an import does: derive the provisional identifier from
/// the source URL, fail with `InvalidSource` when it is empty, otherwise
/// ask whether the provisional path is already occupied.
pub open spec fn begin_model(c: ConfigModel, url: Seq<char>) -> StepModel {
    let ident = provisional_ident(url);
    if ident.len() == 0 {
        StepModel {
            state: StateModel::Failed { stage: Stage::Fetching, error: ErrorModel::InvalidSource },
            action: None,
        }
    } else {
        StepModel {
            state: StateModel::CheckingProvisional { url, ident },
            action: Some(ActionModel::CheckPath { path: joined_path(c.tasks_root, ident) }),
        }
    }
}

/// The transition relation of the pipeline: from a state and the event
/// answering its pending action, to the next state and the next requested
/// action. On a pair that `expects_event` rejects, the state is unchanged
/// and nothing is requested.
pub open spec fn step_model(c: ConfigModel, s: StateModel, e: EventModel) -> StepModel {
    match (s, e) {
        (StateModel::CheckingProvisional { url, ident }, EventModel::PathChecked { exists }) => {
            if exists {
                StepModel {
                    state: StateModel::Failed {
                        stage: Stage::Fetching,
                        error: ErrorModel::DestinationExists(joined_path(c.tasks_root, ident)),
                    },
                    action: None,
                }
            } else {
                StepModel {
                    state: StateModel::Cloning { ident },
                    action: Some(
                        ActionModel::CloneRepo {
                            url,
                            dest: temp_clone_path(c.tasks_root, ident),
                        },
                    ),
                }
            }
        },
        (StateModel::Cloning { ident }, EventModel::Cloned { error }) => {
            match error {
                Some(m) => StepModel {
                    state: StateModel::Failed {
                        stage: Stage::Fetching,
                        error: ErrorModel::CloneFailed(m),
                    },
                    action: None,
                },
                None => StepModel {
                    state: StateModel::CommittingFetch { ident },
                    action: Some(
                        ActionModel::RenamePath {
                            from: temp_clone_path(c.tasks_root, ident),
                            to: joined_path(c.tasks_root, ident),
                        },
                    ),
                },
            }
        },
        (StateModel::CommittingFetch { ident }, EventModel::Renamed { error }) => {
            match error {
                Some(m) => StepModel {
                    state: StateModel::Failed {
                        stage: Stage::Fetching,
                        error: ErrorModel::CloneFailed(m),
                    },
                    action: None,
                },
                None => StepModel {
                    state: StateModel::ReadingTaskManifest { ident },
                    action: Some(
                        ActionModel::ReadFile {
                            path: manifest_path_in(joined_path(c.tasks_root, ident)),
                        },
                    ),
                },
            }
        },
        (StateModel::ReadingTaskManifest { ident }, EventModel::FileRead { result }) => {
            match result {
                Err(cause) => StepModel {
                    state: StateModel::Failed {
                        stage: Stage::Validating,
                        error: ErrorModel::ManifestNotFound(cause),
                    },
                    action: None,
                },
                Ok(doc) => {
                    match spec_inspect_manifest(doc) {
                        Err(err) => StepModel {
                            state: StateModel::Failed { stage: Stage::Validating, error: err },
                            action: None,
                        },
                        Ok(name) => StepModel {
                            state: StateModel::ReadingHostManifest {
                                ident,
                                task_name: name,
                                task_doc: doc,
                            },
                            action: Some(
                                ActionModel::ReadFile { path: c.host_manifest_path },
                            ),
                        },
                    }
                },
            }
        },
        (
            StateModel::ReadingHostManifest { ident, task_name, task_doc },
            EventModel::FileRead { result },
        ) => {
            match result {
                Err(cause) => StepModel {
                    state: StateModel::Failed {
                        stage: Stage::Linking,
                        error: ErrorModel::ManifestWriteFailed(cause),
                    },
                    action: None,
                },
                Ok(host_doc) => StepModel {
                    state: StateModel::WritingHostManifest { ident, task_name, task_doc },
                    action: Some(
                        ActionModel::WriteFile {
                            path: c.host_manifest_path,
                            content: host_doc_with_task(c, host_doc, task_name),
                        },
                    ),
                },
            }
        },
        (
            StateModel::WritingHostManifest { ident, task_name, task_doc },
            EventModel::Wrote { error },
        ) => {
            match error {
                Some(cause) => StepModel {
                    state: StateModel::Failed {
                        stage: Stage::Linking,
                        error: ErrorModel::ManifestWriteFailed(cause),
                    },
                    action: None,
                },
                None => StepModel {
                    state: StateModel::WritingTaskManifest { ident, task_name },
                    action: Some(
                        ActionModel::WriteFile {
                            path: manifest_path_in(joined_path(c.tasks_root, ident)),
                            content: task_doc_after_linking(c, task_doc),
                        },
                    ),
                },
            }
        },
        (StateModel::WritingTaskManifest { ident, task_name }, EventModel::Wrote { error }) => {
            match error {
                Some(cause) => StepModel {
                    state: StateModel::Failed {
                        stage: Stage::Linking,
                        error: ErrorModel::ManifestWriteFailed(cause),
                    },
                    action: None,
                },
                None => {
                    if task_name == ident {
                        // the fetched tree already sits at its canonical
                        // path: nothing to relocate, so render directly
                        StepModel {
                            state: StateModel::RenderingTemplates { task_name },
                            action: Some(
                                ActionModel::Render {
                                    vars: RenderVarsModel {
                                        name: task_name,
                                        pkg_name: c.host_app_name,
                                        is_git_task: true,
                                    },
                                },
                            ),
                        }
                    } else {
                        StepModel {
                            state: StateModel::CheckingCanonical { ident, task_name },
                            action: Some(
                                ActionModel::CheckPath {
                                    path: joined_path(c.tasks_root, task_name),
                                },
                            ),
                        }
                    }
                },
            }
        },
        (
            StateModel::CheckingCanonical { ident, task_name },
            EventModel::PathChecked { exists },
        ) => {
            if exists {
                StepModel {
                    state: StateModel::Failed {
                        stage: Stage::Relocating,
                        error: ErrorModel::RelocationConflict(joined_path(c.tasks_root, task_name)),
                    },
                    action: None,
                }
            } else {
                StepModel {
                    state: StateModel::MovingToCanonical { ident, task_name },
                    action: Some(
                        ActionModel::RenamePath {
                            from: joined_path(c.tasks_root, ident),
                            to: joined_path(c.tasks_root, task_name),
                        },
                    ),
                }
            }
        },
        (StateModel::MovingToCanonical { ident, task_name }, EventModel::Renamed { error }) => {
            match error {
                // a rename refused here means the canonical path became
                // occupied between the check and the rename: the same
                // race the conflict check closes; the cause is kept
                Some(cause) => StepModel {
                    state: StateModel::Failed {
                        stage: Stage::Relocating,
                        error: ErrorModel::RelocationConflict(cause),
                    },
                    action: None,
                },
                None => StepModel {
                    state: StateModel::RenderingTemplates { task_name },
                    action: Some(
                        ActionModel::Render {
                            vars: RenderVarsModel {
                                name: task_name,
                                pkg_name: c.host_app_name,
                                is_git_task: true,
                            },
                        },
                    ),
                },
            }
        },
        (StateModel::RenderingTemplates { task_name }, EventModel::Rendered { result }) => {
            match result {
                Err(cause) => StepModel {
                    state: StateModel::Failed {
                        stage: Stage::Rendering,
                        error: ErrorModel::RenderFailed(cause),
                    },
                    action: None,
                },
                Ok(list) => StepModel {
                    state: StateModel::Done { outcomes: list },
                    action: None,
                },
            }
        },
        _ => StepModel { state: s, action: None },
    }
}

/// Law: no write happens before validation succeeds. While the pipeline
/// is still fetching or validating, no transition requests a file write,
/// so a halt in those stages — in particular `ManifestNotFound` at
/// `Validating` — leaves the host manifest byte-unchanged.
pub proof fn lemma_no_write_before_linking(c: ConfigModel, s: StateModel, e: EventModel)
    requires
        s is CheckingProvisional || s is Cloning || s is CommittingFetch
            || s is ReadingTaskManifest,
    ensures
        !(step_model(c, s, e).action matches Some(ActionModel::WriteFile { .. })),
{
}

/// Law: starting an import requests no write either; the first write can
/// only be requested after the task manifest has been validated.
pub proof fn lemma_begin_requests_no_write(c: ConfigModel, url: Seq<char>)
    ensures
        !(begin_model(c, url).action matches Some(ActionModel::WriteFile { .. })),
{
}

/// Law: a fetched tree whose manifest cannot be read halts the pipeline
/// at the `Validating` stage with `ManifestNotFound`, wrapping the cause,
/// and requests nothing further.
pub proof fn lemma_missing_manifest_halts(c: ConfigModel, ident: Seq<char>, cause: Seq<char>)
    ensures
        step_model(
            c,
            StateModel::ReadingTaskManifest { ident },
            EventModel::FileRead { result: Err(cause) },
        ).state == (StateModel::Failed {
            stage: Stage::Validating,
            error: ErrorModel::ManifestNotFound(cause),
        }),
        step_model(
            c,
            StateModel::ReadingTaskManifest { ident },
            EventModel::FileRead { result: Err(cause) },
        ).action is None,
{
}

/// Law: a directory already occupying the canonical path fails the import
/// at the `Relocating` stage with `RelocationConflict`, naming that path,
/// and the pipeline requests no further action — in particular, the
/// manifest edits made at the `Linking` stage are not reverted.
pub proof fn lemma_relocation_conflict_is_terminal(
    c: ConfigModel,
    ident: Seq<char>,
    task_name: Seq<char>,
)
    ensures
        step_model(
            c,
            StateModel::CheckingCanonical { ident, task_name },
            EventModel::PathChecked { exists: true },
        ).state == (StateModel::Failed {
            stage: Stage::Relocating,
            error: ErrorModel::RelocationConflict(joined_path(c.tasks_root, task_name)),
        }),
        step_model(
            c,
            StateModel::CheckingCanonical { ident, task_name },
            EventModel::PathChecked { exists: true },
        ).action is None,
{
}

/// Law: when the provisional identifier already equals the canonical
/// task name, the fetched tree sits at its canonical path, so the
/// pipeline skips the relocation check and rename and proceeds straight
/// to rendering — such an import is not a conflict.
pub proof fn lemma_same_name_skips_relocation(c: ConfigModel, name: Seq<char>)
    ensures
        step_model(
            c,
            StateModel::WritingTaskManifest { ident: name, task_name: name },
            EventModel::Wrote { error: None },
        ).state == (StateModel::RenderingTemplates { task_name: name }),
        step_model(
            c,
            StateModel::WritingTaskManifest { ident: name, task_name: name },
            EventModel::Wrote { error: None },
        ).action == Some(
            ActionModel::Render {
                vars: RenderVarsModel {
                    name,
                    pkg_name: c.host_app_name,
                    is_git_task: true,
                },
            },
        ),
{
}

/// The provisional identifier a state carries, where it carries one.
pub open spec fn provisional_of(s: StateModel) -> Seq<char> {
    match s {
        StateModel::CheckingProvisional { ident, .. } => ident,
        StateModel::Cloning { ident } => ident,
        StateModel::CommittingFetch { ident } => ident,
        StateModel::ReadingTaskManifest { ident } => ident,
        StateModel::ReadingHostManifest { ident, .. } => ident,
        StateModel::WritingHostManifest { ident, .. } => ident,
        StateModel::WritingTaskManifest { ident, .. } => ident,
        StateModel::CheckingCanonical { ident, .. } => ident,
        StateModel::MovingToCanonical { ident, .. } => ident,
        _ => Seq::empty(),
    }
}

/// Law: the pipeline never touches a populated canonical directory. Every
/// write it requests names the host manifest or the manifest inside the
/// provisional tree; every rename it requests lands on the provisional
/// path (the fetch commit) or on the canonical path only in the very step
/// where the caller has just reported that path free. Together with the
/// conflict transition being terminal, a re-run against a populated
/// canonical directory leaves that directory untouched.
pub proof fn lemma_canonical_dir_untouched(c: ConfigModel, s: StateModel, e: EventModel)
    ensures
        (match step_model(c, s, e).action {
            Some(ActionModel::WriteFile { path, .. }) => path == c.host_manifest_path || path
                == manifest_path_in(joined_path(c.tasks_root, provisional_of(s))),
            _ => true,
        }),
        (match step_model(c, s, e).action {
            Some(ActionModel::RenamePath { to, .. }) => to == joined_path(
                c.tasks_root,
                provisional_of(s),
            ) || (s is CheckingCanonical && e == (EventModel::PathChecked { exists: false })),
            _ => true,
        }),
{
}

/// One import in progress: the configuration and the current state.
pub struct ImportPipeline {
    pub config: ImportConfig,
    pub state: PipelineState,
}

impl ImportPipeline {
    pub fn new(config: ImportConfig) -> (r: ImportPipeline)
        ensures
            r.state@ == StateModel::Idle,
            r.config == config,
    {
        ImportPipeline { config, state: PipelineState::Idle }
    }

    /// Start an import from `url`, exactly as `begin_model` describes.
    pub fn begin_import(&mut self, url: &str) -> (r: Option<Action>)
        requires
            old(self).state@ is Idle,
        ensures
            final(self).config == old(self).config,
            final(self).state@ == begin_model(old(self).config@, url@).state,
            action_model(r) == begin_model(old(self).config@, url@).action,
    {
        match derive_provisional_ident(url) {
            None => {
                self.state = PipelineState::Failed {
                    stage: Stage::Fetching,
                    error: ImportError::InvalidSource,
                };
                None
            },
            Some(ident) => {
                let path = joined_path_exec(self.config.tasks_root.as_str(), ident.as_str());
                self.state = PipelineState::CheckingProvisional { url: url.to_owned(), ident };
                Some(Action::CheckPath { path })
            },
        }
    }

    /// Advance the pipeline by one step: consume the event answering the
    /// pending action, move to the next state, and request the next
    /// action, exactly as `step_model` describes.
    pub fn step(&mut self, event: Event) -> (r: Option<Action>)
        requires
            expects_event(old(self).state@, event@),
        ensures
            final(self).config == old(self).config,
            final(self).state@ == step_model(old(self).config@, old(self).state@, event@).state,
            action_model(r) == step_model(old(self).config@, old(self).state@, event@).action,
    {
        let (next, action): (PipelineState, Option<Action>) = match (&self.state, event) {
            (
                PipelineState::CheckingProvisional { url, ident },
                Event::PathChecked { exists },
            ) => {
                if exists {
                    let path = joined_path_exec(
                        self.config.tasks_root.as_str(),
                        ident.as_str(),
                    );
                    (
                        PipelineState::Failed {
                            stage: Stage::Fetching,
                            error: ImportError::DestinationExists(path),
                        },
                        None,
                    )
                } else {
                    let dest = temp_clone_path_exec(
                        self.config.tasks_root.as_str(),
                        ident.as_str(),
                    );
                    (
                        PipelineState::Cloning { ident: ident.clone() },
                        Some(Action::CloneRepo { url: url.clone(), dest }),
                    )
                }
            },
            (PipelineState::Cloning { ident }, Event::Cloned { error }) => {
                match error {
                    Some(m) => (
                        PipelineState::Failed {
                            stage: Stage::Fetching,
                            error: ImportError::CloneFailed(m),
                        },
                        None,
                    ),
                    None => {
                        let from = temp_clone_path_exec(
                            self.config.tasks_root.as_str(),
                            ident.as_str(),
                        );
                        let to = joined_path_exec(
                            self.config.tasks_root.as_str(),
                            ident.as_str(),
                        );
                        (
                            PipelineState::CommittingFetch { ident: ident.clone() },
                            Some(Action::RenamePath { from, to }),
                        )
                    },
                }
            },
            (PipelineState::CommittingFetch { ident }, Event::Renamed { error }) => {
                match error {
                    Some(m) => (
                        PipelineState::Failed {
                            stage: Stage::Fetching,
                            error: ImportError::CloneFailed(m),
                        },
                        None,
                    ),
                    None => {
                        let dir = joined_path_exec(
                            self.config.tasks_root.as_str(),
                            ident.as_str(),
                        );
                        let path = manifest_path_in_exec(dir.as_str());
                        (
                            PipelineState::ReadingTaskManifest { ident: ident.clone() },
                            Some(Action::ReadFile { path }),
                        )
                    },
                }
            },
            (PipelineState::ReadingTaskManifest { ident }, Event::FileRead { result }) => {
                match result {
                    Err(cause) => (
                        PipelineState::Failed {
                            stage: Stage::Validating,
                            error: ImportError::ManifestNotFound(cause),
                        },
                        None,
                    ),
                    Ok(doc) => {
                        match inspect_manifest(doc.as_str()) {
                            Err(err) => (
                                PipelineState::Failed { stage: Stage::Validating, error: err },
                                None,
                            ),
                            Ok(name) => (
                                PipelineState::ReadingHostManifest {
                                    ident: ident.clone(),
                                    task_name: name,
                                    task_doc: doc,
                                },
                                Some(
                                    Action::ReadFile {
                                        path: self.config.host_manifest_path.clone(),
                                    },
                                ),
                            ),
                        }
                    },
                }
            },
            (
                PipelineState::ReadingHostManifest { ident, task_name, task_doc },
                Event::FileRead { result },
            ) => {
                match result {
                    Err(cause) => (
                        PipelineState::Failed {
                            stage: Stage::Linking,
                            error: ImportError::ManifestWriteFailed(cause),
                        },
                        None,
                    ),
                    Ok(host_doc) => {
                        let ensured = check_deps_table_in_config_file(host_doc);
                        let rel = joined_path_exec(
                            self.config.tasks_root.as_str(),
                            task_name.as_str(),
                        );
                        let new_doc = add_deps_to_root_cargo_toml(
                            ensured,
                            task_name.as_str(),
                            rel.as_str(),
                        );
                        (
                            PipelineState::WritingHostManifest {
                                ident: ident.clone(),
                                task_name: task_name.clone(),
                                task_doc: task_doc.clone(),
                            },
                            Some(
                                Action::WriteFile {
                                    path: self.config.host_manifest_path.clone(),
                                    content: new_doc,
                                },
                            ),
                        )
                    },
                }
            },
            (
                PipelineState::WritingHostManifest { ident, task_name, task_doc },
                Event::Wrote { error },
            ) => {
                match error {
                    Some(cause) => (
                        PipelineState::Failed {
                            stage: Stage::Linking,
                            error: ImportError::ManifestWriteFailed(cause),
                        },
                        None,
                    ),
                    None => {
                        let ensured = check_deps_table_in_config_file(task_doc.clone());
                        let new_doc = match self.config.linkage {
                            LinkageMode::Linked => update_project_dep_in_task_cargo_toml(
                                ensured,
                                self.config.host_app_name.as_str(),
                            ),
                            LinkageMode::Standalone => remove_project_dep_from_cargo_toml(
                                ensured,
                            ),
                        };
                        let dir = joined_path_exec(
                            self.config.tasks_root.as_str(),
                            ident.as_str(),
                        );
                        let path = manifest_path_in_exec(dir.as_str());
                        (
                            PipelineState::WritingTaskManifest {
                                ident: ident.clone(),
                                task_name: task_name.clone(),
                            },
                            Some(Action::WriteFile { path, content: new_doc }),
                        )
                    },
                }
            },
            (PipelineState::WritingTaskManifest { ident, task_name }, Event::Wrote { error }) => {
                match error {
                    Some(cause) => (
                        PipelineState::Failed {
                            stage: Stage::Linking,
                            error: ImportError::ManifestWriteFailed(cause),
                        },
                        None,
                    ),
                    None => {
                        if task_name.eq(ident) {
                            // provisional and canonical name agree: the
                            // tree is already in place, render directly
                            let vars = RenderVars {
                                name: task_name.clone(),
                                pkg_name: self.config.host_app_name.clone(),
                                is_git_task: true,
                            };
                            (
                                PipelineState::RenderingTemplates {
                                    task_name: task_name.clone(),
                                },
                                Some(Action::Render { vars }),
                            )
                        } else {
                            let path = joined_path_exec(
                                self.config.tasks_root.as_str(),
                                task_name.as_str(),
                            );
                            (
                                PipelineState::CheckingCanonical {
                                    ident: ident.clone(),
                                    task_name: task_name.clone(),
                                },
                                Some(Action::CheckPath { path }),
                            )
                        }
                    },
                }
            },
            (
                PipelineState::CheckingCanonical { ident, task_name },
                Event::PathChecked { exists },
            ) => {
                if exists {
                    let path = joined_path_exec(
                        self.config.tasks_root.as_str(),
                        task_name.as_str(),
                    );
                    (
                        PipelineState::Failed {
                            stage: Stage::Relocating,
                            error: ImportError::RelocationConflict(path),
                        },
                        None,
                    )
                } else {
                    let from = joined_path_exec(
                        self.config.tasks_root.as_str(),
                        ident.as_str(),
                    );
                    let to = joined_path_exec(
                        self.config.tasks_root.as_str(),
                        task_name.as_str(),
                    );
                    (
                        PipelineState::MovingToCanonical {
                            ident: ident.clone(),
                            task_name: task_name.clone(),
                        },
                        Some(Action::RenamePath { from, to }),
                    )
                }
            },
            (PipelineState::MovingToCanonical { ident, task_name }, Event::Renamed { error }) => {
                match error {
                    Some(cause) => (
                        PipelineState::Failed {
                            stage: Stage::Relocating,
                            error: ImportError::RelocationConflict(cause),
                        },
                        None,
                    ),
                    None => {
                        let vars = RenderVars {
                            name: task_name.clone(),
                            pkg_name: self.config.host_app_name.clone(),
                            is_git_task: true,
                        };
                        (
                            PipelineState::RenderingTemplates { task_name: task_name.clone() },
                            Some(Action::Render { vars }),
                        )
                    },
                }
            },
            (PipelineState::RenderingTemplates { task_name }, Event::Rendered { result }) => {
                match result {
                    Err(cause) => (
                        PipelineState::Failed {
                            stage: Stage::Rendering,
                            error: ImportError::RenderFailed(cause),
                        },
                        None,
                    ),
                    Ok(list) => (PipelineState::Done { outcomes: list }, None),
                }
            },
            _ => {
                proof {
                    assert(false);
                }
                (PipelineState::Idle, None)
            },
        };
        self.state = next;
        action
    }
}

} // verus!
