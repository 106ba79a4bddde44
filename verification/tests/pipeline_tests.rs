use std::collections::HashMap;
use std::collections::HashSet;

use loco_gen::Action;
use loco_gen::Event;
use loco_gen::ImportConfig;
use loco_gen::ImportError;
use loco_gen::ImportPipeline;
use loco_gen::LinkageMode;
use loco_gen::PipelineState;
use loco_gen::RenderOutcome;
use loco_gen::Stage;

/// A simulated host: an in-memory directory set and file map that carries
/// out the actions the pipeline requests.
struct SimHost {
    dirs: HashSet<String>,
    files: HashMap<String, String>,
    /// The manifest the cloned repository carries, `None` for a
    /// repository without one.
    repo_manifest: Option<String>,
    clone_fails: bool,
    write_fails: bool,
    render_fails: bool,
}

impl SimHost {
    fn new(host_manifest: &str, repo_manifest: Option<&str>) -> SimHost {
        let mut files = HashMap::new();
        files.insert("Cargo.toml".to_string(), host_manifest.to_string());
        SimHost {
            dirs: HashSet::new(),
            files,
            repo_manifest: repo_manifest.map(|s| s.to_string()),
            clone_fails: false,
            write_fails: false,
            render_fails: false,
        }
    }

    fn rename(&mut self, from: &str, to: &str) {
        self.dirs.remove(from);
        self.dirs.insert(to.to_string());
        let prefix = format!("{}/", from);
        let moved: Vec<(String, String)> = self
            .files
            .iter()
            .filter(|(k, _)| k.starts_with(&prefix))
            .map(|(k, v)| (k.clone(), v.clone()))
            .collect();
        for (k, v) in moved {
            self.files.remove(&k);
            let new_key = format!("{}/{}", to, &k[prefix.len()..]);
            self.files.insert(new_key, v);
        }
    }

    fn perform(&mut self, action: &Action) -> Event {
        match action {
            Action::CheckPath { path } => Event::PathChecked { exists: self.dirs.contains(path) },
            Action::CloneRepo { url: _, dest } => {
                if self.clone_fails {
                    Event::Cloned { error: Some("no route to host".to_string()) }
                } else {
                    self.dirs.insert(dest.clone());
                    if let Some(manifest) = &self.repo_manifest {
                        self.files.insert(format!("{}/Cargo.toml", dest), manifest.clone());
                    }
                    self.files.insert(format!("{}/src/lib.rs", dest), "// task".to_string());
                    Event::Cloned { error: None }
                }
            }
            Action::RenamePath { from, to } => {
                if self.dirs.contains(to) {
                    Event::Renamed { error: Some("destination occupied".to_string()) }
                } else {
                    self.rename(from, to);
                    Event::Renamed { error: None }
                }
            }
            Action::ReadFile { path } => Event::FileRead {
                result: match self.files.get(path) {
                    Some(content) => Ok(content.clone()),
                    None => Err(format!("cannot read {}", path)),
                },
            },
            Action::WriteFile { path, content } => {
                if self.write_fails {
                    Event::Wrote { error: Some("disk full".to_string()) }
                } else {
                    self.files.insert(path.clone(), content.clone());
                    Event::Wrote { error: None }
                }
            }
            Action::Render { vars } => {
                if self.render_fails {
                    Event::Rendered { result: Err("renderer crashed".to_string()) }
                } else {
                    let rendered = format!("./src/tasks/{}/task.rs", vars.name);
                    self.files.insert(rendered.clone(), "// rendered".to_string());
                    Event::Rendered { result: Ok(vec![RenderOutcome::Created(rendered)]) }
                }
            }
        }
    }
}

fn config() -> ImportConfig {
    ImportConfig {
        tasks_root: "./src/tasks".to_string(),
        host_manifest_path: "Cargo.toml".to_string(),
        host_app_name: "test_app".to_string(),
        linkage: LinkageMode::Linked,
    }
}

fn run_import(host: &mut SimHost, cfg: ImportConfig, url: &str) -> ImportPipeline {
    let mut pipeline = ImportPipeline::new(cfg);
    let mut action = pipeline.begin_import(url);
    let mut steps = 0;
    while let Some(a) = action {
        let event = host.perform(&a);
        action = pipeline.step(event);
        steps += 1;
        assert!(steps < 50, "pipeline did not terminate");
    }
    pipeline
}

const HOST_MANIFEST: &str = "[package]\nname = \"test_app\"\nversion = \"0.1.0\"\n";
const WIDGETS_MANIFEST: &str = "[package]\nname = \"widgets\"\nversion = \"0.1.0\"\n";

#[test]
fn end_to_end_import_registers_and_relocates_task() {
    let mut host = SimHost::new(HOST_MANIFEST, Some(WIDGETS_MANIFEST));
    let pipeline = run_import(&mut host, config(), "https://example.com/widgets-repo.git");

    match &pipeline.state {
        PipelineState::Done { outcomes } => assert_eq!(outcomes.len(), 1),
        other => panic!("expected Done, got {:?}", state_name(other)),
    }
    // the host manifest holds a dependency entry keyed by the canonical name
    let host_manifest = host.files.get("Cargo.toml").unwrap();
    assert!(host_manifest.contains("widgets = { path = \"./src/tasks/widgets\" }"));
    // the tree sits at the canonical path, holding the rendered file
    assert!(host.dirs.contains("./src/tasks/widgets"));
    assert!(host.files.contains_key("./src/tasks/widgets/src/lib.rs"));
    assert!(host.files.contains_key("./src/tasks/widgets/task.rs"));
    // no leftovers at the provisional or temporary paths
    assert!(!host.dirs.contains("./src/tasks/widgets-repo"));
    assert!(!host.dirs.contains("./src/tasks/widgets-repo-temp"));
    // the task manifest links back to the host project
    let task_manifest = host.files.get("./src/tasks/widgets/Cargo.toml").unwrap();
    assert!(task_manifest
        .contains("pkg_root = { package = \"test_app\", path = \"../../../\" }"));
}

#[test]
fn repository_named_after_its_package_imports_without_relocation() {
    // provisional identifier and canonical name agree: the tree is
    // already in place, and the import must succeed without a rename
    let mut host = SimHost::new(HOST_MANIFEST, Some(WIDGETS_MANIFEST));
    let pipeline = run_import(&mut host, config(), "https://example.com/widgets.git");

    match &pipeline.state {
        PipelineState::Done { outcomes } => assert_eq!(outcomes.len(), 1),
        other => panic!("expected Done, got {:?}", state_name(other)),
    }
    assert!(host.dirs.contains("./src/tasks/widgets"));
    assert!(host.files.contains_key("./src/tasks/widgets/src/lib.rs"));
    assert!(host.files.contains_key("./src/tasks/widgets/task.rs"));
    let host_manifest = host.files.get("Cargo.toml").unwrap();
    assert!(host_manifest.contains("widgets = { path = \"./src/tasks/widgets\" }"));
}

#[test]
fn rerunning_same_name_import_fails_with_destination_exists() {
    let mut host = SimHost::new(HOST_MANIFEST, Some(WIDGETS_MANIFEST));
    let url = "https://example.com/widgets.git";
    let first = run_import(&mut host, config(), url);
    assert!(matches!(first.state, PipelineState::Done { .. }));

    // the canonical directory now occupies the provisional path too
    let second = run_import(&mut host, config(), url);
    match &second.state {
        PipelineState::Failed {
            stage: Stage::Fetching,
            error: ImportError::DestinationExists(path),
        } => assert_eq!(path, "./src/tasks/widgets"),
        other => panic!("expected DestinationExists, got {:?}", state_name(other)),
    }
}

#[test]
fn write_failure_halts_at_linking_with_its_cause() {
    let mut host = SimHost::new(HOST_MANIFEST, Some(WIDGETS_MANIFEST));
    host.write_fails = true;
    let pipeline = run_import(&mut host, config(), "https://example.com/widgets-repo.git");
    match &pipeline.state {
        PipelineState::Failed {
            stage: Stage::Linking,
            error: ImportError::ManifestWriteFailed(cause),
        } => assert_eq!(cause, "disk full"),
        other => panic!("expected ManifestWriteFailed, got {:?}", state_name(other)),
    }
}

#[test]
fn standalone_linkage_strips_self_reference() {
    let repo_manifest =
        "[package]\nname = \"widgets\"\n\n[dependencies]\npkg_root = { package = \"other\", path = \"../../../\" }\n";
    let mut host = SimHost::new(HOST_MANIFEST, Some(repo_manifest));
    let mut cfg = config();
    cfg.linkage = LinkageMode::Standalone;
    let pipeline = run_import(&mut host, cfg, "https://example.com/widgets-repo.git");

    assert!(matches!(pipeline.state, PipelineState::Done { .. }));
    let task_manifest = host.files.get("./src/tasks/widgets/Cargo.toml").unwrap();
    assert!(!task_manifest.contains("pkg_root"));
    assert!(task_manifest.contains("[dependencies]"));
}

#[test]
fn rerunning_import_fails_with_relocation_conflict_and_keeps_canonical_dir() {
    let mut host = SimHost::new(HOST_MANIFEST, Some(WIDGETS_MANIFEST));
    let url = "https://example.com/widgets-repo.git";
    let first = run_import(&mut host, config(), url);
    assert!(matches!(first.state, PipelineState::Done { .. }));
    let canonical_manifest_before =
        host.files.get("./src/tasks/widgets/Cargo.toml").unwrap().clone();

    let second = run_import(&mut host, config(), url);
    match &second.state {
        PipelineState::Failed {
            stage: Stage::Relocating,
            error: ImportError::RelocationConflict(path),
        } => assert_eq!(path, "./src/tasks/widgets"),
        other => panic!("expected RelocationConflict, got {:?}", state_name(other)),
    }
    // the populated canonical directory is untouched
    assert!(host.dirs.contains("./src/tasks/widgets"));
    assert_eq!(
        host.files.get("./src/tasks/widgets/Cargo.toml").unwrap(),
        &canonical_manifest_before
    );
}

#[test]
fn occupied_provisional_path_fails_with_destination_exists() {
    let mut host = SimHost::new(HOST_MANIFEST, Some(WIDGETS_MANIFEST));
    host.dirs.insert("./src/tasks/widgets-repo".to_string());
    let pipeline = run_import(&mut host, config(), "https://example.com/widgets-repo.git");
    match &pipeline.state {
        PipelineState::Failed {
            stage: Stage::Fetching,
            error: ImportError::DestinationExists(path),
        } => assert_eq!(path, "./src/tasks/widgets-repo"),
        other => panic!("expected DestinationExists, got {:?}", state_name(other)),
    }
}

#[test]
fn missing_manifest_halts_at_validating_and_leaves_host_manifest_unchanged() {
    let mut host = SimHost::new(HOST_MANIFEST, None);
    let pipeline = run_import(&mut host, config(), "https://example.com/widgets-repo.git");
    match &pipeline.state {
        PipelineState::Failed {
            stage: Stage::Validating,
            error: ImportError::ManifestNotFound(cause),
        } => assert_eq!(cause, "cannot read ./src/tasks/widgets-repo/Cargo.toml"),
        other => panic!("expected ManifestNotFound, got {:?}", state_name(other)),
    }
    assert_eq!(host.files.get("Cargo.toml").unwrap(), HOST_MANIFEST);
}

#[test]
fn unparsable_manifest_halts_at_validating() {
    let mut host = SimHost::new(HOST_MANIFEST, Some("[package\nname ="));
    let pipeline = run_import(&mut host, config(), "https://example.com/widgets-repo.git");
    match &pipeline.state {
        PipelineState::Failed { stage: Stage::Validating, error: ImportError::ManifestParseError } => {}
        other => panic!("expected ManifestParseError, got {:?}", state_name(other)),
    }
    assert_eq!(host.files.get("Cargo.toml").unwrap(), HOST_MANIFEST);
}

#[test]
fn manifest_without_name_halts_at_validating() {
    let mut host = SimHost::new(HOST_MANIFEST, Some("[package]\nversion = \"0.1.0\"\n"));
    let pipeline = run_import(&mut host, config(), "https://example.com/widgets-repo.git");
    assert!(matches!(
        pipeline.state,
        PipelineState::Failed { stage: Stage::Validating, error: ImportError::MissingTaskName }
    ));
}

#[test]
fn non_string_name_halts_at_validating() {
    let mut host = SimHost::new(HOST_MANIFEST, Some("[package]\nname = 3\n"));
    let pipeline = run_import(&mut host, config(), "https://example.com/widgets-repo.git");
    assert!(matches!(
        pipeline.state,
        PipelineState::Failed { stage: Stage::Validating, error: ImportError::InvalidTaskName }
    ));
}

#[test]
fn clone_failure_carries_its_cause() {
    let mut host = SimHost::new(HOST_MANIFEST, Some(WIDGETS_MANIFEST));
    host.clone_fails = true;
    let pipeline = run_import(&mut host, config(), "https://example.com/widgets-repo.git");
    match &pipeline.state {
        PipelineState::Failed { stage: Stage::Fetching, error: ImportError::CloneFailed(m) } => {
            assert_eq!(m, "no route to host");
        }
        other => panic!("expected CloneFailed, got {:?}", state_name(other)),
    }
}

#[test]
fn render_failure_halts_at_rendering() {
    let mut host = SimHost::new(HOST_MANIFEST, Some(WIDGETS_MANIFEST));
    host.render_fails = true;
    let pipeline = run_import(&mut host, config(), "https://example.com/widgets-repo.git");
    match &pipeline.state {
        PipelineState::Failed { stage: Stage::Rendering, error: ImportError::RenderFailed(cause) } => {
            assert_eq!(cause, "renderer crashed");
        }
        other => panic!("expected RenderFailed, got {:?}", state_name(other)),
    }
    // the relocation has happened by then; the failure is reported, not
    // rolled back
    assert!(host.dirs.contains("./src/tasks/widgets"));
}

#[test]
fn url_without_segment_fails_with_invalid_source() {
    let mut host = SimHost::new(HOST_MANIFEST, Some(WIDGETS_MANIFEST));
    let pipeline = run_import(&mut host, config(), "https://example.com/");
    assert!(matches!(
        pipeline.state,
        PipelineState::Failed { stage: Stage::Fetching, error: ImportError::InvalidSource }
    ));
    assert_eq!(host.files.get("Cargo.toml").unwrap(), HOST_MANIFEST);
}

#[test]
fn render_variables_name_task_and_host() {
    let mut host = SimHost::new(HOST_MANIFEST, Some(WIDGETS_MANIFEST));
    let mut pipeline = ImportPipeline::new(config());
    let mut action = pipeline.begin_import("https://example.com/widgets-repo.git");
    let mut seen_render = false;
    let mut steps = 0;
    while let Some(a) = action {
        if let Action::Render { vars } = &a {
            assert_eq!(vars.name, "widgets");
            assert_eq!(vars.pkg_name, "test_app");
            assert!(vars.is_git_task);
            seen_render = true;
        }
        let event = host.perform(&a);
        action = pipeline.step(event);
        steps += 1;
        assert!(steps < 50);
    }
    assert!(seen_render);
}

fn state_name(state: &PipelineState) -> String {
    match state {
        PipelineState::Idle => "Idle".to_string(),
        PipelineState::CheckingProvisional { .. } => "CheckingProvisional".to_string(),
        PipelineState::Cloning { .. } => "Cloning".to_string(),
        PipelineState::CommittingFetch { .. } => "CommittingFetch".to_string(),
        PipelineState::ReadingTaskManifest { .. } => "ReadingTaskManifest".to_string(),
        PipelineState::ReadingHostManifest { .. } => "ReadingHostManifest".to_string(),
        PipelineState::WritingHostManifest { .. } => "WritingHostManifest".to_string(),
        PipelineState::WritingTaskManifest { .. } => "WritingTaskManifest".to_string(),
        PipelineState::CheckingCanonical { .. } => "CheckingCanonical".to_string(),
        PipelineState::MovingToCanonical { .. } => "MovingToCanonical".to_string(),
        PipelineState::RenderingTemplates { .. } => "RenderingTemplates".to_string(),
        PipelineState::Done { .. } => "Done".to_string(),
        PipelineState::Failed { stage, error } => format!("Failed({:?}, {:?})", stage, error),
    }
}
