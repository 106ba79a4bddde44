//! Importing a remote code template (a "task") into a host project.
//!
//! The import runs as a pipeline: fetch the repository, validate its
//! manifest, link the task and host manifests to each other, relocate the
//! fetched tree under its canonical name, and render the template files.
//! The text transformations on the two manifests and the decisions of the
//! pipeline are verified; the filesystem, network and rendering work is
//! performed by the caller, one requested action at a time.

pub mod editor;
pub mod errors;
pub mod inspect;
pub mod pipeline;
pub mod source;
pub mod text;

pub use editor::add_deps_to_root_cargo_toml;
pub use editor::check_deps_table_in_config_file;
pub use editor::remove_project_dep_from_cargo_toml;
pub use editor::update_project_dep_in_task_cargo_toml;
pub use errors::ImportError;
pub use errors::Stage;
pub use inspect::inspect_manifest;
pub use pipeline::Action;
pub use pipeline::Event;
pub use pipeline::ImportConfig;
pub use pipeline::ImportPipeline;
pub use pipeline::LinkageMode;
pub use pipeline::PipelineState;
pub use pipeline::RenderOutcome;
pub use pipeline::RenderVars;
pub use source::derive_provisional_ident;
