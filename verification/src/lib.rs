//! Import of VS Code `.code-profile` exports into named profiles.
//!
//! The library decodes profile files, computes safe folder names, reads and
//! patches VS Code's `storage.json`, and drives the import as a state machine
//! whose outside work (prompts, process launches, file writes) is performed by
//! the caller.

pub mod text;
pub mod folder;
pub mod escape;
pub mod json;
pub mod pattern;
pub mod profile;
pub mod storage;
pub mod import;
pub mod creation;
pub mod install;
pub mod manage;
pub mod prompt;

pub use folder::{make_folder_name, make_safe_basename};
pub use escape::escape_newlines_in_strings;
pub use import::import_profile;
pub use profile::{parse_profile, read_profile_file, ImportError, ParsedProfile};
pub use prompt::default_storage_json;
pub use storage::{patch_icon, profile_registered, resolve_profile_dir};
