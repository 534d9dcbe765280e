//! Locate, load, create, and persist a single structured configuration file.
//!
//! The crate resolves a platform-appropriate location for an application's
//! configuration file, classifies what is found there, creates the file from
//! a compiled-in default when it is missing, and keeps a handle bound to the
//! location for later reload and save operations, with an optional
//! backup-before-overwrite step.
//!
//! All decisions are made here over plain values: the caller performs the
//! actual reads, writes and renames, and the text codec turns file text into
//! records and back. Each operation states exactly what it returns for every
//! outcome the caller can hand it.

mod handle;
mod lifecycle;
mod outcomes;
mod paths;
mod record;

pub use handle::{ConfigFile, lemma_save_reload_round_trip};
pub use lifecycle::{SetupStep, WritePrep, create, lemma_create_idempotent, msg_cannot_access,
    msg_cannot_read, msg_cannot_save, msg_created_new, msg_no_path, msg_using_existing,
    prep_follows_policy, setup, setup_found_outcome, setup_reopen, setup_replace_invalid,
    setup_decides, setup_replace_decides, setup_write_failed, steps_agree, write_prep,
    lemma_setup_variants_agree};
pub use outcomes::{ConfigFind, ConfigOpen, ConfigSaveError, IoError, ParseError, ReadParse,
    SerError, find, from_path, lemma_locate_stable, lemma_open_malformed, lemma_open_unreadable,
    open, spec_find_description, spec_from_path, spec_locate, spec_open, spec_open_description};
pub use paths::{ConfigPath, find_path, get_backup, locate_path, spec_backup_name, spec_display,
    lemma_backup_injective};
pub use record::{ConfigData, ConfigRecord};
