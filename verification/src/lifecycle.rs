use vstd::prelude::*;

verus! {

use vstd::string::StringExecFns;
use crate::paths::{ConfigPath, get_backup, spec_backup_name, spec_display};
use crate::record::ConfigData;
use crate::outcomes::{ConfigFind, ConfigOpen, IoError, ReadParse, spec_open, open};
use crate::handle::ConfigFile;

/// The preparation step made before a configuration file is written, decided
/// by the backup-or-parent policy shared by default-file creation and save.
pub enum WritePrep {
    /// Move the file now at the path aside to this backup location. The move
    /// is best effort: a failure to move it is ignored and the write proceeds.
    RenameToBackup(ConfigPath),
    /// Create this directory, with intermediate directories, before writing.
    /// A failure here is fatal to the write.
    CreateParentDir(String),
    /// Write directly; nothing to prepare.
    NoPrep,
}

/// The backup-or-parent policy, exactly one branch per call: a backup is
/// attempted when one was requested and a file already exists at the path
/// (taking priority over parent creation even when the parent directory is
/// also missing); otherwise the parent directory is created when that was
/// requested and it does not exist; otherwise nothing is prepared. A backup
/// request on a path without a file name prepares nothing.
pub open spec fn prep_follows_policy(
    r: WritePrep,
    dir: Seq<char>,
    name: Seq<char>,
    create_backup: bool,
    file_exists: bool,
    create_parent: bool,
    parent_exists: bool,
) -> bool {
    &&& (create_backup && file_exists && name.len() > 0 ==> (r matches WritePrep::RenameToBackup(b)
        && b.dir@ == dir && b.name@ == spec_backup_name(name)))
    &&& (create_backup && file_exists && name.len() == 0 ==> r is NoPrep)
    &&& (!(create_backup && file_exists) && create_parent && !parent_exists ==> (
    r matches WritePrep::CreateParentDir(d) && d@ == dir))
    &&& (!(create_backup && file_exists) && !(create_parent && !parent_exists) ==> r is NoPrep)
}

/// Decide what to prepare before writing a file at `path`. The caller
/// answers, from the filesystem, whether a file already exists at the path
/// (`file_exists`) and whether the path's directory exists (`parent_exists`),
/// and then performs the returned step before writing.
pub fn write_prep(
    path: &ConfigPath,
    create_backup: bool,
    file_exists: bool,
    create_parent: bool,
    parent_exists: bool,
) -> (r: WritePrep)
    ensures
        prep_follows_policy(
            r,
            path.dir@,
            path.name@,
            create_backup,
            file_exists,
            create_parent,
            parent_exists,
        ),
{
    if create_backup && file_exists {
        match get_backup(path) {
            Some(backup) => WritePrep::RenameToBackup(backup),
            None => WritePrep::NoPrep,
        }
    } else if create_parent && !parent_exists {
        WritePrep::CreateParentDir(path.dir.clone())
    } else {
        WritePrep::NoPrep
    }
}

/// Decide the whole work of creating a default configuration file at `path`:
/// the preparation step under the backup-or-parent policy, and the exact text
/// to write — always the record type's default text, whatever the flags say
/// and whatever is on disk, so that repeated creations write identical
/// content. The caller performs the step, then writes the text to the path,
/// creating or truncating the file.
pub fn create<Cfg: ConfigData>(
    path: &ConfigPath,
    create_backup: bool,
    file_exists: bool,
    create_parent: bool,
    parent_exists: bool,
) -> (r: (WritePrep, String))
    ensures
        prep_follows_policy(
            r.0,
            path.dir@,
            path.name@,
            create_backup,
            file_exists,
            create_parent,
            parent_exists,
        ),
        r.1@ == Cfg::spec_default_text(),
{
    let prep = write_prep(path, create_backup, file_exists, create_parent, parent_exists);
    (prep, Cfg::default_text())
}

/// Creating the default file is idempotent in content: any two runs write
/// the same text, since each writes exactly the record type's default text.
pub proof fn lemma_create_idempotent<Cfg: ConfigData>(first: Seq<char>, second: Seq<char>)
    requires
        first == Cfg::spec_default_text(),
        second == Cfg::spec_default_text(),
    ensures
        first == second,
{
}

/// The message reported when no path can be derived for the file.
pub open spec fn msg_no_path() -> Seq<char> {
    "Cannot find path for Config file."@
}

/// The message reported when an existing file was loaded.
pub open spec fn msg_using_existing(dir: Seq<char>, name: Seq<char>) -> Seq<char> {
    "Using existing Config file: "@ + spec_display(dir, name)
}

/// The message reported when a new default file was created and loaded.
pub open spec fn msg_created_new(dir: Seq<char>, name: Seq<char>) -> Seq<char> {
    "Created new Config file: "@ + spec_display(dir, name)
}

/// The message reported when the default file could not be written.
pub open spec fn msg_cannot_save(dir: Seq<char>, name: Seq<char>, cause: Seq<char>) -> Seq<char> {
    "Cannot save "@ + spec_display(dir, name) + " as Config file: "@ + cause
}

/// The message reported when the file could not be opened or read.
pub open spec fn msg_cannot_access(dir: Seq<char>, name: Seq<char>, cause: Seq<char>) -> Seq<
    char,
> {
    "Cannot access "@ + spec_display(dir, name) + " as Config file: "@ + cause
}

/// The message reported when the file's content could not be parsed.
pub open spec fn msg_cannot_read(dir: Seq<char>, name: Seq<char>, cause: Seq<char>) -> Seq<char> {
    "Cannot read "@ + spec_display(dir, name) + " as Config file: "@ + cause
}

/// Compose a failure message: the head, the path, then the cause.
fn compose_failure(head: &str, path: &ConfigPath, cause: &String) -> (r: String)
    ensures
        r@ == head@ + spec_display(path.dir@, path.name@) + " as Config file: "@ + cause@,
{
    let mut s = head.to_owned();
    let shown = path.display();
    s.append(shown.as_str());
    s.append(" as Config file: ");
    s.append(cause.as_str());
    s
}

/// Compose a success message: the head, then the path.
fn compose_success(head: &str, path: &ConfigPath) -> (r: String)
    ensures
        r@ == head@ + spec_display(path.dir@, path.name@),
{
    let mut s = head.to_owned();
    let shown = path.display();
    s.append(shown.as_str());
    s
}

/// What a setup run asks of its caller next.
pub enum SetupStep<Cfg> {
    /// The outcome is decided: either the message and the bound handle, or a
    /// message describing plainly what went wrong.
    Done(Result<(String, ConfigFile<Cfg>), String>),
    /// A default file must be created at this path; afterwards the caller
    /// re-reads it and finishes with `setup_reopen`, or reports a failed
    /// write with `setup_write_failed`.
    CreateNew(ConfigPath),
}

/// What setup decides when a file was found at `path` and its load was
/// classified as `opened`: a valid load binds the record to the path with
/// the existing-file message; anything else is the matching failure message.
pub open spec fn setup_found_outcome<Cfg: ConfigData>(
    out: Result<(String, ConfigFile<Cfg>), String>,
    path: ConfigPath,
    opened: ConfigOpen<Cfg>,
) -> bool {
    match opened {
        ConfigOpen::FileInaccessible(e) => out matches Err(m) && m@ == msg_cannot_access(
            path.dir@,
            path.name@,
            e.detail@,
        ),
        ConfigOpen::FileInvalid(e) => out matches Err(m) && m@ == msg_cannot_read(
            path.dir@,
            path.name@,
            e.detail@,
        ),
        ConfigOpen::FileValid(cfg) => out matches Ok(pair) && pair.0@ == msg_using_existing(
            path.dir@,
            path.name@,
        ) && pair.1.data == cfg && pair.1.path == path,
    }
}

/// How `setup` decides a run from the search result: a found file is always
/// resolved on the spot, a missing file asks for creation, and no path at all
/// is the fixed failure message.
pub open spec fn setup_decides<Cfg: ConfigData>(found: ConfigFind<Cfg>, r: SetupStep<Cfg>) -> bool {
    &&& (found is NoPath ==> (r matches SetupStep::Done(out) && out matches Err(m) && m@
        == msg_no_path()))
    &&& (found matches ConfigFind::DoesNotExist(p) ==> r == SetupStep::<Cfg>::CreateNew(p))
    &&& (found matches ConfigFind::Exists(p, opened) ==> (r matches SetupStep::Done(out)
        && setup_found_outcome(out, p, opened)))
}

/// How `setup_replace_invalid` decides a run: as `setup`, except that a found
/// but invalid file asks for creation instead of being surfaced.
pub open spec fn setup_replace_decides<Cfg: ConfigData>(
    found: ConfigFind<Cfg>,
    r: SetupStep<Cfg>,
) -> bool {
    &&& (found is NoPath ==> (r matches SetupStep::Done(out) && out matches Err(m) && m@
        == msg_no_path()))
    &&& (found matches ConfigFind::DoesNotExist(p) ==> r == SetupStep::<Cfg>::CreateNew(p))
    &&& (found matches ConfigFind::Exists(p, opened) ==> {
        &&& opened is FileInvalid ==> r == SetupStep::<Cfg>::CreateNew(p)
        &&& !(opened is FileInvalid) ==> (r matches SetupStep::Done(out) && setup_found_outcome(
            out,
            p,
            opened,
        ))
    })
}

/// Attempt to automatically handle all aspects of configuration setup, from
/// the result of the search for the file.
///
/// A found, valid file yields the handle at once; a found but inaccessible or
/// invalid file yields a plain description of what went wrong; a missing file
/// asks the caller to create the default file and finish the run; no path at
/// all yields the fixed failure message.
pub fn setup<Cfg: ConfigData>(found: ConfigFind<Cfg>) -> (r: SetupStep<Cfg>)
    ensures
        setup_decides(found, r),
{
    match found {
        ConfigFind::NoPath => SetupStep::Done(
            Err("Cannot find path for Config file.".to_owned()),
        ),
        ConfigFind::DoesNotExist(path) => SetupStep::CreateNew(path),
        ConfigFind::Exists(path, opened) => SetupStep::Done(finish_found(path, opened)),
    }
}

/// Attempt to automatically handle all aspects of configuration setup, from
/// the result of the search for the file.
///
/// If the target file exists but is invalid, it is not reported as an error:
/// the caller is asked to overwrite it with a new default file, exactly as
/// for a missing file. Every other transition is shared with `setup`.
pub fn setup_replace_invalid<Cfg: ConfigData>(found: ConfigFind<Cfg>) -> (r: SetupStep<Cfg>)
    ensures
        setup_replace_decides(found, r),
{
    match found {
        ConfigFind::NoPath => SetupStep::Done(
            Err("Cannot find path for Config file.".to_owned()),
        ),
        ConfigFind::DoesNotExist(path) => SetupStep::CreateNew(path),
        ConfigFind::Exists(path, ConfigOpen::FileInvalid(_)) => SetupStep::CreateNew(path),
        ConfigFind::Exists(path, opened) => SetupStep::Done(finish_found(path, opened)),
    }
}

/// Two setup steps that agree in everything observable: the same request to
/// create a default file, or the same decided outcome, with equal messages,
/// equal records and equal bound paths.
pub open spec fn steps_agree<Cfg: ConfigData>(r1: SetupStep<Cfg>, r2: SetupStep<Cfg>) -> bool {
    match (r1, r2) {
        (SetupStep::CreateNew(p1), SetupStep::CreateNew(p2)) => p1 == p2,
        (SetupStep::Done(Result::Ok(pair1)), SetupStep::Done(Result::Ok(pair2))) => pair1.0@
            == pair2.0@ && pair1.1.data == pair2.1.data && pair1.1.path == pair2.1.path,
        (SetupStep::Done(Result::Err(m1)), SetupStep::Done(Result::Err(m2))) => m1@ == m2@,
        _ => false,
    }
}

/// The two orchestration entry points share every transition but one: on any
/// search result other than a found-but-invalid file, a step decided by
/// `setup` and a step decided by `setup_replace_invalid` agree in everything
/// observable.
pub proof fn lemma_setup_variants_agree<Cfg: ConfigData>(
    found: ConfigFind<Cfg>,
    r1: SetupStep<Cfg>,
    r2: SetupStep<Cfg>,
)
    requires
        setup_decides(found, r1),
        setup_replace_decides(found, r2),
        !(found matches ConfigFind::Exists(_, opened) && opened is FileInvalid),
    ensures
        steps_agree(r1, r2),
{
}

/// Turn a found file's load classification into the final setup outcome.
fn finish_found<Cfg: ConfigData>(path: ConfigPath, opened: ConfigOpen<Cfg>) -> (r: Result<
    (String, ConfigFile<Cfg>),
    String,
>)
    ensures
        setup_found_outcome(r, path, opened),
{
    match opened {
        ConfigOpen::FileInaccessible(e) => Err(
            compose_failure("Cannot access ", &path, &e.detail),
        ),
        ConfigOpen::FileInvalid(e) => Err(compose_failure("Cannot read ", &path, &e.detail)),
        ConfigOpen::FileValid(cfg) => {
            let message = compose_success("Using existing Config file: ", &path);
            Ok((message, cfg.with_path(path)))
        },
    }
}

/// The message a setup run reports when writing the default file failed.
pub fn setup_write_failed(path: &ConfigPath, cause: &IoError) -> (r: String)
    ensures
        r@ == msg_cannot_save(path.dir@, path.name@, cause.detail@),
{
    compose_failure("Cannot save ", path, &cause.detail)
}

/// Finish a setup run after the default file was written: classify the
/// caller's re-read of the path. A valid load binds the newly parsed record
/// to the path with the created-new message; a failure to read back or parse
/// what was just written is reported like any other access or parse failure.
pub fn setup_reopen<Cfg: ConfigData>(path: ConfigPath, outcome: ReadParse<Cfg>) -> (r: Result<
    (String, ConfigFile<Cfg>),
    String,
>)
    ensures
        match spec_open(outcome) {
            ConfigOpen::FileInaccessible(e) => r matches Err(m) && m@ == msg_cannot_access(
                path.dir@,
                path.name@,
                e.detail@,
            ),
            ConfigOpen::FileInvalid(e) => r matches Err(m) && m@ == msg_cannot_read(
                path.dir@,
                path.name@,
                e.detail@,
            ),
            ConfigOpen::FileValid(cfg) => r matches Ok(pair) && pair.0@ == msg_created_new(
                path.dir@,
                path.name@,
            ) && pair.1.data == cfg && pair.1.path == path,
        },
{
    match open(outcome) {
        ConfigOpen::FileInaccessible(e) => Err(
            compose_failure("Cannot access ", &path, &e.detail),
        ),
        ConfigOpen::FileInvalid(e) => Err(compose_failure("Cannot read ", &path, &e.detail)),
        ConfigOpen::FileValid(cfg) => {
            let message = compose_success("Created new Config file: ", &path);
            Ok((message, cfg.with_path(path)))
        },
    }
}

impl<Cfg: ConfigData> ConfigFile<Cfg> {
    /// The preparation step a save makes before writing the configuration
    /// into a new file at the associated path: the same backup-or-parent
    /// policy as default-file creation. The caller performs the step, encodes
    /// the stored record with its codec, and writes the text to the path; a
    /// codec failure becomes `SerializeFailure` and a write or directory
    /// failure becomes `FileInaccessible`, through the conversions on
    /// `ConfigSaveError`.
    pub fn save_prep(
        &self,
        create_backup: bool,
        file_exists: bool,
        create_parent: bool,
        parent_exists: bool,
    ) -> (r: WritePrep)
        ensures
            prep_follows_policy(
                r,
                self.path.dir@,
                self.path.name@,
                create_backup,
                file_exists,
                create_parent,
                parent_exists,
            ),
    {
        write_prep(&self.path, create_backup, file_exists, create_parent, parent_exists)
    }
}

} // verus!
