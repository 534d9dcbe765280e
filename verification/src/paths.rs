use vstd::prelude::*;

verus! {

use vstd::string::StringExecFns;

/// A configuration file location: the directory that should hold the file and
/// the file's own name, joined with `/` when rendered as text.
#[derive(Clone)]
pub struct ConfigPath {
    /// The directory meant to contain the configuration file.
    pub dir: String,
    /// The name of the configuration file itself.
    pub name: String,
}

/// The name a backup file carries: the original name behind a fixed marker.
pub open spec fn spec_backup_name(name: Seq<char>) -> Seq<char> {
    ".bkp."@ + name
}

/// The text form of a location: directory and file name joined by `/`.
pub open spec fn spec_display(dir: Seq<char>, name: Seq<char>) -> Seq<char> {
    dir + "/"@ + name
}

impl ConfigPath {
    /// A fresh location equal to this one.
    pub fn duplicate(&self) -> (r: ConfigPath)
        ensures
            r == *self,
    {
        ConfigPath { dir: self.dir.clone(), name: self.name.clone() }
    }

    /// The location as one piece of text, for messages shown to the user.
    pub fn display(&self) -> (r: String)
        ensures
            r@ == spec_display(self.dir@, self.name@),
    {
        let mut s = self.dir.as_str().to_owned();
        s.append("/");
        s.append(self.name.as_str());
        s
    }
}

/// Relies on `directories::ProjectDirs::from` and `config_dir`: the platform's
/// per-project configuration directory, or `None` when no base directory can
/// be determined (no home directory). The result depends on the machine's
/// environment, so nothing is assumed of it.
#[verifier::external_body]
fn resolve_config_dir(qualifier: &str, organization: &str, application: &str) -> Option<String> {
    let dirs = directories::ProjectDirs::from(qualifier, organization, application)?;
    Some(dirs.config_dir().to_string_lossy().into_owned())
}

/// Join a resolved base directory with the configuration file's name. This is
/// the whole of what path resolution adds to the platform's answer: there is
/// a location exactly when a base directory was resolved, and the location is
/// exactly that directory holding `filename`.
pub fn locate_path(resolved: Option<String>, filename: &str) -> (r: Option<ConfigPath>)
    ensures
        r is Some <==> resolved is Some,
        resolved matches Some(d) ==> (r matches Some(p) && p.dir@ == d@ && p.name@ == filename@),
{
    match resolved {
        None => None,
        Some(dir) => Some(ConfigPath { dir, name: filename.to_owned() }),
    }
}

/// Locate the path for the configuration file: the platform's configuration
/// directory for the application, with `filename` as the file's name.
///
/// `None` only when the platform convention yields no base directory; no
/// filesystem access happens here and no existence check is made. The base
/// directory depends on the machine's environment, so only the file-name half
/// of the location can be promised here; `locate_path`, which this function
/// calls on the resolver's answer, fixes the rest against that answer.
pub fn find_path(
    qualifier: &str,
    organization: &str,
    application: &str,
    filename: &str,
) -> (r: Option<ConfigPath>)
    ensures
        r matches Some(p) ==> p.name@ == filename@,
{
    locate_path(resolve_config_dir(qualifier, organization, application), filename)
}

/// Given a path, return a new path where a file at the first path may be
/// moved to be kept as a backup: the same directory, the name behind the
/// backup marker. `None` only when the path has no file name.
pub fn get_backup(path: &ConfigPath) -> (r: Option<ConfigPath>)
    ensures
        path.name@.len() == 0 ==> r is None,
        path.name@.len() > 0 ==> (r matches Some(b)
            && b.dir@ == path.dir@
            && b.name@ == spec_backup_name(path.name@)),
{
    if path.name.as_str().is_empty() {
        None
    } else {
        let mut backup_name = ".bkp.".to_owned();
        backup_name.append(path.name.as_str());
        Some(ConfigPath { dir: path.dir.clone(), name: backup_name })
    }
}

proof fn lemma_append_left_cancel(p: Seq<char>, a: Seq<char>, b: Seq<char>)
    requires
        p + a == p + b,
    ensures
        a == b,
{
    assert(a.len() == b.len()) by {
        assert((p + a).len() == p.len() + a.len());
        assert((p + b).len() == p.len() + b.len());
    }
    assert forall|i: int| 0 <= i < a.len() implies a[i] == b[i] by {
        assert((p + a)[p.len() + i] == a[i]);
        assert((p + b)[p.len() + i] == b[i]);
    }
    assert(a =~= b);
}

/// Backup naming is deterministic and injective: distinct file names give
/// distinct backup names, so two files sharing a parent directory never
/// contend for the same backup location.
pub proof fn lemma_backup_injective(a: Seq<char>, b: Seq<char>)
    requires
        a != b,
    ensures
        spec_backup_name(a) != spec_backup_name(b),
{
    if spec_backup_name(a) == spec_backup_name(b) {
        lemma_append_left_cancel(".bkp."@, a, b);
    }
}

} // verus!
