use vstd::prelude::*;

verus! {

use vstd::string::StringExecFns;
use crate::paths::{ConfigPath, spec_display};
use crate::record::ConfigData;

/// An I/O failure, rendered as text by the caller that performed the I/O.
pub struct IoError {
    /// What the operating system reported.
    pub detail: String,
}

/// A codec failure on reading: the text did not parse as a configuration.
pub struct ParseError {
    /// What the codec reported.
    pub detail: String,
}

/// A codec failure on writing: the record could not be encoded as text.
pub struct SerError {
    /// What the codec reported.
    pub detail: String,
}

/// The result of one attempt to read and parse a file, as the caller hands it
/// in: the raw read first (the file's text, or the I/O failure), then the
/// codec's verdict on the text that was read.
pub type ReadParse<Cfg> = Result<Result<Cfg, ParseError>, IoError>;

/// The result of attempting to load a configuration from a filepath.
pub enum ConfigOpen<Cfg> {
    /// The file could not be opened or read.
    FileInaccessible(IoError),
    /// The file could not be parsed.
    FileInvalid(ParseError),
    /// The file load was successful.
    FileValid(Cfg),
}

/// The result of trying to find a configuration file.
pub enum ConfigFind<Cfg> {
    /// The file does not exist.
    DoesNotExist(ConfigPath),
    /// The file does exist; also includes the result of attempting to load it.
    Exists(ConfigPath, ConfigOpen<Cfg>),
    /// No path was found at which to search for a file.
    NoPath,
}

/// An error returned when attempting to save a configuration into a file.
pub enum ConfigSaveError {
    /// The file could not be opened or written.
    FileInaccessible(IoError),
    /// The data could not be converted.
    SerializeFailure(SerError),
}

impl From<IoError> for ConfigSaveError {
    fn from(e: IoError) -> (r: Self) {
        ConfigSaveError::FileInaccessible(e)
    }
}

impl vstd::std_specs::convert::FromSpecImpl<IoError> for ConfigSaveError {
    open spec fn obeys_from_spec() -> bool {
        true
    }

    open spec fn from_spec(e: IoError) -> Self {
        ConfigSaveError::FileInaccessible(e)
    }
}

impl From<SerError> for ConfigSaveError {
    fn from(e: SerError) -> (r: Self) {
        ConfigSaveError::SerializeFailure(e)
    }
}

impl vstd::std_specs::convert::FromSpecImpl<SerError> for ConfigSaveError {
    open spec fn obeys_from_spec() -> bool {
        true
    }

    open spec fn from_spec(e: SerError) -> Self {
        ConfigSaveError::SerializeFailure(e)
    }
}

/// How one read-and-parse attempt is classified: a failed read is
/// `FileInaccessible`, text the codec refused is `FileInvalid`, and a parsed
/// record is `FileValid` with the normalization hook applied exactly once.
pub open spec fn spec_open<Cfg: ConfigData>(outcome: ReadParse<Cfg>) -> ConfigOpen<Cfg> {
    match outcome {
        Result::Err(e) => ConfigOpen::FileInaccessible(e),
        Result::Ok(Result::Err(e)) => ConfigOpen::FileInvalid(e),
        Result::Ok(Result::Ok(cfg)) => ConfigOpen::FileValid(cfg.prepared()),
    }
}

/// Classify one attempt to read a configuration from a filepath, from the
/// caller's read and the codec's verdict on what was read.
pub fn open<Cfg: ConfigData>(outcome: ReadParse<Cfg>) -> (r: ConfigOpen<Cfg>)
    ensures
        r == spec_open(outcome),
{
    match outcome {
        Err(e) => ConfigOpen::FileInaccessible(e),
        Ok(Err(e)) => ConfigOpen::FileInvalid(e),
        Ok(Ok(cfg)) => ConfigOpen::FileValid(cfg.prepare()),
    }
}

/// A failed read is always classified `FileInaccessible`, never `FileInvalid`
/// or `FileValid`; in particular a path where no file exists, whose read the
/// caller reports as failed, never looks valid.
pub proof fn lemma_open_unreadable<Cfg: ConfigData>(e: IoError)
    ensures
        spec_open::<Cfg>(Result::Err(e)) == ConfigOpen::<Cfg>::FileInaccessible(e),
{
}

/// Text the codec refused is always classified `FileInvalid`, never
/// `FileValid`.
pub proof fn lemma_open_malformed<Cfg: ConfigData>(e: ParseError)
    ensures
        spec_open::<Cfg>(Result::Ok(Result::Err(e))) == ConfigOpen::<Cfg>::FileInvalid(e),
{
}

impl<Cfg> ConfigOpen<Cfg> {
    /// The configuration inside this value, if the load was successful.
    pub open spec fn valid(self) -> Option<Cfg> {
        match self {
            ConfigOpen::FileValid(cfg) => Option::Some(cfg),
            _ => Option::None,
        }
    }

    /// Get a reference to the configuration inside this value, if it was
    /// opened successfully.
    pub fn config(&self) -> (r: Option<&Cfg>)
        ensures
            match self.valid() {
                Option::Some(v) => r matches Some(c) && *c == v,
                Option::None => r is None,
            },
    {
        match self {
            ConfigOpen::FileValid(config) => Some(config),
            _ => None,
        }
    }

    /// Get the configuration inside this value, if it was opened successfully.
    pub fn into_config(self) -> (r: Option<Cfg>)
        ensures
            r == self.valid(),
    {
        match self {
            ConfigOpen::FileValid(config) => Some(config),
            _ => None,
        }
    }

    /// Get the configuration inside this value, if it was opened successfully.
    pub fn into_result(self) -> (r: Result<Cfg, Self>)
        ensures
            self matches ConfigOpen::FileValid(v) ==> r == Result::<Cfg, Self>::Ok(v),
            !(self is FileValid) ==> r == Result::<Cfg, Self>::Err(self),
    {
        match self {
            ConfigOpen::FileValid(config) => Ok(config),
            err => Err(err),
        }
    }
}

/// The text form of a load classification.
pub open spec fn spec_open_description<Cfg>(opened: ConfigOpen<Cfg>) -> Seq<char> {
    match opened {
        ConfigOpen::FileInaccessible(e) => "Cannot access file: "@ + e.detail@,
        ConfigOpen::FileInvalid(e) => "Cannot read configuration: "@ + e.detail@,
        ConfigOpen::FileValid(_) => "Successfully read file"@,
    }
}

impl<Cfg> ConfigOpen<Cfg> {
    /// This classification as one line of text.
    pub fn describe(&self) -> (r: String)
        ensures
            r@ == spec_open_description(*self),
    {
        match self {
            ConfigOpen::FileInaccessible(e) => {
                let mut s = "Cannot access file: ".to_owned();
                s.append(e.detail.as_str());
                s
            },
            ConfigOpen::FileInvalid(e) => {
                let mut s = "Cannot read configuration: ".to_owned();
                s.append(e.detail.as_str());
                s
            },
            ConfigOpen::FileValid(_) => "Successfully read file".to_owned(),
        }
    }
}

/// How one find attempt is classified: `DoesNotExist` when the caller probed
/// the path and found no file, otherwise `Exists` around the classification
/// of what the probe read and parsed.
pub open spec fn spec_from_path<Cfg: ConfigData>(
    path: ConfigPath,
    probe: Option<ReadParse<Cfg>>,
) -> ConfigFind<Cfg> {
    match probe {
        Option::None => ConfigFind::DoesNotExist(path),
        Option::Some(outcome) => ConfigFind::Exists(path, spec_open(outcome)),
    }
}

/// Classify a configuration search at a specific filepath: `probe` is `None`
/// when no file exists there, and otherwise holds the caller's read and the
/// codec's verdict on it.
pub fn from_path<Cfg: ConfigData>(path: ConfigPath, probe: Option<ReadParse<Cfg>>) -> (r:
    ConfigFind<Cfg>)
    ensures
        r == spec_from_path(path, probe),
{
    match probe {
        None => ConfigFind::DoesNotExist(path),
        Some(outcome) => {
            let opened = open(outcome);
            ConfigFind::Exists(path, opened)
        },
    }
}

/// How a whole search is classified: no resolved path is `NoPath`, and a
/// resolved path is classified by what the probe of it found.
pub open spec fn spec_locate<Cfg: ConfigData>(
    resolved: Option<ConfigPath>,
    probe: Option<ReadParse<Cfg>>,
) -> ConfigFind<Cfg> {
    match resolved {
        Option::None => ConfigFind::NoPath,
        Option::Some(path) => spec_from_path(path, probe),
    }
}

/// Classify a whole configuration search: `resolved` is what path resolution
/// yielded, and `probe`, when a path was resolved, reports what the caller
/// found there (`None` when no file exists). The result is `NoPath` exactly
/// when resolution yielded no path.
pub fn find<Cfg: ConfigData>(resolved: Option<ConfigPath>, probe: Option<ReadParse<Cfg>>) -> (r:
    ConfigFind<Cfg>)
    ensures
        r == spec_locate(resolved, probe),
{
    match resolved {
        None => ConfigFind::NoPath,
        Some(path) => from_path(path, probe),
    }
}

/// Locating twice without intervening filesystem changes yields equal
/// classifications: the classification is a function of the resolution
/// outcome and of what one probe of the filesystem returned, and of nothing
/// else.
pub proof fn lemma_locate_stable<Cfg: ConfigData>(
    resolved1: Option<ConfigPath>,
    resolved2: Option<ConfigPath>,
    probe1: Option<ReadParse<Cfg>>,
    probe2: Option<ReadParse<Cfg>>,
)
    requires
        resolved1 == resolved2,
        probe1 == probe2,
    ensures
        spec_locate(resolved1, probe1) == spec_locate(resolved2, probe2),
{
}

/// The text form of a search result.
pub open spec fn spec_find_description<Cfg>(found: ConfigFind<Cfg>) -> Seq<char> {
    match found {
        ConfigFind::DoesNotExist(path) => "File does not exist: "@ + spec_display(
            path.dir@,
            path.name@,
        ),
        ConfigFind::Exists(path, opened) => spec_open_description(opened) + " at "@
            + spec_display(path.dir@, path.name@),
        ConfigFind::NoPath => "Cannot find config path."@,
    }
}

impl<Cfg> ConfigFind<Cfg> {
    /// The configuration inside this value, if a file was found and opened
    /// successfully.
    pub open spec fn found(self) -> Option<Cfg> {
        match self {
            ConfigFind::Exists(_, opened) => opened.valid(),
            _ => Option::None,
        }
    }

    /// Get a reference to the configuration inside this value, if it was
    /// opened successfully.
    pub fn config(&self) -> (r: Option<&Cfg>)
        ensures
            match self.found() {
                Option::Some(v) => r matches Some(c) && *c == v,
                Option::None => r is None,
            },
    {
        match self {
            ConfigFind::Exists(_, opened) => opened.config(),
            _ => None,
        }
    }

    /// Get the configuration inside this value, if it was opened successfully.
    pub fn into_config(self) -> (r: Option<Cfg>)
        ensures
            r == self.found(),
    {
        match self {
            ConfigFind::Exists(_, opened) => opened.into_config(),
            _ => None,
        }
    }

    /// Get the result of the load attempt, if a file was found at all.
    pub fn into_result(self) -> (r: Result<ConfigOpen<Cfg>, Self>)
        ensures
            self matches ConfigFind::Exists(p, opened) ==> r == Result::<ConfigOpen<Cfg>, Self>::Ok(
                opened,
            ),
            !(self is Exists) ==> r == Result::<ConfigOpen<Cfg>, Self>::Err(self),
    {
        match self {
            ConfigFind::Exists(_, opened) => Ok(opened),
            err => Err(err),
        }
    }

    /// This search result as one line of text.
    pub fn describe(&self) -> (r: String)
        ensures
            r@ == spec_find_description(*self),
    {
        match self {
            ConfigFind::DoesNotExist(path) => {
                let mut s = "File does not exist: ".to_owned();
                let shown = path.display();
                s.append(shown.as_str());
                s
            },
            ConfigFind::Exists(path, opened) => {
                let mut s = opened.describe();
                s.append(" at ");
                let shown = path.display();
                s.append(shown.as_str());
                s
            },
            ConfigFind::NoPath => "Cannot find config path.".to_owned(),
        }
    }

    /// Return a reference to the filepath checked by the search operation, if
    /// there was one.
    pub fn path(&self) -> (r: Option<&ConfigPath>)
        ensures
            *self is NoPath <==> r is None,
            self matches ConfigFind::Exists(p, _) ==> r matches Some(q) && *q == p,
            self matches ConfigFind::DoesNotExist(p) ==> r matches Some(q) && *q == p,
    {
        match self {
            ConfigFind::NoPath => None,
            ConfigFind::Exists(path, _) => Some(path),
            ConfigFind::DoesNotExist(path) => Some(path),
        }
    }
}

} // verus!
