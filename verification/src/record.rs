use vstd::prelude::*;

verus! {

use crate::paths::ConfigPath;
use crate::handle::ConfigFile;

/// A configuration record this crate can manage: a type with a compiled-in
/// default file text and a normalization hook applied once after each parse.
///
/// The text codec that turns file text into a record and back belongs to the
/// caller; the operations of this crate receive its verdicts as plain values.
pub trait ConfigData: Sized {
    /// What the normalization hook returns for a given parsed record.
    spec fn prepared(self) -> Self;

    /// The text of a default configuration file for this record type.
    spec fn spec_default_text() -> Seq<char>;

    /// Perform any final transformations that should be done on a newly
    /// parsed configuration, such as enforcing specific casing for string
    /// fields.
    fn prepare(self) -> (r: Self)
        ensures
            r == self.prepared(),
    ;

    /// The text data of a default configuration file, as UTF-8.
    fn default_text() -> (r: String)
        ensures
            r@ == Self::spec_default_text(),
    ;

    /// Associate a file path with this configuration.
    fn with_path(self, path: ConfigPath) -> (r: ConfigFile<Self>)
        ensures
            r.data == self,
            r.path == path,
    ;
}

/// The configuration record this crate ships: a record with a text field and
/// a count, the shape of a small application's settings.
#[derive(Clone)]
pub struct ConfigRecord {
    /// The text the application emits.
    pub output: String,
    /// How many times the text is emitted.
    pub number: u64,
}

impl ConfigRecord {
    /// A fresh record equal to this one.
    pub fn duplicate(&self) -> (r: ConfigRecord)
        ensures
            r == *self,
    {
        ConfigRecord { output: self.output.clone(), number: self.number }
    }
}

impl ConfigData for ConfigRecord {
    /// The hook is the identity here: this record needs no normalization.
    open spec fn prepared(self) -> Self {
        self
    }

    open spec fn spec_default_text() -> Seq<char> {
        "output = \"report\"\nnumber = 4\n"@
    }

    fn prepare(self) -> (r: Self) {
        self
    }

    fn default_text() -> (r: String) {
        "output = \"report\"\nnumber = 4\n".to_owned()
    }

    fn with_path(self, path: ConfigPath) -> (r: ConfigFile<Self>) {
        ConfigFile { data: self, path }
    }
}

impl Default for ConfigRecord {
    /// The record that the default file text denotes.
    fn default() -> (r: Self)
        ensures
            r.output@ == "report"@,
            r.number == 4,
    {
        ConfigRecord { output: "report".to_owned(), number: 4 }
    }
}

} // verus!
