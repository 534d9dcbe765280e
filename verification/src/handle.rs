use vstd::prelude::*;

verus! {

use crate::paths::ConfigPath;
use crate::record::ConfigData;
use crate::outcomes::{ConfigOpen, ReadParse, spec_open, open};

/// A pairing of a configuration state with the file path at which it is
/// saved. The path is set once at construction and never changed by the
/// handle's own operations.
#[derive(Clone)]
pub struct ConfigFile<Cfg> {
    /// The stored configuration state.
    pub data: Cfg,
    /// The path to the file associated with this configuration state.
    pub path: ConfigPath,
}

impl<Cfg: ConfigData> ConfigFile<Cfg> {
    /// Read access to the stored configuration.
    pub fn data(&self) -> (r: &Cfg)
        ensures
            *r == self.data,
    {
        &self.data
    }

    /// Write access to the stored configuration: the one mutation point for
    /// the record between reloads and saves. What a caller writes through it
    /// is the caller's; the bound path is untouched.
    pub fn data_mut(&mut self) -> &mut Cfg {
        &mut self.data
    }

    /// Replace the stored data with what a fresh read of the associated file
    /// yielded: `outcome` is the caller's read of the bound path together
    /// with the codec's verdict on it.
    ///
    /// On a successful load the stored record is replaced by the newly
    /// parsed, normalized one; on any other outcome that outcome is returned
    /// as the error and the handle keeps its last-known-good record.
    pub fn reload(&mut self, outcome: ReadParse<Cfg>) -> (r: Result<(), ConfigOpen<Cfg>>)
        ensures
            final(self).path == old(self).path,
            match spec_open(outcome) {
                ConfigOpen::FileValid(v) => {
                    &&& r == Result::<(), ConfigOpen<Cfg>>::Ok(())
                    &&& final(self).data == v
                },
                failed => {
                    &&& r == Result::<(), ConfigOpen<Cfg>>::Err(failed)
                    &&& final(self).data == old(self).data
                },
            },
    {
        match open(outcome) {
            ConfigOpen::FileValid(new) => {
                self.data = new;
                Ok(())
            },
            err => Err(err),
        }
    }
}

/// Saving and then reloading from the bound path yields a record equal to
/// the one saved: when the codec decodes the text it encoded for a record
/// back to that record (equal encode/decode semantics) and the normalization
/// hook leaves the record fixed, a reload that reads that text is classified
/// as a successful load of the very record that was saved.
pub proof fn lemma_save_reload_round_trip<Cfg: ConfigData>(data: Cfg, decoded: Cfg)
    requires
        decoded == data,
        data.prepared() == data,
    ensures
        spec_open(Result::<Result<Cfg, crate::outcomes::ParseError>, crate::outcomes::IoError>::Ok(
            Result::Ok(decoded),
        )) == ConfigOpen::FileValid(data),
{
}

} // verus!
