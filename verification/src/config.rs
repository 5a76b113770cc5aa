//! The detector's tunable configuration: an opaque, whole-value-replaceable
//! record. Reads and writes always exchange the complete document, so a write
//! followed by a read gives back the very bytes that were written.

use vstd::prelude::*;
use vstd::string::StringExecFns;

verus! {

/// The fixed default configuration document.
pub open spec fn default_config() -> Seq<char> {
    "{\"fov_rad\":0.8378,\"harris_k\":0.04,\"harris_thresh\":0.001,\"hyst_low\":0.1,\"hyst_high\":0.2}"@
}

/// The fixed default configuration document, as a string.
pub fn default_config_str() -> (r: &'static str)
    ensures
        r@ == default_config(),
{
    "{\"fov_rad\":0.8378,\"harris_k\":0.04,\"harris_thresh\":0.001,\"hyst_low\":0.1,\"hyst_high\":0.2}"
}

/// Holds the current configuration document. The holder never looks inside
/// the document; it only replaces and hands out the whole value.
pub struct ConfigStore {
    current: String,
}

impl ConfigStore {
    /// The document the store holds.
    pub closed spec fn contents(&self) -> Seq<char> {
        self.current@
    }

    /// A store holding the fixed defaults.
    pub fn new() -> (r: ConfigStore)
        ensures
            r.contents() == default_config(),
    {
        ConfigStore { current: default_config_str().to_owned() }
    }

    /// The current document, whole.
    pub fn get(&self) -> (r: &String)
        ensures
            r@ == self.contents(),
    {
        &self.current
    }

    /// Replaces the document, whole. A later `get` returns exactly the value
    /// written here.
    pub fn set(&mut self, document: String)
        ensures
            final(self).contents() == document@,
    {
        self.current = document;
    }

    /// Restores the fixed defaults, whatever was held before.
    pub fn reset(&mut self)
        ensures
            final(self).contents() == default_config(),
    {
        self.current = default_config_str().to_owned();
    }
}

} // verus!
