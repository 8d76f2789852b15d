//! The user's own configuration record: where the sourcemods directory
//! is, and which upstream to use.

use vstd::prelude::*;

use crate::helper::{join_path, join_path_spec};

verus! {

#[derive(Debug, Clone)]
pub struct UserConfigData {
    pub sourcemods_location: Option<String>,
    pub upstream_url: String,
}

/// Location of the configuration file under the configuration
/// directory.
pub fn get_cfg_location(cfg_dir: String) -> (r: String)
    ensures
        r@ == join_path_spec(cfg_dir@, "config.json"@),
{
    join_path(cfg_dir, "config.json".to_owned())
}

impl UserConfigData {
    /// A blank configuration: no sourcemods location, empty upstream.
    pub fn set_instance_blank() -> (r: UserConfigData)
        ensures
            r.sourcemods_location is None,
            r.upstream_url@ == Seq::<char>::empty(),
    {
        UserConfigData { sourcemods_location: None, upstream_url: String::new() }
    }

    /// Set the recorded sourcemods location, leaving the upstream as it
    /// is.
    pub fn set_sourcemods_location(&mut self, value: Option<String>)
        ensures
            final(self).sourcemods_location == value,
            final(self).upstream_url == old(self).upstream_url,
    {
        self.sourcemods_location = value;
    }

    /// The recorded sourcemods location.
    pub fn get_sourcemods_location(&self) -> (r: &Option<String>)
        ensures
            r == &self.sourcemods_location,
    {
        &self.sourcemods_location
    }
}

} // verus!
