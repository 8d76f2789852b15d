//! Configuration of the built application: the name of the managed mod
//! and the remote endpoints the manifest is fetched from.
//!
//! The values are compiled in; `get` and `reset` hand out the built-in
//! configuration, and `sub` substitutes the configuration into message
//! templates.

use vstd::prelude::*;

use crate::strutil::{replace_all, replace_all_spec};

verus! {

/// Configuration for the compiled application.
#[derive(Debug, Clone)]
pub struct AppVarData {
    pub mod_info: AppVarMod,
    pub remote_info: AppVarRemote,
}

#[derive(Debug, Clone)]
pub struct AppVarMod {
    /// name of the mod to use.
    /// e.g; `open_fortress`
    pub sourcemod_name: String,
    /// two-letter abbreviation that is used in `versions.json` for the
    /// game. e.g; `of`
    pub short_name: String,
    /// stylized name of the sourcemod.
    /// e.g; `Open Fortress`
    pub name_stylized: String,
}

#[derive(Debug, Clone)]
pub struct AppVarRemote {
    /// base URL for the versioning.
    /// e.g; `https://beans.adastral.net/`
    pub base_url: String,
    /// url where the version details are stored.
    /// e.g; `https://beans.adastral.net/versions.json`
    pub versions_url: String,
}

/// Spec: `a` holds the built-in configuration values.
pub open spec fn is_default_appvar(a: AppVarData) -> bool {
    &&& a.mod_info.sourcemod_name@ == "open_fortress"@
    &&& a.mod_info.short_name@ == "of"@
    &&& a.mod_info.name_stylized@ == "Open Fortress"@
    &&& a.remote_info.base_url@ == "https://beans.adastral.net/"@
    &&& a.remote_info.versions_url@ == "https://beans.adastral.net/versions.json"@
}

/// Spec: `source` with every configuration placeholder substituted, in
/// the order the substitutions are applied.
pub open spec fn sub_spec(source: Seq<char>, a: AppVarData) -> Seq<char> {
    let s1 = replace_all_spec(source, "$MOD_NAME_STYLIZED"@, a.mod_info.name_stylized@);
    let s2 = replace_all_spec(s1, "$MOD_NAME_SHORT"@, a.mod_info.short_name@);
    let s3 = replace_all_spec(s2, "$MOD_NAME"@, a.mod_info.sourcemod_name@);
    let s4 = replace_all_spec(s3, "$URL_BASE"@, a.remote_info.base_url@);
    replace_all_spec(s4, "$URL_VERSIONS"@, a.remote_info.versions_url@)
}

impl AppVarData {
    /// Substitute values in the `source` string for what is defined in
    /// here.
    pub fn sub(&self, source: String) -> (r: String)
        ensures
            r@ == sub_spec(source@, *self),
    {
        proof {
            reveal_strlit("$MOD_NAME_STYLIZED");
            reveal_strlit("$MOD_NAME_SHORT");
            reveal_strlit("$MOD_NAME");
            reveal_strlit("$URL_BASE");
            reveal_strlit("$URL_VERSIONS");
        }
        let s1 = replace_all(source.as_str(), "$MOD_NAME_STYLIZED", self.mod_info.name_stylized.as_str());
        let s2 = replace_all(s1.as_str(), "$MOD_NAME_SHORT", self.mod_info.short_name.as_str());
        let s3 = replace_all(s2.as_str(), "$MOD_NAME", self.mod_info.sourcemod_name.as_str());
        let s4 = replace_all(s3.as_str(), "$URL_BASE", self.remote_info.base_url.as_str());
        replace_all(s4.as_str(), "$URL_VERSIONS", self.remote_info.versions_url.as_str())
    }

    /// The current configuration. The configuration is compiled in, so
    /// this is the built-in one.
    pub fn get() -> (r: AppVarData)
        ensures
            is_default_appvar(r),
    {
        Self::reset()
    }

    /// Rebuild the configuration from its built-in values.
    pub fn reset() -> (r: AppVarData)
        ensures
            is_default_appvar(r),
    {
        AppVarData {
            mod_info: AppVarMod {
                sourcemod_name: "open_fortress".to_owned(),
                short_name: "of".to_owned(),
                name_stylized: "Open Fortress".to_owned(),
            },
            remote_info: AppVarRemote {
                base_url: "https://beans.adastral.net/".to_owned(),
                versions_url: "https://beans.adastral.net/versions.json".to_owned(),
            },
        }
    }
}

} // verus!
