//! Core logic of a launcher that keeps a locally installed game-content
//! package in sync with a remote version manifest: installation-state
//! detection, version and patch resolution, supervised-patcher event
//! decoding, and the decision rules of the install / update / verify /
//! uninstall / clean workflows.
//!
//! All file-system, network and process work lives outside this crate; the
//! functions here compute over plain values and carry their contracts.

use vstd::prelude::*;

pub mod appvar;
pub mod aria2;
pub mod butler;
pub mod ctx;
pub mod depends;
pub mod download;
pub mod error;
pub mod flags;
pub mod helper;
pub mod strutil;
pub mod supervisor;
pub mod userconfig;
pub mod version;
pub mod wizard;
pub mod workflows;

verus! {

/// Version string reported in the user agent.
pub const VERSION: &'static str = "1.0.0";

/// User agent for downloading files or sending web requests.
pub fn get_user_agent() -> (r: String)
    ensures
        r@ == "beans-rs/"@ + VERSION@,
{
    let mut result = String::new();
    result.append("beans-rs/");
    result.append(VERSION);
    result
}

/// Spec: the trimmed value reads as true: `1` or `true`, any ASCII case.
pub open spec fn is_truthy(s: Seq<char>) -> bool {
    crate::strutil::eq_ignore_case_spec(crate::strutil::trim_spec(s), "1"@)
        || crate::strutil::eq_ignore_case_spec(crate::strutil::trim_spec(s), "true"@)
}

/// Return `true` when the value exists, and it equals `1` or `true`
/// (when trimmed and compared without regard to ASCII case).
pub fn check_env_bool(value: Option<&str>) -> (r: bool)
    ensures
        r == match value {
            Some(s) => is_truthy(s@),
            None => false,
        },
{
    proof {
        reveal_strlit("1");
        reveal_strlit("true");
    }
    match value {
        Some(s) => {
            let t = crate::strutil::trim_ascii(s);
            crate::strutil::eq_ignore_ascii_case(t, "1") || crate::strutil::eq_ignore_ascii_case(
                t,
                "true",
            )
        },
        None => false,
    }
}

/// The custom temporary directory named by its environment variable.
///
/// Returns `None` when the variable is unset or its value is blank.
pub fn env_custom_tmpdir(value: Option<String>) -> (r: Option<String>)
    ensures
        match r {
            Some(v) => value matches Some(x) && v == x && crate::strutil::trim_spec(x@).len()
                > 0,
            None => match value {
                Some(x) => crate::strutil::trim_spec(x@).len() == 0,
                None => true,
            },
        },
{
    match value {
        Some(x) => {
            let t = crate::strutil::trim_ascii(x.as_str());
            if t.unicode_len() == 0 {
                None
            } else {
                Some(x)
            }
        },
        None => None,
    }
}

/// Return `true` when the debug environment variable (either spelling)
/// is set to `1` or `true`.
pub fn env_debug(beans: Option<&str>, adastral: Option<&str>) -> (r: bool)
    ensures
        r == ((beans matches Some(s) && is_truthy(s@)) || (adastral matches Some(s)
            && is_truthy(s@))),
{
    check_env_bool(beans) || check_env_bool(adastral)
}

/// Return `true` when the headless environment variable (either
/// spelling) is set to `1` or `true`.
pub fn env_headless(beans: Option<&str>, adastral: Option<&str>) -> (r: bool)
    ensures
        r == ((beans matches Some(s) && is_truthy(s@)) || (adastral matches Some(s)
            && is_truthy(s@))),
{
    check_env_bool(beans) || check_env_bool(adastral)
}

/// Return `true` when the accelerator-disabling environment variable
/// (either spelling) is set to `1` or `true`.
pub fn env_disable_aria2c(beans: Option<&str>, adastral: Option<&str>) -> (r: bool)
    ensures
        r == ((beans matches Some(s) && is_truthy(s@)) || (adastral matches Some(s)
            && is_truthy(s@))),
{
    check_env_bool(beans) || check_env_bool(adastral)
}

/// The accelerator launch-argument override: the first of the two
/// variable spellings that holds at least one character.
pub fn env_aria2c_override_args(beans: Option<String>, adastral: Option<String>) -> (r: Option<
    String,
>)
    ensures
        match r {
            Some(v) => v@.len() > 0 && ((beans matches Some(b) && v == b) || ((match beans {
                Some(b) => b@.len() == 0,
                None => true,
            }) && (adastral matches Some(a) && v == a))),
            None => (match beans {
                Some(b) => b@.len() == 0,
                None => true,
            }) && (match adastral {
                Some(a) => a@.len() == 0,
                None => true,
            }),
        },
{
    if let Some(val) = beans {
        if val.as_str().unicode_len() > 0 {
            return Some(val);
        }
    }
    if let Some(val) = adastral {
        if val.as_str().unicode_len() > 0 {
            return Some(val);
        }
    }
    None
}

/// Extra accelerator launch arguments: the first of the two variable
/// spellings that holds at least one character.
pub fn env_aria2c_extra_args(beans: Option<String>, adastral: Option<String>) -> (r: Option<
    String,
>)
    ensures
        match r {
            Some(v) => v@.len() > 0 && ((beans matches Some(b) && v == b) || ((match beans {
                Some(b) => b@.len() == 0,
                None => true,
            }) && (adastral matches Some(a) && v == a))),
            None => (match beans {
                Some(b) => b@.len() == 0,
                None => true,
            }) && (match adastral {
                Some(a) => a@.len() == 0,
                None => true,
            }),
        },
{
    if let Some(val) = beans {
        if val.as_str().unicode_len() > 0 {
            return Some(val);
        }
    }
    if let Some(val) = adastral {
        if val.as_str().unicode_len() > 0 {
            return Some(val);
        }
    }
    None
}

} // verus!
