//! The decision rules of the five user-facing operations: install,
//! update, verify, uninstall and clean.
//!
//! Each operation runs as a short pipeline — preflight checks, the
//! executing steps, finalizing — and every decision in that pipeline is a
//! function here, from plain values to a plan or an error. Performing the
//! planned file-system, network and process work is the caller's job.
//! Expected, user-facing outcomes (already latest, no patch available,
//! not installed, insufficient space) are ordinary variants of the plan;
//! only unexpected failures are errors.

use vstd::prelude::*;

use crate::ctx::{count_patch_matches, max_key, patch_file_pattern, RunnerContext};
use crate::error::BeansError;
use crate::strutil::{
    dec_rep, eq_ignore_ascii_case, eq_ignore_case_spec, lower_code, usize_to_string,
};
use crate::version::RemoteVersion;

verus! {

/// Spec: the space an install of `version` needs: the download plus the
/// estimated installed size, saturating at the machine limit.
pub open spec fn required_install_space(version: RemoteVersion) -> nat {
    let pre = match version.pre_sz {
        Some(p) => p as nat,
        None => 0,
    };
    let post = match version.post_sz {
        Some(p) => p as nat,
        None => 0,
    };
    if pre + post > usize::MAX as nat {
        usize::MAX as nat
    } else {
        pre + post
    }
}

/// Install: prompting, preflight and the already-latest short-circuit.
#[derive(Debug, Clone)]
pub struct InstallWorkflow {
    pub context: RunnerContext,
}

impl InstallWorkflow {
    /// Does this install need a reinstall confirmation prompt?
    ///
    /// Only a root that already has a version installed prompts, and a
    /// do-whatever override suppresses the prompt.
    pub fn needs_reinstall_confirm(current_version: Option<usize>, prompt_do_whatever: bool) -> (r:
        bool)
        ensures
            r == (current_version is Some && !prompt_do_whatever),
    {
        current_version.is_some() && !prompt_do_whatever
    }

    /// Read a reinstall prompt answer: yes (also the default on an empty
    /// line), no, or unreadable (the prompt is shown again).
    pub fn parse_confirm_input(input: &str) -> (r: Option<bool>)
        ensures
            r == Some(true) <==> (input@.len() == 0 || eq_ignore_case_spec(input@, "y"@)
                || eq_ignore_case_spec(input@, "yes"@)),
            r == Some(false) <==> (eq_ignore_case_spec(input@, "n"@) || eq_ignore_case_spec(
                input@,
                "no"@,
            )),
    {
        proof {
            reveal_strlit("y");
            reveal_strlit("yes");
            reveal_strlit("n");
            reveal_strlit("no");
        }
        if input.unicode_len() == 0 || eq_ignore_ascii_case(input, "y") || eq_ignore_ascii_case(
            input,
            "yes",
        ) {
            proof {
                if eq_ignore_case_spec(input@, "n"@) && eq_ignore_case_spec(input@, "y"@) {
                    assert(lower_code(input@[0]) == lower_code("n"@[0]));
                    assert(lower_code(input@[0]) == lower_code("y"@[0]));
                }
            }
            Some(true)
        } else if eq_ignore_ascii_case(input, "n") || eq_ignore_ascii_case(input, "no") {
            Some(false)
        } else {
            None
        }
    }

    /// Is the version marker written? Only after a successful
    /// extraction, and only when the installed version is known: a
    /// failed install must not leave a marker pointing at unextracted
    /// content.
    pub fn should_write_marker(extract_ok: bool, version_id: Option<usize>) -> (r: bool)
        ensures
            r == (extract_ok && version_id is Some),
    {
        extract_ok && version_id.is_some()
    }

    /// Preflight of an install of `target_version`.
    ///
    /// A root already at the target version short-circuits with the
    /// already-installed signal; otherwise the install is rejected when
    /// the drive's free space does not strictly exceed the required
    /// space. On success the required space is returned.
    pub fn install_preflight(
        current_version: Option<usize>,
        target_version: usize,
        version: &RemoteVersion,
        available: u64,
        location: String,
    ) -> (r: Result<usize, BeansError>)
        ensures
            match r {
                Ok(required) => {
                    &&& current_version != Some(target_version)
                    &&& required as nat == required_install_space(*version)
                    &&& (required as int) < (available as int)
                },
                Err(e) => match e {
                    BeansError::LatestVersionAlreadyInstalled { current, latest } => {
                        &&& current_version == Some(target_version)
                        &&& current == target_version
                        &&& latest == target_version
                    },
                    BeansError::FreeSpaceCheckFailure { .. } => {
                        &&& current_version != Some(target_version)
                        &&& required_install_space(*version) >= available as nat
                    },
                    _ => false,
                },
            },
    {
        if let Some(cv) = current_version {
            if cv == target_version {
                return Err(
                    BeansError::LatestVersionAlreadyInstalled {
                        current: target_version,
                        latest: target_version,
                    },
                );
            }
        }
        let pre = match version.pre_sz {
            Some(p) => p,
            None => 0,
        };
        let post = match version.post_sz {
            Some(p) => p,
            None => 0,
        };
        let required = match pre.checked_add(post) {
            Some(s) => s,
            None => usize::MAX,
        };
        if crate::helper::has_free_space(available, required) {
            Ok(required)
        } else {
            Err(BeansError::FreeSpaceCheckFailure { location })
        }
    }
}

/// What an update invocation should do.
#[derive(Debug, Clone)]
pub enum UpdateDecision {
    /// Nothing is installed; inform the user, change nothing.
    NotInstalled,
    /// No (single) patch leads from the current to the latest version;
    /// inform the user, change nothing.
    NoPatchAvailable,
    /// The manifest lacks the signature or heal URL of the current
    /// version; inform the user, change nothing.
    MissingRemoteFiles,
    /// The patch needs more temporary space than the drive strictly has.
    InsufficientTempSpace { required: usize },
    /// Run the patcher: verify against `signature_url` healing from
    /// `heal_url`, then download and apply the patch.
    Proceed { signature_url: String, heal_url: String, patch_file: String, tempreq: usize },
}

/// Update: patch resolution and preflight.
pub struct UpdateWorkflow {
    pub ctx: RunnerContext,
}

impl UpdateWorkflow {
    /// Decide what an update invocation does, from the context and the
    /// free space of the sourcemod drive.
    ///
    /// The checks run in order: an uninstalled root informs and stops; a
    /// current version the server no longer lists is a hard failure; a
    /// missing or ambiguous patch informs and stops; then the patch's
    /// temporary-space requirement must strictly fit; then both remote
    /// verification URLs must be present; and only then does the update
    /// proceed, with the full URLs handed to the patcher.
    pub fn plan(ctx: &RunnerContext, available: u64) -> (r: Result<UpdateDecision, BeansError>)
        requires
            ctx.remote_version_list.versions@.len() > 0,
        ensures
            ({
                let versions = ctx.remote_version_list.versions@;
                let patches = ctx.remote_version_list.patches@;
                let base = ctx.appvar.remote_info.base_url@;
                match r {
                    Ok(d) => match d {
                        UpdateDecision::NotInstalled => ctx.current_version is None,
                        UpdateDecision::NoPatchAvailable => ctx.current_version matches Some(cv)
                            && count_patch_matches(
                            patches,
                            patch_file_pattern(
                                ctx.appvar.mod_info.short_name@,
                                cv as nat,
                                max_key(versions) as nat,
                            ),
                        ) != 1,
                        UpdateDecision::InsufficientTempSpace { required } => ctx.current_version
                            matches Some(cv) && ({
                            let pat = patch_file_pattern(
                                ctx.appvar.mod_info.short_name@,
                                cv as nat,
                                max_key(versions) as nat,
                            );
                            &&& count_patch_matches(patches, pat) == 1
                            &&& exists|i: int|
                                0 <= i < patches.len() && #[trigger] patches[i].1.file@ == pat
                                    && patches[i].1.tempreq == required
                            &&& required as int >= available as int
                        }),
                        UpdateDecision::MissingRemoteFiles => ctx.current_version matches Some(cv)
                            && count_patch_matches(
                            patches,
                            patch_file_pattern(
                                ctx.appvar.mod_info.short_name@,
                                cv as nat,
                                max_key(versions) as nat,
                            ),
                        ) == 1 && exists|i: int|
                            0 <= i < versions.len() && #[trigger] versions[i].0 == cv && (
                            versions[i].1.signature_url is None || versions[i].1.heal_url is None),
                        UpdateDecision::Proceed {
                            signature_url,
                            heal_url,
                            patch_file,
                            tempreq,
                        } => ctx.current_version matches Some(cv) && ({
                            let pat = patch_file_pattern(
                                ctx.appvar.mod_info.short_name@,
                                cv as nat,
                                max_key(versions) as nat,
                            );
                            &&& exists|i: int|
                                0 <= i < versions.len() && #[trigger] versions[i].0 == cv && (
                                versions[i].1.signature_url matches Some(sig) && versions[i].1.heal_url
                                    matches Some(heal) && signature_url@ == base + sig@ && heal_url@
                                    == base + heal@)
                            &&& count_patch_matches(patches, pat) == 1
                            &&& patch_file@ == pat
                            &&& exists|i: int|
                                0 <= i < patches.len() && #[trigger] patches[i].1.file@ == pat
                                    && patches[i].1.tempreq == tempreq
                            &&& (tempreq as int) < (available as int)
                        }),
                    },
                    Err(e) => (e matches BeansError::RemoteVersionNotFound { version } && version
                        == ctx.current_version) && (ctx.current_version matches Some(cv)
                        && forall|i: int|
                        0 <= i < versions.len() ==> #[trigger] versions[i].0 != cv),
                }
            }),
    {
        if ctx.current_version.is_none() {
            return Ok(UpdateDecision::NotInstalled);
        }
        let remote_version = match ctx.current_remote_version() {
            Ok(v) => v,
            Err(_) => {
                return Err(
                    BeansError::RemoteVersionNotFound { version: ctx.current_version },
                );
            },
        };
        let patch = match ctx.has_patch_available() {
            Some(p) => p,
            None => {
                return Ok(UpdateDecision::NoPatchAvailable);
            },
        };
        if !crate::helper::has_free_space(available, patch.tempreq) {
            proof {
                let ps = ctx.remote_version_list.patches@;
                let i = choose|i: int| 0 <= i < ps.len() && #[trigger] ps[i].1 == *patch;
                assert(ps[i].1.file@ == patch.file@ && ps[i].1.tempreq == patch.tempreq);
            }
            return Ok(UpdateDecision::InsufficientTempSpace { required: patch.tempreq });
        }
        let sig = match &remote_version.signature_url {
            Some(s) => s,
            None => {
                return Ok(UpdateDecision::MissingRemoteFiles);
            },
        };
        let heal = match &remote_version.heal_url {
            Some(h) => h,
            None => {
                return Ok(UpdateDecision::MissingRemoteFiles);
            },
        };
        let mut signature_url = ctx.appvar.remote_info.base_url.clone();
        signature_url.append(sig.as_str());
        let mut heal_url = ctx.appvar.remote_info.base_url.clone();
        heal_url.append(heal.as_str());
        let patch_file = patch.file.clone();
        proof {
            let ps = ctx.remote_version_list.patches@;
            let i = choose|i: int| 0 <= i < ps.len() && #[trigger] ps[i].1 == *patch;
            assert(ps[i].1.file@ == patch.file@ && ps[i].1.tempreq == patch.tempreq);
        }
        Ok(
            UpdateDecision::Proceed {
                signature_url,
                heal_url,
                patch_file,
                tempreq: patch.tempreq,
            },
        )
    }
}

/// What a verify invocation should do.
#[derive(Debug, Clone)]
pub enum VerifyDecision {
    /// Nothing is installed; inform the user, change nothing.
    NotInstalled,
    /// The manifest lacks the signature or heal URL of the current
    /// version; inform the user, change nothing.
    MissingRemoteFiles,
    /// Back up the config file, run the patcher's verify against
    /// `signature_url` healing from `heal_url`, restore permissions.
    Proceed { signature_url: String, heal_url: String },
}

/// Verify: resolution of the verification URLs.
pub struct VerifyWorkflow {
    pub ctx: RunnerContext,
}

impl VerifyWorkflow {
    /// Decide what a verify invocation does.
    ///
    /// An uninstalled root informs and stops; a current version the
    /// server no longer lists is a hard failure; both remote URLs must be
    /// present; then the verification runs with the full URLs.
    pub fn plan(ctx: &RunnerContext) -> (r: Result<VerifyDecision, BeansError>)
        ensures
            ({
                let versions = ctx.remote_version_list.versions@;
                let base = ctx.appvar.remote_info.base_url@;
                match r {
                    Ok(d) => match d {
                        VerifyDecision::NotInstalled => ctx.current_version is None,
                        VerifyDecision::MissingRemoteFiles => ctx.current_version matches Some(cv)
                            && exists|i: int|
                            0 <= i < versions.len() && #[trigger] versions[i].0 == cv && (
                            versions[i].1.signature_url is None || versions[i].1.heal_url is None),
                        VerifyDecision::Proceed { signature_url, heal_url } => ctx.current_version
                            matches Some(cv) && exists|i: int|
                            0 <= i < versions.len() && #[trigger] versions[i].0 == cv && (
                            versions[i].1.signature_url matches Some(sig) && versions[i].1.heal_url
                                matches Some(heal) && signature_url@ == base + sig@ && heal_url@
                                == base + heal@),
                    },
                    Err(e) => (e matches BeansError::RemoteVersionNotFound { version } && version
                        == ctx.current_version) && (ctx.current_version matches Some(cv)
                        && forall|i: int|
                        0 <= i < versions.len() ==> #[trigger] versions[i].0 != cv),
                }
            }),
    {
        if ctx.current_version.is_none() {
            return Ok(VerifyDecision::NotInstalled);
        }
        let remote_version = match ctx.current_remote_version() {
            Ok(v) => v,
            Err(_) => {
                return Err(
                    BeansError::RemoteVersionNotFound { version: ctx.current_version },
                );
            },
        };
        let sig = match &remote_version.signature_url {
            Some(s) => s,
            None => {
                return Ok(VerifyDecision::MissingRemoteFiles);
            },
        };
        let heal = match &remote_version.heal_url {
            Some(h) => h,
            None => {
                return Ok(VerifyDecision::MissingRemoteFiles);
            },
        };
        let mut signature_url = ctx.appvar.remote_info.base_url.clone();
        signature_url.append(sig.as_str());
        let mut heal_url = ctx.appvar.remote_info.base_url.clone();
        heal_url.append(heal.as_str());
        Ok(VerifyDecision::Proceed { signature_url, heal_url })
    }
}

/// What an uninstall invocation should do.
#[derive(Debug, Clone)]
pub enum UninstallDecision {
    /// Nothing is installed; inform the user, delete nothing.
    NotInstalled,
    /// Recursively delete the mod directory.
    Proceed,
}

/// Uninstall: the running-instance guard.
#[derive(Debug, Clone)]
pub struct UninstallWorkflow {
    pub context: RunnerContext,
}

impl UninstallWorkflow {
    /// Decide what an uninstall invocation does.
    ///
    /// An uninstalled root informs and stops. A running instance of the
    /// content (a process whose command line uses the install path) is a
    /// hard still-running failure, and nothing is deleted. Only otherwise
    /// is the mod directory deleted.
    pub fn plan(
        current_version: Option<usize>,
        running_pid: Option<u32>,
        name_stylized: &str,
    ) -> (r: Result<UninstallDecision, BeansError>)
        ensures
            match r {
                Ok(d) => match d {
                    UninstallDecision::NotInstalled => current_version is None,
                    UninstallDecision::Proceed => current_version is Some && running_pid is None,
                },
                Err(e) => current_version is Some && (running_pid matches Some(pid) && (e matches
                    BeansError::GameStillRunning { name, pid: p } && name@ == name_stylized@
                    && p@ == dec_rep(pid as nat))),
            },
    {
        if current_version.is_none() {
            return Ok(UninstallDecision::NotInstalled);
        }
        match running_pid {
            Some(pid) => Err(
                BeansError::GameStillRunning {
                    name: name_stylized.to_owned(),
                    pid: usize_to_string(pid as usize),
                },
            ),
            None => Ok(UninstallDecision::Proceed),
        }
    }
}

/// Clean: outcome mapping for the temporary-directory reset.
#[derive(Debug, Clone)]
pub struct CleanWorkflow {
    pub context: RunnerContext,
}

impl CleanWorkflow {
    /// Map the two steps of a clean — delete the temporary directory,
    /// recreate it — to the operation's outcome. The clean is independent
    /// of the installation state.
    pub fn outcome(delete_ok: bool, create_ok: bool, location: String) -> (r: Result<
        (),
        BeansError,
    >)
        ensures
            r is Ok <==> delete_ok && create_ok,
            r matches Err(e) ==> if delete_ok {
                e matches BeansError::DirectoryCreateFailure { .. }
            } else {
                e matches BeansError::CleanTempFailure { .. }
            },
    {
        if !delete_ok {
            return Err(
                BeansError::CleanTempFailure {
                    location,
                    error: "could not remove the directory and its contents".to_owned(),
                },
            );
        }
        if !create_ok {
            return Err(
                BeansError::DirectoryCreateFailure {
                    location,
                    error: "could not recreate the directory".to_owned(),
                },
            );
        }
        Ok(())
    }
}

} // verus!
