//! The per-operation context: the install root, the fetched manifest, the
//! current version, and the resolution rules that pick the latest version
//! and the applicable patch.

use vstd::prelude::*;

use crate::appvar::AppVarData;
use crate::error::BeansError;
use crate::helper::{join_path, join_path_spec};
use crate::strutil::{dec_rep, str_eq, usize_to_string};
use crate::version::{manifest_wf, RemotePatch, RemoteVersion, RemoteVersionResponse};

verus! {

/// Subdirectory (under the sourcemods directory) the patcher uses as its
/// staging area.
pub const STAGING_DIR: &'static str = "/butler-staging";

/// How the sourcemods directory is chosen.
#[derive(Clone, Debug)]
pub enum SourceModDirectoryParam {
    /// Default value. Will autodetect location.
    AutoDetect,
    /// Use from the specified sourcemod location.
    WithLocation(String),
}

impl Default for SourceModDirectoryParam {
    fn default() -> (r: Self)
        ensures
            r is AutoDetect,
    {
        SourceModDirectoryParam::AutoDetect
    }
}

/// Spec: the directory fragment `/{sourcemod_name}/` the mod lives in.
pub open spec fn data_dir_spec(av: AppVarData) -> Seq<char> {
    seq!['/'] + av.mod_info.sourcemod_name@ + seq!['/']
}

/// The directory fragment the mod lives in: the sourcemod name between
/// path separators.
pub fn data_dir(av: &AppVarData) -> (r: String)
    ensures
        r@ == data_dir_spec(*av),
{
    proof {
        reveal_strlit("/");
    }
    let mut out = "/".to_owned();
    out.append(av.mod_info.sourcemod_name.as_str());
    out.append("/");
    proof {
        assert(out@ =~= data_dir_spec(*av));
    }
    out
}

/// Spec: the largest version id of a non-empty manifest table.
pub open spec fn max_key(versions: Seq<(usize, RemoteVersion)>) -> usize
    recommends
        versions.len() > 0,
    decreases versions.len(),
{
    if versions.len() <= 1 {
        versions[0].0
    } else {
        let rest = max_key(versions.drop_last());
        if versions.last().0 > rest {
            versions.last().0
        } else {
            rest
        }
    }
}

/// The largest key is a key, and no key is larger.
pub proof fn lemma_max_key(versions: Seq<(usize, RemoteVersion)>)
    requires
        versions.len() > 0,
    ensures
        exists|i: int| 0 <= i < versions.len() && versions[i].0 == max_key(versions),
        forall|i: int| 0 <= i < versions.len() ==> versions[i].0 <= max_key(versions),
    decreases versions.len(),
{
    if versions.len() > 1 {
        lemma_max_key(versions.drop_last());
        assert(forall|i: int|
            0 <= i < versions.len() - 1 ==> versions[i] == versions.drop_last()[i]);
        let rest = max_key(versions.drop_last());
        if versions.last().0 > rest {
            assert(versions[versions.len() - 1].0 == max_key(versions));
        } else {
            let j = choose|j: int|
                0 <= j < versions.drop_last().len() && versions.drop_last()[j].0 == rest;
            assert(versions[j].0 == max_key(versions));
        }
    } else {
        assert(versions[0].0 == max_key(versions));
    }
}

/// Version ids are unique in a well-formed manifest, so a tie for the
/// latest version is impossible: any two entries that both carry the
/// largest id are the same entry.
pub proof fn lemma_latest_unique(m: RemoteVersionResponse, i: int, j: int)
    requires
        manifest_wf(m),
        0 <= i < m.versions@.len(),
        0 <= j < m.versions@.len(),
        m.versions@[i].0 == max_key(m.versions@),
        m.versions@[j].0 == max_key(m.versions@),
    ensures
        i == j,
{
    if i < j {
        assert(m.versions@[i].0 != m.versions@[j].0);
    } else if j < i {
        assert(m.versions@[j].0 != m.versions@[i].0);
    }
}

/// Spec: the file name that identifies the patch from `from` to `to`:
/// `{short}-{from}to{to}.pwr`.
pub open spec fn patch_file_pattern(short: Seq<char>, from: nat, to: nat) -> Seq<char> {
    short + seq!['-'] + dec_rep(from) + seq!['t', 'o'] + dec_rep(to) + seq!['.', 'p', 'w', 'r']
}

/// Spec: how many patches of the table carry exactly this file name.
pub open spec fn count_patch_matches(patches: Seq<(usize, RemotePatch)>, pat: Seq<char>) -> nat
    decreases patches.len(),
{
    if patches.len() == 0 {
        0
    } else {
        count_patch_matches(patches.drop_last(), pat) + if patches.last().1.file@ == pat {
            1nat
        } else {
            0nat
        }
    }
}

/// The context of one workflow invocation.
#[derive(Debug, Clone)]
pub struct RunnerContext {
    /// the sourcemods directory
    pub sourcemod_path: String,
    /// the manifest fetched for this invocation
    pub remote_version_list: RemoteVersionResponse,
    /// version recorded by the local marker, when managed
    pub current_version: Option<usize>,
    /// compiled-in configuration
    pub appvar: AppVarData,
}

impl RunnerContext {
    /// Get the location of the sourcemod mod:
    /// `{sourcemod_dir}/{sourcemod_name}/`.
    pub fn get_mod_location(&self) -> (r: String)
        ensures
            r@ == join_path_spec(self.sourcemod_path@, data_dir_spec(self.appvar)),
    {
        join_path(self.sourcemod_path.clone(), data_dir(&self.appvar))
    }

    /// Get the staging location for the patcher:
    /// `{sourcemod_dir}/butler-staging`.
    pub fn get_staging_location(&self) -> (r: String)
        ensures
            r@ == join_path_spec(self.sourcemod_path@, STAGING_DIR@),
    {
        join_path(self.sourcemod_path.clone(), STAGING_DIR.to_owned())
    }

    /// Get the location of `gameinfo.txt` inside of the folder returned
    /// by `get_mod_location`.
    pub fn gameinfo_location(&self) -> (r: String)
        ensures
            r@ == join_path_spec(self.sourcemod_path@, data_dir_spec(self.appvar))
                + "gameinfo.txt"@,
    {
        let mut location = self.get_mod_location();
        location.append("gameinfo.txt");
        location
    }

    /// The entry of the manifest with the strictly largest version id.
    ///
    /// Version ids are unique, so the entry is unique; the manifest must
    /// not be empty.
    pub fn latest_remote_version(&self) -> (r: (usize, &RemoteVersion))
        requires
            self.remote_version_list.versions@.len() > 0,
        ensures
            r.0 == max_key(self.remote_version_list.versions@),
            exists|i: int|
                0 <= i < self.remote_version_list.versions@.len()
                    && #[trigger] self.remote_version_list.versions@[i].0 == r.0
                    && self.remote_version_list.versions@[i].1 == *r.1,
            forall|i: int|
                0 <= i < self.remote_version_list.versions@.len()
                    ==> #[trigger] self.remote_version_list.versions@[i].0 <= r.0,
    {
        let versions = &self.remote_version_list.versions;
        let ghost vs = versions@;
        let mut best: usize = 0;
        let mut best_key: usize = versions[0].0;
        let mut i: usize = 1;
        proof {
            assert(vs.take(1).drop_last() =~= Seq::<(usize, RemoteVersion)>::empty());
            assert(vs.take(1)[0] == vs[0]);
        }
        while i < versions.len()
            invariant
                1 <= i <= vs.len(),
                vs.len() == versions@.len(),
                versions@ == vs,
                best < i,
                best_key == max_key(vs.take(i as int)),
                vs[best as int].0 == best_key,
            decreases vs.len() - i,
        {
            proof {
                assert(vs.take(i + 1).drop_last() =~= vs.take(i as int));
                assert(vs.take(i + 1).last() == vs[i as int]);
            }
            if versions[i].0 > best_key {
                best_key = versions[i].0;
                best = i;
            }
            i += 1;
        }
        proof {
            assert(vs.take(vs.len() as int) =~= vs);
            lemma_max_key(vs);
        }
        (best_key, &versions[best].1)
    }

    /// The manifest entry that matches the currently installed version.
    ///
    /// Fails when no version is installed, or when the installed version
    /// is not on the server any more.
    pub fn current_remote_version(&self) -> (r: Result<&RemoteVersion, BeansError>)
        ensures
            match r {
                Ok(v) => self.current_version matches Some(cv) && exists|i: int|
                    0 <= i < self.remote_version_list.versions@.len()
                        && #[trigger] self.remote_version_list.versions@[i].0 == cv
                        && self.remote_version_list.versions@[i].1 == *v,
                Err(e) => (e matches BeansError::RemoteVersionNotFound { version } && version
                    == self.current_version) && match self.current_version {
                    Some(cv) => forall|i: int|
                        0 <= i < self.remote_version_list.versions@.len()
                            ==> #[trigger] self.remote_version_list.versions@[i].0 != cv,
                    None => true,
                },
            },
    {
        let versions = &self.remote_version_list.versions;
        match self.current_version {
            Some(cv) => {
                let mut i: usize = 0;
                while i < versions.len()
                    invariant
                        i <= versions@.len(),
                        versions@ == self.remote_version_list.versions@,
                        self.current_version == Some(cv),
                        forall|j: int| 0 <= j < i ==> #[trigger] versions@[j].0 != cv,
                    decreases versions@.len() - i,
                {
                    if versions[i].0 == cv {
                        proof {
                            assert(self.remote_version_list.versions@[i as int].0 == cv);
                        }
                        return Ok(&versions[i].1);
                    }
                    i += 1;
                }
                Err(BeansError::RemoteVersionNotFound { version: self.current_version })
            },
            None => Err(BeansError::RemoteVersionNotFound { version: self.current_version }),
        }
    }

    /// The patch that brings the currently installed version in line with
    /// the latest version, when exactly one patch in the manifest carries
    /// the file name `{short}-{current}to{latest}.pwr`.
    ///
    /// No chaining is attempted: any other manifest content — no match,
    /// or an ambiguous double match — yields `None`, as does an install
    /// without a current version.
    pub fn has_patch_available(&self) -> (r: Option<&RemotePatch>)
        requires
            self.remote_version_list.versions@.len() > 0,
        ensures
            ({
                let patches = self.remote_version_list.patches@;
                let latest = max_key(self.remote_version_list.versions@);
                match r {
                    Some(p) => self.current_version matches Some(cv) && {
                        let pat = patch_file_pattern(
                            self.appvar.mod_info.short_name@,
                            cv as nat,
                            latest as nat,
                        );
                        &&& count_patch_matches(patches, pat) == 1
                        &&& p.file@ == pat
                        &&& exists|i: int|
                            0 <= i < patches.len() && #[trigger] patches[i].1 == *p
                    },
                    None => match self.current_version {
                        Some(cv) => count_patch_matches(
                            patches,
                            patch_file_pattern(
                                self.appvar.mod_info.short_name@,
                                cv as nat,
                                latest as nat,
                            ),
                        ) != 1,
                        None => true,
                    },
                }
            }),
    {
        let cv = match self.current_version {
            Some(v) => v,
            None => {
                return None;
            },
        };
        let (latest, _) = self.latest_remote_version();
        let pattern = self.patch_file_name(cv, latest);
        let patches = &self.remote_version_list.patches;
        let mut count: usize = 0;
        let mut found: usize = 0;
        let mut i: usize = 0;
        proof {
            assert(patches@.take(0) =~= Seq::<(usize, RemotePatch)>::empty());
        }
        while i < patches.len()
            invariant
                i <= patches@.len(),
                count <= i,
                count as nat == count_patch_matches(patches@.take(i as int), pattern@),
                count >= 1 ==> found < i && patches@[found as int].1.file@ == pattern@,
            decreases patches@.len() - i,
        {
            proof {
                assert(patches@.take(i + 1).drop_last() =~= patches@.take(i as int));
                assert(patches@.take(i + 1).last() == patches@[i as int]);
            }
            if str_eq(patches[i].1.file.as_str(), pattern.as_str()) {
                count += 1;
                if count == 1 {
                    found = i;
                }
            }
            i += 1;
        }
        proof {
            assert(patches@.take(patches@.len() as int) =~= patches@);
        }
        if count == 1 {
            Some(&patches[found].1)
        } else {
            None
        }
    }

    /// The permission bits a mutating operation must set on
    /// `gameinfo.txt` (owner read-write, others read), or nothing when
    /// the file does not exist. Applying the bits is the caller's job;
    /// two passes bracket each write of the file, because the file may
    /// be marked read-only.
    pub fn gameinfo_perms(&self, file_exists: bool) -> (r: Option<u32>)
        ensures
            r == (if file_exists {
                Some(0o644u32)
            } else {
                None::<u32>
            }),
    {
        if file_exists {
            Some(0o644)
        } else {
            None
        }
    }

    /// Decide whether the stale server binary standing at the symlink
    /// location must be removed before the patcher runs: a regular file
    /// where the symlink belongs would shadow the patched one. Removing
    /// it is the caller's job.
    pub fn prepare_symlink(&self, exists: bool, is_symlink: bool) -> (r: bool)
        ensures
            r == (exists && !is_symlink),
    {
        exists && !is_symlink
    }

    /// The location the server-binary symlink is expected at, inside the
    /// mod directory.
    pub fn symlink_location(&self) -> (r: String)
        ensures
            r@ == join_path_spec(self.sourcemod_path@, data_dir_spec(self.appvar))
                + "bin/server_srv.so"@,
    {
        let mut location = self.get_mod_location();
        location.append("bin/server_srv.so");
        location
    }

    /// The file name identifying the patch from `from` to `to`.
    pub fn patch_file_name(&self, from: usize, to: usize) -> (r: String)
        ensures
            r@ == patch_file_pattern(self.appvar.mod_info.short_name@, from as nat, to as nat),
    {
        proof {
            reveal_strlit("-");
            reveal_strlit("to");
            reveal_strlit(".pwr");
        }
        let mut out = self.appvar.mod_info.short_name.clone();
        out.append("-");
        let from_s = usize_to_string(from);
        out.append(from_s.as_str());
        out.append("to");
        let to_s = usize_to_string(to);
        out.append(to_s.as_str());
        out.append(".pwr");
        proof {
            assert(out@ =~= patch_file_pattern(
                self.appvar.mod_info.short_name@,
                from as nat,
                to as nat,
            ));
        }
        out
    }
}

} // verus!
