//! The argument lists the external patcher is invoked with.
//!
//! Spawning the patcher, piping its streams and joining the readers is
//! the caller's job; the exact command lines for its two operations are
//! built and pinned down here.

use vstd::prelude::*;

verus! {

/// Arguments of the patcher's `verify` operation: verify `gamedir`
/// against the signature, healing from the remote archive.
pub fn verify_args(signature_url: String, gamedir: String, remote: String) -> (r: Vec<String>)
    ensures
        r@.len() == 4,
        r@[0]@ == "verify"@,
        r@[1]@ == signature_url@,
        r@[2]@ == gamedir@,
        r@[3]@ == "--heal=archive,"@ + remote@,
{
    let mut heal_arg = "--heal=archive,".to_owned();
    heal_arg.append(remote.as_str());
    let mut args: Vec<String> = Vec::new();
    args.push("verify".to_owned());
    args.push(signature_url);
    args.push(gamedir);
    args.push(heal_arg);
    args
}

/// Arguments of the patcher's `apply` operation: apply the patch file to
/// `gamedir`, staging in `staging_dir`.
pub fn patch_args(patchfile_location: String, staging_dir: String, gamedir: String) -> (r: Vec<
    String,
>)
    ensures
        r@.len() == 4,
        r@[0]@ == "apply"@,
        r@[1]@ == "--staging-dir="@ + staging_dir@,
        r@[2]@ == patchfile_location@,
        r@[3]@ == gamedir@,
{
    let mut staging_arg = "--staging-dir=".to_owned();
    staging_arg.append(staging_dir.as_str());
    let mut args: Vec<String> = Vec::new();
    args.push("apply".to_owned());
    args.push(staging_arg);
    args.push(patchfile_location);
    args.push(gamedir);
    args
}

} // verus!
