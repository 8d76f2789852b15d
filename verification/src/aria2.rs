//! Resolution of the download accelerator and the argument list it is
//! started with.

use vstd::prelude::*;

verus! {

/// Can the download accelerator be used (given where it was looked for)?
pub fn can_use_aria2(executable_location: &Option<String>) -> (r: bool)
    ensures
        r == (executable_location is Some),
{
    executable_location.is_some()
}

/// Pick the accelerator executable: the one found on the search path
/// first (plain name, then with the executable suffix), else the bundled
/// one when it exists on disk.
pub fn get_executable_location(
    on_path: Option<String>,
    on_path_exe: Option<String>,
    bundled: Option<String>,
    bundled_exists: bool,
) -> (r: Option<String>)
    ensures
        match r {
            Some(loc) => {
                ||| on_path matches Some(l) && loc == l
                ||| on_path is None && (on_path_exe matches Some(l) && loc == l)
                ||| on_path is None && on_path_exe is None && bundled_exists && (bundled matches
                    Some(l) && loc == l)
            },
            None => on_path is None && on_path_exe is None && (bundled is None
                || !bundled_exists),
        },
{
    if let Some(r) = on_path {
        return Some(r);
    }
    if let Some(r) = on_path_exe {
        return Some(r);
    }
    if bundled_exists {
        if let Some(x) = bundled {
            return Some(x);
        }
    }
    None
}

/// The argument list the accelerator is started with: output directory,
/// output file name, resume, user agent, and the URL.
pub fn build_download_args(
    output_directory: String,
    output_filename: String,
    user_agent: String,
    url: String,
) -> (r: Vec<String>)
    ensures
        r@.len() == 6,
        r@[0]@ == "-d"@,
        r@[1]@ == output_directory@,
        r@[2]@ == "--out="@ + output_filename@,
        r@[3]@ == "-c"@,
        r@[4]@ == "--user-agent="@ + user_agent@,
        r@[5]@ == url@,
{
    let mut out_arg = "--out=".to_owned();
    out_arg.append(output_filename.as_str());
    let mut ua_arg = "--user-agent=".to_owned();
    ua_arg.append(user_agent.as_str());
    let mut args: Vec<String> = Vec::new();
    args.push("-d".to_owned());
    args.push(output_directory);
    args.push(out_arg);
    args.push("-c".to_owned());
    args.push(ua_arg);
    args.push(url);
    args
}

} // verus!
