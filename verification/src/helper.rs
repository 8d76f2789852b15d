//! Installation-state detection and the small decision helpers used by
//! the workflows: free-space checks, path shaping, temporary-file naming,
//! and running-process detection.

use vstd::prelude::*;

use rand::RngExt;

use crate::error::BeansError;
use crate::strutil::{dec_rep, eq_ignore_case_spec, match_at_spec, usize_to_string};

verus! {

#[derive(Debug, Clone)]
pub enum InstallType {
    /// when the mod directory doesn't exist
    NotInstalled,
    /// when the modern marker (`.adastral`) exists in the mod directory
    Adastral,
    /// when the legacy marker (`.revision`) exists in the mod directory
    OtherSource,
    /// when only `gameinfo.txt` exists in the mod directory.
    ///
    /// When checking whether an `InstallType` equates to `OtherSource`,
    /// a right-hand `OtherSourceManual` also compares equal: both are
    /// foreign, unmanaged installs.
    OtherSourceManual,
}

/// Spec: the coarsened equality of installation states. It is not
/// symmetric: `OtherSource == OtherSourceManual` holds, the converse does
/// not, so that "is this a foreign install" checks written against
/// `OtherSource` also accept a marker-less foreign install.
pub open spec fn install_type_eq(a: InstallType, b: InstallType) -> bool {
    match a {
        InstallType::NotInstalled => b is NotInstalled,
        InstallType::Adastral => b is Adastral,
        InstallType::OtherSource => b is OtherSource || b is OtherSourceManual,
        InstallType::OtherSourceManual => b is OtherSourceManual,
    }
}

impl PartialEq for InstallType {
    fn eq(&self, other: &Self) -> (r: bool) {
        match self {
            InstallType::NotInstalled => matches!(other, InstallType::NotInstalled),
            InstallType::Adastral => matches!(other, InstallType::Adastral),
            InstallType::OtherSource => matches!(
                other,
                InstallType::OtherSource | InstallType::OtherSourceManual
            ),
            InstallType::OtherSourceManual => matches!(other, InstallType::OtherSourceManual),
        }
    }
}

impl vstd::std_specs::cmp::PartialEqSpecImpl for InstallType {
    open spec fn obeys_eq_spec() -> bool {
        true
    }

    open spec fn eq_spec(&self, other: &Self) -> bool {
        install_type_eq(*self, *other)
    }
}

/// Classify an install root from the presence of its marker files.
///
/// The checks are ordered: the modern marker wins over the legacy marker,
/// which wins over a bare content file; a root with none of the three is
/// not installed.
pub fn install_state(has_adastral: bool, has_revision: bool, has_gameinfo: bool) -> (r:
    InstallType)
    ensures
        r == (if has_adastral {
            InstallType::Adastral
        } else if has_revision {
            InstallType::OtherSource
        } else if has_gameinfo {
            InstallType::OtherSourceManual
        } else {
            InstallType::NotInstalled
        }),
{
    if has_adastral {
        InstallType::Adastral
    } else if has_revision {
        InstallType::OtherSource
    } else if has_gameinfo {
        InstallType::OtherSourceManual
    } else {
        InstallType::NotInstalled
    }
}

/// Does a drive with `available` bytes free have room for `size` bytes?
///
/// The comparison is strict: a size exactly equal to the free space does
/// not fit.
pub fn has_free_space(available: u64, size: usize) -> (r: bool)
    ensures
        r == ((size as int) < (available as int)),
{
    (size as u64) < available
}

/// Does the sourcemod drive, with `available` bytes free, have room for
/// `size` bytes? Same strict comparison as `has_free_space`.
pub fn sml_has_free_space(available: u64, size: usize) -> (r: bool)
    ensures
        r == ((size as int) < (available as int)),
{
    has_free_space(available, size)
}

/// Spec: `s` with every backslash turned into the path separator.
pub open spec fn norm_seps(s: Seq<char>) -> Seq<char> {
    s.map_values(|c: char| if c == '\\' { '/' } else { c })
}

/// Spec: `s` without leading path separators.
pub open spec fn strip_leading_seps(s: Seq<char>) -> Seq<char>
    decreases s.len(),
{
    if s.len() > 0 && s[0] == '/' {
        strip_leading_seps(s.skip(1))
    } else {
        s
    }
}

/// Spec: `s` without trailing path separators.
pub open spec fn strip_trailing_seps(s: Seq<char>) -> Seq<char>
    decreases s.len(),
{
    if s.len() > 0 && s.last() == '/' {
        strip_trailing_seps(s.drop_last())
    } else {
        s
    }
}

/// Spec: `s` shaped as a directory path: separators normalized, trailing
/// separators dropped, and exactly one separator appended.
pub open spec fn format_dir_spec(s: Seq<char>) -> Seq<char> {
    strip_trailing_seps(norm_seps(s)) + seq!['/']
}

/// Spec: `join_path(tail, head)`: `tail` shaped as a directory, then
/// `head` with its separators normalized and its leading separators
/// dropped.
pub open spec fn join_path_spec(tail: Seq<char>, head: Seq<char>) -> Seq<char> {
    format_dir_spec(tail) + strip_leading_seps(norm_seps(head))
}

/// Is `c` a path separator (either style)?
fn is_sep(c: char) -> (r: bool)
    ensures
        r == (c == '/' || c == '\\'),
{
    c == '/' || c == '\\'
}

/// Make sure that the location provided is formatted as a directory
/// (separators normalized, ends with exactly one separator).
pub fn format_directory_path(location: String) -> (r: String)
    ensures
        r@ == format_dir_spec(location@),
{
    let s = location.as_str();
    let n = s.unicode_len();
    let mut hi: usize = n;
    proof {
        assert(s@.take(n as int) =~= s@);
    }
    while hi > 0 && is_sep(s.get_char(hi - 1))
        invariant
            hi <= n,
            n == s@.len(),
            strip_trailing_seps(norm_seps(s@)) == strip_trailing_seps(norm_seps(
                s@.take(hi as int),
            )),
        decreases hi,
    {
        proof {
            let cur = norm_seps(s@.take(hi as int));
            assert(cur.last() == '/');
            assert(cur.drop_last() =~= norm_seps(s@.take(hi - 1)));
        }
        hi -= 1;
    }
    proof {
        let cur = norm_seps(s@.take(hi as int));
        if hi == 0 {
            assert(cur =~= Seq::<char>::empty());
        } else {
            assert(cur.last() != '/');
        }
        assert(strip_trailing_seps(cur) == cur);
    }
    let mut out = String::new();
    let mut i: usize = 0;
    while i < hi
        invariant
            i <= hi <= n,
            n == s@.len(),
            out@ == norm_seps(s@.take(hi as int)).take(i as int),
        decreases hi - i,
    {
        let c = s.get_char(i);
        if is_sep(c) {
            out.append("/");
            proof {
                reveal_strlit("/");
            }
        } else {
            crate::strutil::push_char_from(&mut out, s, i);
        }
        proof {
            assert(out@ =~= norm_seps(s@.take(hi as int)).take(i + 1));
        }
        i += 1;
    }
    out.append("/");
    proof {
        reveal_strlit("/");
        assert(norm_seps(s@.take(hi as int)).take(hi as int) =~= norm_seps(s@.take(hi as int)));
        assert(out@ =~= format_dir_spec(s@));
    }
    out
}

/// Join the path, using `tail` as the base, and `head` as the thing to
/// add on top of it. Backslashes and forward slashes are both normalized
/// to the path separator.
pub fn join_path(tail: String, head: String) -> (r: String)
    ensures
        r@ == join_path_spec(tail@, head@),
{
    let h = head.as_str();
    let n = h.unicode_len();
    let mut lo: usize = 0;
    proof {
        assert(h@.skip(0) =~= h@);
        assert(norm_seps(h@).skip(0) =~= norm_seps(h@));
    }
    while lo < n && is_sep(h.get_char(lo))
        invariant
            lo <= n,
            n == h@.len(),
            strip_leading_seps(norm_seps(h@)) == strip_leading_seps(norm_seps(h@).skip(lo as int)),
        decreases n - lo,
    {
        proof {
            let cur = norm_seps(h@).skip(lo as int);
            assert(cur[0] == '/');
            assert(cur.skip(1) =~= norm_seps(h@).skip(lo + 1));
        }
        lo += 1;
    }
    proof {
        let cur = norm_seps(h@).skip(lo as int);
        if lo == n {
            assert(cur =~= Seq::<char>::empty());
        } else {
            assert(cur[0] != '/');
        }
        assert(strip_leading_seps(cur) == cur);
    }
    let ghost tail_view = tail@;
    let mut out = format_directory_path(tail);
    let mut i: usize = lo;
    while i < n
        invariant
            lo <= i <= n,
            n == h@.len(),
            out@ == format_dir_spec(tail_view) + norm_seps(h@).skip(lo as int).take(
                i - lo,
            ),
        decreases n - i,
    {
        let c = h.get_char(i);
        if is_sep(c) {
            out.append("/");
            proof {
                reveal_strlit("/");
            }
        } else {
            crate::strutil::push_char_from(&mut out, h, i);
        }
        proof {
            assert(out@ =~= format_dir_spec(tail_view) + norm_seps(h@).skip(
                lo as int,
            ).take(i + 1 - lo));
        }
        i += 1;
    }
    proof {
        assert(norm_seps(h@).skip(lo as int).take(n - lo) =~= norm_seps(h@).skip(lo as int));
    }
    out
}

/// Spec: position of the last path separator of `s`, if any.
pub open spec fn last_sep(s: Seq<char>) -> Option<int>
    decreases s.len(),
{
    if s.len() == 0 {
        None
    } else if s.last() == '/' {
        Some(s.len() - 1)
    } else {
        last_sep(s.drop_last())
    }
}

/// Spec: `s` without its last path component: everything before the last
/// separator (the lone separator itself for a top-level path), or empty
/// when there is no separator.
pub open spec fn parent_spec(s: Seq<char>) -> Seq<char> {
    match last_sep(s) {
        None => Seq::<char>::empty(),
        Some(k) => if k == 0 {
            if s.len() == 1 {
                Seq::<char>::empty()
            } else {
                seq!['/']
            }
        } else {
            s.take(k)
        },
    }
}

/// Drop the last component of `location`: everything from the last path
/// separator on (for a path without separators, the whole of it).
pub fn remove_path_head(location: String) -> (r: String)
    ensures
        r@ == parent_spec(location@),
{
    let s = location.as_str();
    let n = s.unicode_len();
    let mut k: usize = n;
    proof {
        assert(s@.take(n as int) =~= s@);
    }
    while k > 0 && s.get_char(k - 1) != '/'
        invariant
            k <= n,
            n == s@.len(),
            last_sep(s@) == last_sep(s@.take(k as int)),
        decreases k,
    {
        proof {
            let cur = s@.take(k as int);
            assert(cur.drop_last() =~= s@.take(k - 1));
        }
        k -= 1;
    }
    if k == 0 {
        proof {
            assert(s@.take(0) =~= Seq::<char>::empty());
        }
        return String::new();
    }
    proof {
        assert(s@.take(k as int).last() == s@[k - 1]);
        assert(last_sep(s@) == Some(k - 1 as int));
    }
    if k == 1 {
        if n == 1 {
            return String::new();
        }
        proof {
            reveal_strlit("/");
        }
        let r = "/".to_owned();
        proof {
            assert(r@ =~= seq!['/']);
        }
        return r;
    }
    let r = s.substring_char(0, k - 1).to_owned();
    proof {
        assert(r@ =~= s@.take(k - 1));
    }
    r
}

/// Spec: `c` is an upper-case ASCII letter or a digit.
pub open spec fn is_upper_alnum(c: char) -> bool {
    (48 <= (c as u32) && (c as u32) <= 57) || (65 <= (c as u32) && (c as u32) <= 90)
}

/// A random string of upper-case letters and digits of the given length.
///
/// Relies on rand's `Alphanumeric` distribution: every sampled byte is
/// an ASCII letter or digit, so upper-casing keeps the length and leaves
/// only upper-case letters and digits.
#[verifier::external_body]
pub fn generate_rand_str(length: usize) -> (r: String)
    ensures
        r@.len() == length as nat,
        forall|i: int| 0 <= i < r@.len() ==> is_upper_alnum(#[trigger] r@[i]),
{
    let s: String = rand::rng()
        .sample_iter(rand::distr::Alphanumeric)
        .take(length)
        .map(char::from)
        .collect();
    s.to_uppercase()
}

/// Spec: `r` is a temporary-file location under `tmp_dir`: a random
/// eight-character upper-case alphanumeric prefix, an underscore, and
/// the file name.
pub open spec fn is_tmp_file_name(
    r: Seq<char>,
    tmp_dir: Seq<char>,
    filename: Seq<char>,
    rand: Seq<char>,
) -> bool {
    &&& rand.len() == 8
    &&& forall|i: int| 0 <= i < rand.len() ==> is_upper_alnum(#[trigger] rand[i])
    &&& r == join_path_spec(tmp_dir, rand + seq!['_'] + filename)
}

/// Generate a full file location for a temporary file: a random prefix,
/// an underscore, and the file name, joined under the temporary
/// directory.
pub fn get_tmp_file(tmp_dir: String, filename: String) -> (r: String)
    ensures
        exists|rand: Seq<char>| is_tmp_file_name(r@, tmp_dir@, filename@, rand),
{
    proof {
        reveal_strlit("_");
    }
    let mut head = generate_rand_str(8);
    let ghost rand = head@;
    head.append("_");
    head.append(filename.as_str());
    let ghost head_view = head@;
    proof {
        assert(head@ =~= rand + seq!['_'] + filename@);
    }
    let ghost tmp_view = tmp_dir@;
    let ghost fname_view = filename@;
    let r = join_path(tmp_dir, head);
    proof {
        assert(is_tmp_file_name(r@, tmp_view, fname_view, rand));
    }
    r
}

/// Choose the base temporary directory, then put the tool's own
/// directory under it: a custom directory when one is configured, the
/// home `.tmp` directory on a steam deck, and the system temporary
/// directory otherwise.
pub fn get_tmp_dir(custom_tmpdir: Option<String>, steamdeck: bool, home: Option<String>) -> (r:
    String)
    ensures
        ({
            let base = match custom_tmpdir {
                Some(c) => c@,
                None => if steamdeck && home is Some {
                    join_path_spec(format_dir_spec(home->0@), ".tmp"@)
                } else {
                    "/var/tmp"@
                },
            };
            r@ == format_dir_spec(join_path_spec(base, "beans-rs"@))
        }),
{
    let base: String = match custom_tmpdir {
        Some(c) => c,
        None => {
            let mut chosen: Option<String> = None;
            if steamdeck {
                if let Some(h) = home {
                    chosen = Some(join_path(format_directory_path(h), ".tmp".to_owned()));
                }
            }
            match chosen {
                Some(d) => d,
                None => "/var/tmp".to_owned(),
            }
        },
    };
    let joined = join_path(base, "beans-rs".to_owned());
    format_directory_path(joined)
}

/// Check if the custom temporary directory should be used: its
/// environment variable must be set and the directory must exist.
pub fn use_custom_tmpdir(env_value: Option<String>, directory_exists: bool) -> (r: Option<
    String,
>)
    ensures
        match r {
            Some(v) => directory_exists && (env_value matches Some(x) && v == x),
            None => env_value is None || !directory_exists,
        },
{
    if directory_exists {
        env_value
    } else {
        None
    }
}

/// One process of the machine, by plain values: its id, its executable
/// name, and its command line.
#[derive(Debug, Clone)]
pub struct ProcessInfo {
    pub pid: u32,
    pub name: String,
    pub cmd: Vec<String>,
}

/// The processes running on this machine right now.
///
/// Relies on sysinfo's `System::processes`: each entry is converted to
/// plain values. What is running changes under our feet, so nothing is
/// promised of the result.
#[verifier::external_body]
fn list_processes() -> Vec<ProcessInfo> {
    let mut sys = sysinfo::System::new_all();
    sys.refresh_all();
    sys.processes().values().map(|p| ProcessInfo {
        pid: p.pid().as_u32(),
        name: p.name().to_string_lossy().into_owned(),
        cmd: p.cmd().iter().map(|c| c.to_string_lossy().into_owned()).collect(),
    }).collect()
}

/// Spec: `dir` wrapped in double quotes.
pub open spec fn quoted(dir: Seq<char>) -> Seq<char> {
    seq!['"'] + dir + seq!['"']
}

/// Spec: `p` is a running instance of the content at `dir`: either the
/// engine process whose command line starts with `dir` (bare or
/// quoted), or any process other than this launcher whose command line
/// starts with `dir`.
pub open spec fn is_game_process(p: ProcessInfo, dir: Seq<char>) -> bool {
    ||| (p.name@ == "hl2.exe"@ && exists|i: int|
        0 <= i < p.cmd@.len() && (match_at_spec(#[trigger] p.cmd@[i]@, 0, dir) || match_at_spec(
            p.cmd@[i]@,
            0,
            quoted(dir),
        )))
    ||| ((exists|i: int| 0 <= i < p.cmd@.len() && match_at_spec(#[trigger] p.cmd@[i]@, 0, dir))
        && !eq_ignore_case_spec(p.name@, "beans"@) && !eq_ignore_case_spec(p.name@, "beans-rs"@))
}

/// Does this process count as a running instance of the content at
/// `dir`?
fn process_matches(p: &ProcessInfo, dir: &str, quoted_dir: &str) -> (r: bool)
    requires
        quoted_dir@ == quoted(dir@),
    ensures
        r == is_game_process(*p, dir@),
{
    proof {
        reveal_strlit("hl2.exe");
        reveal_strlit("beans");
        reveal_strlit("beans-rs");
    }
    let mut any_plain = false;
    let mut any_plain_or_quoted = false;
    let mut i: usize = 0;
    let n = p.cmd.len();
    while i < n
        invariant
            i <= n,
            n == p.cmd@.len(),
            quoted_dir@ == quoted(dir@),
            any_plain == exists|j: int|
                0 <= j < i && match_at_spec(#[trigger] p.cmd@[j]@, 0, dir@),
            any_plain_or_quoted == exists|j: int|
                0 <= j < i && (match_at_spec(#[trigger] p.cmd@[j]@, 0, dir@) || match_at_spec(
                    p.cmd@[j]@,
                    0,
                    quoted(dir@),
                )),
        decreases n - i,
    {
        let arg = &p.cmd[i];
        let plain = crate::strutil::match_at(arg.as_str(), 0, dir);
        let quoted_hit = crate::strutil::match_at(arg.as_str(), 0, quoted_dir);
        if plain {
            any_plain = true;
        }
        if plain || quoted_hit {
            any_plain_or_quoted = true;
        }
        i += 1;
    }
    let name_is_engine = crate::strutil::str_eq(p.name.as_str(), "hl2.exe");
    let name_is_launcher = crate::strutil::eq_ignore_ascii_case(p.name.as_str(), "beans")
        || crate::strutil::eq_ignore_ascii_case(p.name.as_str(), "beans-rs");
    (name_is_engine && any_plain_or_quoted) || (any_plain && !name_is_launcher)
}

/// The first listed process that is a running instance of the content
/// at `mod_directory`, if any.
pub fn find_game_process(processes: &Vec<ProcessInfo>, mod_directory: &str) -> (r: Option<u32>)
    ensures
        match r {
            Some(pid) => exists|i: int|
                0 <= i < processes@.len() && is_game_process(#[trigger] processes@[i],
                    mod_directory@) && processes@[i].pid == pid,
            None => forall|i: int|
                0 <= i < processes@.len() ==> !is_game_process(#[trigger] processes@[i],
                    mod_directory@),
        },
{
    proof {
        reveal_strlit("\"");
    }
    let mut quoted_dir = "\"".to_owned();
    quoted_dir.append(mod_directory);
    quoted_dir.append("\"");
    proof {
        assert(quoted_dir@ =~= quoted(mod_directory@));
    }
    let mut i: usize = 0;
    while i < processes.len()
        invariant
            i <= processes@.len(),
            quoted_dir@ == quoted(mod_directory@),
            forall|j: int|
                0 <= j < i ==> !is_game_process(#[trigger] processes@[j], mod_directory@),
        decreases processes@.len() - i,
    {
        if process_matches(&processes[i], mod_directory, quoted_dir.as_str()) {
            return Some(processes[i].pid);
        }
        i += 1;
    }
    None
}

/// Check if there are any running instances of the content at
/// `mod_directory`: the engine process started on it, or any process
/// (other than this launcher) whose command line uses it. Which
/// processes exist is the machine's business; whatever list comes back
/// is searched with `find_game_process`.
pub fn is_game_running(mod_directory: String) -> Option<u32> {
    let processes = list_processes();
    find_game_process(&processes, mod_directory.as_str())
}

/// The mounted disks of this machine: mount point and available bytes.
///
/// Relies on sysinfo's `Disks`: each disk is converted to plain values.
/// What is mounted and how full it is changes under our feet, so nothing
/// is promised of the result.
#[verifier::external_body]
fn list_disks() -> Vec<(String, u64)> {
    let disks = sysinfo::Disks::new_with_refreshed_list();
    disks.list().iter().map(
        |d| (d.mount_point().to_string_lossy().into_owned(), d.available_space()),
    ).collect()
}

/// Spec: the available space of the first disk mounted exactly at
/// `loc`.
pub open spec fn first_disk(disks: Seq<(String, u64)>, loc: Seq<char>) -> Option<u64>
    decreases disks.len(),
{
    if disks.len() == 0 {
        None
    } else if disks[0].0@ == loc {
        Some(disks[0].1)
    } else {
        first_disk(disks.skip(1), loc)
    }
}

/// The position of the last separator is inside the string.
proof fn lemma_last_sep_bounds(s: Seq<char>)
    ensures
        match last_sep(s) {
            Some(k) => 0 <= k < s.len(),
            None => true,
        },
    decreases s.len(),
{
    if s.len() > 0 && s.last() != '/' {
        lemma_last_sep_bounds(s.drop_last());
    }
}

/// Dropping the last path component shortens a non-empty path.
proof fn lemma_parent_shrinks(s: Seq<char>)
    requires
        s.len() > 0,
    ensures
        parent_spec(s).len() < s.len(),
{
    lemma_last_sep_bounds(s);
}

/// Spec: the free space at `loc`: the first disk mounted at `loc`
/// itself, else the lookup at the path with its last component
/// dropped; a path that runs out has no known free space.
pub open spec fn free_space_lookup(loc: Seq<char>, disks: Seq<(String, u64)>) -> Option<u64>
    decreases loc.len(),
    via free_space_lookup_dec
{
    if loc.len() == 0 {
        None
    } else {
        match first_disk(disks, loc) {
            Some(a) => Some(a),
            None => free_space_lookup(parent_spec(loc), disks),
        }
    }
}

#[via_fn]
proof fn free_space_lookup_dec(loc: Seq<char>, disks: Seq<(String, u64)>) {
    if loc.len() > 0 {
        lemma_parent_shrinks(loc);
    }
}

/// The amount of free space at `location` given the mounted disks:
/// the path is walked upwards, one component at a time, until it hits a
/// mount point.
pub fn free_space_at(location: String, disks: &Vec<(String, u64)>) -> (r: Result<u64, BeansError>)
    ensures
        match r {
            Ok(v) => free_space_lookup(location@, disks@) == Some(v),
            Err(_) => free_space_lookup(location@, disks@) is None,
        },
{
    let ghost orig = location@;
    let mut l = location;
    loop
        invariant
            free_space_lookup(orig, disks@) == free_space_lookup(l@, disks@),
            orig == location@,
        decreases l@.len(),
    {
        let n = l.as_str().unicode_len();
        if n == 0 {
            return Err(BeansError::FreeSpaceCheckFailure { location: l });
        }
        match disk_available(disks, l.as_str()) {
            Some(a) => {
                return Ok(a);
            },
            None => {
                proof {
                    lemma_parent_shrinks(l@);
                }
                l = remove_path_head(l);
            },
        }
    }
}

/// The available space of the first disk mounted exactly at `loc`.
fn disk_available(disks: &Vec<(String, u64)>, loc: &str) -> (r: Option<u64>)
    ensures
        r == first_disk(disks@, loc@),
{
    let mut i: usize = 0;
    proof {
        assert(disks@.skip(0) =~= disks@);
    }
    while i < disks.len()
        invariant
            i <= disks@.len(),
            first_disk(disks@, loc@) == first_disk(disks@.skip(i as int), loc@),
        decreases disks@.len() - i,
    {
        proof {
            assert(disks@.skip(i as int)[0] == disks@[i as int]);
            assert(disks@.skip(i as int).skip(1) =~= disks@.skip(i + 1));
        }
        if crate::strutil::str_eq(disks[i].0.as_str(), loc) {
            return Some(disks[i].1);
        }
        i += 1;
    }
    proof {
        assert(disks@.skip(disks@.len() as int) =~= Seq::<(String, u64)>::empty());
    }
    None
}

/// Get the amount of free space on the drive in the location provided.
/// The mounted disks are the machine's business; whatever list comes
/// back is searched with `free_space_at`.
pub fn get_free_space(location: String) -> Result<u64, BeansError> {
    let disks = list_disks();
    free_space_at(location, &disks)
}

/// The current local time as a compact `YYYYmmdd-HHMMSS` stamp.
///
/// Relies on chrono's `Local::now` and `format`: the stamp depends on
/// the clock, so nothing is promised of the result.
#[verifier::external_body]
fn current_timestamp() -> String {
    chrono::Local::now().format("%Y%m%d-%H%M%S").to_string()
}

/// The file name of a config-file backup: the backed-up version (zero
/// when none is recorded) and a time stamp.
pub fn backup_file_name(version: Option<usize>, stamp: &str) -> (r: String)
    ensures
        r@ == dec_rep(
            match version {
                Some(v) => v as nat,
                None => 0,
            },
        ) + seq!['-'] + stamp@ + ".txt"@,
{
    proof {
        reveal_strlit("-");
        reveal_strlit(".txt");
    }
    let v = match version {
        Some(v) => v,
        None => 0,
    };
    let mut out = usize_to_string(v);
    out.append("-");
    out.append(stamp);
    out.append(".txt");
    proof {
        assert(out@ =~= dec_rep(
            match version {
                Some(v) => v as nat,
                None => 0,
            },
        ) + seq!['-'] + stamp@ + ".txt"@);
    }
    out
}

/// The uniquely named backup path for the config file: version id plus
/// the current time stamp, as a file name. The clock is the machine's
/// business; whatever stamp comes back is wrapped by
/// `backup_file_name`.
pub fn backup_gameinfo_name(version: Option<usize>) -> (r: String)
    ensures
        exists|stamp: Seq<char>| is_backup_name(r@, version, stamp),
{
    let stamp = current_timestamp();
    let r = backup_file_name(version, stamp.as_str());
    proof {
        assert(is_backup_name(r@, version, stamp@));
    }
    r
}

/// Spec: `r` is the backup name for `version` stamped with `stamp`.
pub open spec fn is_backup_name(r: Seq<char>, version: Option<usize>, stamp: Seq<char>) -> bool {
    r == dec_rep(
        match version {
            Some(v) => v as nat,
            None => 0,
        },
    ) + seq!['-'] + stamp + ".txt"@
}

/// Spec: the registry key that records the sourcemods directory.
pub open spec fn smpath_key() -> Seq<char> {
    "\"SourceModInstallPath\""@
}

/// Spec: the sourcemods path extracted from registry content `s`: `k0`
/// is the first occurrence of the key, `k` the last occurrence on that
/// line, and `path` is the rest of the line after `k`, trimmed, with
/// quotes removed, shaped as a directory.
pub open spec fn smpath_extraction(s: Seq<char>, k0: int, k: int, path: Seq<char>) -> bool {
    let pat = smpath_key();
    let le = crate::strutil::line_end(s, k0 + pat.len() as int);
    &&& match_at_spec(s, k0, pat)
    &&& forall|j: int| 0 <= j < k0 ==> !match_at_spec(s, j, pat)
    &&& k0 <= k && k + pat.len() <= le && match_at_spec(s, k, pat)
    &&& forall|j: int| k < j <= le - pat.len() ==> !match_at_spec(s, j, pat)
    &&& path == format_dir_spec(
        crate::strutil::replace_all_spec(
            crate::strutil::trim_spec(s.subrange(k + pat.len() as int, le)),
            "\""@,
            Seq::<char>::empty(),
        ),
    )
}

/// Spec: some pair of occurrences explains `path` as the extraction
/// from `s`.
pub open spec fn has_smpath_extraction(s: Seq<char>, path: Seq<char>) -> bool {
    exists|k0: int, k: int| smpath_extraction(s, k0, k, path)
}

/// Find the sourcemods directory in the content of the registry file
/// the game platform keeps.
///
/// The first line holding the install-path key decides; the value is
/// what follows the last occurrence of the key on that line, trimmed
/// and unquoted, shaped as a directory. Content without the key leaves
/// the location undiscovered.
pub fn find_sourcemod_path(registry_content: &str) -> (r: Result<String, BeansError>)
    ensures
        match r {
            Ok(path) => has_smpath_extraction(registry_content@, path@),
            Err(_) => forall|j: int| !match_at_spec(registry_content@, j, smpath_key()),
        },
{
    proof {
        reveal_strlit("\"SourceModInstallPath\"");
        reveal_strlit("\"");
    }
    let s = registry_content;
    let n = s.unicode_len();
    let pat = "\"SourceModInstallPath\"";
    let plen = pat.unicode_len();
    let k0 = match crate::strutil::find_first(s, pat) {
        Some(k) => k,
        None => {
            return Err(BeansError::SourceModLocationNotFound);
        },
    };
    proof {
        assert(k0 + plen <= n);
    }
    let le = crate::strutil::find_line_end(s, k0 + plen);
    let k = match crate::strutil::find_last_at_or_before(s, pat, le - plen) {
        Some(k) => k,
        None => {
            // the first occurrence is at or before the limit, so a last
            // occurrence exists
            proof {
                assert(false);
            }
            return Err(BeansError::SourceModLocationNotFound);
        },
    };
    proof {
        if k < k0 {
            assert(!match_at_spec(s@, k0 as int, smpath_key()));
        }
        reveal_strlit("");
        assert(""@ =~= Seq::<char>::empty());
    }
    let tail = s.substring_char(k + plen, le);
    let trimmed = crate::strutil::trim_ascii(tail);
    let unquoted = crate::strutil::replace_all(trimmed, "\"", "");
    let path = format_directory_path(unquoted);
    proof {
        assert(tail@ == s@.subrange(k + plen as int, le as int));
        assert(path@ == format_dir_spec(
            crate::strutil::replace_all_spec(
                crate::strutil::trim_spec(s@.subrange(k + plen as int, le as int)),
                "\""@,
                Seq::<char>::empty(),
            ),
        ));
        assert(smpath_extraction(registry_content@, k0 as int, k as int, path@));
        assert(has_smpath_extraction(registry_content@, path@));
    }
    Ok(path)
}

/// Spec: ten to the `k`.
pub open spec fn pow10(k: nat) -> nat
    decreases k,
{
    if k == 0 {
        1
    } else {
        10 * pow10((k - 1) as nat)
    }
}

/// A number of at least `pow10(k)` has more than `k` digits.
proof fn lemma_dec_rep_len_ge(n: nat, k: nat)
    requires
        n >= pow10(k),
    ensures
        dec_rep(n).len() >= k + 1,
    decreases k,
{
    if k > 0 {
        assert(pow10(k) == 10 * pow10((k - 1) as nat));
        assert(pow10((k - 1) as nat) >= 1) by {
            lemma_pow10_pos((k - 1) as nat);
        }
        assert(n >= 10);
        assert(n / 10 >= pow10((k - 1) as nat)) by (nonlinear_arith)
            requires
                n >= 10 * pow10((k - 1) as nat),
        ;
        lemma_dec_rep_len_ge(n / 10, (k - 1) as nat);
    }
}

/// Ten to any power is positive.
proof fn lemma_pow10_pos(k: nat)
    ensures
        pow10(k) >= 1,
    decreases k,
{
    if k > 0 {
        lemma_pow10_pos((k - 1) as nat);
    }
}

/// Spec: how many of the trailing digits of a size are shown as its
/// fractional part, by magnitude.
pub open spec fn size_dec_l(i: nat) -> nat {
    if i < 1000 {
        0
    } else if i < 1000000 {
        3
    } else if i < 1000000000 {
        6
    } else if i < 1000000000000 {
        9
    } else if i < 1000000000000000 {
        12
    } else if i < 1000000000000000000 {
        15
    } else {
        18
    }
}

/// Spec: the unit suffix of a size, by magnitude.
pub open spec fn size_suffix(i: nat) -> Seq<char> {
    if i < 1000 {
        "b"@
    } else if i < 1000000 {
        "kb"@
    } else if i < 1000000000 {
        "mb"@
    } else if i < 1000000000000 {
        "gb"@
    } else if i < 1000000000000000 {
        "tb"@
    } else {
        Seq::<char>::empty()
    }
}

/// Spec: `s` without trailing zero digits.
pub open spec fn strip_trailing_zeros(s: Seq<char>) -> Seq<char>
    decreases s.len(),
{
    if s.len() > 0 && s.last() == '0' {
        strip_trailing_zeros(s.drop_last())
    } else {
        s
    }
}

/// Spec: a size formatted as a human-readable string: the leading
/// digits, then up to three fractional digits (trailing zeros dropped,
/// the point dropped with them when nothing remains), then the unit.
pub open spec fn format_size_spec(i: nat) -> Seq<char> {
    let digits = dec_rep(i);
    let dl = size_dec_l(i);
    let whole = digits.take(digits.len() - dl);
    let frac3 = digits.subrange(
        digits.len() - dl,
        if dl >= 3 {
            digits.len() - dl + 3
        } else {
            digits.len() as int
        },
    );
    let frac = strip_trailing_zeros(frac3);
    whole + (if frac.len() == 0 {
        Seq::<char>::empty()
    } else {
        seq!['.'] + frac
    }) + size_suffix(i)
}

/// Format parameter `i` to a human-readable size.
pub fn format_size(i: usize) -> (r: String)
    ensures
        r@ == format_size_spec(i as nat),
{
    proof {
        reveal_strlit("b");
        reveal_strlit("kb");
        reveal_strlit("mb");
        reveal_strlit("gb");
        reveal_strlit("tb");
        reveal_strlit(".");
    }
    let digits = usize_to_string(i);
    let s = digits.as_str();
    let n = s.unicode_len();
    let iv = i as u64;
    let dl: usize = if iv < 1000 {
        0
    } else if iv < 1000000 {
        3
    } else if iv < 1000000000 {
        6
    } else if iv < 1000000000000 {
        9
    } else if iv < 1000000000000000 {
        12
    } else if iv < 1000000000000000000 {
        15
    } else {
        18
    };
    proof {
        reveal_with_fuel(pow10, 20);
        if dl == 3 {
            lemma_dec_rep_len_ge(i as nat, 3);
        } else if dl == 6 {
            lemma_dec_rep_len_ge(i as nat, 6);
        } else if dl == 9 {
            lemma_dec_rep_len_ge(i as nat, 9);
        } else if dl == 12 {
            lemma_dec_rep_len_ge(i as nat, 12);
        } else if dl == 15 {
            lemma_dec_rep_len_ge(i as nat, 15);
        } else if dl == 18 {
            lemma_dec_rep_len_ge(i as nat, 18);
        } else {
            crate::strutil::lemma_dec_rep_digits(i as nat);
        }
    }
    let whole_l = n - dl;
    let frac_end = if dl >= 3 {
        whole_l + 3
    } else {
        n
    };
    let ghost frac3 = s@.subrange(whole_l as int, frac_end as int);
    let mut e = frac_end;
    proof {
        assert(s@.subrange(whole_l as int, e as int) =~= frac3);
    }
    while e > whole_l && s.get_char(e - 1) == '0'
        invariant
            whole_l <= e <= frac_end,
            frac_end <= n,
            n == s@.len(),
            frac3 == s@.subrange(whole_l as int, frac_end as int),
            strip_trailing_zeros(frac3) == strip_trailing_zeros(
                s@.subrange(whole_l as int, e as int),
            ),
        decreases e,
    {
        proof {
            let cur = s@.subrange(whole_l as int, e as int);
            assert(cur.last() == s@[e - 1]);
            assert(cur.drop_last() =~= s@.subrange(whole_l as int, e - 1));
        }
        e -= 1;
    }
    proof {
        let cur = s@.subrange(whole_l as int, e as int);
        if e == whole_l {
            assert(cur =~= Seq::<char>::empty());
        } else {
            assert(cur.last() == s@[e - 1]);
        }
        assert(strip_trailing_zeros(cur) == cur);
    }
    let mut out = s.substring_char(0, whole_l).to_owned();
    proof {
        assert(s@.subrange(0, whole_l as int) =~= s@.take(n - dl));
    }
    if e > whole_l {
        out.append(".");
        out.append(s.substring_char(whole_l, e));
    }
    if iv < 1000 {
        out.append("b");
    } else if iv < 1000000 {
        out.append("kb");
    } else if iv < 1000000000 {
        out.append("mb");
    } else if iv < 1000000000000 {
        out.append("gb");
    } else if iv < 1000000000000000 {
        out.append("tb");
    }
    proof {
        assert(out@ =~= format_size_spec(i as nat));
    }
    out
}

/// A release of the launcher itself, as published upstream.
#[derive(Debug, Clone)]
pub struct GithubReleaseItem {
    pub _id: u64,
    pub created_at: String,
    pub tag_name: String,
    pub url: String,
    pub html_url: String,
    pub draft: bool,
    pub prerelease: bool,
}

/// Is this published release an update over the running launcher?
/// Drafts and prereleases never are; otherwise any release whose tag is
/// not the running version's tag counts.
pub fn release_is_update(item: &GithubReleaseItem, current_tag: &str) -> (r: bool)
    ensures
        r == (!item.draft && !item.prerelease && item.tag_name@ != current_tag@),
{
    !item.draft && !item.prerelease && !crate::strutil::str_eq(
        item.tag_name.as_str(),
        current_tag,
    )
}

/// Clear the read-only attribute of a file. File attributes of that
/// kind exist only on other platforms; here there is nothing to do.
pub fn unmark_readonly(_location: String) -> (r: Result<(), BeansError>)
    ensures
        r is Ok,
{
    Ok(())
}

/// Return `true` when an environment variable's value is set with a
/// length greater than `1`.
pub fn has_env_var(value: Option<&String>) -> (r: bool)
    ensures
        r == match value {
            Some(x) => x@.len() > 1,
            None => false,
        },
{
    match value {
        Some(x) => x.as_str().unicode_len() > 1,
        None => false,
    }
}

} // verus!
