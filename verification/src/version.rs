//! The remote version manifest, the local version marker file, and the
//! migration from the legacy marker format.
//!
//! The marker is a small JSON record `{"version":"<n>"}` at a fixed path
//! under the install root; the legacy marker is a plain decimal integer
//! in a different file. Both are modelled here by content: reading and
//! writing the files is the caller's job, deciding what the bytes mean is
//! this module's.

use vstd::prelude::*;

use crate::error::BeansError;
use crate::helper::InstallType;
use crate::strutil::{
    all_digits, dec_rep, digits_end, lemma_dec_rep_digits, lemma_dec_rep_val,
    lemma_digits_end_at, match_at, match_at_spec, parse_usize, take_uint, usize_to_string,
};

verus! {

/// Version file that is used as the modern marker in the sourcemod mod
/// folder.
#[derive(Debug, Clone)]
pub struct AdastralVersionFile {
    pub version: String,
}

/// Value of an entry of the `versions` table of the remote manifest.
#[derive(Debug, Clone)]
pub struct RemoteVersion {
    pub url: Option<String>,
    pub file: Option<String>,
    /// size estimate of the download, in bytes
    pub pre_sz: Option<usize>,
    /// size estimate of the installed content, in bytes
    pub post_sz: Option<usize>,
    pub signature_url: Option<String>,
    pub heal_url: Option<String>,
}

/// An entry of the `patches` table of the remote manifest.
#[derive(Debug, Clone)]
pub struct RemotePatch {
    pub url: String,
    /// remote file name; encodes the patch identity as
    /// `{short}-{from}to{to}.pwr`
    pub file: String,
    /// Amount of file space required for temporary file. Assumed to be
    /// measured in bytes.
    pub tempreq: usize,
}

/// The remote manifest: versions and patches keyed by their integer ids.
///
/// Well-formed manifests have unique keys in both tables; see
/// `manifest_wf`.
#[derive(Debug, Clone)]
pub struct RemoteVersionResponse {
    pub versions: Vec<(usize, RemoteVersion)>,
    pub patches: Vec<(usize, RemotePatch)>,
}

/// Spec: the keys of both manifest tables are unique.
pub open spec fn manifest_wf(m: RemoteVersionResponse) -> bool {
    &&& forall|i: int, j: int|
        0 <= i < j < m.versions@.len() ==> m.versions@[i].0 != m.versions@[j].0
    &&& forall|i: int, j: int| 0 <= i < j < m.patches@.len() ==> m.patches@[i].0 != m.patches@[j].0
}

/// Spec: the marker text wrapping a digit string.
pub open spec fn marker_render(digits: Seq<char>) -> Seq<char> {
    "{\"version\":\""@ + digits + "\"}"@
}

/// Spec: `s` is the canonical marker text recording version `v`.
pub open spec fn is_marker_render(s: Seq<char>, v: nat) -> bool {
    v <= usize::MAX as nat && s == marker_render(dec_rep(v))
}

/// The shape of a canonical marker text: its prefix, digit run, suffix
/// and length.
proof fn lemma_marker_structure(s: Seq<char>, v: nat)
    requires
        is_marker_render(s, v),
    ensures
        s.len() == 14 + dec_rep(v).len(),
        match_at_spec(s, 0, "{\"version\":\""@),
        digits_end(s, 12) == 12 + dec_rep(v).len(),
        s.subrange(12, 12 + dec_rep(v).len() as int) == dec_rep(v),
        match_at_spec(s, 12 + dec_rep(v).len() as int, "\"}"@),
{
    reveal_strlit("{\"version\":\"");
    reveal_strlit("\"}");
    let d = dec_rep(v);
    lemma_dec_rep_digits(v);
    assert(s.len() == 14 + d.len());
    assert(s.subrange(0, 12) =~= "{\"version\":\""@);
    assert(s.subrange(12, 12 + d.len() as int) =~= d);
    assert(s.subrange(12 + d.len() as int, s.len() as int) =~= "\"}"@);
    assert(s[12 + d.len() as int] == '"');
    lemma_digits_end_at(s, 12, 12 + d.len() as int);
}

/// Parse a marker text back into the version it records.
///
/// Succeeds exactly on the canonical marker text `{"version":"<n>"}`
/// with `<n>` written without sign or leading zeros; any other content is
/// a corrupted marker.
pub fn marker_version(s: &str) -> (r: Option<usize>)
    ensures
        match r {
            Some(v) => is_marker_render(s@, v as nat),
            None => forall|v: nat| !is_marker_render(s@, v),
        },
{
    proof {
        reveal_strlit("{\"version\":\"");
        reveal_strlit("\"}");
    }
    let n = s.unicode_len();
    if !match_at(s, 0, "{\"version\":\"") {
        proof {
            assert forall|v: nat| !is_marker_render(s@, v) by {
                if is_marker_render(s@, v) {
                    lemma_marker_structure(s@, v);
                }
            }
        }
        return None;
    }
    let parsed = take_uint(s, 12);
    match parsed {
        None => {
            proof {
                assert forall|v: nat| !is_marker_render(s@, v) by {
                    if is_marker_render(s@, v) {
                        lemma_marker_structure(s@, v);
                    }
                }
            }
            None
        },
        Some((v, e)) => {
            if match_at(s, e, "\"}") && e + 2 == n {
                proof {
                    let d = dec_rep(v as nat);
                    lemma_dec_rep_val(v as nat);
                    assert(s@ =~= "{\"version\":\""@ + d + "\"}"@);
                }
                Some(v)
            } else {
                proof {
                    assert forall|w: nat| !is_marker_render(s@, w) by {
                        if is_marker_render(s@, w) {
                            lemma_marker_structure(s@, w);
                            assert(dec_rep(w).len() == dec_rep(v as nat).len());
                        }
                    }
                }
                None
            }
        },
    }
}

/// Two versions with the same marker text are the same version.
pub proof fn lemma_marker_unique(s: Seq<char>, v: nat, w: nat)
    requires
        is_marker_render(s, v),
        is_marker_render(s, w),
    ensures
        v == w,
{
    lemma_marker_structure(s, v);
    lemma_marker_structure(s, w);
    assert(dec_rep(v) == dec_rep(w));
    lemma_dec_rep_val(v);
    lemma_dec_rep_val(w);
}

/// A marker rendered for any version parses back to that version: the
/// serializer below and `marker_version` round-trip.
pub proof fn lemma_marker_roundtrip(v: usize)
    ensures
        is_marker_render(marker_render(dec_rep(v as nat)), v as nat),
{
}

impl AdastralVersionFile {
    /// The marker record for version `v`.
    pub fn for_version(v: usize) -> (r: AdastralVersionFile)
        ensures
            r.version@ == dec_rep(v as nat),
    {
        AdastralVersionFile { version: usize_to_string(v) }
    }

    /// Serialize the marker to its JSON text.
    ///
    /// The version this library writes is always a decimal integer; the
    /// produced text is the canonical `{"version":"<n>"}`.
    pub fn to_json(&self) -> (r: String)
        requires
            all_digits(self.version@),
        ensures
            r@ == marker_render(self.version@),
    {
        let mut out = "{\"version\":\"".to_owned();
        out.append(self.version.as_str());
        out.append("\"}");
        proof {
            assert(out@ =~= marker_render(self.version@));
        }
        out
    }
}

/// The current version recorded under an install root.
///
/// Only a root in the managed state has a current version; for it the
/// marker content must parse, and a missing or corrupted marker is a hard
/// failure (it indicates a corrupted install), never silently ignored.
pub fn get_current_version(state: &InstallType, marker_content: Option<&str>) -> (r: Result<
    Option<usize>,
    BeansError,
>)
    ensures
        match r {
            Ok(ov) => match ov {
                Some(v) => state is Adastral && match marker_content {
                    Some(c) => is_marker_render(c@, v as nat),
                    None => false,
                },
                None => !(state is Adastral),
            },
            Err(_) => state is Adastral && match marker_content {
                Some(c) => forall|v: nat| !is_marker_render(c@, v),
                None => true,
            },
        },
{
    match state {
        InstallType::Adastral => {
            match marker_content {
                Some(content) => {
                    match marker_version(content) {
                        Some(v) => Ok(Some(v)),
                        None => Err(
                            BeansError::VersionFileParseFailure {
                                error: "marker content is not a canonical version record".to_owned(),
                                old_location: String::new(),
                                old_content: content.to_owned(),
                            },
                        ),
                    }
                },
                None => Err(
                    BeansError::VersionFileReadFailure {
                        error: "marker file could not be read".to_owned(),
                        location: String::new(),
                    },
                ),
            }
        },
        _ => Ok(None),
    }
}

/// The marker files of an install root, by content; `None` means the file
/// is absent.
#[derive(Debug, Clone)]
pub struct MarkerFiles {
    /// content of the modern marker (`.adastral`)
    pub modern: Option<String>,
    /// content of the legacy marker (`.revision`)
    pub legacy: Option<String>,
}

/// Migrate a legacy marker to the modern format.
///
/// The legacy content must be a plain decimal integer; it is wrapped into
/// the modern JSON record, the modern file is written, and only after a
/// successful write is the legacy file deleted. `write_ok` and
/// `delete_ok` report whether the caller's two file operations succeed;
/// on a failed write nothing changes (in particular the legacy file is
/// kept), and on a failed delete the new modern marker is kept alongside
/// the untouched legacy file.
pub fn migrate_markers(files: MarkerFiles, write_ok: bool, delete_ok: bool) -> (r: (
    MarkerFiles,
    Result<(), BeansError>,
))
    ensures
        match files.legacy {
            None => r.0 == files && (r.1 matches Err(e) && e matches
                BeansError::VersionFileReadFailure { .. }),
            Some(legacy) => {
                if legacy@.len() > 0 && all_digits(legacy@) && crate::strutil::digits_val(legacy@)
                    <= usize::MAX as nat {
                    let v = crate::strutil::digits_val(legacy@);
                    if !write_ok {
                        r.0 == files && (r.1 matches Err(e) && e matches
                            BeansError::VersionFileMigrationFailure { .. })
                    } else if !delete_ok {
                        r.0.legacy == files.legacy && (r.1 matches Err(e) && e matches
                            BeansError::VersionFileMigrationDeleteFailure { .. }) && (r.0.modern
                            matches Some(m) && is_marker_render(m@, v))
                    } else {
                        r.0.legacy is None && r.1 is Ok && (r.0.modern matches Some(m)
                            && is_marker_render(m@, v))
                    }
                } else {
                    r.0 == files && (r.1 matches Err(e) && (e matches
                        BeansError::VersionFileParseFailure { old_content, .. } && old_content@
                        == legacy@))
                }
            },
        },
{
    let legacy = match &files.legacy {
        None => {
            return (
                files,
                Err(BeansError::VersionFileReadFailure {
                    error: "legacy marker file could not be read".to_owned(),
                    location: String::new(),
                }),
            );
        },
        Some(l) => l.as_str(),
    };
    let old_version = match parse_usize(legacy) {
        Some(v) => v,
        None => {
            let content = legacy.to_owned();
            return (
                MarkerFiles { modern: files.modern.clone(), legacy: files.legacy.clone() },
                Err(BeansError::VersionFileParseFailure {
                    error: "legacy marker content is not a decimal version".to_owned(),
                    old_location: String::new(),
                    old_content: content,
                }),
            );
        },
    };
    let new_file = AdastralVersionFile::for_version(old_version);
    proof {
        lemma_dec_rep_digits(old_version as nat);
        lemma_dec_rep_val(old_version as nat);
    }
    let new_content = new_file.to_json();
    if !write_ok {
        return (
            MarkerFiles { modern: files.modern.clone(), legacy: files.legacy.clone() },
            Err(BeansError::VersionFileMigrationFailure {
                error: "could not write the modern marker file".to_owned(),
                location: String::new(),
            }),
        );
    }
    if !delete_ok {
        return (
            MarkerFiles { modern: Some(new_content), legacy: files.legacy.clone() },
            Err(BeansError::VersionFileMigrationDeleteFailure {
                error: "could not delete the legacy marker file".to_owned(),
                location: String::new(),
            }),
        );
    }
    (MarkerFiles { modern: Some(new_content), legacy: None }, Ok(()))
}

} // verus!
