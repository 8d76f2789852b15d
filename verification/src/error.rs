//! Error taxonomy of the library.
//!
//! The variants mirror the failure kinds of the workflows: location
//! discovery, free space, marker files, downloads, the external patcher,
//! and the config-file safety net. Failure details from outside the
//! library (I/O, network, serializers) arrive as plain message strings.

use vstd::prelude::*;

use crate::appvar::AppVarData;
use crate::version::AdastralVersionFile;

verus! {

#[derive(Debug, Clone)]
pub enum BeansError {
    /// Could not determine the free space at `location`.
    FreeSpaceCheckFailure { location: String },
    /// Failed to find the sourcemod mod folder.
    SourceModLocationNotFound,
    FileOpenFailure { location: String, error: String },
    FileWriteFailure { location: String, error: String },
    DirectoryCreateFailure { location: String, error: String },
    DirectoryDeleteFailure { location: String, error: String },
    TarExtractFailure { src_file: String, target_dir: String, error: String },
    TarUnpackItemFailure { src_file: String, target_dir: String, link_name: String, error: String },
    Reqwest { error: String },
    SerdeJson { error: String },
    LatestVersionAlreadyInstalled { current: usize, latest: usize },
    DownloadFailure { reason: DownloadFailureReason },
    IO { error: String },
    TargetSourcemodNotInstalled { missing_file: String },
    ButlerVerifyFailure { signature_url: String, gamedir: String, remote: String, error: String },
    ButlerPatchFailure { patchfile_location: String, gamedir: String, error: String },
    /// The supervised patcher process ended with a non-zero (or missing)
    /// exit code; fatal, never retried.
    ProcessNonzeroExitCode { exit_code: Option<i32> },
    FileNotFound { location: String },
    RemoteVersionNotFound { version: Option<usize> },
    SteamNotFound,
    RegistryKeyFailure { msg: String, error: String },
    VersionFileMigrationFailure { error: String, location: String },
    VersionFileMigrationDeleteFailure { error: String, location: String },
    VersionFileSerialize { error: String, instance: AdastralVersionFile },
    VersionFileParseFailure { error: String, old_location: String, old_content: String },
    VersionFileReadFailure { error: String, location: String },
    AppVarDataSerializeFailure { error: String, data: AppVarData },
    GameInfoFileReadFail { error: String, location: String },
    GameInfoPermissionSetFail { error: String, permissions: String, location: String },
    GameinfoBackupFailure { reason: GameinfoBackupFailureReason },
    CleanTempFailure { location: String, error: String },
    GameStillRunning { name: String, pid: String },
    Aria2cExitCode { reason: Aria2cExitCodeReason, cmd: String },
}

/// Diagnostic taxonomy for the exit codes of the download accelerator.
#[derive(Debug, Clone, PartialEq, Eq, Structural)]
pub enum Aria2cExitCodeReason {
    UnknownError,
    Timeout,
    ResourceNotFound,
    ResourceNotFoundLimitReached,
    AbortedDueToSlowDownloadSpeed,
    NetworkProblem,
    ExitedWithUnfinishedDownloads,
    RemoteServerDoesNotSupportResume,
    NotEnoughDiskSpace,
    PieceLengthMismatch,
    AlreadyDownloadingFile,
    AlreadyDownloadingFileWithSameTorrentHash,
    OutputFileAlreadyExists,
    OutputFileRenameFailure,
    CouldNotOpenOutputFile,
    CouldNotCreateOutputFile,
    IOError,
    CouldNotCreateDirectory,
    NameResolutionFailure,
    CouldNotParseMetalinkDocument,
    FTPCommandFailure,
    BadHttpResponseHeader,
    TooManyHttpRedirects,
    HttpAuthorizeFailure,
    CouldNotParseBencodedFile,
    CorruptTorrentFile,
    BadMagnetUri,
    BadOrUnrecognizedOptionOrInvalidArgument,
    RemoteServerFailureDueToOverloadingOrMaintenance,
    JsonRpcRequestParseFailure,
    ChecksumValidationFailure,
    Unknown(i32),
}

/// Spec: the reason assigned to an exit code of the download accelerator.
/// Zero and negative codes carry no reason; code 31 is unassigned.
pub open spec fn exit_code_reason(code: int) -> Option<Aria2cExitCodeReason> {
    if code <= 0 {
        None
    } else if code == 1 {
        Some(Aria2cExitCodeReason::UnknownError)
    } else if code == 2 {
        Some(Aria2cExitCodeReason::Timeout)
    } else if code == 3 {
        Some(Aria2cExitCodeReason::ResourceNotFound)
    } else if code == 4 {
        Some(Aria2cExitCodeReason::ResourceNotFoundLimitReached)
    } else if code == 5 {
        Some(Aria2cExitCodeReason::AbortedDueToSlowDownloadSpeed)
    } else if code == 6 {
        Some(Aria2cExitCodeReason::NetworkProblem)
    } else if code == 7 {
        Some(Aria2cExitCodeReason::ExitedWithUnfinishedDownloads)
    } else if code == 8 {
        Some(Aria2cExitCodeReason::RemoteServerDoesNotSupportResume)
    } else if code == 9 {
        Some(Aria2cExitCodeReason::NotEnoughDiskSpace)
    } else if code == 10 {
        Some(Aria2cExitCodeReason::PieceLengthMismatch)
    } else if code == 11 {
        Some(Aria2cExitCodeReason::AlreadyDownloadingFile)
    } else if code == 12 {
        Some(Aria2cExitCodeReason::AlreadyDownloadingFileWithSameTorrentHash)
    } else if code == 13 {
        Some(Aria2cExitCodeReason::OutputFileAlreadyExists)
    } else if code == 14 {
        Some(Aria2cExitCodeReason::OutputFileRenameFailure)
    } else if code == 15 {
        Some(Aria2cExitCodeReason::CouldNotOpenOutputFile)
    } else if code == 16 {
        Some(Aria2cExitCodeReason::CouldNotCreateOutputFile)
    } else if code == 17 {
        Some(Aria2cExitCodeReason::IOError)
    } else if code == 18 {
        Some(Aria2cExitCodeReason::CouldNotCreateDirectory)
    } else if code == 19 {
        Some(Aria2cExitCodeReason::NameResolutionFailure)
    } else if code == 20 {
        Some(Aria2cExitCodeReason::CouldNotParseMetalinkDocument)
    } else if code == 21 {
        Some(Aria2cExitCodeReason::FTPCommandFailure)
    } else if code == 22 {
        Some(Aria2cExitCodeReason::BadHttpResponseHeader)
    } else if code == 23 {
        Some(Aria2cExitCodeReason::TooManyHttpRedirects)
    } else if code == 24 {
        Some(Aria2cExitCodeReason::HttpAuthorizeFailure)
    } else if code == 25 {
        Some(Aria2cExitCodeReason::CouldNotParseBencodedFile)
    } else if code == 26 {
        Some(Aria2cExitCodeReason::CorruptTorrentFile)
    } else if code == 27 {
        Some(Aria2cExitCodeReason::BadMagnetUri)
    } else if code == 28 {
        Some(Aria2cExitCodeReason::BadOrUnrecognizedOptionOrInvalidArgument)
    } else if code == 29 {
        Some(Aria2cExitCodeReason::RemoteServerFailureDueToOverloadingOrMaintenance)
    } else if code == 30 {
        Some(Aria2cExitCodeReason::JsonRpcRequestParseFailure)
    } else if code == 32 {
        Some(Aria2cExitCodeReason::ChecksumValidationFailure)
    } else {
        Some(Aria2cExitCodeReason::Unknown(code as i32))
    }
}

impl Aria2cExitCodeReason {
    /// Map an exit code of the download accelerator to its diagnostic
    /// reason; zero and negative codes mean success and map to `None`.
    pub fn from_exit_code(code: i32) -> (r: Option<Aria2cExitCodeReason>)
        ensures
            r == exit_code_reason(code as int),
    {
        if code <= 0 {
            return None;
        }
        match code {
            1 => Some(Aria2cExitCodeReason::UnknownError),
            2 => Some(Aria2cExitCodeReason::Timeout),
            3 => Some(Aria2cExitCodeReason::ResourceNotFound),
            4 => Some(Aria2cExitCodeReason::ResourceNotFoundLimitReached),
            5 => Some(Aria2cExitCodeReason::AbortedDueToSlowDownloadSpeed),
            6 => Some(Aria2cExitCodeReason::NetworkProblem),
            7 => Some(Aria2cExitCodeReason::ExitedWithUnfinishedDownloads),
            8 => Some(Aria2cExitCodeReason::RemoteServerDoesNotSupportResume),
            9 => Some(Aria2cExitCodeReason::NotEnoughDiskSpace),
            10 => Some(Aria2cExitCodeReason::PieceLengthMismatch),
            11 => Some(Aria2cExitCodeReason::AlreadyDownloadingFile),
            12 => Some(Aria2cExitCodeReason::AlreadyDownloadingFileWithSameTorrentHash),
            13 => Some(Aria2cExitCodeReason::OutputFileAlreadyExists),
            14 => Some(Aria2cExitCodeReason::OutputFileRenameFailure),
            15 => Some(Aria2cExitCodeReason::CouldNotOpenOutputFile),
            16 => Some(Aria2cExitCodeReason::CouldNotCreateOutputFile),
            17 => Some(Aria2cExitCodeReason::IOError),
            18 => Some(Aria2cExitCodeReason::CouldNotCreateDirectory),
            19 => Some(Aria2cExitCodeReason::NameResolutionFailure),
            20 => Some(Aria2cExitCodeReason::CouldNotParseMetalinkDocument),
            21 => Some(Aria2cExitCodeReason::FTPCommandFailure),
            22 => Some(Aria2cExitCodeReason::BadHttpResponseHeader),
            23 => Some(Aria2cExitCodeReason::TooManyHttpRedirects),
            24 => Some(Aria2cExitCodeReason::HttpAuthorizeFailure),
            25 => Some(Aria2cExitCodeReason::CouldNotParseBencodedFile),
            26 => Some(Aria2cExitCodeReason::CorruptTorrentFile),
            27 => Some(Aria2cExitCodeReason::BadMagnetUri),
            28 => Some(Aria2cExitCodeReason::BadOrUnrecognizedOptionOrInvalidArgument),
            29 => Some(Aria2cExitCodeReason::RemoteServerFailureDueToOverloadingOrMaintenance),
            30 => Some(Aria2cExitCodeReason::JsonRpcRequestParseFailure),
            32 => Some(Aria2cExitCodeReason::ChecksumValidationFailure),
            _ => Some(Aria2cExitCodeReason::Unknown(code)),
        }
    }
}

impl BeansError {
    /// Is this failure worth reporting to a telemetry backend? The
    /// user-actionable conditions — the game still running, the latest
    /// version already installed, too little free space — are not bugs
    /// and are skipped.
    pub fn is_reportable(&self) -> (r: bool)
        ensures
            r == !(self is GameStillRunning || self is LatestVersionAlreadyInstalled
                || self is FreeSpaceCheckFailure),
    {
        !matches!(
            self,
            BeansError::GameStillRunning { .. } | BeansError::LatestVersionAlreadyInstalled {
                ..
            } | BeansError::FreeSpaceCheckFailure { .. }
        )
    }
}

#[derive(Debug, Clone)]
pub enum DownloadFailureReason {
    Reqwest { url: String, error: String },
    /// The downloaded file could not be found; perhaps the download
    /// failed.
    FileNotFound { location: String },
    MissingAria2cExecutable,
    Aria2cSpawnError { url: String, output_file: String, error: String },
    /// The transfer broke off after `current_size` bytes.
    ReqwestDownloadIncomplete { url: String, error: String, current_size: u64 },
    /// Writing the transferred bytes failed after `current_size` bytes.
    DownloadIncomplete { url: String, error: String, current_size: u64 },
}

#[derive(Debug, Clone)]
pub enum GameinfoBackupFailureReason {
    ReadContentFail(GameinfoBackupReadContentFail),
    BackupDirectoryCreateFailure(GameinfoBackupCreateDirectoryFail),
    WriteFail(GameinfoBackupWriteFail),
}

#[derive(Debug, Clone)]
pub struct GameinfoBackupReadContentFail {
    pub error: String,
    pub proposed_location: String,
    pub current_location: String,
}

#[derive(Debug, Clone)]
pub struct GameinfoBackupCreateDirectoryFail {
    pub error: String,
    pub location: String,
}

#[derive(Debug, Clone)]
pub struct GameinfoBackupWriteFail {
    pub error: String,
    pub location: String,
}

#[derive(Debug, Clone)]
pub struct TarExtractFailureDetails {
    pub source: String,
    pub target: String,
    pub error: String,
}

} // verus!
