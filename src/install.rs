//! Installing client binaries and the shim's directories.
//!
//! A binary is downloaded into a staging file beside its install path, made
//! executable, and only then moved to the install path, so a file at the
//! install path is always a complete binary. [`Installer`] makes these
//! decisions; its caller does the network and file work.
use vstd::prelude::*;

use crate::config::staging_of;
use crate::error::ShimError;

verus! {

/// Size of the chunks that a download is read in.
pub const CHUNK_SIZE: usize = 8192;

/// Permission bits of an installed binary: read and execute for all, write
/// for the owner (`rwxr-xr-x`).
pub const INSTALL_MODE: u32 = 0o755;

/// An installed binary can be read and run by its owner, and by everyone else.
pub proof fn lemma_install_mode_executable()
    ensures
        INSTALL_MODE & 0o100 != 0,
        INSTALL_MODE & 0o400 != 0,
        INSTALL_MODE & 0o011 == 0o011,
        INSTALL_MODE & 0o044 == 0o044,
{
    assert(0o755u32 & 0o100 != 0) by (bit_vector);
    assert(0o755u32 & 0o400 != 0) by (bit_vector);
    assert(0o755u32 & 0o011 == 0o011) by (bit_vector);
    assert(0o755u32 & 0o044 == 0o044) by (bit_vector);
}

/// How far a download has come.
pub struct Progress {
    /// Bytes received so far.
    pub downloaded: u64,
    /// The length the server declared, if it declared one.
    pub total: Option<u64>,
}

impl Progress {
    /// A download that has received nothing, of `content_length` bytes when
    /// the server declared a length.
    pub fn new(content_length: Option<u64>) -> (r: Self)
        ensures
            r.downloaded == 0,
            r.total == content_length,
    {
        Progress { downloaded: 0, total: content_length }
    }

    /// Counts `n` more bytes received (the count stops at `u64::MAX`).
    pub fn advance(&mut self, n: usize)
        ensures
            final(self).downloaded == if old(self).downloaded + n <= u64::MAX {
                (old(self).downloaded + n) as u64
            } else {
                u64::MAX
            },
            final(self).total == old(self).total,
    {
        let n = n as u64;
        if self.downloaded <= u64::MAX - n {
            self.downloaded = self.downloaded + n;
        } else {
            self.downloaded = u64::MAX;
        }
    }

    /// The length to show progress against: the declared length, or `None`
    /// when none was declared and the total is indeterminate.
    pub fn bar_length(&self) -> (r: Option<u64>)
        ensures
            r == self.total,
    {
        self.total
    }
}

/// How far an install has come.
#[derive(Debug, Clone, Copy, PartialEq, Eq, Structural)]
pub enum InstallStage {
    Start,
    Requesting,
    Opening,
    Receiving,
    Finishing,
    Publishing,
    Done,
}

/// The outcome of the previous install action.
pub enum InstallEvent {
    /// Nothing has happened yet.
    Begin,
    /// The server answered with a success status, declaring a length or not.
    Responded { length: Result<Option<u64>, ShimError> },
    /// The staging file was created.
    Opened { result: Result<(), ShimError> },
    /// One chunk of the body was read and written to the staging file;
    /// 0 bytes means that the body has ended.
    Received { count: Result<usize, ShimError> },
    /// The staging file's permissions were set.
    ModeSet { result: Result<(), ShimError> },
    /// The staging file was moved to the install path.
    Published { result: Result<(), ShimError> },
}

/// What the caller is to do next for an install.
pub enum InstallAction {
    /// Send a GET request for `url`; report the declared length.
    Request { url: String },
    /// Create the staging file `staging`.
    Open { staging: String },
    /// Read at most `max` bytes of the body and append them to the staging file.
    Receive { max: usize },
    /// Set the permission bits of `staging` to `mode`.
    SetMode { staging: String, mode: u32 },
    /// Move `staging` to `path`.
    Publish { staging: String, path: String },
    /// The binary is installed at `path`.
    Installed { path: String },
    /// Remove `staging` if it exists, and stop with `error`.
    Abandon { staging: String, error: ShimError },
}

/// The mathematical view of an [`InstallEvent`].
pub enum InstallEventView {
    Begin,
    Responded { length: Result<Option<u64>, ShimError> },
    Opened { result: Result<(), ShimError> },
    Received { count: Result<usize, ShimError> },
    ModeSet { result: Result<(), ShimError> },
    Published { result: Result<(), ShimError> },
}

/// The mathematical view of an [`InstallAction`].
pub enum InstallActionView {
    Request { url: Seq<char> },
    Open { staging: Seq<char> },
    Receive { max: usize },
    SetMode { staging: Seq<char>, mode: u32 },
    Publish { staging: Seq<char>, path: Seq<char> },
    Installed { path: Seq<char> },
    Abandon { staging: Seq<char>, error: ShimError },
}

impl View for InstallEvent {
    type V = InstallEventView;

    open spec fn view(&self) -> InstallEventView {
        match self {
            InstallEvent::Begin => InstallEventView::Begin,
            InstallEvent::Responded { length } => InstallEventView::Responded { length: *length },
            InstallEvent::Opened { result } => InstallEventView::Opened { result: *result },
            InstallEvent::Received { count } => InstallEventView::Received { count: *count },
            InstallEvent::ModeSet { result } => InstallEventView::ModeSet { result: *result },
            InstallEvent::Published { result } => InstallEventView::Published { result: *result },
        }
    }
}

impl View for InstallAction {
    type V = InstallActionView;

    open spec fn view(&self) -> InstallActionView {
        match self {
            InstallAction::Request { url } => InstallActionView::Request { url: url@ },
            InstallAction::Open { staging } => InstallActionView::Open { staging: staging@ },
            InstallAction::Receive { max } => InstallActionView::Receive { max: *max },
            InstallAction::SetMode { staging, mode } => InstallActionView::SetMode {
                staging: staging@,
                mode: *mode,
            },
            InstallAction::Publish { staging, path } => InstallActionView::Publish {
                staging: staging@,
                path: path@,
            },
            InstallAction::Installed { path } => InstallActionView::Installed { path: path@ },
            InstallAction::Abandon { staging, error } => InstallActionView::Abandon {
                staging: staging@,
                error: *error,
            },
        }
    }
}

/// Whether `e` is the outcome that stage `s` waits for.
pub open spec fn install_expects(s: InstallStage, e: InstallEventView) -> bool {
    match (s, e) {
        (InstallStage::Start, InstallEventView::Begin) => true,
        (InstallStage::Requesting, InstallEventView::Responded { .. }) => true,
        (InstallStage::Opening, InstallEventView::Opened { .. }) => true,
        (InstallStage::Receiving, InstallEventView::Received { .. }) => true,
        (InstallStage::Finishing, InstallEventView::ModeSet { .. }) => true,
        (InstallStage::Publishing, InstallEventView::Published { .. }) => true,
        _ => false,
    }
}

/// Ends an install with `error`, removing the staging file.
pub open spec fn abandoned(staging: Seq<char>, error: ShimError) -> (
    InstallStage,
    InstallActionView,
) {
    (InstallStage::Done, InstallActionView::Abandon { staging, error })
}

/// The next stage and action of an install of `url` to `path` through
/// `staging`, from stage `s` and outcome `e`.
pub open spec fn install_next(
    url: Seq<char>,
    path: Seq<char>,
    staging: Seq<char>,
    s: InstallStage,
    e: InstallEventView,
) -> (InstallStage, InstallActionView) {
    match (s, e) {
        (InstallStage::Start, InstallEventView::Begin) => (
            InstallStage::Requesting,
            InstallActionView::Request { url },
        ),
        (InstallStage::Requesting, InstallEventView::Responded { length }) => match length {
            Err(error) => abandoned(staging, error),
            Ok(_) => (InstallStage::Opening, InstallActionView::Open { staging }),
        },
        (InstallStage::Opening, InstallEventView::Opened { result }) => match result {
            Err(error) => abandoned(staging, error),
            Ok(_) => (InstallStage::Receiving, InstallActionView::Receive { max: CHUNK_SIZE }),
        },
        (InstallStage::Receiving, InstallEventView::Received { count }) => match count {
            Err(error) => abandoned(staging, error),
            Ok(n) => if n == 0 {
                (InstallStage::Finishing, InstallActionView::SetMode { staging, mode: INSTALL_MODE })
            } else {
                (InstallStage::Receiving, InstallActionView::Receive { max: CHUNK_SIZE })
            },
        },
        (InstallStage::Finishing, InstallEventView::ModeSet { result }) => match result {
            Err(error) => abandoned(staging, error),
            Ok(_) => (InstallStage::Publishing, InstallActionView::Publish { staging, path }),
        },
        (InstallStage::Publishing, InstallEventView::Published { result }) => match result {
            Err(error) => abandoned(staging, error),
            Ok(_) => (InstallStage::Done, InstallActionView::Installed { path }),
        },
        // An outcome that the stage does not wait for; `install_expects` rules it out.
        _ => abandoned(staging, ShimError::FilesystemError),
    }
}

/// One install of a downloaded binary.
pub struct Installer {
    pub url: String,
    pub path: String,
    pub staging: String,
    pub progress: Progress,
    pub stage: InstallStage,
}

impl Installer {
    /// An install of `url` to `path`, staged in `staging`, that has not begun.
    pub fn new(url: String, path: String, staging: String) -> (r: Self)
        ensures
            r.url == url,
            r.path == path,
            r.staging == staging,
            r.stage == InstallStage::Start,
            r.progress.downloaded == 0,
            r.progress.total is None,
    {
        Installer { url, path, staging, progress: Progress::new(None), stage: InstallStage::Start }
    }

    /// Whether `e` is the outcome that this install waits for.
    pub fn expects(&self, e: &InstallEvent) -> (r: bool)
        ensures
            r == install_expects(self.stage, e@),
    {
        match (self.stage, e) {
            (InstallStage::Start, InstallEvent::Begin) => true,
            (InstallStage::Requesting, InstallEvent::Responded { .. }) => true,
            (InstallStage::Opening, InstallEvent::Opened { .. }) => true,
            (InstallStage::Receiving, InstallEvent::Received { .. }) => true,
            (InstallStage::Finishing, InstallEvent::ModeSet { .. }) => true,
            (InstallStage::Publishing, InstallEvent::Published { .. }) => true,
            _ => false,
        }
    }

    /// Takes the outcome `e` of the previous action and returns the next
    /// action. The declared length is recorded when the server answers, and
    /// each chunk received is counted.
    pub fn step(&mut self, e: InstallEvent) -> (r: InstallAction)
        requires
            install_expects(old(self).stage, e@),
        ensures
            (final(self).stage, r@) == install_next(
                old(self).url@,
                old(self).path@,
                old(self).staging@,
                old(self).stage,
                e@,
            ),
            final(self).url == old(self).url,
            final(self).path == old(self).path,
            final(self).staging == old(self).staging,
            final(self).progress.total == match e@ {
                InstallEventView::Responded { length: Ok(len) } => len,
                _ => old(self).progress.total,
            },
            final(self).progress.downloaded == match e@ {
                InstallEventView::Received { count: Ok(n) } => if old(self).progress.downloaded
                    + n <= u64::MAX {
                    (old(self).progress.downloaded + n) as u64
                } else {
                    u64::MAX
                },
                _ => old(self).progress.downloaded,
            },
    {
        match e {
            InstallEvent::Begin => {
                self.stage = InstallStage::Requesting;
                InstallAction::Request { url: self.url.clone() }
            },
            InstallEvent::Responded { length } => match length {
                Err(error) => self.abandon(error),
                Ok(len) => {
                    self.progress.total = len;
                    self.stage = InstallStage::Opening;
                    InstallAction::Open { staging: self.staging.clone() }
                },
            },
            InstallEvent::Opened { result } => match result {
                Err(error) => self.abandon(error),
                Ok(_) => {
                    self.stage = InstallStage::Receiving;
                    InstallAction::Receive { max: CHUNK_SIZE }
                },
            },
            InstallEvent::Received { count } => match count {
                Err(error) => self.abandon(error),
                Ok(n) => {
                    self.progress.advance(n);
                    if n == 0 {
                        self.stage = InstallStage::Finishing;
                        InstallAction::SetMode { staging: self.staging.clone(), mode: INSTALL_MODE }
                    } else {
                        InstallAction::Receive { max: CHUNK_SIZE }
                    }
                },
            },
            InstallEvent::ModeSet { result } => match result {
                Err(error) => self.abandon(error),
                Ok(_) => {
                    self.stage = InstallStage::Publishing;
                    InstallAction::Publish { staging: self.staging.clone(), path: self.path.clone() }
                },
            },
            InstallEvent::Published { result } => match result {
                Err(error) => self.abandon(error),
                Ok(_) => {
                    self.stage = InstallStage::Done;
                    InstallAction::Installed { path: self.path.clone() }
                },
            },
        }
    }

    fn abandon(&mut self, error: ShimError) -> (r: InstallAction)
        ensures
            final(self).stage == InstallStage::Done,
            r@ == (InstallActionView::Abandon { staging: old(self).staging@, error }),
            final(self).url == old(self).url,
            final(self).path == old(self).path,
            final(self).staging == old(self).staging,
            final(self).progress == old(self).progress,
    {
        self.stage = InstallStage::Done;
        InstallAction::Abandon { staging: self.staging.clone(), error }
    }
}

/// A binary reaches its install path only complete and executable: the
/// move to the install path follows only the setting of the install mode,
/// which follows only the end of the body; and the staging file is never the
/// install path itself.
pub proof fn lemma_install_is_atomic(
    url: Seq<char>,
    path: Seq<char>,
    s: InstallStage,
    e: InstallEventView,
)
    requires
        install_expects(s, e),
    ensures
        ({
            let (s2, a) = install_next(url, path, staging_of(path), s, e);
            &&& a is Publish ==> s == InstallStage::Finishing && (e matches InstallEventView::ModeSet { result: Ok(_) }) && a == (InstallActionView::Publish { staging: staging_of(path), path })
            &&& a is SetMode ==> s == InstallStage::Receiving && e == (InstallEventView::Received {
                count: Ok(0),
            }) && a == (InstallActionView::SetMode { staging: staging_of(path), mode: INSTALL_MODE })
            &&& a is Installed ==> s == InstallStage::Publishing && (e matches InstallEventView::Published {
                result: Ok(_),
            })
        }),
        staging_of(path) != path,
{
    reveal_strlit(".part");
    assert(staging_of(path).len() != path.len());
}

/// What set-up does with one of its directories.
#[derive(Debug, Clone, Copy, PartialEq, Eq, Structural)]
pub enum DirStep {
    /// Create the missing directory.
    Create,
    /// Remove the existing directory with its content, then create it anew.
    Recreate,
    /// Leave the existing directory as it is.
    Keep,
}

/// The step for a directory that exists or not, when set-up is forced or not.
pub fn directory_step(exists: bool, force: bool) -> (r: DirStep)
    ensures
        !exists ==> r == DirStep::Create,
        exists && force ==> r == DirStep::Recreate,
        exists && !force ==> r == DirStep::Keep,
{
    if !exists {
        DirStep::Create
    } else if force {
        DirStep::Recreate
    } else {
        DirStep::Keep
    }
}

} // verus!
