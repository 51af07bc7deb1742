//! The dispatch sequence as a state machine.
//!
//! The machine decides; its caller acts. Each call of [`Dispatcher::step`]
//! takes the outcome of the previous action and returns the next action:
//! fetch the stable-version pointer, make a binary present, read the
//! connection configuration or its cache entry, query the cluster, store the
//! cache entry, and finally run the chosen binary or fail.
use vstd::prelude::*;

use crate::config::{content_or_empty, stable_url_of, KorrectShimConfig};
use crate::error::ShimError;
use crate::text::{lemma_trimmed_unchanged, same_text, trim_text, trimmed};
use crate::version::{lemma_normalized_shape, normalize_version, normalized};

verus! {

/// The outcome of the previous action, handed to the machine.
pub enum Event {
    /// Nothing has happened yet.
    Begin,
    /// The body of the stable-version pointer, or why it could not be fetched.
    Stable { body: Result<String, ShimError> },
    /// Whether the binary asked for is present at its install path.
    BinaryReady { result: Result<(), ShimError> },
    /// The content of the connection configuration; `None` when it could not be read.
    Config { content: Option<Vec<u8>> },
    /// The content of the cache entry; `None` when there is none.
    Cache { entry: Option<String> },
    /// The server version that the cluster reported, `None` when the report
    /// held none, or why the query binary could not be run.
    Query { reported: Result<Option<String>, ShimError> },
    /// Whether the cache entry was written.
    CacheWritten { result: Result<(), ShimError> },
}

/// What the caller is to do next.
pub enum Action {
    /// Fetch the stable-version pointer at `url`.
    FetchStable { url: String },
    /// Make the binary for `version` present (see `KorrectShimConfig::download_kubectl`).
    EnsureBinary { version: String },
    /// Read the connection configuration at `path`.
    ReadConfig { path: String },
    /// Read the cache entry at `path`.
    ReadCache { path: String },
    /// Run `binary` with `args` (`version -o json`) and report the server
    /// version that it prints.
    QueryCluster { binary: String, args: Vec<String> },
    /// Write `version` as the whole content of the cache entry at `path`.
    WriteCache { path: String, version: String },
    /// Run `binary` with `args`, with the standard streams passed through, and
    /// exit with its exit code.
    Exec { binary: String, args: Vec<String> },
    /// Stop with `error`.
    Fail { error: ShimError },
}

/// Where the machine stands. `known` is the known-good version, `cache_file`
/// the cache entry of the connection configuration, and `target` the version
/// chosen for the cluster.
pub enum Phase {
    /// Nothing done yet.
    Start,
    /// Waiting for the stable-version pointer.
    AwaitStable,
    /// Waiting for the known-good binary.
    AwaitKnownBinary { known: String },
    /// Waiting for the connection configuration's content.
    AwaitConfig { known: String },
    /// Waiting for the cache entry.
    AwaitCache { known: String, cache_file: String },
    /// Waiting for the cluster's report.
    AwaitQuery { known: String, cache_file: String },
    /// Waiting for the cache entry to be written.
    AwaitStore { target: String },
    /// Waiting for the target binary.
    AwaitTargetBinary { target: String },
    /// Finished: the last action was to run a binary or to fail.
    Done,
}

/// The mathematical view of an [`Event`].
pub enum EventView {
    Begin,
    Stable { body: Result<Seq<char>, ShimError> },
    BinaryReady { result: Result<(), ShimError> },
    Config { content: Option<Seq<u8>> },
    Cache { entry: Option<Seq<char>> },
    Query { reported: Result<Option<Seq<char>>, ShimError> },
    CacheWritten { result: Result<(), ShimError> },
}

/// The mathematical view of an [`Action`].
pub enum ActionView {
    FetchStable { url: Seq<char> },
    EnsureBinary { version: Seq<char> },
    ReadConfig { path: Seq<char> },
    ReadCache { path: Seq<char> },
    QueryCluster { binary: Seq<char>, args: Seq<Seq<char>> },
    WriteCache { path: Seq<char>, version: Seq<char> },
    Exec { binary: Seq<char>, args: Seq<String> },
    Fail { error: ShimError },
}

/// The mathematical view of a [`Phase`].
pub enum PhaseView {
    Start,
    AwaitStable,
    AwaitKnownBinary { known: Seq<char> },
    AwaitConfig { known: Seq<char> },
    AwaitCache { known: Seq<char>, cache_file: Seq<char> },
    AwaitQuery { known: Seq<char>, cache_file: Seq<char> },
    AwaitStore { target: Seq<char> },
    AwaitTargetBinary { target: Seq<char> },
    Done,
}

/// The view of a text result.
pub open spec fn text_result(r: Result<String, ShimError>) -> Result<Seq<char>, ShimError> {
    match r {
        Ok(s) => Ok(s@),
        Err(e) => Err(e),
    }
}

impl View for Event {
    type V = EventView;

    open spec fn view(&self) -> EventView {
        match self {
            Event::Begin => EventView::Begin,
            Event::Stable { body } => EventView::Stable { body: text_result(*body) },
            Event::BinaryReady { result } => EventView::BinaryReady { result: *result },
            Event::Config { content } => EventView::Config {
                content: match content {
                    Some(c) => Some(c@),
                    None => None,
                },
            },
            Event::Cache { entry } => EventView::Cache {
                entry: match entry {
                    Some(c) => Some(c@),
                    None => None,
                },
            },
            Event::Query { reported } => EventView::Query {
                reported: match reported {
                    Ok(Some(s)) => Ok(Some(s@)),
                    Ok(None) => Ok(None),
                    Err(e) => Err(*e),
                },
            },
            Event::CacheWritten { result } => EventView::CacheWritten { result: *result },
        }
    }
}

impl View for Action {
    type V = ActionView;

    open spec fn view(&self) -> ActionView {
        match self {
            Action::FetchStable { url } => ActionView::FetchStable { url: url@ },
            Action::EnsureBinary { version } => ActionView::EnsureBinary { version: version@ },
            Action::ReadConfig { path } => ActionView::ReadConfig { path: path@ },
            Action::ReadCache { path } => ActionView::ReadCache { path: path@ },
            Action::QueryCluster { binary, args } => ActionView::QueryCluster {
                binary: binary@,
                args: args@.map_values(|a: String| a@),
            },
            Action::WriteCache { path, version } => ActionView::WriteCache {
                path: path@,
                version: version@,
            },
            Action::Exec { binary, args } => ActionView::Exec { binary: binary@, args: args@ },
            Action::Fail { error } => ActionView::Fail { error: *error },
        }
    }
}

impl View for Phase {
    type V = PhaseView;

    open spec fn view(&self) -> PhaseView {
        match self {
            Phase::Start => PhaseView::Start,
            Phase::AwaitStable => PhaseView::AwaitStable,
            Phase::AwaitKnownBinary { known } => PhaseView::AwaitKnownBinary { known: known@ },
            Phase::AwaitConfig { known } => PhaseView::AwaitConfig { known: known@ },
            Phase::AwaitCache { known, cache_file } => PhaseView::AwaitCache {
                known: known@,
                cache_file: cache_file@,
            },
            Phase::AwaitQuery { known, cache_file } => PhaseView::AwaitQuery {
                known: known@,
                cache_file: cache_file@,
            },
            Phase::AwaitStore { target } => PhaseView::AwaitStore { target: target@ },
            Phase::AwaitTargetBinary { target } => PhaseView::AwaitTargetBinary {
                target: target@,
            },
            Phase::Done => PhaseView::Done,
        }
    }
}

/// A version already in canonical form: its own normalization.
pub open spec fn canonical(v: Seq<char>) -> bool {
    normalized(v) == Some(v)
}

/// The arguments that ask the client binary for its version report.
pub open spec fn query_args() -> Seq<Seq<char>> {
    seq!["version"@, "-o"@, "json"@]
}

/// The arguments that ask the client binary for its version report.
fn query_arguments() -> (r: Vec<String>)
    ensures
        r@.map_values(|a: String| a@) == query_args(),
{
    let r = vec![String::from_str("version"), String::from_str("-o"), String::from_str("json")];
    assert(r@.map_values(|a: String| a@) =~= query_args());
    r
}

/// Whether `e` is the outcome that phase `p` waits for.
pub open spec fn expects(p: PhaseView, e: EventView) -> bool {
    match (p, e) {
        (PhaseView::Start, EventView::Begin) => true,
        (PhaseView::AwaitStable, EventView::Stable { .. }) => true,
        (PhaseView::AwaitKnownBinary { .. }, EventView::BinaryReady { .. }) => true,
        (PhaseView::AwaitConfig { .. }, EventView::Config { .. }) => true,
        (PhaseView::AwaitCache { .. }, EventView::Cache { .. }) => true,
        (PhaseView::AwaitQuery { .. }, EventView::Query { .. }) => true,
        (PhaseView::AwaitStore { .. }, EventView::CacheWritten { .. }) => true,
        (PhaseView::AwaitTargetBinary { .. }, EventView::BinaryReady { .. }) => true,
        _ => false,
    }
}

/// Ends the sequence with `error`.
pub open spec fn failed(error: ShimError) -> (PhaseView, ActionView) {
    (PhaseView::Done, ActionView::Fail { error })
}

/// The next phase and action, from phase `p` and outcome `e`.
///
/// `cfg` gives the paths and URLs, `kubeconfig` the connection configuration
/// to read and `args` the arguments to run the chosen binary with.
pub open spec fn next(
    cfg: KorrectShimConfig,
    kubeconfig: Seq<char>,
    args: Seq<String>,
    p: PhaseView,
    e: EventView,
) -> (PhaseView, ActionView) {
    match (p, e) {
        (PhaseView::Start, EventView::Begin) => (
            PhaseView::AwaitStable,
            ActionView::FetchStable { url: stable_url_of(cfg.dl_url@) },
        ),
        (PhaseView::AwaitStable, EventView::Stable { body }) => match body {
            Err(error) => failed(error),
            Ok(b) => if canonical(trimmed(b)) {
                (
                    PhaseView::AwaitKnownBinary { known: trimmed(b) },
                    ActionView::EnsureBinary { version: trimmed(b) },
                )
            } else {
                failed(ShimError::MalformedVersion)
            },
        },
        (PhaseView::AwaitKnownBinary { known }, EventView::BinaryReady { result }) => match result {
            Err(error) => failed(error),
            Ok(_) => (
                PhaseView::AwaitConfig { known },
                ActionView::ReadConfig { path: kubeconfig },
            ),
        },
        (PhaseView::AwaitConfig { known }, EventView::Config { content }) => {
            let cache_file = cfg.cache_file_of(content_or_empty(content));
            (
                PhaseView::AwaitCache { known, cache_file },
                ActionView::ReadCache { path: cache_file },
            )
        },
        (PhaseView::AwaitCache { known, cache_file }, EventView::Cache { entry }) => {
            match entry {
                Some(t) => (
                    PhaseView::AwaitTargetBinary { target: trimmed(t) },
                    ActionView::EnsureBinary { version: trimmed(t) },
                ),
                None => (
                    PhaseView::AwaitQuery { known, cache_file },
                    ActionView::QueryCluster {
                        binary: cfg.binary_path_of(known),
                        args: query_args(),
                    },
                ),
            }
        },
        (PhaseView::AwaitQuery { known, cache_file }, EventView::Query { reported }) => {
            match reported {
                Err(error) => failed(error),
                Ok(None) => (
                    PhaseView::AwaitTargetBinary { target: known },
                    ActionView::EnsureBinary { version: known },
                ),
                Ok(Some(raw)) => match normalized(raw) {
                    None => failed(ShimError::MalformedVersion),
                    Some(v) => (
                        PhaseView::AwaitStore { target: v },
                        ActionView::WriteCache { path: cache_file, version: v },
                    ),
                },
            }
        },
        (PhaseView::AwaitStore { target }, EventView::CacheWritten { result }) => match result {
            Err(error) => failed(error),
            Ok(_) => (
                PhaseView::AwaitTargetBinary { target },
                ActionView::EnsureBinary { version: target },
            ),
        },
        (PhaseView::AwaitTargetBinary { target }, EventView::BinaryReady { result }) => {
            match result {
                Err(error) => failed(error),
                Ok(_) => (
                    PhaseView::Done,
                    ActionView::Exec { binary: cfg.binary_path_of(target), args },
                ),
            }
        },
        // An outcome that the phase does not wait for; `expects` rules it out.
        _ => failed(ShimError::SubprocessError),
    }
}

/// Cache round trip: the version that a cluster query stores under a
/// configuration's fingerprint is found again, for the same configuration
/// content, at the same cache entry; read back, it becomes the target version
/// as it was stored, and the next action makes it present without fetching
/// the stable pointer or querying the cluster.
pub proof fn lemma_cache_round_trip(
    cfg: KorrectShimConfig,
    kubeconfig: Seq<char>,
    args: Seq<String>,
    known: Seq<char>,
    content: Option<Seq<u8>>,
    raw: Seq<char>,
)
    requires
        normalized(raw) is Some,
    ensures
        ({
            let cache_file = cfg.cache_file_of(content_or_empty(content));
            let stored = normalized(raw)->0;
            &&& next(
                cfg,
                kubeconfig,
                args,
                PhaseView::AwaitConfig { known },
                EventView::Config { content },
            ) == (PhaseView::AwaitCache { known, cache_file }, ActionView::ReadCache {
                path: cache_file,
            })
            &&& next(
                cfg,
                kubeconfig,
                args,
                PhaseView::AwaitQuery { known, cache_file },
                EventView::Query { reported: Ok(Some(raw)) },
            ) == (PhaseView::AwaitStore { target: stored }, ActionView::WriteCache {
                path: cache_file,
                version: stored,
            })
            &&& next(
                cfg,
                kubeconfig,
                args,
                PhaseView::AwaitCache { known, cache_file },
                EventView::Cache { entry: Some(stored) },
            ) == (PhaseView::AwaitTargetBinary { target: stored }, ActionView::EnsureBinary {
                version: stored,
            })
        }),
{
    let stored = normalized(raw)->0;
    lemma_normalized_shape(raw);
    lemma_trimmed_unchanged(stored);
}

/// Fallback: when the cluster's report holds no server version, the target is
/// the known-good version, unchanged, and no error is raised.
pub proof fn lemma_fallback_to_known(
    cfg: KorrectShimConfig,
    kubeconfig: Seq<char>,
    args: Seq<String>,
    known: Seq<char>,
    cache_file: Seq<char>,
)
    ensures
        next(
            cfg,
            kubeconfig,
            args,
            PhaseView::AwaitQuery { known, cache_file },
            EventView::Query { reported: Ok(None) },
        ) == (PhaseView::AwaitTargetBinary { target: known }, ActionView::EnsureBinary {
            version: known,
        }),
{
}

/// One dispatch: its settings, the connection configuration it serves, the
/// arguments to pass on, and where it stands.
pub struct Dispatcher {
    pub config: KorrectShimConfig,
    pub kubeconfig: String,
    pub args: Vec<String>,
    pub phase: Phase,
}

impl Dispatcher {
    /// The next phase and action of this dispatch on outcome `e`.
    pub open spec fn next_on(&self, e: EventView) -> (PhaseView, ActionView) {
        next(self.config, self.kubeconfig@, self.args@, self.phase@, e)
    }

    /// A dispatch that has not begun, for the connection configuration named
    /// by `kubeconfig` (the default one when `None`) and the arguments `args`.
    pub fn new(config: KorrectShimConfig, kubeconfig: Option<&str>, args: Vec<String>) -> (r: Self)
        ensures
            r.phase@ == PhaseView::Start,
            r.kubeconfig@ == match kubeconfig {
                Some(k) => k@,
                None => config.default_kubeconfig@,
            },
            r.args == args,
            r.config == config,
    {
        let kubeconfig = config.kubeconfig_path(kubeconfig);
        Dispatcher { config, kubeconfig, args, phase: Phase::Start }
    }

    /// Whether `e` is the outcome that this dispatch waits for.
    pub fn expects(&self, e: &Event) -> (r: bool)
        ensures
            r == expects(self.phase@, e@),
    {
        match (&self.phase, e) {
            (Phase::Start, Event::Begin) => true,
            (Phase::AwaitStable, Event::Stable { .. }) => true,
            (Phase::AwaitKnownBinary { .. }, Event::BinaryReady { .. }) => true,
            (Phase::AwaitConfig { .. }, Event::Config { .. }) => true,
            (Phase::AwaitCache { .. }, Event::Cache { .. }) => true,
            (Phase::AwaitQuery { .. }, Event::Query { .. }) => true,
            (Phase::AwaitStore { .. }, Event::CacheWritten { .. }) => true,
            (Phase::AwaitTargetBinary { .. }, Event::BinaryReady { .. }) => true,
            _ => false,
        }
    }

    /// Takes the outcome `e` of the previous action and returns the next action.
    pub fn step(&mut self, e: Event) -> (r: Action)
        requires
            expects(old(self).phase@, e@),
        ensures
            (final(self).phase@, r@) == old(self).next_on(e@),
            final(self).config == old(self).config,
            final(self).kubeconfig == old(self).kubeconfig,
            final(self).phase@ != PhaseView::Done ==> final(self).args == old(self).args,
    {
        let mut phase = Phase::Done;
        std::mem::swap(&mut phase, &mut self.phase);
        match (phase, e) {
            (Phase::Start, Event::Begin) => {
                self.phase = Phase::AwaitStable;
                Action::FetchStable { url: self.config.stable_version_url() }
            },
            (Phase::AwaitStable, Event::Stable { body }) => match body {
                Err(error) => Action::Fail { error },
                Ok(b) => {
                    let known = trim_text(b.as_str());
                    if is_canonical(known.as_str()) {
                        let version = known.clone();
                        self.phase = Phase::AwaitKnownBinary { known };
                        Action::EnsureBinary { version }
                    } else {
                        Action::Fail { error: ShimError::MalformedVersion }
                    }
                },
            },
            (Phase::AwaitKnownBinary { known }, Event::BinaryReady { result }) => match result {
                Err(error) => Action::Fail { error },
                Ok(_) => {
                    self.phase = Phase::AwaitConfig { known };
                    Action::ReadConfig { path: self.kubeconfig.clone() }
                },
            },
            (Phase::AwaitConfig { known }, Event::Config { content }) => {
                let cache_file = match &content {
                    Some(c) => self.config.get_version_cache_file(Some(c.as_slice())),
                    None => self.config.get_version_cache_file(None),
                };
                let path = cache_file.clone();
                self.phase = Phase::AwaitCache { known, cache_file };
                Action::ReadCache { path }
            },
            (Phase::AwaitCache { known, cache_file }, Event::Cache { entry }) => {
                match entry {
                    Some(t) => {
                        let target = trim_text(t.as_str());
                        let version = target.clone();
                        self.phase = Phase::AwaitTargetBinary { target };
                        Action::EnsureBinary { version }
                    },
                    None => {
                        let binary = self.config.binary_path(known.as_str());
                        self.phase = Phase::AwaitQuery { known, cache_file };
                        Action::QueryCluster { binary, args: query_arguments() }
                    },
                }
            },
            (Phase::AwaitQuery { known, cache_file }, Event::Query { reported }) => {
                match reported {
                    Err(error) => Action::Fail { error },
                    Ok(None) => {
                        let version = known.clone();
                        self.phase = Phase::AwaitTargetBinary { target: known };
                        Action::EnsureBinary { version }
                    },
                    Ok(Some(raw)) => match normalize_version(raw.as_str()) {
                        Err(error) => Action::Fail { error },
                        Ok(v) => {
                            let version = v.clone();
                            self.phase = Phase::AwaitStore { target: v };
                            Action::WriteCache { path: cache_file, version }
                        },
                    },
                }
            },
            (Phase::AwaitStore { target }, Event::CacheWritten { result }) => match result {
                Err(error) => Action::Fail { error },
                Ok(_) => {
                    let version = target.clone();
                    self.phase = Phase::AwaitTargetBinary { target };
                    Action::EnsureBinary { version }
                },
            },
            (Phase::AwaitTargetBinary { target }, Event::BinaryReady { result }) => match result {
                Err(error) => Action::Fail { error },
                Ok(_) => {
                    let binary = self.config.binary_path(target.as_str());
                    let mut args = Vec::new();
                    std::mem::swap(&mut args, &mut self.args);
                    Action::Exec { binary, args }
                },
            },
            _ => Action::Fail { error: ShimError::SubprocessError },
        }
    }
}

/// The exit code to end with once the chosen binary has run: its own, or 1
/// when it reported none (it was stopped by a signal).
pub fn exit_code(code: Option<i32>) -> (r: i32)
    ensures
        r == match code {
            Some(c) => c,
            None => 1,
        },
{
    match code {
        Some(c) => c,
        None => 1,
    }
}

/// Whether `v` is already a canonical version.
fn is_canonical(v: &str) -> (r: bool)
    ensures
        r == canonical(v@),
{
    match normalize_version(v) {
        Ok(n) => same_text(n.as_str(), v),
        Err(_) => false,
    }
}

} // verus!
