//! The install workflow as an explicit state machine: resolve, check the
//! cache, download if absent, verify, clean up. The machine decides; its
//! driver performs each requested action and answers with the matching event.
use vstd::prelude::*;
use crate::cache::{cache_namespace, cache_root_of, lemma_cleanup_spares_current, join_path, script_path_of, stale_dirs, target_dir_of, views_of, Cache};
use crate::config::{asset_url_of, LspConfig};

verus! {

/// Progress reported to the host while a server is made available.
#[derive(PartialEq, Eq, Structural, Clone, Copy, Debug)]
pub enum InstallStatus {
    CheckingForUpdate,
    Downloading,
    Idle,
}

/// Format of the remote archive, handed to the fetch primitive.
#[derive(PartialEq, Eq, Structural, Clone, Copy, Debug)]
pub enum ArchiveFormat {
    Zip,
    GzipTar,
}

/// Why the server could not be made available.
#[derive(Debug)]
pub enum DownloadError {
    /// The fetch of `url` failed with `message`.
    Network { url: String, message: String },
    /// The fetch succeeded but left no entry script behind.
    Extraction { message: String },
}

/// The text shown to the user for a download error.
pub open spec fn download_error_message(e: DownloadError) -> Seq<char> {
    match e {
        DownloadError::Network { url, message } => "Failed to download from "@ + url@ + ": "@ + message@,
        DownloadError::Extraction { message } => "Failed to extract language server: "@ + message@,
    }
}

/// What an extraction error says of the missing entry script.
pub open spec fn extraction_message(script: Seq<char>) -> Seq<char> {
    "Server file not found at "@ + script + " after extraction"@
}

impl DownloadError {
    /// The text shown to the user for this error.
    pub fn message(&self) -> (r: String)
        ensures
            r@ == download_error_message(*self),
    {
        match self {
            DownloadError::Network { url, message } => {
                let mut s = String::from_str("Failed to download from ");
                s.append(url.as_str());
                s.append(": ");
                s.append(message.as_str());
                s
            },
            DownloadError::Extraction { message } => {
                let mut s = String::from_str("Failed to extract language server: ");
                s.append(message.as_str());
                s
            },
        }
    }
}

/// Where the workflow stands: each phase waits for the answer to one action.
#[derive(PartialEq, Eq, Structural, Clone, Copy, Debug)]
pub enum Phase {
    /// `CheckingForUpdate` was reported.
    ReportingCheck,
    /// The entry script is being probed before any download.
    Probing,
    /// `Idle` was reported after a cache hit.
    ReportingHit,
    /// `Downloading` was reported after a cache miss.
    ReportingDownload,
    /// The archive is being fetched.
    Fetching,
    /// The entry script is being probed after the fetch.
    Verifying,
    /// The versions under the cache namespace are being listed.
    Listing,
    /// Stale version directories are being removed.
    Removing,
    /// `Idle` was reported after a fresh install.
    ReportingReady,
    /// The workflow has returned its outcome.
    Finished,
}

/// What the driver asks of the outside world.
#[derive(Debug)]
pub enum Action {
    /// Notify the status sink.
    Report { status: InstallStatus },
    /// Tell whether `path` is a regular file.
    ProbeScript { path: String },
    /// Fetch `url` and unpack it into `destination`.
    Fetch { url: String, destination: String, format: ArchiveFormat },
    /// List the entry names under `dir`.
    ListVersions { dir: String },
    /// Remove each of `dirs`, recursively, ignoring failures.
    RemoveDirs { dirs: Vec<String> },
    /// The workflow is over: return `outcome` to the caller.
    Finish { outcome: Result<String, DownloadError> },
}

/// The answer to the last action.
#[derive(Debug)]
pub enum Event {
    /// The status sink was notified (whatever it made of it).
    Reported,
    /// Whether the probed path is a regular file.
    Probed { is_file: bool },
    /// How the fetch went.
    Fetched { fetch: Result<(), String> },
    /// The names listed, or why listing failed.
    Listed { listing: Result<Vec<String>, String> },
    /// How many removals failed.
    Removed { failures: usize },
}

/// Whether `e` answers the action that `p` waits on.
pub open spec fn accepts(p: Phase, e: Event) -> bool {
    match p {
        Phase::ReportingCheck | Phase::ReportingHit | Phase::ReportingDownload | Phase::ReportingReady => e is Reported,
        Phase::Probing | Phase::Verifying => e is Probed,
        Phase::Fetching => e is Fetched,
        Phase::Listing => e is Listed,
        Phase::Removing => e is Removed,
        Phase::Finished => false,
    }
}

/// The phase that follows `p` on the accepted event `e`.
pub open spec fn next_phase(p: Phase, e: Event) -> Phase {
    match p {
        Phase::ReportingCheck => Phase::Probing,
        Phase::Probing => if e matches Event::Probed { is_file: true } {
            Phase::ReportingHit
        } else {
            Phase::ReportingDownload
        },
        Phase::ReportingHit => Phase::Finished,
        Phase::ReportingDownload => Phase::Fetching,
        Phase::Fetching => if e matches Event::Fetched { fetch: Ok(_) } {
            Phase::Verifying
        } else {
            Phase::Finished
        },
        Phase::Verifying => if e matches Event::Probed { is_file: true } {
            Phase::Listing
        } else {
            Phase::Finished
        },
        Phase::Listing => if e matches Event::Listed { listing: Ok(_) } {
            Phase::Removing
        } else {
            Phase::ReportingReady
        },
        Phase::Removing => Phase::ReportingReady,
        Phase::ReportingReady => Phase::Finished,
        Phase::Finished => Phase::Finished,
    }
}

/// `a` reports `status`.
pub open spec fn is_report(a: Action, status: InstallStatus) -> bool {
    a matches Action::Report { status: s } && s == status
}

/// `a` returns the entry script at `path`.
pub open spec fn is_success(a: Action, path: Seq<char>) -> bool {
    a matches Action::Finish { outcome: Ok(p) } && p@ == path
}

/// `a` asks whether `path` is a regular file.
pub open spec fn is_probe(a: Action, path: Seq<char>) -> bool {
    a matches Action::ProbeScript { path: p } && p@ == path
}

/// The running workflow for one cache.
pub struct Installation {
    phase: Phase,
    cache: Cache,
    url: String,
}

impl Installation {
    /// The phase the workflow is in.
    pub closed spec fn phase(&self) -> Phase {
        self.phase
    }

    /// The cache the workflow installs into.
    pub closed spec fn cache(&self) -> Cache {
        self.cache
    }

    /// The URL the bundle is fetched from.
    pub closed spec fn url(&self) -> Seq<char> {
        self.url@
    }

    /// The path returned on success.
    pub open spec fn server_path_spec(&self) -> Seq<char> {
        join_path(self.cache().work_dir(), script_path_of(self.cache().version()))
    }

    /// The action taken when this workflow, in its phase, receives `e`.
    pub open spec fn action_on(&self, e: Event, a: Action) -> bool {
        let v = self.cache().version();
        match self.phase() {
            Phase::ReportingCheck => is_probe(a, script_path_of(v)),
            Phase::Probing => if e matches Event::Probed { is_file: true } {
                is_report(a, InstallStatus::Idle)
            } else {
                is_report(a, InstallStatus::Downloading)
            },
            Phase::ReportingHit => is_success(a, self.server_path_spec()),
            Phase::ReportingDownload => a matches Action::Fetch { url, destination, format }
                && url@ == self.url() && destination@ == target_dir_of(v) && format == ArchiveFormat::Zip,
            Phase::Fetching => match e {
                Event::Fetched { fetch: Ok(_) } => is_probe(a, script_path_of(v)),
                Event::Fetched { fetch: Err(m) } => a matches Action::Finish {
                    outcome: Err(DownloadError::Network { url, message }),
                } && url@ == self.url() && message@ == m@,
                _ => false,
            },
            Phase::Verifying => if e matches Event::Probed { is_file: true } {
                a matches Action::ListVersions { dir } && dir@ == cache_namespace()
            } else {
                a matches Action::Finish { outcome: Err(DownloadError::Extraction { message }) }
                    && message@ == extraction_message(script_path_of(v))
            },
            Phase::Listing => match e {
                Event::Listed { listing: Ok(names) } => a matches Action::RemoveDirs { dirs }
                    && views_of(dirs@) == stale_dirs(v, views_of(names@)),
                _ => is_report(a, InstallStatus::Idle),
            },
            Phase::Removing => is_report(a, InstallStatus::Idle),
            Phase::ReportingReady => is_success(a, self.server_path_spec()),
            Phase::Finished => false,
        }
    }

    /// One move of the machine: `s` accepts `e`, becomes `t` and asks for `a`.
    pub open spec fn steps(s: Installation, e: Event, t: Installation, a: Action) -> bool {
        &&& accepts(s.phase(), e)
        &&& t.phase() == next_phase(s.phase(), e)
        &&& t.cache() == s.cache()
        &&& t.url() == s.url()
        &&& s.action_on(e, a)
    }

    /// Whether `e` answers the action this workflow waits on.
    pub fn accepts(&self, e: &Event) -> (r: bool)
        ensures
            r == accepts(self.phase(), *e),
    {
        match self.phase {
            Phase::ReportingCheck | Phase::ReportingHit | Phase::ReportingDownload | Phase::ReportingReady => matches!(e, Event::Reported),
            Phase::Probing | Phase::Verifying => matches!(e, Event::Probed { .. }),
            Phase::Fetching => matches!(e, Event::Fetched { .. }),
            Phase::Listing => matches!(e, Event::Listed { .. }),
            Phase::Removing => matches!(e, Event::Removed { .. }),
            Phase::Finished => false,
        }
    }

    /// The cache this workflow installs into.
    pub fn cache_handle(&self) -> (r: &Cache)
        ensures
            *r == self.cache(),
    {
        &self.cache
    }

    /// Whether the workflow has returned its outcome.
    pub fn is_finished(&self) -> (r: bool)
        ensures
            r == (self.phase() == Phase::Finished),
    {
        self.phase == Phase::Finished
    }

    fn moved(self, phase: Phase) -> (r: Installation)
        ensures
            r.phase() == phase,
            r.cache() == self.cache(),
            r.url() == self.url(),
    {
        Installation { phase, cache: self.cache, url: self.url }
    }

    /// Advances the workflow by the answer `e` to its last action.
    pub fn step(self, e: Event) -> (r: (Installation, Action))
        requires
            accepts(self.phase(), e),
        ensures
            Installation::steps(self, e, r.0, r.1),
    {
        match self.phase {
            Phase::ReportingCheck => {
                let path = self.cache.relative_server_path();
                (self.moved(Phase::Probing), Action::ProbeScript { path })
            },
            Phase::Probing => {
                if matches!(e, Event::Probed { is_file: true }) {
                    (self.moved(Phase::ReportingHit), Action::Report { status: InstallStatus::Idle })
                } else {
                    (self.moved(Phase::ReportingDownload), Action::Report { status: InstallStatus::Downloading })
                }
            },
            Phase::ReportingHit => {
                let path = self.cache.server_path();
                (self.moved(Phase::Finished), Action::Finish { outcome: Ok(path) })
            },
            Phase::ReportingDownload => {
                let url = self.url.clone();
                let destination = self.cache.target_dir();
                (self.moved(Phase::Fetching), Action::Fetch { url, destination, format: ArchiveFormat::Zip })
            },
            Phase::Fetching => {
                match e {
                    Event::Fetched { fetch: Err(message) } => {
                        let url = self.url.clone();
                        (self.moved(Phase::Finished), Action::Finish {
                            outcome: Err(DownloadError::Network { url, message }),
                        })
                    },
                    _ => {
                        let path = self.cache.relative_server_path();
                        (self.moved(Phase::Verifying), Action::ProbeScript { path })
                    },
                }
            },
            Phase::Verifying => {
                if matches!(e, Event::Probed { is_file: true }) {
                    let dir = self.cache.namespace_dir();
                    (self.moved(Phase::Listing), Action::ListVersions { dir })
                } else {
                    let mut message = String::from_str("Server file not found at ");
                    let script = self.cache.relative_server_path();
                    message.append(script.as_str());
                    message.append(" after extraction");
                    (self.moved(Phase::Finished), Action::Finish {
                        outcome: Err(DownloadError::Extraction { message }),
                    })
                }
            },
            Phase::Listing => {
                match e {
                    Event::Listed { listing: Ok(names) } => {
                        let dirs = self.cache.cleanup_old_versions(&names);
                        (self.moved(Phase::Removing), Action::RemoveDirs { dirs })
                    },
                    _ => (self.moved(Phase::ReportingReady), Action::Report { status: InstallStatus::Idle }),
                }
            },
            Phase::Removing => (self.moved(Phase::ReportingReady), Action::Report { status: InstallStatus::Idle }),
            Phase::ReportingReady => {
                let path = self.cache.server_path();
                (self.moved(Phase::Finished), Action::Finish { outcome: Ok(path) })
            },
            Phase::Finished => {
                proof {
                    assert(false);
                }
                (self, Action::Report { status: InstallStatus::Idle })
            },
        }
    }
}

/// `states` and `acts` are what the machine goes through from `s` when it is
/// answered with `evs`: `states[i]` takes `evs[i]`, becomes `states[i + 1]`
/// and asks for `acts[i]`.
pub open spec fn is_run(s: Installation, evs: Seq<Event>, states: Seq<Installation>, acts: Seq<Action>) -> bool {
    &&& states.len() == evs.len() + 1
    &&& acts.len() == evs.len()
    &&& states[0] == s
    &&& forall|i: int| 0 <= i < evs.len() ==> #[trigger] Installation::steps(states[i], evs[i], states[i + 1], acts[i])
}

/// Of a removal that `a` asks for, on the listing `e` answered: it is
/// exactly the stale directories of `version`.
pub open spec fn removes_only_stale(a: Action, e: Event, version: Seq<char>) -> bool {
    match a {
        Action::RemoveDirs { dirs } => match e {
            Event::Listed { listing: Ok(names) } => views_of(dirs@) == stale_dirs(version, views_of(names@)),
            _ => false,
        },
        _ => true,
    }
}

/// One move of a run.
pub proof fn lemma_run_step(s: Installation, evs: Seq<Event>, states: Seq<Installation>, acts: Seq<Action>, i: int)
    requires
        is_run(s, evs, states, acts),
        0 <= i < evs.len(),
    ensures
        Installation::steps(states[i], evs[i], states[i + 1], acts[i]),
{
}

/// Of a removal that `a` asks for: it spares the directory of `version`.
pub open spec fn spares_version(a: Action, version: Seq<char>) -> bool {
    match a {
        Action::RemoveDirs { dirs } => !views_of(dirs@).contains(cache_root_of(version)),
        _ => true,
    }
}

/// A cache hit: when the entry script is a regular file whenever it is
/// probed, a run from the start never fetches, and whatever it returns is
/// the script's path.
pub proof fn lemma_cache_hit_never_fetches(s: Installation, evs: Seq<Event>, states: Seq<Installation>, acts: Seq<Action>)
    requires
        s.phase() == Phase::ReportingCheck,
        is_run(s, evs, states, acts),
        forall|i: int| 0 <= i < evs.len() && (#[trigger] evs[i] is Probed) ==> evs[i] matches Event::Probed { is_file: true },
    ensures
        evs.len() <= 3,
        forall|i: int| 0 <= i < acts.len() ==> !(#[trigger] acts[i] is Fetch),
        forall|i: int| 0 <= i < acts.len() && (#[trigger] acts[i] is Finish) ==> is_success(acts[i], s.server_path_spec()),
{
    if evs.len() > 0 {
        lemma_run_step(s, evs, states, acts, 0);
    }
    if evs.len() > 1 {
        lemma_run_step(s, evs, states, acts, 1);
        assert(evs[1] is Probed);
    }
    if evs.len() > 2 {
        lemma_run_step(s, evs, states, acts, 2);
    }
    if evs.len() > 3 {
        lemma_run_step(s, evs, states, acts, 3);
    }
}

/// A fresh install: once a fetch succeeds and the entry script is then a
/// regular file, the run returns the script's path exactly once, as its
/// last action, whatever listing and removal report; the only directories
/// it removes are the stale ones of the listing, never the current
/// version's own.
pub proof fn lemma_fresh_install_returns_path(s: Installation, evs: Seq<Event>, states: Seq<Installation>, acts: Seq<Action>)
    requires
        s.phase() == Phase::Fetching,
        is_run(s, evs, states, acts),
        evs.len() >= 2,
        evs[0] matches Event::Fetched { fetch: Ok(_) },
        evs[1] matches Event::Probed { is_file: true },
    ensures
        evs.len() <= 5,
        forall|i: int| 0 <= i < acts.len() && (#[trigger] acts[i] is Finish) ==> i == acts.len() - 1
            && is_success(acts[i], s.server_path_spec()),
        states.last().phase() == Phase::Finished ==> is_success(acts.last(), s.server_path_spec()),
        forall|i: int| 0 <= i < acts.len() ==> removes_only_stale(#[trigger] acts[i], evs[i], s.cache().version()),
        forall|i: int| 0 <= i < acts.len() ==> spares_version(#[trigger] acts[i], s.cache().version()),
{
    lemma_run_step(s, evs, states, acts, 0);
    lemma_run_step(s, evs, states, acts, 1);
    if evs.len() > 2 {
        lemma_run_step(s, evs, states, acts, 2);
    }
    if evs.len() > 3 {
        lemma_run_step(s, evs, states, acts, 3);
    }
    if evs.len() > 4 {
        lemma_run_step(s, evs, states, acts, 4);
    }
    if evs.len() > 5 {
        lemma_run_step(s, evs, states, acts, 5);
    }
    let v = s.cache().version();
    assert forall|i: int| 0 <= i < acts.len() implies spares_version(#[trigger] acts[i], v) by {
        assert(removes_only_stale(acts[i], evs[i], v));
        match evs[i] {
            Event::Listed { listing: Ok(names) } => {
                lemma_cleanup_spares_current(v, views_of(names@));
            },
            _ => {},
        }
    }
}

/// Downloads and verifies the bundle that a configuration names.
pub struct LspDownloader {
    config: LspConfig,
}

impl LspDownloader {
    /// The configuration whose bundle is downloaded.
    pub closed spec fn config(&self) -> LspConfig {
        self.config
    }

    /// A downloader for the bundle that `config` names.
    pub fn new(config: LspConfig) -> (r: LspDownloader)
        ensures
            r.config() == config,
    {
        LspDownloader { config }
    }

    /// Starts the whole workflow on `cache`: `CheckingForUpdate` is reported
    /// first.
    pub fn begin(&self, cache: Cache) -> (r: (Installation, Action))
        ensures
            r.0.phase() == Phase::ReportingCheck,
            r.0.cache() == cache,
            r.0.url() == asset_url_of(self.config().github_repo@, self.config().extension_version@, self.config().lsp_version@),
            is_report(r.1, InstallStatus::CheckingForUpdate),
    {
        let url = self.config.asset_url();
        (Installation { phase: Phase::ReportingCheck, cache, url }, Action::Report { status: InstallStatus::CheckingForUpdate })
    }

    /// Starts the download half of the workflow on `cache`, known to hold no
    /// build: `Downloading` is reported, then the archive is fetched,
    /// verified and stale versions are removed.
    pub fn download_and_verify(&self, cache: Cache) -> (r: (Installation, Action))
        ensures
            r.0.phase() == Phase::ReportingDownload,
            r.0.cache() == cache,
            r.0.url() == asset_url_of(self.config().github_repo@, self.config().extension_version@, self.config().lsp_version@),
            is_report(r.1, InstallStatus::Downloading),
    {
        let url = self.config.asset_url();
        (Installation { phase: Phase::ReportingDownload, cache, url }, Action::Report { status: InstallStatus::Downloading })
    }
}

} // verus!
