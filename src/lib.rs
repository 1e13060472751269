//! Local lifecycle of the Stylelint language-server bundle: which version is
//! required, where it lives on disk, how it is fetched, verified and how
//! stale versions are reclaimed.
pub mod cache;
pub mod config;
pub mod lsp_downloader;

pub use crate::cache::Cache;
pub use crate::config::{ConfigError, ExtensionToml, LanguageServers, LspConfig, StylelintLspConfig};
pub use crate::lsp_downloader::{Action, ArchiveFormat, DownloadError, Event, InstallStatus, Installation, LspDownloader, Phase};

use crate::config::asset_url_of;
use crate::lsp_downloader::is_report;
use vstd::prelude::*;

verus! {

/// The extension's state across language-server launches: the configuration,
/// resolved on first use and kept from then on.
pub struct StylelintExtension {
    config: Option<LspConfig>,
}

/// The configuration kept after `resolved` is offered to one that holds `kept`.
pub open spec fn kept_config(kept: Option<LspConfig>, resolved: LspConfig) -> LspConfig {
    match kept {
        Some(c) => c,
        None => resolved,
    }
}

impl StylelintExtension {
    #[verifier::type_invariant]
    spec fn usable(self) -> bool {
        self.config matches Some(c) ==> c.wf()
    }

    /// The configuration kept so far.
    pub closed spec fn config(&self) -> Option<LspConfig> {
        self.config
    }

    /// An extension that has resolved no configuration yet.
    pub fn new() -> (r: StylelintExtension)
        ensures
            r.config() is None,
    {
        StylelintExtension { config: None }
    }

    /// Whether a configuration has been resolved already.
    pub fn has_config(&self) -> (r: bool)
        ensures
            r == self.config() is Some,
    {
        self.config.is_some()
    }

    /// The configuration resolved earlier, if any.
    pub fn current_config(&self) -> (r: Option<&LspConfig>)
        ensures
            r is Some == self.config() is Some,
            r matches Some(c) ==> *c == self.config().unwrap(),
    {
        self.config.as_ref()
    }

    /// Keeps the configuration resolved earlier, or else `resolved`.
    pub fn ensure_config(&mut self, resolved: LspConfig)
        requires
            resolved.wf(),
        ensures
            final(self).config() == Some(kept_config(old(self).config(), resolved)),
            final(self).config().unwrap().wf(),
    {
        proof {
            use_type_invariant(&*self);
        }
        if self.config.is_none() {
            self.config = Some(resolved);
        }
        proof {
            use_type_invariant(&*self);
        }
    }

    /// Starts making the server available for the kept configuration (or
    /// `resolved`, if none was kept), with its cache under `work_dir`.
    pub fn server_script_path(&mut self, resolved: LspConfig, work_dir: String) -> (r: (Installation, Action))
        requires
            resolved.wf(),
        ensures
            final(self).config() == Some(kept_config(old(self).config(), resolved)),
            ({
                let c = kept_config(old(self).config(), resolved);
                &&& r.0.phase() == Phase::ReportingCheck
                &&& r.0.cache().version() == c.lsp_version@
                &&& r.0.cache().work_dir() == work_dir@
                &&& r.0.url() == asset_url_of(c.github_repo@, c.extension_version@, c.lsp_version@)
            }),
            is_report(r.1, InstallStatus::CheckingForUpdate),
    {
        self.ensure_config(resolved);
        let c = self.config.as_ref().unwrap();
        let cache = Cache::new(c.lsp_version.as_str(), work_dir);
        let downloader = LspDownloader::new(LspConfig {
            extension_version: c.extension_version.clone(),
            lsp_version: c.lsp_version.clone(),
            github_repo: c.github_repo.clone(),
        });
        downloader.begin(cache)
    }
}

impl Default for StylelintExtension {
    fn default() -> (r: StylelintExtension)
        ensures
            r.config() is None,
    {
        StylelintExtension::new()
    }
}

} // verus!
