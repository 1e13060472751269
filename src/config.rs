//! Which version of the language server is required, and where it is published.
use vstd::prelude::*;

verus! {

/// The repository whose releases carry the language-server bundle.
pub open spec fn repo_identifier() -> Seq<char> {
    "florian-sanders/zed-stylelint"@
}

/// The download URL of the bundle, as a function of the three coordinates.
pub open spec fn asset_url_of(repo: Seq<char>, extension_version: Seq<char>, lsp_version: Seq<char>) -> Seq<char> {
    "https://github.com/"@ + repo + "/releases/download/"@ + extension_version
        + "/stylelint-language-server-v"@ + lsp_version + ".zip"@
}

/// The manifest document, as far as version resolution reads it.
pub struct ExtensionToml {
    pub version: String,
    pub language_servers: Option<LanguageServers>,
}

/// The table of language servers that the manifest declares.
pub struct LanguageServers {
    pub stylelint_lsp: Option<StylelintLspConfig>,
}

/// The manifest's entry for the Stylelint language server.
pub struct StylelintLspConfig {
    pub lsp_required_version: String,
}

/// The required-version field of a manifest, if the manifest holds one.
pub open spec fn required_version_of(doc: ExtensionToml) -> Option<Seq<char>> {
    match doc.language_servers {
        Some(ls) => match ls.stylelint_lsp {
            Some(cfg) => Some(cfg.lsp_required_version@),
            None => None,
        },
        None => None,
    }
}

/// Why a configuration could not be resolved.
pub enum ConfigError {
    /// The manifest could not be read.
    Unreadable { message: String },
    /// The manifest could not be parsed into the expected shape.
    Malformed { message: String },
    /// The manifest holds no (non-empty) required language-server version.
    MissingVersion,
}

/// The text shown to the user for a configuration error.
pub open spec fn config_error_message(e: ConfigError) -> Seq<char> {
    match e {
        ConfigError::Unreadable { message } => "Failed to read extension.toml: "@ + message@,
        ConfigError::Malformed { message } => "Failed to parse extension.toml: "@ + message@,
        ConfigError::MissingVersion => "Missing lsp_required_version in extension.toml"@,
    }
}

impl ConfigError {
    /// The text shown to the user for this error.
    pub fn message(&self) -> (r: String)
        ensures
            r@ == config_error_message(*self),
    {
        match self {
            ConfigError::Unreadable { message } => {
                let mut s = String::from_str("Failed to read extension.toml: ");
                s.append(message.as_str());
                s
            },
            ConfigError::Malformed { message } => {
                let mut s = String::from_str("Failed to parse extension.toml: ");
                s.append(message.as_str());
                s
            },
            ConfigError::MissingVersion => String::from_str("Missing lsp_required_version in extension.toml"),
        }
    }
}

/// The resolved coordinates of the language-server bundle.
#[derive(Clone, Debug)]
pub struct LspConfig {
    /// Release tag under which the bundle is published.
    pub extension_version: String,
    /// Required version of the language server; the identity of its cache.
    pub lsp_version: String,
    /// Repository that publishes the releases.
    pub github_repo: String,
}

impl LspConfig {
    /// A usable configuration names a version.
    pub open spec fn wf(&self) -> bool {
        self.lsp_version@.len() > 0
    }

    /// Resolves the configuration from a parsed manifest: the release tag is
    /// the manifest's version, the language-server version its required
    /// version. A manifest without that field, or with an empty one, is refused.
    pub fn from_extension_toml(doc: ExtensionToml) -> (r: Result<LspConfig, ConfigError>)
        ensures
            match required_version_of(doc) {
                Some(v) if v.len() > 0 => r matches Ok(c) && c.wf()
                    && c.extension_version@ == doc.version@
                    && c.lsp_version@ == v
                    && c.github_repo@ == repo_identifier(),
                _ => r matches Err(ConfigError::MissingVersion),
            },
    {
        let required = match doc.language_servers {
            Some(ls) => match ls.stylelint_lsp {
                Some(cfg) => Some(cfg.lsp_required_version),
                None => None,
            },
            None => None,
        };
        match required {
            Some(lsp_version) => {
                if lsp_version.as_str().is_empty() {
                    Err(ConfigError::MissingVersion)
                } else {
                    Ok(LspConfig {
                        extension_version: doc.version,
                        lsp_version,
                        github_repo: String::from_str("florian-sanders/zed-stylelint"),
                    })
                }
            },
            None => Err(ConfigError::MissingVersion),
        }
    }

    /// The download URL of the bundle; no network access.
    pub fn asset_url(&self) -> (r: String)
        ensures
            r@ == asset_url_of(self.github_repo@, self.extension_version@, self.lsp_version@),
    {
        let mut s = String::from_str("https://github.com/");
        s.append(self.github_repo.as_str());
        s.append("/releases/download/");
        s.append(self.extension_version.as_str());
        s.append("/stylelint-language-server-v");
        s.append(self.lsp_version.as_str());
        s.append(".zip");
        s
    }
}

} // verus!
