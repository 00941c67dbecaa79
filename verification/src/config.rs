//! Which providers a deployment enables, and what each of them needs.
//!
//! A configuration is validated once, when the service starts. A valid
//! configuration never sends a fetch to a provider it has no settings for.

use vstd::prelude::*;
use vstd::string::StringExecFns;

use crate::metadata::MetadataProvider;

verus! {

/// What the local tool needs: the program to run.
#[derive(Debug, PartialEq, Eq)]
pub struct CalibreConfig {
    pub fetcher: String,
}

/// What the open bibliographic service needs: a contact, which it asks its
/// clients to send in their user agent.
#[derive(Debug, PartialEq, Eq)]
pub struct OpenLibraryConfig {
    pub contact: String,
}

/// The metadata section of a configuration.
#[derive(Debug, PartialEq, Eq)]
pub struct MetadataConfig {
    /// The providers that are enabled; all of them where this is not set.
    pub providers: Option<Vec<MetadataProvider>>,
    /// The provider to use where a request names none.
    pub default_provider: Option<MetadataProvider>,
    pub calibre: Option<CalibreConfig>,
    pub open_library: Option<OpenLibraryConfig>,
}

/// The model of a [`MetadataConfig`].
pub struct Settings {
    pub providers: Option<Seq<MetadataProvider>>,
    pub default_provider: Option<MetadataProvider>,
    /// The local tool's program, where it is configured.
    pub calibre: Option<Seq<char>>,
    /// The contact for the bibliographic service, where it is configured.
    pub open_library: Option<Seq<char>>,
}

impl View for MetadataConfig {
    type V = Settings;

    open spec fn view(&self) -> Settings {
        Settings {
            providers: match self.providers {
                Some(list) => Some(list@),
                None => None,
            },
            default_provider: self.default_provider,
            calibre: match self.calibre {
                Some(c) => Some(c.fetcher@),
                None => None,
            },
            open_library: match self.open_library {
                Some(c) => Some(c.contact@),
                None => None,
            },
        }
    }
}

/// What is wrong with a configuration.
#[derive(Debug, Clone, Copy, PartialEq, Eq, Structural)]
pub enum ConfigError {
    /// The local tool is enabled and has no settings.
    MissingCalibre,
    /// The bibliographic service is enabled and has no settings.
    MissingOpenLibrary,
    /// Several providers are enabled and none is the default.
    DefaultRequired,
    /// The default provider is not among the enabled ones.
    DefaultNotEnabled(MetadataProvider),
}

impl ConfigError {
    pub open spec fn spec_message(self) -> Seq<char> {
        match self {
            ConfigError::MissingCalibre => "Missing `[metadata.calibre]`"@,
            ConfigError::MissingOpenLibrary => "Missing `[metadata.open_library]`"@,
            ConfigError::DefaultRequired => "When more than one providers are enabled a default must be chosen"@,
            ConfigError::DefaultNotEnabled(provider) => "metadata.default_provider ("@ + provider.name()
                + ") must be present in metadata.providers"@,
        }
    }

    /// A sentence that says what is wrong.
    pub fn message(&self) -> (r: String)
        ensures
            r@ == self.spec_message(),
    {
        match self {
            ConfigError::MissingCalibre => "Missing `[metadata.calibre]`".to_owned(),
            ConfigError::MissingOpenLibrary => "Missing `[metadata.open_library]`".to_owned(),
            ConfigError::DefaultRequired => "When more than one providers are enabled a default must be chosen".to_owned(),
            ConfigError::DefaultNotEnabled(provider) => {
                let mut text = "metadata.default_provider (".to_owned();
                text.append(provider.serialized());
                text.append(") must be present in metadata.providers");
                text
            },
        }
    }
}

impl Settings {
    /// Whether a provider is enabled.
    pub open spec fn enables(self, provider: MetadataProvider) -> bool {
        match self.providers {
            Some(list) => list.contains(provider),
            None => true,
        }
    }

    /// Whether a provider has its settings.
    pub open spec fn configures(self, provider: MetadataProvider) -> bool {
        match provider {
            MetadataProvider::Calibre => self.calibre is Some,
            MetadataProvider::OpenLibrary => self.open_library is Some,
        }
    }

    /// The enabled providers, in the order in which they are offered.
    pub open spec fn enabled(self) -> Seq<MetadataProvider> {
        match self.providers {
            Some(list) => list,
            None => MetadataProvider::spec_all(),
        }
    }

    /// What is wrong with the default provider, if anything. Where the
    /// enabled providers are listed, a default must be among them, and there
    /// must be a default where more than one is listed.
    pub open spec fn default_fault(self) -> Option<ConfigError> {
        match (self.providers, self.default_provider) {
            (Some(list), None) => if list.len() > 1 {
                Some(ConfigError::DefaultRequired)
            } else {
                None
            },
            (Some(list), Some(provider)) => if list.contains(provider) {
                None
            } else {
                Some(ConfigError::DefaultNotEnabled(provider))
            },
            (None, _) => None,
        }
    }

    /// The first thing that is wrong with a configuration, if anything.
    pub open spec fn fault(self) -> Option<ConfigError> {
        if self.enables(MetadataProvider::Calibre) && self.calibre is None {
            Some(ConfigError::MissingCalibre)
        } else if self.enables(MetadataProvider::OpenLibrary) && self.open_library is None {
            Some(ConfigError::MissingOpenLibrary)
        } else {
            self.default_fault()
        }
    }

    /// The provider to use where a request names none: the only enabled one,
    /// else the configured default, else the local tool.
    pub open spec fn default_provider(self) -> MetadataProvider {
        if self.enabled().len() == 1 {
            self.enabled()[0]
        } else {
            match self.default_provider {
                Some(provider) => provider,
                None => MetadataProvider::Calibre,
            }
        }
    }

    /// The provider that serves a request.
    pub open spec fn provider_for(self, requested: Option<MetadataProvider>) -> MetadataProvider {
        match requested {
            Some(provider) => provider,
            None => self.default_provider(),
        }
    }
}

/// The fault, if any, as the result of a check.
pub open spec fn checked(fault: Option<ConfigError>) -> Result<(), ConfigError> {
    match fault {
        Some(e) => Err(e),
        None => Ok(()),
    }
}

fn lists(list: &Vec<MetadataProvider>, provider: MetadataProvider) -> (r: bool)
    ensures
        r == list@.contains(provider),
{
    let mut i: usize = 0;
    while i < list.len()
        invariant
            i <= list.len(),
            forall|k: int| 0 <= k < i ==> list@[k] != provider,
        decreases list.len() - i,
    {
        if list[i] == provider {
            return true;
        }
        i += 1;
    }
    false
}

impl MetadataConfig {
    /// Whether a provider is enabled.
    pub fn enables(&self, provider: MetadataProvider) -> (r: bool)
        ensures
            r == self@.enables(provider),
    {
        match &self.providers {
            Some(list) => lists(list, provider),
            None => true,
        }
    }

    /// Whether a provider has its settings.
    pub fn configures(&self, provider: MetadataProvider) -> (r: bool)
        ensures
            r == self@.configures(provider),
    {
        match provider {
            MetadataProvider::Calibre => self.calibre.is_some(),
            MetadataProvider::OpenLibrary => self.open_library.is_some(),
        }
    }

    /// The local tool, where it is enabled, has its settings.
    pub fn check_calibre(&self) -> (r: Result<(), ConfigError>)
        ensures
            r == (if self@.enables(MetadataProvider::Calibre) && self@.calibre is None {
                Err(ConfigError::MissingCalibre)
            } else {
                Ok(())
            }),
    {
        if self.enables(MetadataProvider::Calibre) && self.calibre.is_none() {
            Err(ConfigError::MissingCalibre)
        } else {
            Ok(())
        }
    }

    /// The bibliographic service, where it is enabled, has its settings.
    pub fn check_openlibrary(&self) -> (r: Result<(), ConfigError>)
        ensures
            r == (if self@.enables(MetadataProvider::OpenLibrary) && self@.open_library is None {
                Err(ConfigError::MissingOpenLibrary)
            } else {
                Ok(())
            }),
    {
        if self.enables(MetadataProvider::OpenLibrary) && self.open_library.is_none() {
            Err(ConfigError::MissingOpenLibrary)
        } else {
            Ok(())
        }
    }

    /// The default provider fits the list of enabled providers.
    pub fn check_default_provider(&self) -> (r: Result<(), ConfigError>)
        ensures
            r == checked(self@.default_fault()),
    {
        match (&self.providers, self.default_provider) {
            (Some(list), None) => {
                if list.len() > 1 {
                    Err(ConfigError::DefaultRequired)
                } else {
                    Ok(())
                }
            },
            (Some(list), Some(provider)) => {
                if lists(list, provider) {
                    Ok(())
                } else {
                    Err(ConfigError::DefaultNotEnabled(provider))
                }
            },
            (None, _) => Ok(()),
        }
    }

    /// Validates a configuration as the service does when it starts, and
    /// reports the first fault.
    pub fn validate(&self) -> (r: Result<(), ConfigError>)
        ensures
            r == checked(self@.fault()),
    {
        match self.check_calibre() {
            Err(e) => {
                return Err(e);
            },
            Ok(()) => {},
        }
        match self.check_openlibrary() {
            Err(e) => {
                return Err(e);
            },
            Ok(()) => {},
        }
        self.check_default_provider()
    }

    /// Whether any provider is enabled.
    pub fn has_provider(&self) -> (r: bool)
        ensures
            r == (self@.enabled().len() > 0),
    {
        match &self.providers {
            Some(list) => list.len() > 0,
            None => true,
        }
    }

    /// The provider to use where a request names none.
    pub fn default_provider(&self) -> (r: MetadataProvider)
        ensures
            r == self@.default_provider(),
    {
        let enabled: &[MetadataProvider] = match &self.providers {
            Some(list) => list.as_slice(),
            None => MetadataProvider::all(),
        };
        if enabled.len() == 1 {
            enabled[0]
        } else {
            match self.default_provider {
                Some(provider) => provider,
                None => MetadataProvider::Calibre,
            }
        }
    }

    /// The provider that serves a request.
    pub fn provider_for(&self, requested: Option<MetadataProvider>) -> (r: MetadataProvider)
        ensures
            r == self@.provider_for(requested),
    {
        match requested {
            Some(provider) => provider,
            None => self.default_provider(),
        }
    }
}

/// A valid configuration has the settings of every enabled provider.
pub proof fn lemma_enabled_is_configured(settings: Settings, provider: MetadataProvider)
    requires
        settings.fault() is None,
        settings.enables(provider),
    ensures
        settings.configures(provider),
{
}

/// In a valid configuration that enables a provider at all, the provider
/// that serves a request which names none is enabled, and so has its
/// settings.
pub proof fn lemma_default_is_configured(settings: Settings)
    requires
        settings.fault() is None,
        settings.enabled().len() > 0,
    ensures
        settings.enables(settings.default_provider()),
        settings.configures(settings.default_provider()),
{
    let chosen = settings.default_provider();
    match settings.providers {
        Some(list) => {
            if list.len() == 1 {
                assert(list[0] == chosen);
                assert(list.contains(chosen));
            } else {
                assert(settings.default_provider is Some);
                assert(list.contains(chosen));
            }
        },
        None => {},
    }
    lemma_enabled_is_configured(settings, chosen);
}

} // verus!
