//! The configured records and the updater that keeps them.

use vstd::prelude::*;
use crate::google;
use crate::http::HttpReply;
use crate::orchestrator::{run, run_spec, run_step_is_sound, RunStep, RunStepView};
use crate::outcome::{ConfigFault, ErrorView, UpdateError};
use crate::provider::{provider_request_spec, ProviderCall, ProviderCallView};
use crate::resolver::{resolve_ip_spec, resolve_public_ip};
use crate::splitter::{
    apex, dot_count, first_dot, law_split_cuts_at_first_dot, split, split_spec,
};
use crate::update::{begin, begin_spec, UpdateStep};

verus! {

/// The dynamic-DNS protocol that a record is kept up to date with.
#[derive(Debug, Clone, Copy, PartialEq, Eq, Structural)]
pub enum DomainType {
    Namecheap,
    Google,
}

/// One DNS record to keep up to date.
#[derive(Debug, Clone, PartialEq, Eq)]
pub struct DomainConfig {
    /// The domain: not empty, and with no dot in front. Beside a subdomain
    /// it is the root domain. Without one, a Namecheap record is split into
    /// the two at the first dot of a domain that has more than one.
    pub domain: String,
    /// The subdomain label: not empty where there is one. Namecheap takes it
    /// apart from the root; for Google it is joined to the domain with a dot.
    pub subdomain: Option<String>,
    /// The account at the provider, for providers that sign in with one.
    pub username: Option<String>,
    /// The password or token for dynamic DNS: not empty.
    pub password: String,
    /// The provider's protocol.
    pub domain_type: DomainType,
}

/// The view of `DomainConfig`.
pub struct DomainConfigView {
    pub domain: Seq<char>,
    pub subdomain: Option<Seq<char>>,
    pub username: Option<Seq<char>>,
    pub password: Seq<char>,
    pub domain_type: DomainType,
}

/// The view of a text that may be absent.
pub open spec fn optional_text_view(text: Option<String>) -> Option<Seq<char>> {
    match text {
        Some(t) => Some(t@),
        None => None,
    }
}

impl View for DomainConfig {
    type V = DomainConfigView;

    open spec fn view(&self) -> DomainConfigView {
        DomainConfigView {
            domain: self.domain@,
            subdomain: optional_text_view(self.subdomain),
            username: optional_text_view(self.username),
            password: self.password@,
            domain_type: self.domain_type,
        }
    }
}

/// The views of configured records, in order.
pub open spec fn configs_view(configs: Seq<DomainConfig>) -> Seq<DomainConfigView> {
    Seq::new(configs.len(), |i: int| configs[i]@)
}

/// What is wrong with a record, if anything: the first of these that holds.
/// The domain is empty; it begins with a dot; a subdomain is given and is
/// empty; the password is empty; the provider is Google and there is no user
/// name; the provider is Google and the user name is empty.
pub open spec fn config_fault(config: DomainConfigView) -> Option<ConfigFault> {
    if config.domain.len() == 0 {
        Some(ConfigFault::EmptyDomain)
    } else if config.domain[0] == '.' {
        Some(ConfigFault::LeadingDot)
    } else if config.subdomain is Some && config.subdomain->0.len() == 0 {
        Some(ConfigFault::EmptySubdomain)
    } else if config.password.len() == 0 {
        Some(ConfigFault::EmptyPassword)
    } else if config.domain_type == DomainType::Google && config.username is None {
        Some(ConfigFault::MissingUsername)
    } else if config.domain_type == DomainType::Google && config.username->0.len() == 0 {
        Some(ConfigFault::EmptyUsername)
    } else {
        None
    }
}

/// The call to the provider that a record comes to.
///
/// A faulty record comes to a configuration error. For Google the host name
/// is the configured domain, with a configured subdomain and a dot in front
/// of it. For Namecheap a configured subdomain is the host and the configured
/// domain the root; without a subdomain the configured domain is split, and
/// one that cannot be split is an invalid domain.
pub open spec fn resolve_spec(config: DomainConfigView) -> Result<ProviderCallView, ErrorView> {
    match config_fault(config) {
        Some(fault) => Err(ErrorView::Configuration(fault)),
        None => match config.domain_type {
            DomainType::Google => Ok(
                ProviderCallView::Google {
                    hostname: google::hostname_spec(config.subdomain, config.domain),
                    username: config.username->0,
                    password: config.password,
                },
            ),
            DomainType::Namecheap => match config.subdomain {
                Some(label) => Ok(
                    ProviderCallView::Namecheap {
                        host: label,
                        domain: config.domain,
                        password: config.password,
                    },
                ),
                None => match split_spec(config.domain) {
                    Some(parts) => Ok(
                        ProviderCallView::Namecheap {
                            host: parts.0,
                            domain: parts.1,
                            password: config.password,
                        },
                    ),
                    None => Err(ErrorView::InvalidDomain),
                },
            },
        },
    }
}

impl DomainConfig {
    /// Finds what is wrong with this record, if anything.
    pub fn fault(&self) -> (fault: Option<ConfigFault>)
        ensures
            fault == config_fault(self@),
    {
        if self.domain.as_str().is_empty() {
            return Some(ConfigFault::EmptyDomain);
        }
        if self.domain.as_str().get_char(0) == '.' {
            return Some(ConfigFault::LeadingDot);
        }
        if let Some(label) = &self.subdomain {
            if label.as_str().is_empty() {
                return Some(ConfigFault::EmptySubdomain);
            }
        }
        if self.password.as_str().is_empty() {
            return Some(ConfigFault::EmptyPassword);
        }
        match self.domain_type {
            DomainType::Namecheap => None,
            DomainType::Google => match &self.username {
                None => Some(ConfigFault::MissingUsername),
                Some(name) => if name.as_str().is_empty() {
                    Some(ConfigFault::EmptyUsername)
                } else {
                    None
                },
            },
        }
    }

    /// Works out the call to the provider that this record comes to.
    pub fn resolve(&self) -> (r: Result<ProviderCall, UpdateError>)
        ensures
            (match r {
                Ok(call) => resolve_spec(self@) == Ok::<ProviderCallView, ErrorView>(call@),
                Err(e) => resolve_spec(self@) == Err::<ProviderCallView, ErrorView>(e@),
            }),
    {
        if let Some(fault) = self.fault() {
            return Err(UpdateError::Configuration(fault));
        }
        match self.domain_type {
            DomainType::Google => match &self.username {
                Some(name) => Ok(
                    ProviderCall::Google {
                        hostname: google::hostname(&self.subdomain, self.domain.as_str()),
                        username: name.clone(),
                        password: self.password.clone(),
                    },
                ),
                None => Err(UpdateError::Configuration(ConfigFault::MissingUsername)),
            },
            DomainType::Namecheap => match &self.subdomain {
                Some(label) => Ok(
                    ProviderCall::Namecheap {
                        host: label.clone(),
                        domain: self.domain.clone(),
                        password: self.password.clone(),
                    },
                ),
                None => match split(self.domain.as_str()) {
                    Ok(parts) => Ok(
                        ProviderCall::Namecheap {
                            host: parts.0,
                            domain: parts.1,
                            password: self.password.clone(),
                        },
                    ),
                    Err(e) => Err(e),
                },
            },
        }
    }
}

/// The call that a record comes to never lacks what the provider needs: the
/// host, the domain or host name, the password and, for Google, the user name
/// are not empty, whether the host was configured or split off the domain.
pub proof fn law_resolved_call_is_complete(config: DomainConfigView)
    requires
        resolve_spec(config) is Ok,
    ensures
        (match resolve_spec(config)->Ok_0 {
            ProviderCallView::Namecheap { host, domain, password } => {
                &&& domain.len() > 0
                &&& password.len() > 0
                &&& host.len() > 0
            },
            ProviderCallView::Google { hostname, username, password } => {
                &&& hostname.len() > 0
                &&& username.len() > 0
                &&& password.len() > 0
            },
        }),
{
    if config.domain_type == DomainType::Namecheap && config.subdomain is None {
        if dot_count(config.domain) >= 2 {
            law_split_cuts_at_first_dot(config.domain);
            let parts = split_spec(config.domain)->0;
            if parts.0.len() == 0 {
                assert((parts.0 + seq!['.'] + parts.1)[0] == '.');
            }
        }
    }
}

/// A Google record is sent under one host name: the configured domain where
/// there is no subdomain, and the subdomain, a dot and the domain where
/// there is one. The apex label `@` is never put in its place.
pub proof fn law_google_hostname(config: DomainConfigView, ip: Seq<char>)
    requires
        config.domain_type == DomainType::Google,
        config_fault(config) is None,
    ensures
        resolve_spec(config) is Ok,
        provider_request_spec(resolve_spec(config)->Ok_0, ip).query.len() == 2,
        provider_request_spec(resolve_spec(config)->Ok_0, ip).query[0] == (
            "hostname"@,
            if config.subdomain is Some {
                config.subdomain->0 + seq!['.'] + config.domain
            } else {
                config.domain
            },
        ),
        provider_request_spec(resolve_spec(config)->Ok_0, ip).query[1] == ("myip"@, ip),
        provider_request_spec(resolve_spec(config)->Ok_0, ip).basic_auth == Some(
            (config.username->0, config.password),
        ),
{
}

/// A Namecheap record with a subdomain is sent under that label, with the
/// configured domain as the root. One without is sent under what its domain
/// splits into: with a single dot in the domain that is the apex label `@`
/// and the domain whole; with more, the first label and what follows it.
pub proof fn law_namecheap_host(config: DomainConfigView, ip: Seq<char>)
    requires
        config.domain_type == DomainType::Namecheap,
        config_fault(config) is None,
        config.subdomain is None ==> dot_count(config.domain) >= 1,
    ensures
        resolve_spec(config) is Ok,
        provider_request_spec(resolve_spec(config)->Ok_0, ip).query.len() == 4,
        provider_request_spec(resolve_spec(config)->Ok_0, ip).query[0] == (
            "host"@,
            if config.subdomain is Some {
                config.subdomain->0
            } else if dot_count(config.domain) == 1 {
                apex()
            } else {
                config.domain.take(first_dot(config.domain))
            },
        ),
        provider_request_spec(resolve_spec(config)->Ok_0, ip).query[1] == (
            "domain"@,
            if config.subdomain is Some || dot_count(config.domain) == 1 {
                config.domain
            } else {
                config.domain.skip(first_dot(config.domain) + 1)
            },
        ),
        provider_request_spec(resolve_spec(config)->Ok_0, ip).query[2] == (
            "password"@,
            config.password,
        ),
        provider_request_spec(resolve_spec(config)->Ok_0, ip).query[3] == ("ip"@, ip),
{
}

/// The configuration as it is read: the records in their order.
#[derive(Debug, Clone, PartialEq, Eq)]
pub struct Config {
    domains: Vec<DomainConfig>,
}

impl View for Config {
    type V = Seq<DomainConfigView>;

    closed spec fn view(&self) -> Seq<DomainConfigView> {
        configs_view(self.domains@)
    }
}

impl Config {
    /// A configuration of these records.
    pub fn new(domains: Vec<DomainConfig>) -> (config: Config)
        ensures
            config@ == configs_view(domains@),
    {
        Config { domains }
    }

    /// The records, in their order.
    pub fn domains(&self) -> (domains: &Vec<DomainConfig>)
        ensures
            configs_view(domains@) == self@,
    {
        &self.domains
    }
}

/// Keeps the configured records up to date.
#[derive(Debug, Clone, PartialEq, Eq)]
pub struct DDNSUpdater {
    domains: Vec<DomainConfig>,
}

impl View for DDNSUpdater {
    type V = Seq<DomainConfigView>;

    closed spec fn view(&self) -> Seq<DomainConfigView> {
        configs_view(self.domains@)
    }
}

/// The file that holds the configuration where none is named.
pub open spec fn default_config_path() -> Seq<char> {
    "config.toml"@
}

impl DDNSUpdater {
    /// The file to read the configuration from: the one that is named, or
    /// `config.toml`.
    pub fn config_path(file: Option<String>) -> (path: String)
        ensures
            path@ == (match file {
                Some(named) => named@,
                None => default_config_path(),
            }),
    {
        match file {
            Some(named) => named,
            None => "config.toml".to_owned(),
        }
    }

    /// An updater for the records of `config`. Where no configuration could
    /// be read, the updater has no records, and a run of it does nothing.
    pub fn from_config(config: Option<Config>) -> (updater: DDNSUpdater)
        ensures
            updater@ == (match config {
                Some(read) => read@,
                None => Seq::empty(),
            }),
    {
        match config {
            Some(read) => DDNSUpdater { domains: read.domains },
            None => {
                let updater = DDNSUpdater { domains: Vec::new() };
                assert(updater@ =~= Seq::empty());
                updater
            },
        }
    }

    /// The configured records, in their order.
    pub fn get_domains(&self) -> (domains: &Vec<DomainConfig>)
        ensures
            configs_view(domains@) == self@,
    {
        &self.domains
    }

    /// Reads the caller's public address from the reply of the address
    /// service to `resolver::ip_request`.
    pub fn get_ip(&self, reply: &HttpReply) -> (r: Result<String, UpdateError>)
        ensures
            (match r {
                Ok(ip) => resolve_ip_spec(reply@) == Ok::<Seq<char>, ErrorView>(ip@),
                Err(e) => resolve_ip_spec(reply@) == Err::<Seq<char>, ErrorView>(e@),
            }),
    {
        resolve_public_ip(reply)
    }

    /// Takes the first decision on the update of one record.
    pub fn update_domain(&self, domain: &DomainConfig) -> (step: UpdateStep)
        ensures
            step@ == begin_spec(domain@),
    {
        begin(domain)
    }

    /// Takes the first decision of a run over the configured records.
    pub fn run(&self) -> (step: RunStep<'_>)
        ensures
            step@ == run_spec(self@),
            run_step_is_sound(step@, self@),
            self@.len() == 0 ==> step@ == RunStepView::Done(Seq::empty()),
    {
        run(&self.domains)
    }
}

} // verus!
