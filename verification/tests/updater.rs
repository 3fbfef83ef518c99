use ddns_updater::google;
use ddns_updater::http::HttpReply;
use ddns_updater::namecheap;
use ddns_updater::outcome::{ConfigFault, NetworkFault, UpdateError};
use ddns_updater::provider::ProviderCall;
use ddns_updater::updater::{Config, DDNSUpdater, DomainConfig, DomainType};

const EXAMPLE_CONFIG: &str = r#"
[[domains]]
domain = "example.com"
subdomain = "www"
password = "namecheap-ddns-password"
domain_type = "Namecheap"

[[domains]]
domain = "example.org"
username = "dyndns-user"
password = "dyndns-password"
domain_type = "Google"
"#;

fn text(entry: &toml::Table, key: &str) -> Option<String> {
    entry.get(key).and_then(|value| value.as_str()).map(|s| s.to_string())
}

fn parse(contents: &str) -> Option<Config> {
    let table: toml::Table = contents.parse().ok()?;
    let mut domains = Vec::new();
    for entry in table.get("domains")?.as_array()? {
        let entry = entry.as_table()?;
        domains.push(DomainConfig {
            domain: text(entry, "domain")?,
            subdomain: text(entry, "subdomain"),
            username: text(entry, "username"),
            password: text(entry, "password")?,
            domain_type: match text(entry, "domain_type")?.as_str() {
                "Namecheap" => DomainType::Namecheap,
                "Google" => DomainType::Google,
                _ => return None,
            },
        });
    }
    Some(Config::new(domains))
}

fn get_config() -> DDNSUpdater {
    DDNSUpdater::from_config(parse(EXAMPLE_CONFIG))
}

fn namecheap_record(domain: &str, subdomain: Option<&str>) -> DomainConfig {
    DomainConfig {
        domain: domain.to_string(),
        subdomain: subdomain.map(|s| s.to_string()),
        username: None,
        password: "pw".to_string(),
        domain_type: DomainType::Namecheap,
    }
}

fn google_subdomain_record(domain: &str, subdomain: &str) -> DomainConfig {
    DomainConfig {
        domain: domain.to_string(),
        subdomain: Some(subdomain.to_string()),
        username: Some("user".to_string()),
        password: "pw".to_string(),
        domain_type: DomainType::Google,
    }
}

fn google_record(domain: &str, username: Option<&str>) -> DomainConfig {
    DomainConfig {
        domain: domain.to_string(),
        subdomain: None,
        username: username.map(|s| s.to_string()),
        password: "pw".to_string(),
        domain_type: DomainType::Google,
    }
}

#[test]
fn test_from_config() {
    let ddns_updater = get_config();

    assert_eq!(ddns_updater.get_domains().len(), 2);
    assert_eq!(ddns_updater.get_domains()[0].domain, "example.com");
    assert_eq!(ddns_updater.get_domains()[1].domain, "example.org");
}

#[test]
fn from_config_keeps_every_field() {
    let ddns_updater = get_config();
    assert_eq!(
        ddns_updater.get_domains(),
        &vec![
            DomainConfig {
                domain: "example.com".to_string(),
                subdomain: Some("www".to_string()),
                username: None,
                password: "namecheap-ddns-password".to_string(),
                domain_type: DomainType::Namecheap,
            },
            DomainConfig {
                domain: "example.org".to_string(),
                subdomain: None,
                username: Some("dyndns-user".to_string()),
                password: "dyndns-password".to_string(),
                domain_type: DomainType::Google,
            },
        ]
    );
}

#[test]
fn from_config_without_a_configuration_has_no_records() {
    let ddns_updater = DDNSUpdater::from_config(parse("domains = 3"));
    assert!(ddns_updater.get_domains().is_empty());
    assert!(DDNSUpdater::from_config(None).get_domains().is_empty());
}

#[test]
fn config_hands_its_records_back() {
    let records = vec![namecheap_record("example.com", None), google_record("example.org", None)];
    assert_eq!(Config::new(records.clone()).domains(), &records);
}

#[test]
fn config_path_falls_back_to_config_toml() {
    assert_eq!(DDNSUpdater::config_path(None), "config.toml");
    assert_eq!(DDNSUpdater::config_path(Some("other.toml".to_string())), "other.toml");
    assert_eq!(DDNSUpdater::config_path(Some(String::new())), "");
}

#[test]
fn sound_records_have_no_fault() {
    assert_eq!(namecheap_record("example.com", None).fault(), None);
    assert_eq!(namecheap_record("example.com", Some("www")).fault(), None);
    assert_eq!(namecheap_record("localhost", None).fault(), None);
    assert_eq!(google_record("example.org", Some("user")).fault(), None);
}

#[test]
fn each_fault_is_found() {
    assert_eq!(namecheap_record("", None).fault(), Some(ConfigFault::EmptyDomain));
    assert_eq!(namecheap_record(".example.com", None).fault(), Some(ConfigFault::LeadingDot));
    assert_eq!(
        namecheap_record("example.com", Some("")).fault(),
        Some(ConfigFault::EmptySubdomain)
    );
    assert_eq!(
        google_subdomain_record("example.org", "").fault(),
        Some(ConfigFault::EmptySubdomain)
    );
    let mut unsigned = namecheap_record("example.com", None);
    unsigned.password = String::new();
    assert_eq!(unsigned.fault(), Some(ConfigFault::EmptyPassword));
    assert_eq!(google_record("example.org", None).fault(), Some(ConfigFault::MissingUsername));
    assert_eq!(google_record("example.org", Some("")).fault(), Some(ConfigFault::EmptyUsername));
}

#[test]
fn the_first_fault_is_the_one_reported() {
    let mut record = google_record("", None);
    record.password = String::new();
    assert_eq!(record.fault(), Some(ConfigFault::EmptyDomain));
    record.subdomain = Some(String::new());
    assert_eq!(record.fault(), Some(ConfigFault::EmptyDomain));
    record.domain = ".org".to_string();
    assert_eq!(record.fault(), Some(ConfigFault::LeadingDot));
    record.domain = "example.org".to_string();
    assert_eq!(record.fault(), Some(ConfigFault::EmptySubdomain));
    record.subdomain = Some("home".to_string());
    assert_eq!(record.fault(), Some(ConfigFault::EmptyPassword));
    record.password = "pw".to_string();
    assert_eq!(record.fault(), Some(ConfigFault::MissingUsername));
}

#[test]
fn namecheap_needs_no_username() {
    let mut record = namecheap_record("example.com", None);
    record.username = Some(String::new());
    assert_eq!(record.fault(), None);
}

#[test]
fn namecheap_without_subdomain_uses_the_apex_label() {
    let call = namecheap_record("example.com", None).resolve().unwrap();
    assert_eq!(
        call,
        ProviderCall::Namecheap {
            host: "@".to_string(),
            domain: "example.com".to_string(),
            password: "pw".to_string(),
        }
    );
    let request = call.request("203.0.113.7");
    assert_eq!(request.query[0], ("host".to_string(), "@".to_string()));
    assert_eq!(request.query[1], ("domain".to_string(), "example.com".to_string()));
    assert_eq!(request, namecheap::request("@", "example.com", "pw", "203.0.113.7"));
}

#[test]
fn namecheap_with_subdomain_uses_it() {
    let call = namecheap_record("example.com", Some("www")).resolve().unwrap();
    let request = call.request("203.0.113.7");
    assert_eq!(request.query[0], ("host".to_string(), "www".to_string()));
    assert_eq!(request, namecheap::request("www", "example.com", "pw", "203.0.113.7"));
}

#[test]
fn namecheap_with_subdomain_leaves_the_domain_whole() {
    assert_eq!(
        namecheap_record("b.example.com", Some("a")).resolve(),
        Ok(ProviderCall::Namecheap {
            host: "a".to_string(),
            domain: "b.example.com".to_string(),
            password: "pw".to_string(),
        })
    );
    assert_eq!(
        namecheap_record("localhost", Some("www")).resolve(),
        Ok(ProviderCall::Namecheap {
            host: "www".to_string(),
            domain: "localhost".to_string(),
            password: "pw".to_string(),
        })
    );
}

#[test]
fn namecheap_without_subdomain_splits_a_longer_domain() {
    assert_eq!(
        namecheap_record("www.example.com", None).resolve(),
        Ok(ProviderCall::Namecheap {
            host: "www".to_string(),
            domain: "example.com".to_string(),
            password: "pw".to_string(),
        })
    );
    assert_eq!(
        namecheap_record("a.b.example.com", None).resolve(),
        Ok(ProviderCall::Namecheap {
            host: "a".to_string(),
            domain: "b.example.com".to_string(),
            password: "pw".to_string(),
        })
    );
}

#[test]
fn namecheap_without_subdomain_and_without_dot_is_invalid() {
    assert_eq!(namecheap_record("localhost", None).resolve(), Err(UpdateError::InvalidDomain));
}

#[test]
fn google_with_subdomain_sends_the_joined_host_name() {
    let record = google_subdomain_record("example.org", "home");
    assert_eq!(
        record.resolve(),
        Ok(ProviderCall::Google {
            hostname: "home.example.org".to_string(),
            username: "user".to_string(),
            password: "pw".to_string(),
        })
    );
    let request = record.resolve().unwrap().request("203.0.113.7");
    assert_eq!(request.query[0], ("hostname".to_string(), "home.example.org".to_string()));
    assert_eq!(request, google::request("home.example.org", "user", "pw", "203.0.113.7"));
}

#[test]
fn google_is_never_sent_the_apex_label() {
    let request = google_record("example.org", Some("user")).resolve().unwrap().request("203.0.113.7");
    assert_eq!(request.query[0], ("hostname".to_string(), "example.org".to_string()));
    assert!(request.query.iter().all(|(_, value)| value != "@"));
}

#[test]
fn empty_subdomain_resolves_to_a_configuration_error() {
    assert_eq!(
        namecheap_record("example.com", Some("")).resolve(),
        Err(UpdateError::Configuration(ConfigFault::EmptySubdomain))
    );
    assert_eq!(
        google_subdomain_record("example.org", "").resolve(),
        Err(UpdateError::Configuration(ConfigFault::EmptySubdomain))
    );
}

#[test]
fn google_without_subdomain_sends_the_configured_domain() {
    let mut record = google_record("home.example.org", Some("user"));
    assert_eq!(
        record.resolve(),
        Ok(ProviderCall::Google {
            hostname: "home.example.org".to_string(),
            username: "user".to_string(),
            password: "pw".to_string(),
        })
    );
    record.domain = "localhost".to_string();
    let request = record.resolve().unwrap().request("203.0.113.7");
    assert_eq!(request, google::request("localhost", "user", "pw", "203.0.113.7"));
}

#[test]
fn faulty_records_resolve_to_a_configuration_error() {
    assert_eq!(
        google_record("example.org", None).resolve(),
        Err(UpdateError::Configuration(ConfigFault::MissingUsername))
    );
    assert_eq!(
        google_record("example.org", Some("")).resolve(),
        Err(UpdateError::Configuration(ConfigFault::EmptyUsername))
    );
    assert_eq!(
        namecheap_record("", Some("www")).resolve(),
        Err(UpdateError::Configuration(ConfigFault::EmptyDomain))
    );
    assert_eq!(
        namecheap_record(".com", None).resolve(),
        Err(UpdateError::Configuration(ConfigFault::LeadingDot))
    );
}

#[test]
fn get_ip_reads_the_reply_of_the_address_service() {
    let ddns_updater = get_config();
    assert_eq!(
        ddns_updater.get_ip(&HttpReply::Response { status: 200, body: "203.0.113.7\n".to_string() }),
        Ok("203.0.113.7".to_string())
    );
    assert_eq!(
        ddns_updater.get_ip(&HttpReply::Response { status: 502, body: "203.0.113.7".to_string() }),
        Err(UpdateError::Network(NetworkFault::Status(502)))
    );
    assert_eq!(
        ddns_updater.get_ip(&HttpReply::Unreachable("timed out".to_string())),
        Err(UpdateError::Network(NetworkFault::Unreachable("timed out".to_string())))
    );
}
