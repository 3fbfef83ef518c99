use ddns_updater::google;
use ddns_updater::http::{HttpReply, HttpRequest};
use ddns_updater::namecheap;
use ddns_updater::outcome::{NetworkFault, UpdateError, UpdateOutcome};
use ddns_updater::provider::ProviderCall;
use ddns_updater::resolver::{ip_request, resolve_public_ip};

fn pair(key: &str, value: &str) -> (String, String) {
    (key.to_string(), value.to_string())
}

fn response(status: u16, body: &str) -> HttpReply {
    HttpReply::Response { status, body: body.to_string() }
}

#[test]
fn namecheap_request_has_its_four_parameters_in_order() {
    let request = namecheap::request("www", "example.com", "hunter2", "203.0.113.7");
    assert_eq!(
        request,
        HttpRequest {
            url: "https://dynamicdns.park-your-domain.com/update".to_string(),
            query: vec![
                pair("host", "www"),
                pair("domain", "example.com"),
                pair("password", "hunter2"),
                pair("ip", "203.0.113.7"),
            ],
            basic_auth: None,
        }
    );
}

#[test]
fn namecheap_zero_errors_is_updated() {
    let body = "<?xml version=\"1.0\"?><interface-response><Command>SETDNSHOST</Command>\
                <IP>203.0.113.7</IP><ErrCount>0</ErrCount><Done>true</Done></interface-response>";
    assert_eq!(namecheap::classify(body), UpdateOutcome::Updated);
    assert_eq!(namecheap::classify("<ErrCount>0</ErrCount>"), UpdateOutcome::Updated);
}

#[test]
fn namecheap_any_other_body_is_failed_with_that_body() {
    let body = "<interface-response><ErrCount>1</ErrCount><errors><Err1>Passwords do not match\
                </Err1></errors></interface-response>";
    assert_eq!(namecheap::classify(body), UpdateOutcome::Failed(body.to_string()));
    assert_eq!(namecheap::classify(""), UpdateOutcome::Failed(String::new()));
    assert_eq!(
        namecheap::classify("<ErrCount>0</ErrCount"),
        UpdateOutcome::Failed("<ErrCount>0</ErrCount".to_string())
    );
    assert_eq!(
        namecheap::classify("<errcount>0</errcount>"),
        UpdateOutcome::Failed("<errcount>0</errcount>".to_string())
    );
}

#[test]
fn namecheap_never_reports_unchanged() {
    assert_eq!(namecheap::classify("nochg <ErrCount>0</ErrCount>"), UpdateOutcome::Updated);
    assert_eq!(namecheap::classify("nochg"), UpdateOutcome::Failed("nochg".to_string()));
}

#[test]
fn google_request_has_its_two_parameters_and_signs_in() {
    let request = google::request("home.example.org", "user", "hunter2", "2001:db8::1");
    assert_eq!(
        request,
        HttpRequest {
            url: "https://domains.google.com/nic/update".to_string(),
            query: vec![pair("hostname", "home.example.org"), pair("myip", "2001:db8::1")],
            basic_auth: Some(pair("user", "hunter2")),
        }
    );
}

#[test]
fn google_hostname_joins_subdomain_and_domain() {
    assert_eq!(google::hostname(&Some("home".to_string()), "example.org"), "home.example.org");
    assert_eq!(google::hostname(&Some("a.b".to_string()), "example.org"), "a.b.example.org");
    assert_eq!(google::hostname(&Some("bücher".to_string()), "münchen.example"), "bücher.münchen.example");
}

#[test]
fn google_hostname_without_subdomain_is_the_domain() {
    assert_eq!(google::hostname(&None, "example.org"), "example.org");
    assert_eq!(google::hostname(&None, "home.example.org"), "home.example.org");
}

#[test]
fn google_good_is_updated() {
    assert_eq!(google::classify("good 203.0.113.7"), UpdateOutcome::Updated);
}

#[test]
fn google_nochg_is_unchanged() {
    assert_eq!(google::classify("nochg 203.0.113.7"), UpdateOutcome::Unchanged);
}

#[test]
fn google_good_is_looked_for_first() {
    assert_eq!(google::classify("nochg good"), UpdateOutcome::Updated);
    assert_eq!(google::classify("goodnochg"), UpdateOutcome::Updated);
}

#[test]
fn google_anything_else_is_failed_with_that_body() {
    for body in ["badauth", "nohost", "911", "", "goo d", "noch g"] {
        assert_eq!(google::classify(body), UpdateOutcome::Failed(body.to_string()));
    }
}

#[test]
fn provider_call_builds_the_request_of_its_provider() {
    let namecheap_call = ProviderCall::Namecheap {
        host: "@".to_string(),
        domain: "example.com".to_string(),
        password: "pw".to_string(),
    };
    assert_eq!(
        namecheap_call.request("198.51.100.1"),
        namecheap::request("@", "example.com", "pw", "198.51.100.1")
    );
    let google_call = ProviderCall::Google {
        hostname: "example.org".to_string(),
        username: "user".to_string(),
        password: "pw".to_string(),
    };
    assert_eq!(
        google_call.request("198.51.100.1"),
        google::request("example.org", "user", "pw", "198.51.100.1")
    );
}

#[test]
fn provider_call_reads_the_answer_of_its_provider() {
    let namecheap_call = ProviderCall::Namecheap {
        host: "@".to_string(),
        domain: "example.com".to_string(),
        password: "pw".to_string(),
    };
    let google_call = ProviderCall::Google {
        hostname: "example.org".to_string(),
        username: "user".to_string(),
        password: "pw".to_string(),
    };
    assert_eq!(namecheap_call.classify("good"), UpdateOutcome::Failed("good".to_string()));
    assert_eq!(google_call.classify("good"), UpdateOutcome::Updated);
    assert_eq!(namecheap_call.classify("<ErrCount>0</ErrCount>"), UpdateOutcome::Updated);
    assert_eq!(
        google_call.classify("<ErrCount>0</ErrCount>"),
        UpdateOutcome::Failed("<ErrCount>0</ErrCount>".to_string())
    );
}

#[test]
fn ip_request_is_a_plain_get_of_the_echo_service() {
    assert_eq!(
        ip_request(),
        HttpRequest { url: "https://api.ipify.org".to_string(), query: vec![], basic_auth: None }
    );
}

#[test]
fn ip_is_the_trimmed_body_of_a_successful_response() {
    assert_eq!(resolve_public_ip(&response(200, "203.0.113.7")), Ok("203.0.113.7".to_string()));
    assert_eq!(resolve_public_ip(&response(200, " 203.0.113.7\r\n")), Ok("203.0.113.7".to_string()));
    assert_eq!(resolve_public_ip(&response(299, "2001:db8::1\n")), Ok("2001:db8::1".to_string()));
}

#[test]
fn ip_is_not_checked_for_its_syntax() {
    assert_eq!(resolve_public_ip(&response(200, "not an address")), Ok("not an address".to_string()));
    assert_eq!(resolve_public_ip(&response(204, "")), Ok(String::new()));
}

#[test]
fn ip_error_status_is_a_network_error() {
    for status in [0u16, 100, 199, 300, 301, 404, 429, 500, 503, 65535] {
        assert_eq!(
            resolve_public_ip(&response(status, "203.0.113.7")),
            Err(UpdateError::Network(NetworkFault::Status(status)))
        );
    }
}

#[test]
fn ip_transport_failure_is_a_network_error() {
    assert_eq!(
        resolve_public_ip(&HttpReply::Unreachable("connection refused".to_string())),
        Err(UpdateError::Network(NetworkFault::Unreachable("connection refused".to_string())))
    );
}

#[test]
fn outcome_in_two_way_form() {
    assert_eq!(UpdateOutcome::Updated.into_result(), Ok(true));
    assert_eq!(UpdateOutcome::Unchanged.into_result(), Ok(false));
    assert_eq!(
        UpdateOutcome::Failed("badauth".to_string()).into_result(),
        Err(UpdateError::Provider("badauth".to_string()))
    );
}
