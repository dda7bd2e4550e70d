//! Client tests
//!

use splunk::client::add_query_params_to_endpoint;
use splunk::client::saved_searches_endpoint;
use splunk::client::ApiResponse;
use splunk::client::ApiResponsePaging;
use splunk::client::AuthenticatedSessionMode;
use splunk::client::AuthenticationMethod;
use splunk::client::RequestAuth;
use splunk::client::SplunkClient;
use splunk::errors::SplunkError;
use splunk::ServerConfig;

#[test]
fn test_add_query_params_to_endpoint() {
    let mut endpoint = "/services/saved/searches".to_string();
    let mut params: Vec<(String, String)> = Vec::new();
    params.push(("earliest_time".to_string(), "-1d".to_string()));
    add_query_params_to_endpoint(&mut endpoint, &params);
    assert_eq!(endpoint, "/services/saved/searches?earliest_time=-1d");

    let mut endpoint_normal = "/services/saved/searches".to_string();
    let params_normal: Vec<(String, String)> = Vec::new();
    add_query_params_to_endpoint(&mut endpoint_normal, &params_normal);
    assert_eq!(endpoint_normal, "/services/saved/searches");
}

#[test]
fn query_values_are_percent_encoded() {
    let mut endpoint = "/e".to_string();
    let params = vec![
        ("q".to_string(), "a b/c".to_string()),
        ("r".to_string(), "plain".to_string()),
    ];
    add_query_params_to_endpoint(&mut endpoint, &params);
    assert_eq!(endpoint, "/e?q=a%20b%2Fc&r=plain");
}

#[test]
fn test_apiresponsepaging_has_more() {
    let testone = ApiResponsePaging {
        total: 157,
        per_page: 30,
        offset: 0,
    };
    assert!(testone.has_more());
}

#[test]
fn paging_edges() {
    // offset past the total: nothing more
    assert!(!ApiResponsePaging { total: 10, per_page: 5, offset: 11 }.has_more());
    // exactly the last page
    assert!(!ApiResponsePaging { total: 10, per_page: 5, offset: 5 }.has_more());
    // a page larger than the total never has more
    assert!(!ApiResponsePaging { total: 3, per_page: 30, offset: 0 }.has_more());
}

fn response_with(paging: Option<ApiResponsePaging>) -> ApiResponse {
    ApiResponse {
        links: Vec::new(),
        origin: String::new(),
        updated: String::new(),
        generator: None,
        entry: Vec::new(),
        messages: Vec::new(),
        paging,
    }
}

#[test]
fn paging_has_more_needs_paging_data() {
    assert!(!response_with(None).paging_has_more());
    assert!(response_with(Some(ApiResponsePaging { total: 157, per_page: 30, offset: 0 }))
        .paging_has_more());
}

#[test]
fn next_offset_advances_by_page_size() {
    let resp = response_with(Some(ApiResponsePaging { total: 157, per_page: 30, offset: 0 }));
    assert_eq!(resp.next_offset(0).unwrap(), Some(30));
    let done = response_with(Some(ApiResponsePaging { total: 157, per_page: 30, offset: 150 }));
    assert_eq!(done.next_offset(150).unwrap(), None);
    assert_eq!(response_with(None).next_offset(0).unwrap(), None);
}

#[test]
fn saved_searches_endpoint_renders_in_order() {
    let endpoint = saved_searches_endpoint(Some("-1d"), None, None, None, Some(30));
    assert_eq!(
        endpoint,
        "/services/saved/searches?output_mode=json&offset=30&earliest_time=-1d"
    );
    let endpoint = saved_searches_endpoint(None, Some("now"), Some(true), Some(false), None);
    assert_eq!(
        endpoint,
        "/services/saved/searches?output_mode=json&latest_time=now&list_default_action_args=true&add_orphan_field=false"
    );
}

#[test]
fn login_payload_needs_basic_credentials() {
    let client = SplunkClient::default().with_config(
        ServerConfig::new("host".to_string())
            .with_username_password("user".to_string(), "pass".to_string()),
    );
    let payload = client.login_payload().unwrap();
    assert_eq!(
        payload,
        vec![
            ("username".to_string(), "user".to_string()),
            ("password".to_string(), "pass".to_string()),
        ]
    );
}

#[test]
fn login_payload_rejects_other_methods() {
    let client = SplunkClient::default();
    assert!(matches!(
        client.login_payload(),
        Err(SplunkError::NoAuthMethodSelected)
    ));
    let client = SplunkClient::default()
        .with_config(ServerConfig::new("host".to_string()).with_token("tok".to_string()));
    assert!(matches!(
        client.login_payload(),
        Err(SplunkError::InvalidAuthmethod(_))
    ));
}

#[test]
fn session_auth_follows_the_mode() {
    let mut client = SplunkClient::default();
    assert!(matches!(
        client.session_auth(),
        Err(SplunkError::NotAuthenticated)
    ));
    client.complete_login("sess".to_string());
    match client.session_auth().unwrap() {
        RequestAuth::Header { name, value } => {
            assert_eq!(name, "Authorization");
            assert_eq!(value, "Splunk sess");
        }
        other => panic!("expected a header, got {:?}", other),
    }
    let client = client.with_auth_session_mode(AuthenticatedSessionMode::Cookie { value: Vec::new() });
    assert!(matches!(
        client.session_auth(),
        Err(SplunkError::InvalidAuthmethod(_))
    ));
}

#[test]
fn with_config_replaces_the_server() {
    let client = SplunkClient::default()
        .with_config(ServerConfig::new("elsewhere".to_string()).with_port(8443));
    assert_eq!(client.serverconfig.hostname, "elsewhere");
    assert_eq!(client.serverconfig.port, 8443);
    assert!(matches!(
        client.serverconfig.auth_method,
        AuthenticationMethod::Unknown
    ));
}
