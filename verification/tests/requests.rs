use flux_client::{
    classify_response, is_success, Client, Config, Error, FluxValue, InfluxdbErrorResponse, Method,
    Params, RenderError, Request,
};

fn config() -> Config {
    Config {
        influxdb_base_url: "http://influx.example:8086/".to_string(),
        influxdb_read_token: "t0k3n==".to_string(),
        influxdb_org: "my org".to_string(),
        influxdb_bucket: "prod".to_string(),
    }
}

fn body(message: &str) -> Option<InfluxdbErrorResponse> {
    Some(InfluxdbErrorResponse { message: message.to_string() })
}

fn pair(name: &str, value: &str) -> (String, String) {
    (name.to_string(), value.to_string())
}

#[test]
fn new_keeps_the_identity() {
    let client = Client::new(&config());
    assert_eq!(client.base_url(), "http://influx.example:8086/");
}

#[test]
fn ready_is_a_bare_get() {
    let request = Client::new(&config()).ready();
    assert_eq!(
        request,
        Request {
            method: Method::Get,
            path: "ready".to_string(),
            query: vec![],
            headers: vec![],
            body: None,
        }
    );
}

#[test]
fn query_request_is_complete() {
    let mut params = Params::new();
    params.insert("start", FluxValue::Duration("-5m".to_string()));
    let request = Client::new(&config())
        .flux_query("from(bucket: {{bucket}}) |> range(start: {{start}})", params)
        .unwrap();
    assert_eq!(
        request,
        Request {
            method: Method::Post,
            path: "api/v2/query".to_string(),
            query: vec![pair("org", "my org")],
            headers: vec![
                pair("Content-Type", "application/vnd.flux"),
                pair("Accept", "application/csv"),
                pair("Authorization", "Token t0k3n=="),
            ],
            body: Some("from(bucket: prod) |> range(start: -5m)".to_string()),
        }
    );
}

#[test]
fn query_request_carries_exactly_three_headers() {
    let request = Client::new(&config()).flux_query("buckets()", Params::new()).unwrap();
    assert_eq!(request.headers.len(), 3);
    assert_eq!(request.headers[0], pair("Content-Type", "application/vnd.flux"));
    assert_eq!(request.headers[1], pair("Accept", "application/csv"));
    assert_eq!(request.headers[2], pair("Authorization", "Token t0k3n=="));
    assert_eq!(request.body, Some("buckets()".to_string()));
}

#[test]
fn configured_bucket_wins_over_any_kind_of_value() {
    let client = Client::new(&config());
    let theirs = [
        FluxValue::Identifier("staging".to_string()),
        FluxValue::String("staging".to_string()),
        FluxValue::Integer(7),
        FluxValue::Identifier("not valid!".to_string()),
    ];
    for value in theirs {
        let mut params = Params::new();
        params.insert("bucket", value);
        let request = client.flux_query("from(bucket: {{bucket}})", params).unwrap();
        assert_eq!(request.body, Some("from(bucket: prod)".to_string()));
    }
}

#[test]
fn configured_bucket_is_held_to_the_identifier_grammar() {
    let mut odd = config();
    odd.influxdb_bucket = "my-bucket".to_string();
    let client = Client::new(&odd);
    assert_eq!(
        client.flux_query("from(bucket: {{bucket}})", Params::new()),
        Err(Error::QueryRender(RenderError::InvalidIdentifier("my-bucket".to_string())))
    );
    assert!(client.flux_query("buckets()", Params::new()).is_ok());
}

#[test]
fn render_failure_gives_no_request() {
    let client = Client::new(&config());
    assert_eq!(
        client.flux_query("range(start: {{start}})", Params::new()),
        Err(Error::QueryRender(RenderError::UnknownParameter("start".to_string())))
    );
    assert_eq!(
        client.flux_query("range(start: {{start", Params::new()),
        Err(Error::QueryRender(RenderError::MalformedTemplate))
    );
}

#[test]
fn clone_shares_the_identity() {
    let client = Client::new(&config());
    let twin = client.clone();
    assert_eq!(twin.base_url(), client.base_url());
    assert_eq!(
        twin.flux_query("from(bucket: {{bucket}})", Params::new()),
        client.flux_query("from(bucket: {{bucket}})", Params::new())
    );
    assert_eq!(twin.ready(), client.ready());
}

#[test]
fn success_is_exactly_the_2xx_range() {
    for status in 0..=u16::MAX {
        let expected = (200..300).contains(&status);
        assert_eq!(is_success(status), expected);
        assert_eq!(classify_response(status, None).is_ok(), expected);
        assert_eq!(classify_response(status, body("m")).is_ok(), expected);
    }
}

#[test]
fn status_edges() {
    assert!(!is_success(199));
    assert!(is_success(200));
    assert!(is_success(204));
    assert!(is_success(299));
    assert!(!is_success(300));
    assert!(!is_success(404));
}

#[test]
fn failure_carries_the_decoded_message() {
    assert_eq!(
        classify_response(422, body("compilation failed: undefined identifier x")),
        Err(Error::Influxdb("compilation failed: undefined identifier x".to_string()))
    );
    assert_eq!(classify_response(401, body("")), Err(Error::Influxdb(String::new())));
    assert_eq!(
        classify_response(503, Some(InfluxdbErrorResponse::default())),
        Err(Error::Influxdb(String::new()))
    );
    assert_eq!(InfluxdbErrorResponse::default().message, "");
    assert_eq!(classify_response(500, None), Err(Error::Influxdb(String::new())));
    assert_eq!(classify_response(200, body("ignored")), Ok(()));
}

#[test]
fn error_messages() {
    assert_eq!(
        Error::Influxdb("compilation failed".to_string()).message(),
        "error response from InfluxDB: compilation failed"
    );
    assert_eq!(Error::Influxdb(String::new()).message(), "error response from InfluxDB: ");
    assert_eq!(Error::Transport("connection refused".to_string()).message(), "connection refused");
    assert_eq!(
        Error::QueryRender(RenderError::UnknownParameter("start".to_string())).message(),
        "query render error: unknown parameter: start"
    );
    let e = Error::Transport("timed out".to_string());
    assert_eq!(e.clone(), e);
}
