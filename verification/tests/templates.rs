use flux_client::{FluxValue, Params, QueryBuilder, RenderError};

fn render(template: &str, params: &Params) -> Result<String, RenderError> {
    QueryBuilder::new().generate_query(template, params)
}

fn sample() -> Params {
    let mut params = Params::new();
    params.insert("bucket", FluxValue::Identifier("metrics".to_string()));
    params.insert("start", FluxValue::Duration("-5m".to_string()));
    params.insert("host", FluxValue::String("web-1".to_string()));
    params.insert("limit", FluxValue::Integer(10));
    params.insert("ratio", FluxValue::Float("0.5".to_string()));
    params.insert("on", FluxValue::Boolean(true));
    params.insert("at", FluxValue::Timestamp("2024-02-29T12:00:00Z".to_string()));
    params
}

#[test]
fn template_without_placeholders_is_unchanged() {
    assert_eq!(render("buckets() |> limit(n: 1)", &sample()), Ok("buckets() |> limit(n: 1)".to_string()));
    assert_eq!(render("", &Params::new()), Ok(String::new()));
}

#[test]
fn every_kind_is_rendered_in_its_form() {
    let template = "{{bucket}} {{start}} {{host}} {{limit}} {{ratio}} {{on}} {{at}}";
    assert_eq!(
        render(template, &sample()),
        Ok("metrics -5m \"web-1\" 10 0.5 true 2024-02-29T12:00:00Z".to_string())
    );
}

#[test]
fn placeholder_may_repeat() {
    assert_eq!(
        render("{{limit}}+{{limit}}={{limit}}{{limit}}", &sample()),
        Ok("10+10=1010".to_string())
    );
}

#[test]
fn placeholder_name_is_trimmed() {
    assert_eq!(render("{{ limit }}", &sample()), Ok("10".to_string()));
    assert_eq!(render("{{\tlimit\n}}", &sample()), Ok("10".to_string()));
    assert_eq!(render("{{  \r limit \x0C }}", &sample()), Ok("10".to_string()));
}

#[test]
fn inner_whitespace_belongs_to_the_name() {
    assert_eq!(
        render("{{li mit}}", &sample()),
        Err(RenderError::UnknownParameter("li mit".to_string()))
    );
}

#[test]
fn braces_outside_placeholders_pass_through() {
    assert_eq!(render("{a: 1}", &sample()), Ok("{a: 1}".to_string()));
    assert_eq!(render("}} x {", &sample()), Ok("}} x {".to_string()));
    assert_eq!(render("{ {{limit}} }", &sample()), Ok("{ 10 }".to_string()));
    assert_eq!(render("{{limit}}}", &sample()), Ok("10}".to_string()));
    assert_eq!(render("a}b}}c", &sample()), Ok("a}b}}c".to_string()));
}

#[test]
fn placeholder_closes_at_the_first_closing() {
    assert_eq!(render("{{limit}}}}", &sample()), Ok("10}}".to_string()));
    assert_eq!(
        render("{{{limit}}", &sample()),
        Err(RenderError::UnknownParameter("{limit".to_string()))
    );
}

#[test]
fn unknown_parameter_is_named() {
    assert_eq!(
        render("range(start: {{start}})", &Params::new()),
        Err(RenderError::UnknownParameter("start".to_string()))
    );
    assert_eq!(render("{{}}", &sample()), Err(RenderError::UnknownParameter(String::new())));
    assert_eq!(
        render("{{Limit}}", &sample()),
        Err(RenderError::UnknownParameter("Limit".to_string()))
    );
}

#[test]
fn unclosed_placeholder_is_malformed() {
    assert_eq!(render("{{start", &sample()), Err(RenderError::MalformedTemplate));
    assert_eq!(render("a {{", &sample()), Err(RenderError::MalformedTemplate));
    assert_eq!(render("{{start}", &sample()), Err(RenderError::MalformedTemplate));
    assert_eq!(render("{{limit}} {{ start", &sample()), Err(RenderError::MalformedTemplate));
}

#[test]
fn invalid_value_is_reported_with_its_kind() {
    let mut params = Params::new();
    params.insert("b", FluxValue::Identifier("my-bucket".to_string()));
    params.insert("d", FluxValue::Duration("soon".to_string()));
    params.insert("f", FluxValue::Float("NaN".to_string()));
    params.insert("t", FluxValue::Timestamp("yesterday".to_string()));
    assert_eq!(render("{{b}}", &params), Err(RenderError::InvalidIdentifier("my-bucket".to_string())));
    assert_eq!(render("{{d}}", &params), Err(RenderError::InvalidDuration("soon".to_string())));
    assert_eq!(render("{{f}}", &params), Err(RenderError::InvalidFloat("NaN".to_string())));
    assert_eq!(render("{{t}}", &params), Err(RenderError::InvalidTimestamp("yesterday".to_string())));
}

#[test]
fn first_failure_from_the_left_decides() {
    let mut params = Params::new();
    params.insert("b", FluxValue::Identifier("my-bucket".to_string()));
    assert_eq!(
        render("{{missing}} {{b}} {{", &params),
        Err(RenderError::UnknownParameter("missing".to_string()))
    );
    assert_eq!(
        render("{{b}} {{missing}} {{", &params),
        Err(RenderError::InvalidIdentifier("my-bucket".to_string()))
    );
    assert_eq!(render("{{ {{b}} {{missing}}", &params), Err(RenderError::UnknownParameter("{{b".to_string())));
}

#[test]
fn unused_parameters_are_ignored_even_if_invalid() {
    let mut params = sample();
    params.insert("unused", FluxValue::Identifier("not valid!".to_string()));
    assert_eq!(render("limit(n: {{limit}})", &params), Ok("limit(n: 10)".to_string()));
    let mut fewer = Params::new();
    fewer.insert("limit", FluxValue::Integer(10));
    assert_eq!(render("limit(n: {{limit}})", &params), render("limit(n: {{limit}})", &fewer));
}

#[test]
fn rendering_twice_gives_the_same_text() {
    let params = sample();
    let template = "from(bucket: {{bucket}}) |> range(start: {{start}}) |> filter(fn: (r) => r.host == {{host}})";
    let first = render(template, &params);
    let second = render(template, &params);
    assert_eq!(first, second);
    assert_eq!(
        first,
        Ok("from(bucket: metrics) |> range(start: -5m) |> filter(fn: (r) => r.host == \"web-1\")".to_string())
    );
}

#[test]
fn insertion_order_does_not_matter() {
    let mut forward = Params::new();
    forward.insert("a", FluxValue::Integer(1));
    forward.insert("b", FluxValue::Integer(2));
    let mut backward = Params::new();
    backward.insert("b", FluxValue::Integer(2));
    backward.insert("a", FluxValue::Integer(1));
    assert_eq!(render("{{a}}{{b}}", &forward), render("{{a}}{{b}}", &backward));
    assert_eq!(render("{{a}}{{b}}", &forward), Ok("12".to_string()));
}

#[test]
fn rendered_query_holds_no_placeholder() {
    let out = render("{{bucket}}{{start}}{ {{limit}}{{on}} }{{at}}{{ratio}}", &sample()).unwrap();
    assert!(!out.contains("{{"));
    assert_eq!(out, "metrics-5m{ 10true }2024-02-29T12:00:00Z0.5");
}

#[test]
fn string_value_may_carry_braces_inside_its_quotes() {
    let mut params = Params::new();
    params.insert("h", FluxValue::String("{{x}}".to_string()));
    assert_eq!(render("{{h}}", &params), Ok("\"{{x}}\"".to_string()));
}

#[test]
fn string_value_cannot_leave_its_quotes() {
    let mut params = Params::new();
    params.insert("h", FluxValue::String("\") |> drop(columns: [\"_value\"]) //".to_string()));
    let out = render("filter(fn: (r) => r.host == {{h}})", &params).unwrap();
    assert_eq!(out, "filter(fn: (r) => r.host == \"\\\") |> drop(columns: [\\\"_value\\\"]) //\")");
}

#[test]
fn non_ascii_text_is_kept() {
    let mut params = Params::new();
    params.insert("h", FluxValue::String("zürich".to_string()));
    assert_eq!(render("// größe\n{{h}} – ok", &params), Ok("// größe\n\"zürich\" – ok".to_string()));
}

#[test]
fn params_bind_each_name_once() {
    let mut params = Params::new();
    assert!(!params.contains_key("a"));
    assert_eq!(params.get("a"), None);
    params.insert("a", FluxValue::Integer(1));
    params.insert("b", FluxValue::Boolean(false));
    params.insert("a", FluxValue::Integer(2));
    assert!(params.contains_key("a"));
    assert_eq!(params.get("a"), Some(&FluxValue::Integer(2)));
    assert_eq!(params.get("b"), Some(&FluxValue::Boolean(false)));
    assert_eq!(params.get("A"), None);
    assert_eq!(params.get(""), None);
    assert_eq!(render("{{a}}{{b}}", &params), Ok("2false".to_string()));
}

#[test]
fn render_error_messages() {
    assert_eq!(RenderError::UnknownParameter("start".to_string()).message(), "unknown parameter: start");
    assert_eq!(RenderError::InvalidIdentifier("a b".to_string()).message(), "invalid identifier: a b");
    assert_eq!(RenderError::MalformedTemplate.message(), "malformed template: unclosed placeholder");
    assert_eq!(RenderError::InvalidFloat("NaN".to_string()).message(), "invalid float: NaN");
    assert_eq!(RenderError::InvalidDuration("x".to_string()).message(), "invalid duration: x");
    assert_eq!(RenderError::InvalidTimestamp("x".to_string()).message(), "invalid timestamp: x");
}
