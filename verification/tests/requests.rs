use app_server::language_model::openai_azure::{
    build_endpoint_name, prepare, ChatError, ChatRequest, EndpointError, Env, OpenAIAzure,
    OPENAI_AZURE_DEPLOYMENT_NAME, OPENAI_AZURE_RESOURCE_ID,
};
use serde_json::Value;

fn settings(pairs: &[(&str, &str)]) -> Env {
    let mut env = Env::new();
    for (name, value) in pairs {
        env.insert(name.to_string(), value.to_string());
    }
    env
}

fn full_settings() -> Env {
    settings(&[
        ("OPENAI_AZURE_RESOURCE_ID", "acme"),
        ("OPENAI_AZURE_DEPLOYMENT_NAME", "gpt"),
    ])
}

fn value(text: &str) -> Value {
    serde_json::from_str(text).unwrap()
}

fn request(messages: &str, params: &str) -> ChatRequest {
    let key: Result<String, u8> = Ok("secret".to_string());
    prepare(value(messages), &value(params), key, &full_settings()).unwrap()
}

#[test]
fn setting_names() {
    assert_eq!(OPENAI_AZURE_RESOURCE_ID, "OPENAI_AZURE_RESOURCE_ID");
    assert_eq!(OPENAI_AZURE_DEPLOYMENT_NAME, "OPENAI_AZURE_DEPLOYMENT_NAME");
}

#[test]
fn endpoint_is_built_from_both_settings() {
    assert_eq!(
        build_endpoint_name(&full_settings()).unwrap(),
        "https://acme.openai.azure.com/openai/deployments/gpt/chat/completions?api-version=2024-02-01"
    );
}

#[test]
fn endpoint_without_resource_is_an_error() {
    let error = build_endpoint_name(&settings(&[("OPENAI_AZURE_DEPLOYMENT_NAME", "gpt")]))
        .unwrap_err();
    assert_eq!(error, EndpointError::MissingResourceId);
    assert_eq!(error.message(), "Env doesn't contain Azure endpoint");
}

#[test]
fn endpoint_without_deployment_is_an_error() {
    let error = build_endpoint_name(&settings(&[("OPENAI_AZURE_RESOURCE_ID", "acme")]))
        .unwrap_err();
    assert_eq!(error, EndpointError::MissingDeploymentName);
    assert_eq!(error.message(), "Env doesn't contain Azure deployment name");
}

#[test]
fn missing_resource_is_reported_before_missing_deployment() {
    assert_eq!(
        build_endpoint_name(&settings(&[])).unwrap_err(),
        EndpointError::MissingResourceId
    );
}

#[test]
fn params_are_merged_into_the_body() {
    let request = request(
        r#"[{"role":"user","content":"hi"}]"#,
        r#"{"temperature":0.5,"stop":["a"]}"#,
    );
    assert_eq!(
        request.body,
        value(
            r#"{"messages":[{"role":"user","content":"hi"}],"temperature":0.5,"stop":["a"]}"#
        )
    );
    assert_eq!(
        request.endpoint,
        "https://acme.openai.azure.com/openai/deployments/gpt/chat/completions?api-version=2024-02-01"
    );
}

#[test]
fn headers_carry_the_type_and_the_key() {
    let request = request("[]", "{}");
    let headers: Vec<(&str, &str)> = request
        .headers
        .iter()
        .map(|header| (header.name.as_str(), header.value.as_str()))
        .collect();
    assert_eq!(
        headers,
        vec![("Content-Type", "application/json"), ("api-key", "secret")]
    );
}

#[test]
fn messages_of_the_params_come_last() {
    let request = request("[1,2]", r#"{"messages":[3]}"#);
    assert_eq!(request.body, value(r#"{"messages":[1,2,3]}"#));
}

#[test]
fn an_object_among_the_params_joins_the_messages_as_one() {
    let request = request("[1]", r#"{"messages":{"role":"user"}}"#);
    assert_eq!(request.body, value(r#"{"messages":[1,{"role":"user"}]}"#));
}

#[test]
fn params_that_are_no_object_replace_the_body() {
    assert_eq!(request("[1]", "[7]").body, value("[7]"));
    assert_eq!(request("[1]", "null").body, Value::Null);
}

#[test]
fn a_key_that_cannot_be_had_is_reported_first() {
    let key: Result<String, u8> = Err(9);
    let error = prepare(value("[]"), &value("{}"), key, &settings(&[])).unwrap_err();
    assert!(matches!(error, ChatError::Outside(9)));
}

#[test]
fn a_missing_setting_is_reported_in_words() {
    let key: Result<String, u8> = Ok("secret".to_string());
    let error = prepare(value("[]"), &value("{}"), key, &settings(&[])).unwrap_err();
    match error {
        ChatError::Message(text) => assert_eq!(text, "Env doesn't contain Azure endpoint"),
        ChatError::Outside(_) => panic!("not an outside error"),
    }
}

#[test]
fn the_stream_flag_wins_over_the_params() {
    let streamed = request("[1]", r#"{"stream":false,"n":1}"#).into_streamed();
    assert_eq!(streamed.body, value(r#"{"messages":[1],"stream":true,"n":1}"#));
}

#[test]
fn a_null_body_takes_the_stream_flag() {
    let request = request("[1]", "null");
    assert!(request.takes_stream_flag());
    assert_eq!(request.into_streamed().body, value(r#"{"stream":true}"#));
}

#[test]
fn other_bodies_do_not_take_the_stream_flag() {
    assert!(request("[1]", "{}").takes_stream_flag());
    assert!(!request("[1]", "[7]").takes_stream_flag());
    assert!(!request("[1]", "7").takes_stream_flag());
    assert!(!request("[1]", "\"text\"").takes_stream_flag());
}

#[test]
fn prices_are_stored_under_the_provider_name() {
    let provider = OpenAIAzure::new(reqwest::Client::new());
    assert_eq!(provider.db_provider_name(), "azure-openai");
    assert_eq!(provider.clone().db_provider_name(), "azure-openai");
}
