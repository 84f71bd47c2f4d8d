use crate::json::{
    is_null, is_object, json, merge_into, merged, object_of, set_flag, takes_fields, with_field,
    Json,
};
use serde_json::Value;
use vstd::hash_map::StringHashMap;
use vstd::prelude::*;

verus! {

/// Settings, by name.
pub type Env = StringHashMap<String>;

/// The setting that names the Azure resource.
pub const OPENAI_AZURE_RESOURCE_ID: &'static str = "OPENAI_AZURE_RESOURCE_ID";

/// The setting that names the deployment on that resource.
pub const OPENAI_AZURE_DEPLOYMENT_NAME: &'static str = "OPENAI_AZURE_DEPLOYMENT_NAME";

/// The type `reqwest::Client`, which is only carried from the maker of a provider to the one
/// who sends its requests.
#[verifier::external_type_specification]
#[verifier::external_body]
pub struct ExClient(reqwest::Client);

/// The copy of a `reqwest::Client`. Nothing is claimed of it.
pub assume_specification[ <reqwest::Client as Clone>::clone ](
    client: &reqwest::Client,
) -> reqwest::Client;

/// The chat models that OpenAI offers through Azure.
#[derive(Clone, Debug)]
pub struct OpenAIAzure {
    pub client: reqwest::Client,
}

impl OpenAIAzure {
    /// A provider that sends its requests with `client`.
    pub fn new(client: reqwest::Client) -> (provider: OpenAIAzure)
        ensures
            provider.client == client,
    {
        OpenAIAzure { client }
    }

    /// The name under which prices of this provider are stored.
    pub fn db_provider_name(&self) -> (name: &str)
        ensures
            name@ == "azure-openai"@,
    {
        "azure-openai"
    }
}

/// A setting without which there is no endpoint.
#[derive(Clone, Copy, Debug, PartialEq, Eq, Structural)]
pub enum EndpointError {
    MissingResourceId,
    MissingDeploymentName,
}

impl EndpointError {
    /// The error in words.
    pub open spec fn text(self) -> Seq<char> {
        match self {
            EndpointError::MissingResourceId => "Env doesn't contain Azure endpoint"@,
            EndpointError::MissingDeploymentName => "Env doesn't contain Azure deployment name"@,
        }
    }

    /// The error in words.
    pub fn message(&self) -> (message: String)
        ensures
            message@ == self.text(),
    {
        match self {
            EndpointError::MissingResourceId => "Env doesn't contain Azure endpoint".to_string(),
            EndpointError::MissingDeploymentName => {
                "Env doesn't contain Azure deployment name".to_string()
            },
        }
    }
}

/// The address of the chat completions of a deployment.
pub open spec fn endpoint_url(resource_id: Seq<char>, deployment_name: Seq<char>) -> Seq<char> {
    "https://"@ + resource_id + ".openai.azure.com/openai/deployments/"@ + deployment_name
        + "/chat/completions?api-version=2024-02-01"@
}

/// The address that the settings `env` give, or the first setting that is missing.
pub open spec fn endpoint(env: Map<Seq<char>, String>) -> Result<Seq<char>, EndpointError> {
    if !env.contains_key(OPENAI_AZURE_RESOURCE_ID@) {
        Err(EndpointError::MissingResourceId)
    } else if !env.contains_key(OPENAI_AZURE_DEPLOYMENT_NAME@) {
        Err(EndpointError::MissingDeploymentName)
    } else {
        Ok(
            endpoint_url(
                env[OPENAI_AZURE_RESOURCE_ID@]@,
                env[OPENAI_AZURE_DEPLOYMENT_NAME@]@,
            ),
        )
    }
}

/// The address to which requests go.
pub fn build_endpoint_name(env: &Env) -> (name: Result<String, EndpointError>)
    ensures
        match name {
            Ok(url) => endpoint(env@) == Ok::<Seq<char>, EndpointError>(url@),
            Err(error) => endpoint(env@) == Err::<Seq<char>, EndpointError>(error),
        },
{
    let resource_id = match env.get(OPENAI_AZURE_RESOURCE_ID) {
        Some(value) => value,
        None => return Err(EndpointError::MissingResourceId),
    };
    let deployment_name = match env.get(OPENAI_AZURE_DEPLOYMENT_NAME) {
        Some(value) => value,
        None => return Err(EndpointError::MissingDeploymentName),
    };
    let mut url = "https://".to_string();
    url.append(resource_id.as_str());
    url.append(".openai.azure.com/openai/deployments/");
    url.append(deployment_name.as_str());
    url.append("/chat/completions?api-version=2024-02-01");
    Ok(url)
}

/// Why a completion did not come about: something outside failed, or the reason in words.
#[derive(Debug)]
pub enum ChatError<E> {
    Outside(E),
    Message(String),
}

/// A [`ChatError`], as mathematics.
#[verifier::ext_equal]
pub enum ChatErrorView<E> {
    Outside(E),
    Message(Seq<char>),
}

impl<E> View for ChatError<E> {
    type V = ChatErrorView<E>;

    open spec fn view(&self) -> ChatErrorView<E> {
        match self {
            ChatError::Outside(error) => ChatErrorView::Outside(*error),
            ChatError::Message(text) => ChatErrorView::Message(text@),
        }
    }
}

/// A header of a request.
#[derive(Debug)]
pub struct Header {
    pub name: String,
    pub value: String,
}

impl View for Header {
    type V = (Seq<char>, Seq<char>);

    open spec fn view(&self) -> (Seq<char>, Seq<char>) {
        (self.name@, self.value@)
    }
}

/// A request that waits to be posted.
#[derive(Debug)]
pub struct ChatRequest {
    pub endpoint: String,
    pub headers: Vec<Header>,
    pub body: Value,
}

/// A [`ChatRequest`], as mathematics.
#[verifier::ext_equal]
pub struct RequestView {
    pub endpoint: Seq<char>,
    pub headers: Seq<(Seq<char>, Seq<char>)>,
    pub body: Json,
}

impl View for ChatRequest {
    type V = RequestView;

    open spec fn view(&self) -> RequestView {
        RequestView {
            endpoint: self.endpoint@,
            headers: self.headers@.map_values(|header: Header| header@),
            body: json(self.body),
        }
    }
}

/// The headers of every request: JSON goes out, and the key travels in `api-key`.
pub open spec fn request_headers(api_key: Seq<char>) -> Seq<(Seq<char>, Seq<char>)> {
    seq![("Content-Type"@, "application/json"@), ("api-key"@, api_key)]
}

/// The body of a request: the messages, with the caller's parameters merged in.
pub open spec fn request_body(messages: Json, params: Json) -> Json {
    merged(Json::Object(map!["messages"@ => messages]), params)
}

/// The request of a completion, or what keeps it from being made. A key that cannot be had
/// is reported before a setting that is missing.
pub open spec fn prepared<E>(
    messages: Json,
    params: Json,
    api_key: Result<String, E>,
    env: Map<Seq<char>, String>,
) -> Result<RequestView, ChatErrorView<E>> {
    match api_key {
        Err(error) => Err(ChatErrorView::Outside(error)),
        Ok(key) => match endpoint(env) {
            Err(error) => Err(ChatErrorView::Message(error.text())),
            Ok(url) => Ok(
                RequestView {
                    endpoint: url,
                    headers: request_headers(key@),
                    body: request_body(messages, params),
                },
            ),
        },
    }
}

/// Makes the request of a completion from the messages of the chat, the caller's parameters,
/// the key of the provider and the settings.
pub fn prepare<E>(
    messages: Value,
    params: &Value,
    api_key: Result<String, E>,
    env: &Env,
) -> (request: Result<ChatRequest, ChatError<E>>)
    ensures
        match request {
            Ok(request) => prepared(json(messages), json(*params), api_key, env@) == Ok::<
                RequestView,
                ChatErrorView<E>,
            >(request@),
            Err(error) => prepared(json(messages), json(*params), api_key, env@) == Err::<
                RequestView,
                ChatErrorView<E>,
            >(error@),
        },
{
    let mut body = object_of("messages", messages);
    merge_into(&mut body, params);
    let api_key = match api_key {
        Ok(key) => key,
        Err(error) => return Err(ChatError::Outside(error)),
    };
    let endpoint = match build_endpoint_name(env) {
        Ok(url) => url,
        Err(error) => return Err(ChatError::Message(error.message())),
    };
    let ghost key = api_key@;
    let mut headers: Vec<Header> = Vec::new();
    headers.push(
        Header { name: "Content-Type".to_string(), value: "application/json".to_string() },
    );
    headers.push(Header { name: "api-key".to_string(), value: api_key });
    assert(headers@.map_values(|header: Header| header@) =~= request_headers(key));
    Ok(ChatRequest { endpoint, headers, body })
}

impl RequestView {
    /// The request, asking for the answer piece by piece.
    pub open spec fn streamed(self) -> RequestView {
        RequestView { body: with_field(self.body, "stream"@, Json::Bool(true)), ..self }
    }
}

impl ChatRequest {
    /// Whether the body can be told to stream: parameters that are neither an object nor null
    /// have taken the place of the body, and leave no room for a field.
    pub fn takes_stream_flag(&self) -> (answer: bool)
        ensures
            answer == takes_fields(self@.body),
    {
        is_object(&self.body) || is_null(&self.body)
    }

    /// The request, asking for the answer piece by piece.
    pub fn into_streamed(self) -> (request: ChatRequest)
        requires
            takes_fields(self@.body),
        ensures
            request@ == self@.streamed(),
            request.endpoint == self.endpoint,
            request.headers == self.headers,
    {
        let mut request = self;
        set_flag(&mut request.body, "stream", true);
        request
    }
}

/// What becomes of each field of the parameters. When they are an object, the body has their
/// fields and `messages` and no other; every field but `messages` is as the parameters give
/// it, and `messages` holds the chat, merged with a field of that name in the parameters if
/// there is one.
pub proof fn law_body_fields(messages: Json, params: Json)
    requires
        params is Object,
    ensures
        request_body(messages, params) is Object,
        request_body(messages, params)->Object_0.dom() == params->Object_0.dom().insert(
            "messages"@,
        ),
        forall|name: Seq<char>|
            params->Object_0.contains_key(name) && name != "messages"@
                ==> #[trigger] request_body(messages, params)->Object_0[name]
                == params->Object_0[name],
        request_body(messages, params)->Object_0["messages"@] == (
        if params->Object_0.contains_key("messages"@) {
            merged(messages, params->Object_0["messages"@])
        } else {
            messages
        }),
{
    let body = request_body(messages, params);
    assert(body->Object_0.dom() =~= params->Object_0.dom().insert("messages"@));
}

/// Messages that the parameters bring come after those of the chat, and none is lost.
pub proof fn law_messages_are_extended(messages: Seq<Json>, params: Json, added: Seq<Json>)
    requires
        params is Object,
        params->Object_0.contains_key("messages"@),
        params->Object_0["messages"@] == Json::Array(added),
    ensures
        request_body(Json::Array(messages), params)->Object_0["messages"@] == Json::Array(
            messages + added,
        ),
{
    law_body_fields(Json::Array(messages), params);
}

/// Parameters that are no object take the place of the whole body.
pub proof fn law_other_params_replace_the_body(messages: Json, params: Json)
    requires
        !(params is Object),
    ensures
        request_body(messages, params) == params,
{
}

/// A streamed request asks to stream whatever the parameters say of it, and is otherwise the
/// request as it was prepared.
pub proof fn law_stream_flag_wins(request: RequestView)
    requires
        takes_fields(request.body),
    ensures
        request.streamed().body is Object,
        request.streamed().body->Object_0["stream"@] == Json::Bool(true),
        request.body matches Json::Object(fields) ==> {
            &&& request.streamed().body->Object_0.dom() == fields.dom().insert("stream"@)
            &&& forall|name: Seq<char>|
                fields.contains_key(name) && name != "stream"@
                    ==> #[trigger] request.streamed().body->Object_0[name] == fields[name]
        },
        request.streamed().endpoint == request.endpoint,
        request.streamed().headers == request.headers,
        request.streamed().streamed() == request.streamed(),
{
    let once = request.streamed().body->Object_0;
    assert(once.insert("stream"@, Json::Bool(true)) =~= once);
}

/// The two settings alone decide on the address, and it holds both in full. It is missing
/// exactly when a setting is, and the resource is missed first. Otherwise it reads `https://`,
/// the whole name of the resource, a fixed middle, the whole name of the deployment and a fixed
/// end, and nothing else.
pub proof fn law_address_holds_both_names(env: Env, name: Result<String, EndpointError>)
    requires
        call_ensures(build_endpoint_name, (&env,), name),
    ensures
        name == Err::<String, EndpointError>(EndpointError::MissingResourceId)
            <==> !env@.contains_key("OPENAI_AZURE_RESOURCE_ID"@),
        name == Err::<String, EndpointError>(EndpointError::MissingDeploymentName)
            <==> env@.contains_key("OPENAI_AZURE_RESOURCE_ID"@) && !env@.contains_key(
            "OPENAI_AZURE_DEPLOYMENT_NAME"@,
        ),
        name matches Ok(url) ==> {
            let resource = env@["OPENAI_AZURE_RESOURCE_ID"@]@;
            let deployment = env@["OPENAI_AZURE_DEPLOYMENT_NAME"@]@;
            let resource_at = "https://"@.len() as int;
            let middle_at = resource_at + resource.len();
            let deployment_at = middle_at + ".openai.azure.com/openai/deployments/"@.len();
            let end_at = deployment_at + deployment.len();
            &&& url@.len() == end_at + "/chat/completions?api-version=2024-02-01"@.len()
            &&& url@.subrange(0, resource_at) == "https://"@
            &&& url@.subrange(resource_at, middle_at) == resource
            &&& url@.subrange(middle_at, deployment_at) == ".openai.azure.com/openai/deployments/"@
            &&& url@.subrange(deployment_at, end_at) == deployment
            &&& url@.subrange(end_at, url@.len() as int)
                == "/chat/completions?api-version=2024-02-01"@
        },
{
}

/// On the same resource, deployments with different names have different addresses; and so have
/// deployments with the same name on different resources.
pub proof fn law_addresses_differ(first: Env, second: Env, one: String, other: String)
    requires
        call_ensures(build_endpoint_name, (&first,), Ok(one)),
        call_ensures(build_endpoint_name, (&second,), Ok(other)),
        one@ == other@,
    ensures
        first@["OPENAI_AZURE_RESOURCE_ID"@]@ == second@["OPENAI_AZURE_RESOURCE_ID"@]@
            <==> first@["OPENAI_AZURE_DEPLOYMENT_NAME"@]@
            == second@["OPENAI_AZURE_DEPLOYMENT_NAME"@]@,
{
    law_address_holds_both_names(first, Ok(one));
    law_address_holds_both_names(second, Ok(other));
}

/// What is posted is made of what was given. A key that cannot be had is handed on as the error
/// that it is; a setting that is missing is told in words. Otherwise the request goes to the
/// address of the deployment, tells that it carries JSON and carries the whole key. Its body is
/// the parameters, if they are no object; else it has their fields and `messages` and no other,
/// every field but `messages` as the parameters give it.
pub proof fn law_request_is_made_of_what_was_given<E>(
    messages: Value,
    params: Value,
    api_key: Result<String, E>,
    env: Env,
    outcome: Result<ChatRequest, ChatError<E>>,
    name: Result<String, EndpointError>,
)
    requires
        call_ensures(prepare::<E>, (messages, &params, api_key, &env), outcome),
        call_ensures(build_endpoint_name, (&env,), name),
    ensures
        match (api_key, name) {
            (Err(failure), _) => outcome matches Err(ChatError::Outside(error)) && error
                == failure,
            (Ok(_), Err(EndpointError::MissingResourceId)) => outcome matches Err(
                ChatError::Message(text),
            ) && text@ == "Env doesn't contain Azure endpoint"@,
            (Ok(_), Err(EndpointError::MissingDeploymentName)) => outcome matches Err(
                ChatError::Message(text),
            ) && text@ == "Env doesn't contain Azure deployment name"@,
            (Ok(key), Ok(url)) => {
                &&& outcome matches Ok(request)
                &&& request.endpoint@ == url@
                &&& request.headers@.len() == 2
                &&& request.headers@[0].name@ == "Content-Type"@
                &&& request.headers@[0].value@ == "application/json"@
                &&& request.headers@[1].name@ == "api-key"@
                &&& request.headers@[1].value@ == key@
                &&& match json(params) {
                    Json::Object(given) => {
                        &&& json(request.body) matches Json::Object(fields)
                        &&& fields.dom() == given.dom().insert("messages"@)
                        &&& forall|name: Seq<char>|
                            given.contains_key(name) && name != "messages"@
                                ==> #[trigger] fields[name] == given[name]
                        &&& !given.contains_key("messages"@) ==> fields["messages"@] == json(
                            messages,
                        )
                    },
                    other => json(request.body) == other,
                }
            },
        },
{
    if let (Ok(_), Ok(_)) = (api_key, name) {
        let request = outcome->Ok_0;
        assert(request@.headers.len() == 2);
        assert(request@.headers[0] == request.headers@[0]@);
        assert(request@.headers[1] == request.headers@[1]@);
        if json(params) is Object {
            law_body_fields(json(messages), json(params));
        }
    }
}

/// The messages of the chat reach the provider: all of them, in order and first. What the
/// parameters bring under the same name comes after them, item by item if it is an array and as
/// one item if it is an object; only a plain value in that place puts itself instead.
pub proof fn law_messages_of_the_chat_come_first<E>(
    messages: Value,
    params: Value,
    api_key: Result<String, E>,
    env: Env,
    request: ChatRequest,
    chat: Seq<Json>,
)
    requires
        call_ensures(prepare::<E>, (messages, &params, api_key, &env), Ok(request)),
        json(messages) == Json::Array(chat),
        json(params) is Object,
    ensures
        json(request.body) is Object,
        json(request.body)->Object_0["messages"@] == (
        if json(params)->Object_0.contains_key("messages"@) {
            match json(params)->Object_0["messages"@] {
                Json::Array(added) => Json::Array(chat + added),
                Json::Object(fields) => Json::Array(chat.push(Json::Object(fields))),
                plain => plain,
            }
        } else {
            Json::Array(chat)
        }),
{
    law_body_fields(json(messages), json(params));
}

/// A request that takes the flag is streamed by setting it, whatever it was before. Nothing else
/// changes: address, headers and every other field of the body stay. A body takes the flag if it
/// is an object or null.
pub proof fn law_only_the_stream_flag_changes(
    request: ChatRequest,
    answer: bool,
    streamed: ChatRequest,
)
    requires
        call_ensures(ChatRequest::takes_stream_flag, (&request,), answer),
        answer ==> call_ensures(ChatRequest::into_streamed, (request,), streamed),
    ensures
        answer <==> json(request.body) is Object || json(request.body) is Null,
        answer ==> call_requires(ChatRequest::into_streamed, (request,)),
        answer ==> {
            &&& streamed.endpoint@ == request.endpoint@
            &&& streamed.headers@ == request.headers@
            &&& json(streamed.body) matches Json::Object(fields)
            &&& fields["stream"@] == Json::Bool(true)
            &&& match json(request.body) {
                Json::Object(given) => {
                    &&& fields.dom() == given.dom().insert("stream"@)
                    &&& forall|name: Seq<char>|
                        given.contains_key(name) && name != "stream"@ ==> #[trigger] fields[name]
                            == given[name]
                },
                _ => fields.dom() == Set::<Seq<char>>::empty().insert("stream"@),
            }
        },
{
    if answer {
        let fields = json(streamed.body)->Object_0;
        match json(request.body) {
            Json::Object(given) => {
                assert(fields.dom() =~= given.dom().insert("stream"@));
            },
            _ => {
                assert(fields.dom() =~= Set::<Seq<char>>::empty().insert("stream"@));
            },
        }
    }
}

} // verus!
