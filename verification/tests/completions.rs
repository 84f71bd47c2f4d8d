use app_server::ids::Uuid;
use app_server::language_model::chat_run::{ChatCommand, ChatReply, ChatRun, Phase, Progress};
use app_server::language_model::messages::{
    ChatChoice, ChatCompletion, ChatCompletionChunk, ChatMessage, ChatMessageContent, ChatUsage,
    ChunkChoice, ChunkDelta, NodeInfo, OpenAIError, OpenAIErrorMessage,
};
use app_server::language_model::openai_azure::{ChatError, ChatRequest, Header};
use serde_json::Value;

type Run = ChatRun<Option<f64>>;
type Reply = ChatReply<Option<f64>, u8>;

fn node() -> NodeInfo {
    NodeInfo {
        id: Uuid { bits: 1 },
        node_id: Uuid { bits: 2 },
        node_name: "answer".to_string(),
        node_type: "LLM".to_string(),
    }
}

fn request() -> ChatRequest {
    ChatRequest {
        endpoint: "https://acme".to_string(),
        headers: vec![Header { name: "api-key".to_string(), value: "secret".to_string() }],
        body: serde_json::from_str(r#"{"messages":[]}"#).unwrap(),
    }
}

fn chunk(model: Option<&str>, contents: &[Option<&str>]) -> Reply {
    ChatReply::Chunk(ChatCompletionChunk {
        model: model.map(|name| name.to_string()),
        choices: contents
            .iter()
            .map(|content| ChunkChoice {
                delta: ChunkDelta { content: content.map(|text| text.to_string()) },
            })
            .collect(),
    })
}

fn data(text: &str) -> Reply {
    ChatReply::EventMessage(text.to_string())
}

fn advance(run: Run, reply: Reply) -> Result<Run, ChatError<u8>> {
    assert!(run.accepts_reply(&reply));
    run.step(reply)
}

fn through(run: Run, replies: Vec<Reply>) -> Run {
    replies.into_iter().fold(run, |run, reply| advance(run, reply).unwrap())
}

fn reading() -> Run {
    through(
        ChatRun::start_streamed(request(), node()),
        vec![ChatReply::StreamOpened, ChatReply::PromptTokens(7)],
    )
}

fn message_of(error: ChatError<u8>) -> String {
    match error {
        ChatError::Message(text) => text,
        ChatError::Outside(_) => panic!("an outside error"),
    }
}

#[test]
fn a_streamed_completion_posts_a_streamed_request() {
    let run: Run = ChatRun::start_streamed(request(), node());
    match run.command() {
        ChatCommand::OpenStream(request) => {
            assert_eq!(request.body["stream"], Value::Bool(true));
            assert_eq!(request.endpoint, "https://acme");
        }
        _ => panic!("the stream is to be opened"),
    }
}

#[test]
fn prompt_tokens_are_counted_by_a_fixed_model() {
    let run: Run = through(
        ChatRun::start_streamed(request(), node()),
        vec![ChatReply::StreamOpened],
    );
    assert!(matches!(run.command(), ChatCommand::CountPromptTokens { model: "gpt-4o" }));
    assert!(matches!(reading().command(), ChatCommand::NextEvent));
}

#[test]
fn a_stream_is_handed_on_and_joined() {
    let mut run = reading();
    run = through(
        run,
        vec![
            ChatReply::EventOpen,
            data("a"),
            chunk(Some("gpt-4o-mini"), &[]),
            data("b"),
            chunk(None, &[Some("Hel"), Some("ignored")]),
        ],
    );
    match run.command() {
        ChatCommand::Send(piece) => {
            assert_eq!(piece.id, Uuid { bits: 1 });
            assert_eq!(piece.node_id, Uuid { bits: 2 });
            assert_eq!(piece.node_name, "answer");
            assert_eq!(piece.node_type, "LLM");
            assert_eq!(piece.content, "Hel");
        }
        _ => panic!("a piece is to be sent"),
    }
    run = through(
        run,
        vec![
            ChatReply::Sent,
            data("c"),
            chunk(Some("gpt-4o"), &[None]),
            data("d"),
            chunk(None, &[Some("lo")]),
            ChatReply::Sent,
            data("[DONE]"),
        ],
    );
    assert!(matches!(run.command(), ChatCommand::CloseStream));
    run = through(run, vec![ChatReply::StreamClosed]);
    assert!(matches!(
        run.command(),
        ChatCommand::EstimateCost { model: "gpt-4o", prompt_tokens: 7, completion_tokens: 2 }
    ));
    run = through(run, vec![ChatReply::Cost(Some(0.25))]);
    assert!(matches!(run.command(), ChatCommand::Finish(_)));
    match run {
        Phase::Done { completion } => {
            assert_eq!(completion.choices.len(), 1);
            assert_eq!(completion.choices[0].message.role, "assistant");
            match &completion.choices[0].message.content {
                ChatMessageContent::Text(text) => assert_eq!(text, "Hello"),
                ChatMessageContent::Parts(_) => panic!("not text"),
            }
            assert_eq!(completion.usage.completion_tokens, 2);
            assert_eq!(completion.usage.prompt_tokens, 7);
            assert_eq!(completion.usage.total_tokens, 9);
            assert_eq!(completion.usage.approximate_cost, Some(0.25));
            assert_eq!(completion.model, "gpt-4o");
        }
        _ => panic!("not done"),
    }
}

#[test]
fn a_stream_that_just_ends_is_complete_too() {
    let run = through(
        reading(),
        vec![ChatReply::EventsEnded, ChatReply::StreamClosed, ChatReply::Cost(None)],
    );
    match run {
        Phase::Done { completion } => {
            match &completion.choices[0].message.content {
                ChatMessageContent::Text(text) => assert_eq!(text, ""),
                ChatMessageContent::Parts(_) => panic!("not text"),
            }
            assert_eq!(completion.usage.total_tokens, 7);
            assert_eq!(completion.model, "");
        }
        _ => panic!("not done"),
    }
}

/// Runs through `replies`, and returns the contents of the pieces that were handed on, and
/// where the run ended.
fn handed_on(replies: Vec<Reply>) -> (Vec<String>, Result<Run, ChatError<u8>>) {
    let mut pieces: Vec<String> = Vec::new();
    let mut run = reading();
    for reply in replies {
        if let (ChatCommand::Send(piece), ChatReply::Sent) = (run.command(), &reply) {
            pieces.push(piece.content.clone());
        }
        match advance(run, reply) {
            Ok(next) => run = next,
            Err(error) => return (pieces, Err(error)),
        }
    }
    (pieces, Ok(run))
}

#[test]
fn open_events_are_skipped_wherever_they_come() {
    let with_open = vec![
        ChatReply::EventOpen,
        data("a"),
        chunk(Some("gpt-4o"), &[Some("Hel")]),
        ChatReply::Sent,
        ChatReply::EventOpen,
        ChatReply::EventOpen,
        data("b"),
        chunk(None, &[Some("lo")]),
        ChatReply::Sent,
        ChatReply::EventOpen,
        data("[DONE]"),
        ChatReply::StreamClosed,
        ChatReply::Cost(None),
    ];
    let without_open = vec![
        data("a"),
        chunk(Some("gpt-4o"), &[Some("Hel")]),
        ChatReply::Sent,
        data("b"),
        chunk(None, &[Some("lo")]),
        ChatReply::Sent,
        data("[DONE]"),
        ChatReply::StreamClosed,
        ChatReply::Cost(None),
    ];
    for replies in [with_open, without_open] {
        let (pieces, outcome) = handed_on(replies);
        assert_eq!(pieces, vec!["Hel", "lo"]);
        match outcome {
            Ok(Phase::Done { completion }) => {
                match &completion.choices[0].message.content {
                    ChatMessageContent::Text(text) => assert_eq!(text, "Hello"),
                    ChatMessageContent::Parts(_) => panic!("not text"),
                }
                assert_eq!(completion.usage.completion_tokens, 2);
                assert_eq!(completion.usage.total_tokens, 9);
                assert_eq!(completion.model, "gpt-4o");
            }
            _ => panic!("not done"),
        }
    }
}

#[test]
fn nothing_is_read_after_the_end() {
    for end in [data("[DONE]"), ChatReply::EventsEnded] {
        let run = through(reading(), vec![end]);
        assert!(matches!(run.command(), ChatCommand::CloseStream));
        assert!(!run.accepts_reply(&data("more")));
        assert!(!run.accepts_reply(&ChatReply::<Option<f64>, u8>::EventOpen));
        assert!(!run.accepts_reply(&chunk(None, &[Some("more")])));
        let run = through(run, vec![ChatReply::StreamClosed]);
        assert!(matches!(run.command(), ChatCommand::EstimateCost { .. }));
        assert!(!run.accepts_reply(&data("more")));
        let run = through(run, vec![ChatReply::Cost(None)]);
        assert!(matches!(run.command(), ChatCommand::Finish(_)));
        assert!(!run.accepts_reply(&data("more")));
    }
}

#[test]
fn a_run_that_fails_midway_has_handed_on_what_was_read() {
    let (pieces, outcome) = handed_on(vec![
        data("a"),
        chunk(Some("gpt-4o"), &[Some("Hel"), Some("ignored")]),
        ChatReply::Sent,
        data("b"),
        chunk(None, &[None]),
        data("c"),
        chunk(None, &[Some("lo")]),
        ChatReply::Sent,
        data("not json"),
        ChatReply::Failed(6),
    ]);
    assert_eq!(pieces, vec!["Hel", "lo"]);
    assert!(matches!(outcome, Err(ChatError::Outside(6))));

    let (pieces, outcome) = handed_on(vec![
        data("a"),
        chunk(None, &[Some("Hel")]),
        ChatReply::Sent,
        ChatReply::EventFault,
    ]);
    assert_eq!(pieces, vec!["Hel"]);
    assert!(outcome.is_err());
}

#[test]
fn event_data_is_read_as_it_came() {
    let run = through(reading(), vec![data(" [DONE]")]);
    assert!(matches!(run.command(), ChatCommand::ParseChunk { data: " [DONE]" }));
}

#[test]
fn a_refused_key_is_named_as_such() {
    let error = advance(reading(), ChatReply::EventInvalidStatus(401)).unwrap_err();
    assert_eq!(message_of(error), "Invalid API key");
}

#[test]
fn any_other_status_is_shown() {
    let error = advance(reading(), ChatReply::EventInvalidStatus(500)).unwrap_err();
    assert_eq!(message_of(error), "Error. Status code: 500 Internal Server Error");
    let error = advance(reading(), ChatReply::EventInvalidStatus(599)).unwrap_err();
    assert_eq!(message_of(error), "Error. Status code: 599 <unknown status code>");
}

#[test]
fn a_fault_of_the_stream_is_an_error() {
    let error = advance(reading(), ChatReply::EventFault).unwrap_err();
    assert_eq!(message_of(error), "Error on OpenAI streaming");
}

#[test]
fn failures_are_handed_on() {
    let opening: Run = ChatRun::start_streamed(request(), node());
    assert!(matches!(advance(opening, ChatReply::Failed(3)), Err(ChatError::Outside(3))));
    let parsing = through(reading(), vec![data("not json")]);
    assert!(matches!(advance(parsing, ChatReply::Failed(4)), Err(ChatError::Outside(4))));
    let requesting: Run = ChatRun::start_whole(request());
    assert!(matches!(advance(requesting, ChatReply::Failed(5)), Err(ChatError::Outside(5))));
}

#[test]
fn a_whole_answer_is_kept_but_for_its_cost() {
    let answer = ChatCompletion {
        choices: vec![ChatChoice::new(ChatMessage {
            role: "assistant".to_string(),
            content: ChatMessageContent::Text("Hi".to_string()),
        })],
        usage: ChatUsage {
            completion_tokens: 3,
            prompt_tokens: 5,
            total_tokens: 100,
            approximate_cost: None,
        },
        model: "gpt-4o".to_string(),
    };
    let start: Run = ChatRun::start_whole(request());
    match start.command() {
        ChatCommand::SendRequest(request) => assert_eq!(request.body["stream"], Value::Null),
        _ => panic!("the request is to be sent"),
    }
    let run = through(start, vec![ChatReply::Responded(200)]);
    assert!(matches!(run.command(), ChatCommand::ReadCompletion));
    let run = through(run, vec![ChatReply::Completion(answer)]);
    assert!(matches!(
        run.command(),
        ChatCommand::EstimateCost { model: "gpt-4o", prompt_tokens: 5, completion_tokens: 3 }
    ));
    match through(run, vec![ChatReply::Cost(Some(1.5))]) {
        Phase::Done { completion } => {
            assert_eq!(completion.choices.len(), 1);
            assert_eq!(completion.usage.completion_tokens, 3);
            assert_eq!(completion.usage.prompt_tokens, 5);
            assert_eq!(completion.usage.total_tokens, 100);
            assert_eq!(completion.usage.approximate_cost, Some(1.5));
            assert_eq!(completion.model, "gpt-4o");
        }
        _ => panic!("not done"),
    }
}

#[test]
fn a_refused_request_is_answered_with_the_provider_message() {
    for status in [201, 400, 401, 500] {
        let run: Run = through(
            ChatRun::start_whole(request()),
            vec![ChatReply::Responded(status)],
        );
        assert!(matches!(run.command(), ChatCommand::ReadErrorBody));
        let body = OpenAIError {
            error: OpenAIErrorMessage { message: "no such deployment".to_string() },
        };
        let error = advance(run, ChatReply::ErrorBody(body)).unwrap_err();
        assert_eq!(message_of(error), "no such deployment");
    }
}

#[test]
fn replies_that_do_not_fit_are_not_accepted() {
    assert!(!reading().accepts_reply(&ChatReply::<Option<f64>, u8>::Sent));
    assert!(!reading().accepts_reply(&ChatReply::<Option<f64>, u8>::EventInvalidStatus(99)));
    assert!(!reading().accepts_reply(&ChatReply::<Option<f64>, u8>::EventInvalidStatus(1000)));
    let counting: Run = Phase::CountingTokens { node: node() };
    assert!(!counting.accepts_reply(&ChatReply::Failed(1u8)));
}

#[test]
fn totals_beyond_their_range_are_not_accepted() {
    let closing = |completion_tokens: u32| -> Run {
        Phase::Closing {
            prompt_tokens: 1,
            progress: Progress {
                message: String::new(),
                completion_tokens,
                model: String::new(),
            },
        }
    };
    let closed: Reply = ChatReply::StreamClosed;
    assert!(closing(u32::MAX - 1).accepts_reply(&closed));
    assert!(!closing(u32::MAX).accepts_reply(&closed));
}
