use crate::json::takes_fields;
use crate::language_model::messages::{
    content_of, ChatChoice, ChatCompletion, ChatCompletionChunk, ChatMessage, ChatMessageContent,
    ChatUsage, CompletionView, ContentView, MessageView, NodeInfo, NodeStreamChunk, OpenAIError,
};
use crate::language_model::openai_azure::{ChatError, ChatErrorView, ChatRequest, RequestView};
use vstd::prelude::*;

verus! {

/// How `reqwest::StatusCode` shows a status: its number and its customary reason.
pub uninterp spec fn status_text(code: u16) -> Seq<char>;

/// Calls `reqwest::StatusCode::from_u16` and the `to_string` of its result. Claims that the
/// text depends on the number alone, and names it [`status_text`]. A number that is no status
/// would panic, which `requires` leaves out.
#[verifier::external_body]
fn shown_status(code: u16) -> (text: String)
    requires
        100 <= code <= 999,
    ensures
        text@ == status_text(code),
{
    reqwest::StatusCode::from_u16(code).unwrap().to_string()
}

/// What has come of a streamed answer.
#[derive(Debug)]
pub struct Progress {
    pub message: String,
    pub completion_tokens: u32,
    pub model: String,
}

/// A [`Progress`], as mathematics.
#[verifier::ext_equal]
pub struct ProgressView {
    pub message: Seq<char>,
    pub completion_tokens: u32,
    pub model: Seq<char>,
}

impl View for Progress {
    type V = ProgressView;

    open spec fn view(&self) -> ProgressView {
        ProgressView {
            message: self.message@,
            completion_tokens: self.completion_tokens,
            model: self.model@,
        }
    }
}

impl ProgressView {
    /// A stream of which nothing has come.
    pub open spec fn nothing() -> ProgressView {
        ProgressView { message: Seq::empty(), completion_tokens: 0, model: Seq::empty() }
    }

    /// The progress with the model that `chunk` names, if it names one.
    pub open spec fn naming(self, chunk: ChatCompletionChunk) -> ProgressView {
        match chunk.model {
            Some(model) => ProgressView { model: model@, ..self },
            None => self,
        }
    }

    /// The progress with `content` at the end of the message.
    pub open spec fn saying(self, content: Seq<char>) -> ProgressView {
        ProgressView { message: self.message + content, ..self }
    }

    /// The progress with one more token.
    pub open spec fn counting_one(self) -> ProgressView {
        ProgressView { completion_tokens: (self.completion_tokens + 1) as u32, ..self }
    }
}

/// The data that ends a stream.
pub open spec fn end_mark() -> Seq<char> {
    "[DONE]"@
}

/// How far a completion has come. `Q` is the request, `S` the progress of a stream and `K`
/// the completion: the three are given as data in a [`ChatRun`] and as mathematics in a
/// [`ChatRunView`].
#[derive(Debug)]
#[verifier::ext_equal]
pub enum Phase<Q, S, K> {
    OpeningStream { request: Q, node: NodeInfo },
    CountingTokens { node: NodeInfo },
    Reading { node: NodeInfo, prompt_tokens: u32, progress: S },
    Parsing { node: NodeInfo, prompt_tokens: u32, progress: S, data: String },
    Sending { node: NodeInfo, prompt_tokens: u32, progress: S, chunk: NodeStreamChunk },
    Closing { prompt_tokens: u32, progress: S },
    PricingStreamed { prompt_tokens: u32, total_tokens: u32, progress: S },
    Requesting { request: Q },
    ReadingError,
    ReadingCompletion,
    PricingRead { completion: K },
    Done { completion: K },
}

/// A completion under way.
pub type ChatRun<C> = Phase<ChatRequest, Progress, ChatCompletion<C>>;

/// A completion under way, as mathematics.
pub type ChatRunView<C> = Phase<RequestView, ProgressView, CompletionView<C>>;

impl<C> View for Phase<ChatRequest, Progress, ChatCompletion<C>> {
    type V = ChatRunView<C>;

    open spec fn view(&self) -> ChatRunView<C> {
        match *self {
            Phase::OpeningStream { request, node } => Phase::OpeningStream {
                request: request@,
                node,
            },
            Phase::CountingTokens { node } => Phase::CountingTokens { node },
            Phase::Reading { node, prompt_tokens, progress } => Phase::Reading {
                node,
                prompt_tokens,
                progress: progress@,
            },
            Phase::Parsing { node, prompt_tokens, progress, data } => Phase::Parsing {
                node,
                prompt_tokens,
                progress: progress@,
                data,
            },
            Phase::Sending { node, prompt_tokens, progress, chunk } => Phase::Sending {
                node,
                prompt_tokens,
                progress: progress@,
                chunk,
            },
            Phase::Closing { prompt_tokens, progress } => Phase::Closing {
                prompt_tokens,
                progress: progress@,
            },
            Phase::PricingStreamed { prompt_tokens, total_tokens, progress } => {
                Phase::PricingStreamed { prompt_tokens, total_tokens, progress: progress@ }
            },
            Phase::Requesting { request } => Phase::Requesting { request: request@ },
            Phase::ReadingError => Phase::ReadingError,
            Phase::ReadingCompletion => Phase::ReadingCompletion,
            Phase::PricingRead { completion } => Phase::PricingRead { completion: completion@ },
            Phase::Done { completion } => Phase::Done { completion: completion@ },
        }
    }
}

/// What the one who runs a completion is to do next.
pub enum ChatCommand<'a, C> {
    /// Post the request and follow the events of its response.
    OpenStream(&'a ChatRequest),
    /// Count the tokens of the chat's messages as the named model does.
    CountPromptTokens { model: &'a str },
    /// Wait for the next event of the stream.
    NextEvent,
    /// Read the data of an event.
    ParseChunk { data: &'a str },
    /// Hand a piece of the answer to whoever follows the pipeline.
    Send(&'a NodeStreamChunk),
    /// Follow the stream no longer.
    CloseStream,
    /// Estimate what a completion of the named model cost.
    EstimateCost { model: &'a str, prompt_tokens: u32, completion_tokens: u32 },
    /// Post the request and wait for its response.
    SendRequest(&'a ChatRequest),
    /// Read the body of the response as an error.
    ReadErrorBody,
    /// Read the body of the response as a completion.
    ReadCompletion,
    /// The completion is there.
    Finish(&'a ChatCompletion<C>),
}

/// A [`ChatCommand`], as mathematics.
#[verifier::ext_equal]
pub enum ChatCommandView<C> {
    OpenStream(RequestView),
    CountPromptTokens { model: Seq<char> },
    NextEvent,
    ParseChunk { data: Seq<char> },
    Send(NodeStreamChunk),
    CloseStream,
    EstimateCost { model: Seq<char>, prompt_tokens: u32, completion_tokens: u32 },
    SendRequest(RequestView),
    ReadErrorBody,
    ReadCompletion,
    Finish(CompletionView<C>),
}

impl<'a, C> View for ChatCommand<'a, C> {
    type V = ChatCommandView<C>;

    open spec fn view(&self) -> ChatCommandView<C> {
        match *self {
            ChatCommand::OpenStream(request) => ChatCommandView::OpenStream(request@),
            ChatCommand::CountPromptTokens { model } => ChatCommandView::CountPromptTokens {
                model: model@,
            },
            ChatCommand::NextEvent => ChatCommandView::NextEvent,
            ChatCommand::ParseChunk { data } => ChatCommandView::ParseChunk { data: data@ },
            ChatCommand::Send(chunk) => ChatCommandView::Send(*chunk),
            ChatCommand::CloseStream => ChatCommandView::CloseStream,
            ChatCommand::EstimateCost { model, prompt_tokens, completion_tokens } => {
                ChatCommandView::EstimateCost { model: model@, prompt_tokens, completion_tokens }
            },
            ChatCommand::SendRequest(request) => ChatCommandView::SendRequest(request@),
            ChatCommand::ReadErrorBody => ChatCommandView::ReadErrorBody,
            ChatCommand::ReadCompletion => ChatCommandView::ReadCompletion,
            ChatCommand::Finish(completion) => ChatCommandView::Finish(completion@),
        }
    }
}

/// What came of a command. `Failed` is an error from outside, in whatever form it has there.
#[derive(Debug)]
pub enum ChatReply<C, E> {
    StreamOpened,
    PromptTokens(u32),
    /// The connection stands.
    EventOpen,
    /// An event with data.
    EventMessage(String),
    /// The response has a status other than success.
    EventInvalidStatus(u16),
    /// Any other trouble with the stream.
    EventFault,
    /// The stream has no more events.
    EventsEnded,
    Chunk(ChatCompletionChunk),
    Sent,
    StreamClosed,
    Cost(C),
    /// The status of the response.
    Responded(u16),
    ErrorBody(OpenAIError),
    Completion(ChatCompletion<C>),
    Failed(E),
}

/// The model by whose rules prompt tokens are counted.
pub open spec fn counting_model() -> Seq<char> {
    "gpt-4o"@
}

/// The completion that a stream amounts to: one choice, in which the assistant says all that
/// was streamed.
pub open spec fn streamed_completion<C>(
    prompt_tokens: u32,
    total_tokens: u32,
    progress: ProgressView,
    cost: C,
) -> CompletionView<C> {
    CompletionView {
        choices: seq![
            MessageView { role: "assistant"@, content: ContentView::Text(progress.message) },
        ],
        usage: ChatUsage {
            completion_tokens: progress.completion_tokens,
            prompt_tokens,
            total_tokens,
            approximate_cost: cost,
        },
        model: progress.model,
    }
}

/// A completion with the cost put in.
pub open spec fn priced<C>(completion: CompletionView<C>, cost: C) -> CompletionView<C> {
    CompletionView {
        usage: ChatUsage { approximate_cost: cost, ..completion.usage },
        ..completion
    }
}

/// The command that belongs to a phase.
pub open spec fn command_of<C>(phase: ChatRunView<C>) -> ChatCommandView<C> {
    match phase {
        Phase::OpeningStream { request, node } => ChatCommandView::OpenStream(request),
        Phase::CountingTokens { node } => ChatCommandView::CountPromptTokens {
            model: counting_model(),
        },
        Phase::Reading { .. } => ChatCommandView::NextEvent,
        Phase::Parsing { data, .. } => ChatCommandView::ParseChunk { data: data@ },
        Phase::Sending { chunk, .. } => ChatCommandView::Send(chunk),
        Phase::Closing { .. } => ChatCommandView::CloseStream,
        Phase::PricingStreamed { prompt_tokens, progress, .. } => ChatCommandView::EstimateCost {
            model: progress.model,
            prompt_tokens,
            completion_tokens: progress.completion_tokens,
        },
        Phase::Requesting { request } => ChatCommandView::SendRequest(request),
        Phase::ReadingError => ChatCommandView::ReadErrorBody,
        Phase::ReadingCompletion => ChatCommandView::ReadCompletion,
        Phase::PricingRead { completion } => ChatCommandView::EstimateCost {
            model: completion.model,
            prompt_tokens: completion.usage.prompt_tokens,
            completion_tokens: completion.usage.completion_tokens,
        },
        Phase::Done { completion } => ChatCommandView::Finish(completion),
    }
}

/// Whether a reply is one that the command of a phase can have. A count of tokens that would
/// leave its range is none.
pub open spec fn accepts<C, E>(phase: ChatRunView<C>, reply: ChatReply<C, E>) -> bool {
    match phase {
        Phase::OpeningStream { .. } => reply is StreamOpened || reply is Failed,
        Phase::CountingTokens { .. } => reply is PromptTokens,
        Phase::Reading { .. } => match reply {
            ChatReply::EventOpen => true,
            ChatReply::EventMessage(_) => true,
            ChatReply::EventInvalidStatus(code) => 100 <= code <= 999,
            ChatReply::EventFault => true,
            ChatReply::EventsEnded => true,
            _ => false,
        },
        Phase::Parsing { .. } => reply is Chunk || reply is Failed,
        Phase::Sending { progress, .. } => reply is Sent && progress.completion_tokens < u32::MAX,
        Phase::Closing { prompt_tokens, progress } => reply is StreamClosed
            && progress.completion_tokens + prompt_tokens <= u32::MAX,
        Phase::PricingStreamed { .. } => reply is Cost,
        Phase::Requesting { .. } => reply is Responded || reply is Failed,
        Phase::ReadingError => reply is ErrorBody || reply is Failed,
        Phase::ReadingCompletion => reply is Completion || reply is Failed,
        Phase::PricingRead { .. } => reply is Cost,
        Phase::Done { .. } => false,
    }
}

/// The phase that follows an event of the stream.
pub open spec fn after_event<C, E>(
    node: NodeInfo,
    prompt_tokens: u32,
    progress: ProgressView,
    event: ChatReply<C, E>,
) -> Result<ChatRunView<C>, ChatErrorView<E>> {
    match event {
        ChatReply::EventMessage(data) => if data@ == end_mark() {
            Ok(Phase::Closing { prompt_tokens, progress })
        } else {
            Ok(Phase::Parsing { node, prompt_tokens, progress, data })
        },
        ChatReply::EventInvalidStatus(code) => if code == 401 {
            Err(ChatErrorView::Message("Invalid API key"@))
        } else {
            Err(ChatErrorView::Message("Error. Status code: "@ + status_text(code)))
        },
        ChatReply::EventFault => Err(ChatErrorView::Message("Error on OpenAI streaming"@)),
        ChatReply::EventsEnded => Ok(Phase::Closing { prompt_tokens, progress }),
        _ => Ok(Phase::Reading { node, prompt_tokens, progress }),
    }
}

/// The phase that follows a streamed event that was read: a chunk that says something is
/// passed on, one that says nothing is not.
pub open spec fn after_chunk<C>(
    node: NodeInfo,
    prompt_tokens: u32,
    progress: ProgressView,
    chunk: ChatCompletionChunk,
) -> ChatRunView<C> {
    match content_of(chunk) {
        Some(content) => Phase::Sending {
            node,
            prompt_tokens,
            progress: progress.naming(chunk).saying(content@),
            chunk: node.chunk_of(content),
        },
        None => Phase::Reading { node, prompt_tokens, progress: progress.naming(chunk) },
    }
}

/// The phase that follows an accepted reply, or the error that ends the completion.
pub open spec fn next<C, E>(phase: ChatRunView<C>, reply: ChatReply<C, E>) -> Result<
    ChatRunView<C>,
    ChatErrorView<E>,
> {
    match (phase, reply) {
        (_, ChatReply::Failed(error)) => Err(ChatErrorView::Outside(error)),
        (Phase::OpeningStream { node, .. }, _) => Ok(Phase::CountingTokens { node }),
        (Phase::CountingTokens { node }, ChatReply::PromptTokens(prompt_tokens)) => Ok(
            Phase::Reading { node, prompt_tokens, progress: ProgressView::nothing() },
        ),
        (Phase::Reading { node, prompt_tokens, progress }, event) => after_event(
            node,
            prompt_tokens,
            progress,
            event,
        ),
        (
            Phase::Parsing { node, prompt_tokens, progress, data },
            ChatReply::Chunk(chunk),
        ) => Ok(after_chunk(node, prompt_tokens, progress, chunk)),
        (Phase::Sending { node, prompt_tokens, progress, .. }, _) => Ok(
            Phase::Reading { node, prompt_tokens, progress: progress.counting_one() },
        ),
        (Phase::Closing { prompt_tokens, progress }, _) => Ok(
            Phase::PricingStreamed {
                prompt_tokens,
                total_tokens: (progress.completion_tokens + prompt_tokens) as u32,
                progress,
            },
        ),
        (
            Phase::PricingStreamed { prompt_tokens, total_tokens, progress },
            ChatReply::Cost(cost),
        ) => Ok(
            Phase::Done {
                completion: streamed_completion(prompt_tokens, total_tokens, progress, cost),
            },
        ),
        (Phase::Requesting { .. }, ChatReply::Responded(status)) => if status == 200 {
            Ok(Phase::ReadingCompletion)
        } else {
            Ok(Phase::ReadingError)
        },
        (Phase::ReadingError, ChatReply::ErrorBody(body)) => Err(
            ChatErrorView::Message(body.error.message@),
        ),
        (Phase::ReadingCompletion, ChatReply::Completion(completion)) => Ok(
            Phase::PricingRead { completion: completion@ },
        ),
        (Phase::PricingRead { completion }, ChatReply::Cost(cost)) => Ok(
            Phase::Done { completion: priced(completion, cost) },
        ),
        _ => Ok(phase),
    }
}

/// The outcome of a step, as mathematics.
pub open spec fn outcome_view<C, E>(outcome: Result<ChatRun<C>, ChatError<E>>) -> Result<
    ChatRunView<C>,
    ChatErrorView<E>,
> {
    match outcome {
        Ok(run) => Ok(run@),
        Err(error) => Err(error@),
    }
}

/// Takes an event of the stream.
fn on_event<C, E>(
    node: NodeInfo,
    prompt_tokens: u32,
    progress: Progress,
    event: ChatReply<C, E>,
) -> (outcome: Result<ChatRun<C>, ChatError<E>>)
    requires
        accepts(
            (ChatRunView::<C>::Reading { node, prompt_tokens, progress: progress@ }),
            event,
        ),
    ensures
        outcome_view(outcome) == after_event(node, prompt_tokens, progress@, event),
{
    match event {
        ChatReply::EventMessage(data) => {
            if data == "[DONE]".to_string() {
                Ok(Phase::Closing { prompt_tokens, progress })
            } else {
                Ok(Phase::Parsing { node, prompt_tokens, progress, data })
            }
        },
        ChatReply::EventInvalidStatus(code) => {
            if code == 401 {
                Err(ChatError::Message("Invalid API key".to_string()))
            } else {
                let mut text = "Error. Status code: ".to_string();
                text.append(shown_status(code).as_str());
                Err(ChatError::Message(text))
            }
        },
        ChatReply::EventFault => Err(ChatError::Message("Error on OpenAI streaming".to_string())),
        ChatReply::EventsEnded => Ok(Phase::Closing { prompt_tokens, progress }),
        _ => Ok(Phase::Reading { node, prompt_tokens, progress }),
    }
}

/// Takes a streamed event that was read.
fn on_chunk<C>(
    node: NodeInfo,
    prompt_tokens: u32,
    progress: Progress,
    chunk: ChatCompletionChunk,
) -> (run: ChatRun<C>)
    ensures
        run@ == after_chunk::<C>(node, prompt_tokens, progress@, chunk),
{
    let mut progress = progress;
    let ghost before = progress@;
    if let Some(model) = chunk.model {
        progress.model = model;
    }
    assert(progress@ == before.naming(chunk));
    if chunk.choices.len() == 0 {
        return Phase::Reading { node, prompt_tokens, progress };
    }
    match &chunk.choices[0].delta.content {
        Some(content) => {
            let content = content.clone();
            progress.message.append(content.as_str());
            let chunk = node.stream_chunk(content);
            Phase::Sending { node, prompt_tokens, progress, chunk }
        },
        None => Phase::Reading { node, prompt_tokens, progress },
    }
}

/// The completion that a stream amounts to.
fn completed<C>(
    prompt_tokens: u32,
    total_tokens: u32,
    progress: Progress,
    cost: C,
) -> (completion: ChatCompletion<C>)
    ensures
        completion@ == streamed_completion(prompt_tokens, total_tokens, progress@, cost),
{
    let message = ChatMessage {
        role: "assistant".to_string(),
        content: ChatMessageContent::Text(progress.message),
    };
    let mut choices: Vec<ChatChoice> = Vec::new();
    choices.push(ChatChoice::new(message));
    let completion = ChatCompletion {
        choices,
        usage: ChatUsage {
            completion_tokens: progress.completion_tokens,
            prompt_tokens,
            total_tokens,
            approximate_cost: cost,
        },
        model: progress.model,
    };
    assert(completion@.choices =~= streamed_completion(
        prompt_tokens,
        total_tokens,
        progress@,
        cost,
    ).choices);
    completion
}

impl<C> Phase<ChatRequest, Progress, ChatCompletion<C>> {
    /// Starts a completion whose answer comes piece by piece.
    pub fn start_streamed(request: ChatRequest, node: NodeInfo) -> (run: Self)
        requires
            takes_fields(request@.body),
        ensures
            run@ == (ChatRunView::<C>::OpeningStream { request: request@.streamed(), node }),
    {
        Phase::OpeningStream { request: request.into_streamed(), node }
    }

    /// Starts a completion whose answer comes as a whole.
    pub fn start_whole(request: ChatRequest) -> (run: Self)
        ensures
            run@ == (ChatRunView::<C>::Requesting { request: request@ }),
    {
        Phase::Requesting { request }
    }

    /// What is to be done next.
    pub fn command(&self) -> (command: ChatCommand<'_, C>)
        ensures
            command@ == command_of(self@),
    {
        match self {
            Phase::OpeningStream { request, .. } => ChatCommand::OpenStream(request),
            Phase::CountingTokens { .. } => ChatCommand::CountPromptTokens { model: "gpt-4o" },
            Phase::Reading { .. } => ChatCommand::NextEvent,
            Phase::Parsing { data, .. } => ChatCommand::ParseChunk { data: data.as_str() },
            Phase::Sending { chunk, .. } => ChatCommand::Send(chunk),
            Phase::Closing { .. } => ChatCommand::CloseStream,
            Phase::PricingStreamed { prompt_tokens, progress, .. } => ChatCommand::EstimateCost {
                model: progress.model.as_str(),
                prompt_tokens: *prompt_tokens,
                completion_tokens: progress.completion_tokens,
            },
            Phase::Requesting { request } => ChatCommand::SendRequest(request),
            Phase::ReadingError => ChatCommand::ReadErrorBody,
            Phase::ReadingCompletion => ChatCommand::ReadCompletion,
            Phase::PricingRead { completion } => ChatCommand::EstimateCost {
                model: completion.model.as_str(),
                prompt_tokens: completion.usage.prompt_tokens,
                completion_tokens: completion.usage.completion_tokens,
            },
            Phase::Done { completion } => ChatCommand::Finish(completion),
        }
    }

    /// Whether `reply` is one that the command of this phase can have.
    pub fn accepts_reply<E>(&self, reply: &ChatReply<C, E>) -> (answer: bool)
        ensures
            answer == accepts(self@, *reply),
    {
        match (self, reply) {
            (Phase::OpeningStream { .. }, ChatReply::StreamOpened) => true,
            (Phase::OpeningStream { .. }, ChatReply::Failed(_)) => true,
            (Phase::CountingTokens { .. }, ChatReply::PromptTokens(_)) => true,
            (Phase::Reading { .. }, ChatReply::EventOpen) => true,
            (Phase::Reading { .. }, ChatReply::EventMessage(_)) => true,
            (Phase::Reading { .. }, ChatReply::EventInvalidStatus(code)) => {
                100 <= *code && *code <= 999
            },
            (Phase::Reading { .. }, ChatReply::EventFault) => true,
            (Phase::Reading { .. }, ChatReply::EventsEnded) => true,
            (Phase::Parsing { .. }, ChatReply::Chunk(_)) => true,
            (Phase::Parsing { .. }, ChatReply::Failed(_)) => true,
            (Phase::Sending { progress, .. }, ChatReply::Sent) => {
                progress.completion_tokens < u32::MAX
            },
            (Phase::Closing { prompt_tokens, progress }, ChatReply::StreamClosed) => {
                progress.completion_tokens <= u32::MAX - *prompt_tokens
            },
            (Phase::PricingStreamed { .. }, ChatReply::Cost(_)) => true,
            (Phase::Requesting { .. }, ChatReply::Responded(_)) => true,
            (Phase::Requesting { .. }, ChatReply::Failed(_)) => true,
            (Phase::ReadingError, ChatReply::ErrorBody(_)) => true,
            (Phase::ReadingError, ChatReply::Failed(_)) => true,
            (Phase::ReadingCompletion, ChatReply::Completion(_)) => true,
            (Phase::ReadingCompletion, ChatReply::Failed(_)) => true,
            (Phase::PricingRead { .. }, ChatReply::Cost(_)) => true,
            _ => false,
        }
    }

    /// Takes what came of the command of this phase: the run goes on, or ends with an error.
    pub fn step<E>(self, reply: ChatReply<C, E>) -> (outcome: Result<Self, ChatError<E>>)
        requires
            accepts(self@, reply),
        ensures
            outcome_view(outcome) == next(self@, reply),
    {
        match (self, reply) {
            (_, ChatReply::Failed(error)) => Err(ChatError::Outside(error)),
            (Phase::OpeningStream { node, .. }, _) => Ok(Phase::CountingTokens { node }),
            (Phase::CountingTokens { node }, ChatReply::PromptTokens(prompt_tokens)) => {
                let progress = Progress {
                    message: String::new(),
                    completion_tokens: 0,
                    model: String::new(),
                };
                Ok(Phase::Reading { node, prompt_tokens, progress })
            },
            (Phase::Reading { node, prompt_tokens, progress }, event) => {
                on_event(node, prompt_tokens, progress, event)
            },
            (Phase::Parsing { node, prompt_tokens, progress, .. }, ChatReply::Chunk(chunk)) => {
                Ok(on_chunk(node, prompt_tokens, progress, chunk))
            },
            (Phase::Sending { node, prompt_tokens, progress, .. }, _) => {
                let mut progress = progress;
                progress.completion_tokens = progress.completion_tokens + 1;
                Ok(Phase::Reading { node, prompt_tokens, progress })
            },
            (Phase::Closing { prompt_tokens, progress }, _) => {
                let total_tokens: u32 = progress.completion_tokens + prompt_tokens;
                Ok(Phase::PricingStreamed { prompt_tokens, total_tokens, progress })
            },
            (
                Phase::PricingStreamed { prompt_tokens, total_tokens, progress },
                ChatReply::Cost(cost),
            ) => {
                let completion = completed(prompt_tokens, total_tokens, progress, cost);
                Ok(Phase::Done { completion })
            },
            (Phase::Requesting { .. }, ChatReply::Responded(status)) => {
                if status == 200 {
                    Ok(Phase::ReadingCompletion)
                } else {
                    Ok(Phase::ReadingError)
                }
            },
            (Phase::ReadingError, ChatReply::ErrorBody(body)) => {
                Err(ChatError::Message(body.error.message))
            },
            (Phase::ReadingCompletion, ChatReply::Completion(completion)) => {
                Ok(Phase::PricingRead { completion })
            },
            (Phase::PricingRead { completion }, ChatReply::Cost(cost)) => {
                let mut completion = completion;
                completion.usage.approximate_cost = cost;
                Ok(Phase::Done { completion })
            },
            (run, _) => Ok(run),
        }
    }
}

} // verus!
