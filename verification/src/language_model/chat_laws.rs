use crate::json::{json, Json};
use crate::language_model::chat_run::{
    accepts, command_of, next, status_text, ChatCommand, ChatCommandView, ChatReply,
    ChatRun, ChatRunView, Phase, ProgressView,
};
use crate::language_model::messages::{
    ChatCompletion, ChatCompletionChunk, ChatMessage, ChatMessageContent, ContentView,
    MessageView, NodeInfo, NodeStreamChunk,
};
use crate::language_model::openai_azure::{ChatError, ChatErrorView, ChatRequest, RequestView};
use vstd::prelude::*;

verus! {

/// Where a completion stands once `replies` have come, one after the other: `None` if one of
/// them was not accepted, or came after an error.
pub open spec fn run_through<C, E>(
    start: ChatRunView<C>,
    replies: Seq<ChatReply<C, E>>,
) -> Option<Result<ChatRunView<C>, ChatErrorView<E>>>
    decreases replies.len(),
{
    if replies.len() == 0 {
        Some(Ok(start))
    } else {
        match run_through(start, replies.drop_last()) {
            Some(Ok(phase)) => if accepts(phase, replies.last()) {
                Some(next(phase, replies.last()))
            } else {
                None
            },
            _ => None,
        }
    }
}

/// The pieces that were handed on while `replies` came, in order.
pub open spec fn sent<C, E>(
    start: ChatRunView<C>,
    replies: Seq<ChatReply<C, E>>,
) -> Seq<NodeStreamChunk>
    decreases replies.len(),
{
    if replies.len() == 0 {
        Seq::empty()
    } else {
        let before = sent(start, replies.drop_last());
        match run_through(start, replies.drop_last()) {
            Some(Ok(phase)) => match command_of(phase) {
                ChatCommandView::Send(piece) => if replies.last() is Sent {
                    before.push(piece)
                } else {
                    before
                },
                _ => before,
            },
            _ => before,
        }
    }
}

/// The text of pieces, one after the other.
pub open spec fn joined(pieces: Seq<NodeStreamChunk>) -> Seq<char>
    decreases pieces.len(),
{
    if pieces.len() == 0 {
        Seq::empty()
    } else {
        joined(pieces.drop_last()) + pieces.last().content@
    }
}

/// What pieces say, each for itself.
pub open spec fn contents(pieces: Seq<NodeStreamChunk>) -> Seq<String> {
    pieces.map_values(|piece: NodeStreamChunk| piece.content)
}

/// What the chunks say that were read while `replies` came, in order. A chunk says what its
/// first choice holds; one without a choice, or whose first choice holds nothing, is passed
/// over.
pub open spec fn said<C, E>(replies: Seq<ChatReply<C, E>>) -> Seq<String>
    decreases replies.len(),
{
    if replies.len() == 0 {
        Seq::empty()
    } else {
        match replies.last() {
            ChatReply::Chunk(chunk) => if chunk.choices@.len() > 0
                && chunk.choices@[0].delta.content is Some {
                said(replies.drop_last()).push(chunk.choices@[0].delta.content->0)
            } else {
                said(replies.drop_last())
            },
            _ => said(replies.drop_last()),
        }
    }
}

/// What was read and is still being handed on: the content of one piece, or nothing.
pub open spec fn being_sent<C, E>(outcome: Result<ChatRunView<C>, ChatErrorView<E>>) -> Seq<
    String,
> {
    match outcome {
        Ok(Phase::Sending { chunk, .. }) => seq![chunk.content],
        _ => Seq::empty(),
    }
}

/// The model that was named last while `replies` came; no text if none was.
pub open spec fn last_model<C, E>(replies: Seq<ChatReply<C, E>>) -> Seq<char>
    decreases replies.len(),
{
    if replies.len() == 0 {
        Seq::empty()
    } else {
        match replies.last() {
            ChatReply::Chunk(chunk) => match chunk.model {
                Some(model) => model@,
                None => last_model(replies.drop_last()),
            },
            _ => last_model(replies.drop_last()),
        }
    }
}

/// The count of prompt tokens that was told last while `replies` came, if one was.
pub open spec fn told_prompt_tokens<C, E>(replies: Seq<ChatReply<C, E>>) -> Option<u32>
    decreases replies.len(),
{
    if replies.len() == 0 {
        None
    } else {
        match replies.last() {
            ChatReply::PromptTokens(prompt_tokens) => Some(prompt_tokens),
            _ => told_prompt_tokens(replies.drop_last()),
        }
    }
}

/// The cost that was told last while `replies` came, if one was.
pub open spec fn told_cost<C, E>(replies: Seq<ChatReply<C, E>>) -> Option<C>
    decreases replies.len(),
{
    if replies.len() == 0 {
        None
    } else {
        match replies.last() {
            ChatReply::Cost(cost) => Some(cost),
            _ => told_cost(replies.drop_last()),
        }
    }
}

/// Whether `progress` is what `pieces` and `model` amount to.
pub open spec fn records(
    progress: ProgressView,
    pieces: Seq<NodeStreamChunk>,
    model: Seq<char>,
) -> bool {
    &&& progress.message == joined(pieces)
    &&& progress.completion_tokens == pieces.len()
    &&& progress.model == model
}

/// Whether `phase` is one that a stream of `node` is in once `replies` came and `pieces` were
/// handed on.
pub open spec fn agrees<C, E>(
    phase: ChatRunView<C>,
    node: NodeInfo,
    pieces: Seq<NodeStreamChunk>,
    replies: Seq<ChatReply<C, E>>,
) -> bool {
    let model = last_model(replies);
    let told = told_prompt_tokens(replies);
    match phase {
        Phase::OpeningStream { node: of, .. } => of == node && pieces.len() == 0 && model
            == Seq::<char>::empty(),
        Phase::CountingTokens { node: of } => of == node && pieces.len() == 0 && model == Seq::<
            char,
        >::empty(),
        Phase::Reading { node: of, prompt_tokens, progress } => {
            &&& of == node
            &&& told == Some(prompt_tokens)
            &&& records(progress, pieces, model)
        },
        Phase::Parsing { node: of, prompt_tokens, progress, .. } => {
            &&& of == node
            &&& told == Some(prompt_tokens)
            &&& records(progress, pieces, model)
        },
        Phase::Sending { node: of, prompt_tokens, progress, chunk } => {
            &&& of == node
            &&& told == Some(prompt_tokens)
            &&& chunk == node.chunk_of(chunk.content)
            &&& progress.message == joined(pieces) + chunk.content@
            &&& progress.completion_tokens == pieces.len()
            &&& progress.model == model
        },
        Phase::Closing { prompt_tokens, progress } => {
            &&& told == Some(prompt_tokens)
            &&& records(progress, pieces, model)
        },
        Phase::PricingStreamed { prompt_tokens, total_tokens, progress } => {
            &&& told == Some(prompt_tokens)
            &&& total_tokens == progress.completion_tokens + prompt_tokens
            &&& records(progress, pieces, model)
        },
        Phase::Done { completion } => {
            &&& completion.choices == seq![
                MessageView { role: "assistant"@, content: ContentView::Text(joined(pieces)) },
            ]
            &&& completion.usage.completion_tokens == pieces.len()
            &&& told == Some(completion.usage.prompt_tokens)
            &&& completion.usage.total_tokens == completion.usage.completion_tokens
                + completion.usage.prompt_tokens
            &&& told_cost(replies) == Some(completion.usage.approximate_cost)
            &&& completion.model == model
        },
        _ => false,
    }
}

/// Whatever replies a streamed completion gets, what was handed on is what the chunks said
/// that were read, each once and in order, but for the piece that is still being handed on:
/// so it is at every moment, and so it was if the completion ended with an error. Each piece
/// carries the node's own names. As long as there is no error, the message is the pieces
/// handed on so far, joined in order, and the count of tokens is their number. When the
/// completion is there it says what was streamed, it counts a token for each piece, its prompt
/// tokens and its cost are those that were told, its total is the sum of its two counts, and
/// its model is the one that was named last.
pub proof fn law_stream_is_faithful<C, E>(
    request: RequestView,
    node: NodeInfo,
    replies: Seq<ChatReply<C, E>>,
    outcome: Result<ChatRunView<C>, ChatErrorView<E>>,
)
    requires
        run_through((ChatRunView::<C>::OpeningStream { request, node }), replies) == Some(outcome),
    ensures
        said(replies) == contents(
            sent((ChatRunView::<C>::OpeningStream { request, node }), replies),
        ) + being_sent(outcome),
        forall|i: int|
            0 <= i < sent(
                (ChatRunView::<C>::OpeningStream { request, node }),
                replies,
            ).len() ==> {
                let piece = #[trigger] sent(
                    (ChatRunView::<C>::OpeningStream { request, node }),
                    replies,
                )[i];
                piece == node.chunk_of(piece.content)
            },
        outcome matches Ok(phase) ==> agrees(
            phase,
            node,
            sent((ChatRunView::<C>::OpeningStream { request, node }), replies),
            replies,
        ),
    decreases replies.len(),
{
    let start = ChatRunView::<C>::OpeningStream { request, node };
    if replies.len() > 0 {
        let earlier = replies.drop_last();
        let before = run_through(start, earlier)->0;
        law_stream_is_faithful(request, node, earlier, before);
        let pieces = sent(start, earlier);
        if let Ok(Phase::Sending { chunk, .. }) = before {
            assert(pieces.push(chunk).drop_last() =~= pieces);
            assert(contents(pieces.push(chunk)) =~= contents(pieces) + seq![chunk.content]);
        }
    }
}

/// One accepted reply leads where [`next`] says.
proof fn lemma_one_reply<C, E>(start: ChatRunView<C>, reply: ChatReply<C, E>)
    requires
        accepts(start, reply),
    ensures
        run_through(start, seq![reply]) == Some(next(start, reply)),
{
    assert(seq![reply].drop_last() =~= Seq::<ChatReply<C, E>>::empty());
    reveal_with_fuel(run_through, 2);
}

/// Replies that come in two parts lead where the second part leads from where the first led.
proof fn lemma_run_in_parts<C, E>(
    start: ChatRunView<C>,
    first: Seq<ChatReply<C, E>>,
    middle: ChatRunView<C>,
    second: Seq<ChatReply<C, E>>,
)
    requires
        run_through(start, first) == Some(Ok::<ChatRunView<C>, ChatErrorView<E>>(middle)),
    ensures
        run_through(start, first + second) == run_through(middle, second),
    decreases second.len(),
{
    if second.len() == 0 {
        assert(first + second =~= first);
    } else {
        lemma_run_in_parts(start, first, middle, second.drop_last());
        assert((first + second).drop_last() =~= first + second.drop_last());
    }
}

/// What is handed on while replies come in two parts is what is handed on during the first,
/// and then what is handed on during the second.
proof fn lemma_sent_in_parts<C, E>(
    start: ChatRunView<C>,
    first: Seq<ChatReply<C, E>>,
    middle: ChatRunView<C>,
    second: Seq<ChatReply<C, E>>,
)
    requires
        run_through(start, first) == Some(Ok::<ChatRunView<C>, ChatErrorView<E>>(middle)),
    ensures
        sent(start, first + second) == sent(start, first) + sent(middle, second),
    decreases second.len(),
{
    if second.len() == 0 {
        assert(first + second =~= first);
    } else {
        lemma_sent_in_parts(start, first, middle, second.drop_last());
        lemma_run_in_parts(start, first, middle, second.drop_last());
        assert((first + second).drop_last() =~= first + second.drop_last());
    }
}

/// An event that only tells that the connection is open is skipped, wherever in the stream it
/// comes: whatever came before it and whatever comes after it, the completion stands where it
/// would stand without it, and the same pieces are handed on.
pub proof fn law_open_events_are_skipped<C, E>(
    start: ChatRunView<C>,
    before: Seq<ChatReply<C, E>>,
    phase: ChatRunView<C>,
    rest: Seq<ChatReply<C, E>>,
)
    requires
        run_through(start, before) == Some(Ok::<ChatRunView<C>, ChatErrorView<E>>(phase)),
        phase is Reading,
    ensures
        run_through(start, before.push(ChatReply::EventOpen) + rest) == run_through(
            start,
            before + rest,
        ),
        sent(start, before.push(ChatReply::EventOpen) + rest) == sent(start, before + rest),
{
    let opened = before.push(ChatReply::EventOpen);
    assert(opened.drop_last() =~= before);
    lemma_run_in_parts(start, before, phase, rest);
    lemma_run_in_parts(start, opened, phase, rest);
    lemma_sent_in_parts(start, before, phase, rest);
    lemma_sent_in_parts(start, opened, phase, rest);
}

/// Whether an event ends the stream: its end mark, or that there are no more events.
pub open spec fn ends_stream<C, E>(event: ChatReply<C, E>) -> bool {
    event is EventsEnded || (event matches ChatReply::EventMessage(data) && data@ == "[DONE]"@)
}

/// From where a stream is to be closed, at most its cost and its end follow.
proof fn lemma_after_the_end<C, E>(closing: ChatRunView<C>, rest: Seq<ChatReply<C, E>>)
    requires
        closing is Closing,
    ensures
        match run_through(closing, rest) {
            Some(Ok(Phase::Closing { .. })) => rest.len() == 0,
            Some(Ok(Phase::PricingStreamed { .. })) => rest.len() == 1,
            Some(Ok(Phase::Done { .. })) => rest.len() == 2,
            Some(_) => false,
            None => rest.len() > 0,
        },
        sent(closing, rest) == Seq::<NodeStreamChunk>::empty(),
    decreases rest.len(),
{
    if rest.len() > 0 {
        lemma_after_the_end(closing, rest.drop_last());
    }
}

/// After the end of a stream nothing more is asked of it, nothing more is read and nothing
/// more is handed on: whatever replies come, all that is left to do is to close the stream,
/// to estimate the cost and to finish, in this order, and none of it is an error.
pub proof fn law_nothing_is_read_after_the_end<C, E>(
    start: ChatRunView<C>,
    before: Seq<ChatReply<C, E>>,
    phase: ChatRunView<C>,
    end: ChatReply<C, E>,
    rest: Seq<ChatReply<C, E>>,
)
    requires
        run_through(start, before) == Some(Ok::<ChatRunView<C>, ChatErrorView<E>>(phase)),
        phase is Reading,
        ends_stream(end),
    ensures
        match run_through(start, before.push(end) + rest) {
            Some(Ok(later)) => match command_of(later) {
                ChatCommandView::CloseStream => rest.len() == 0,
                ChatCommandView::EstimateCost { .. } => rest.len() == 1,
                ChatCommandView::Finish(_) => rest.len() == 2,
                _ => false,
            },
            Some(Err(_)) => false,
            None => rest.len() > 0,
        },
        sent(start, before.push(end) + rest) == sent(start, before),
{
    let ended = before.push(end);
    assert(ended.drop_last() =~= before);
    lemma_run_in_parts(start, ended, next(phase, end)->Ok_0, rest);
    lemma_sent_in_parts(start, ended, next(phase, end)->Ok_0, rest);
    lemma_after_the_end(next(phase, end)->Ok_0, rest);
}

/// An event of a stream: that the connection is open, or data together with the chunk that
/// the data reads as.
pub enum StreamEvent {
    Open,
    Message { data: String, chunk: ChatCompletionChunk },
}

impl StreamEvent {
    /// Whether the event's data is the end mark, which ends a stream and is not read.
    pub open spec fn is_end_mark(self) -> bool {
        self matches StreamEvent::Message { data, .. } && data@ == "[DONE]"@
    }

    /// What the event says, if it says something.
    pub open spec fn content(self) -> Option<String> {
        match self {
            StreamEvent::Open => None,
            StreamEvent::Message { chunk, .. } => if chunk.choices@.len() > 0 {
                chunk.choices@[0].delta.content
            } else {
                None
            },
        }
    }

    /// The model that the event names, if it names one.
    pub open spec fn model(self) -> Option<String> {
        match self {
            StreamEvent::Open => None,
            StreamEvent::Message { chunk, .. } => chunk.model,
        }
    }

    /// The replies that the event brings. Data brings itself, what it reads as, and, if that
    /// says something, that it was handed on.
    pub open spec fn replies<C, E>(self) -> Seq<ChatReply<C, E>> {
        match self {
            StreamEvent::Open => seq![ChatReply::EventOpen],
            StreamEvent::Message { data, chunk } => if self.content() is Some {
                seq![ChatReply::EventMessage(data), ChatReply::Chunk(chunk), ChatReply::Sent]
            } else {
                seq![ChatReply::EventMessage(data), ChatReply::Chunk(chunk)]
            },
        }
    }
}

/// The replies that the events of a stream bring, in order.
pub open spec fn stream_replies<C, E>(events: Seq<StreamEvent>) -> Seq<ChatReply<C, E>>
    decreases events.len(),
{
    if events.len() == 0 {
        Seq::empty()
    } else {
        stream_replies::<C, E>(events.drop_last()) + events.last().replies::<C, E>()
    }
}

/// What the events of a stream say, joined in order.
pub open spec fn text_of(events: Seq<StreamEvent>) -> Seq<char>
    decreases events.len(),
{
    if events.len() == 0 {
        Seq::empty()
    } else {
        match events.last().content() {
            Some(content) => text_of(events.drop_last()) + content@,
            None => text_of(events.drop_last()),
        }
    }
}

/// The number of events of a stream that say something.
pub open spec fn tokens_of(events: Seq<StreamEvent>) -> nat
    decreases events.len(),
{
    if events.len() == 0 {
        0
    } else if events.last().content() is Some {
        tokens_of(events.drop_last()) + 1
    } else {
        tokens_of(events.drop_last())
    }
}

/// The model that an event of a stream names last; no text if none does.
pub open spec fn model_of(events: Seq<StreamEvent>) -> Seq<char>
    decreases events.len(),
{
    if events.len() == 0 {
        Seq::empty()
    } else {
        match events.last().model() {
            Some(model) => model@,
            None => model_of(events.drop_last()),
        }
    }
}

/// What has come of a stream after `events`.
pub open spec fn progress_of(events: Seq<StreamEvent>) -> ProgressView {
    ProgressView {
        message: text_of(events),
        completion_tokens: tokens_of(events) as u32,
        model: model_of(events),
    }
}

/// The replies of one event lead from one wait for an event to the next.
proof fn lemma_one_event<C, E>(
    node: NodeInfo,
    prompt_tokens: u32,
    progress: ProgressView,
    event: StreamEvent,
)
    requires
        !event.is_end_mark(),
        progress.completion_tokens < u32::MAX || event.content() is None,
    ensures
        run_through(
            (ChatRunView::<C>::Reading { node, prompt_tokens, progress }),
            event.replies::<C, E>(),
        ) == Some(
            Ok::<ChatRunView<C>, ChatErrorView<E>>(
                Phase::Reading {
                    node,
                    prompt_tokens,
                    progress: match event {
                        StreamEvent::Open => progress,
                        StreamEvent::Message { chunk, .. } => match event.content() {
                            Some(content) => progress.naming(chunk).saying(
                                content@,
                            ).counting_one(),
                            None => progress.naming(chunk),
                        },
                    },
                },
            ),
        ),
{
    let start = ChatRunView::<C>::Reading { node, prompt_tokens, progress };
    let replies = event.replies::<C, E>();
    match event {
        StreamEvent::Open => {
            lemma_one_reply(start, ChatReply::<C, E>::EventOpen);
        },
        StreamEvent::Message { data, chunk } => {
            let one = seq![ChatReply::<C, E>::EventMessage(data)];
            let two = seq![ChatReply::<C, E>::EventMessage(data), ChatReply::Chunk(chunk)];
            lemma_one_reply(start, one[0]);
            assert(two.drop_last() =~= one);
            let parsing = next(start, one.last())->Ok_0;
            assert(run_through(start, two) == Some(next(parsing, two.last())));
            if event.content() is Some {
                assert(replies.drop_last() =~= two);
            } else {
                assert(replies =~= two);
            }
        },
    }
}

/// The replies of a stream lead from the first wait for an event to the last.
proof fn lemma_events<C, E>(node: NodeInfo, prompt_tokens: u32, events: Seq<StreamEvent>)
    requires
        forall|i: int| 0 <= i < events.len() ==> !(#[trigger] events[i]).is_end_mark(),
        tokens_of(events) <= u32::MAX,
    ensures
        run_through(
            (ChatRunView::<C>::Reading {
                node,
                prompt_tokens,
                progress: ProgressView::nothing(),
            }),
            stream_replies::<C, E>(events),
        ) == Some(
            Ok::<ChatRunView<C>, ChatErrorView<E>>(
                Phase::Reading { node, prompt_tokens, progress: progress_of(events) },
            ),
        ),
    decreases events.len(),
{
    let start = ChatRunView::<C>::Reading {
        node,
        prompt_tokens,
        progress: ProgressView::nothing(),
    };
    if events.len() > 0 {
        let earlier = events.drop_last();
        let event = events.last();
        assert(event == events[events.len() - 1]);
        assert forall|i: int| 0 <= i < earlier.len() implies !(
        #[trigger] earlier[i]).is_end_mark() by {
            assert(earlier[i] == events[i]);
        }
        lemma_events::<C, E>(node, prompt_tokens, earlier);
        let middle = ChatRunView::<C>::Reading {
            node,
            prompt_tokens,
            progress: progress_of(earlier),
        };
        lemma_run_in_parts(
            start,
            stream_replies::<C, E>(earlier),
            middle,
            event.replies::<C, E>(),
        );
        lemma_one_event::<C, E>(node, prompt_tokens, progress_of(earlier), event);
    }
}

/// A stream that runs its course is answered. Whatever its events are, and however many of
/// them only tell that the connection is open, if all data can be read and handed on and the
/// counts stay in range, then the completion is there once the stream ends, by its end mark or
/// by itself: the assistant says what the events said, a token is counted for each event that
/// said something, and the model is the one named last.
pub proof fn law_stream_completes<C, E>(
    request: RequestView,
    node: NodeInfo,
    prompt_tokens: u32,
    events: Seq<StreamEvent>,
    end: ChatReply<C, E>,
    cost: C,
)
    requires
        forall|i: int| 0 <= i < events.len() ==> !(#[trigger] events[i]).is_end_mark(),
        tokens_of(events) + prompt_tokens <= u32::MAX,
        ends_stream(end),
    ensures
        ({
            &&& run_through(
                (ChatRunView::<C>::OpeningStream { request, node }),
                seq![ChatReply::<C, E>::StreamOpened, ChatReply::PromptTokens(prompt_tokens)]
                    + stream_replies::<C, E>(events) + seq![
                    end,
                    ChatReply::StreamClosed,
                    ChatReply::Cost(cost),
                ],
            ) matches Some(Ok(Phase::Done { completion }))
            &&& completion.choices == seq![
                MessageView { role: "assistant"@, content: ContentView::Text(text_of(events)) },
            ]
            &&& completion.usage.completion_tokens == tokens_of(events)
            &&& completion.usage.prompt_tokens == prompt_tokens
            &&& completion.usage.total_tokens == tokens_of(events) + prompt_tokens
            &&& completion.usage.approximate_cost == cost
            &&& completion.model == model_of(events)
        }),
{
    let start = ChatRunView::<C>::OpeningStream { request, node };
    let opening = seq![ChatReply::<C, E>::StreamOpened, ChatReply::PromptTokens(prompt_tokens)];
    let middle = stream_replies::<C, E>(events);
    let closing = seq![end, ChatReply::StreamClosed, ChatReply::Cost(cost)];
    let reading = ChatRunView::<C>::Reading {
        node,
        prompt_tokens,
        progress: ProgressView::nothing(),
    };
    assert(run_through(start, opening) == Some(
        Ok::<ChatRunView<C>, ChatErrorView<E>>(reading),
    )) by {
        let one = seq![ChatReply::<C, E>::StreamOpened];
        lemma_one_reply(start, one[0]);
        assert(opening.drop_last() =~= one);
    }
    lemma_run_in_parts(start, opening, reading, middle);
    lemma_events::<C, E>(node, prompt_tokens, events);
    let read = ChatRunView::<C>::Reading { node, prompt_tokens, progress: progress_of(events) };
    lemma_run_in_parts(start, opening + middle, read, closing);
    let one = seq![end];
    let two = seq![end, ChatReply::<C, E>::StreamClosed];
    lemma_one_reply(read, end);
    assert(two.drop_last() =~= one);
    assert(closing.drop_last() =~= two);
    let closed = next(read, end)->Ok_0;
    assert(run_through(read, two) == Some(next(closed, two.last())));
}

/// An error from outside ends a completion and is handed on as it is.
pub proof fn law_failures_are_handed_on<C, E>(phase: ChatRunView<C>, error: E)
    requires
        accepts(phase, ChatReply::<C, E>::Failed(error)),
    ensures
        next(phase, ChatReply::<C, E>::Failed(error)) == Err::<ChatRunView<C>, ChatErrorView<E>>(
            ChatErrorView::Outside(error),
        ),
{
}

/// A whole answer is returned as the provider gave it, but for its cost: its choices, its
/// model and its three counts are those of the answer.
pub proof fn law_whole_answer_is_kept<C, E>(
    request: RequestView,
    completion: ChatCompletion<C>,
    cost: C,
)
    ensures
        ({
            &&& run_through(
                (ChatRunView::<C>::Requesting { request }),
                seq![
                    ChatReply::<C, E>::Responded(200),
                    ChatReply::Completion(completion),
                    ChatReply::Cost(cost),
                ],
            ) matches Some(Ok(Phase::Done { completion: finished }))
            &&& finished.choices == completion@.choices
            &&& finished.model == completion@.model
            &&& finished.usage.prompt_tokens == completion@.usage.prompt_tokens
            &&& finished.usage.completion_tokens == completion@.usage.completion_tokens
            &&& finished.usage.total_tokens == completion@.usage.total_tokens
            &&& finished.usage.approximate_cost == cost
        }),
{
    let start = ChatRunView::<C>::Requesting { request };
    let one = seq![ChatReply::<C, E>::Responded(200)];
    let two = seq![ChatReply::<C, E>::Responded(200), ChatReply::Completion(completion)];
    let three = seq![
        ChatReply::<C, E>::Responded(200),
        ChatReply::Completion(completion),
        ChatReply::Cost(cost),
    ];
    lemma_one_reply(start, one[0]);
    assert(two.drop_last() =~= one);
    assert(three.drop_last() =~= two);
    assert(run_through(start, two) == Some(
        Ok::<ChatRunView<C>, ChatErrorView<E>>(Phase::PricingRead { completion: completion@ }),
    ));
}

/// A response with any other status than success yields no completion: once its body is read,
/// or fails to be read, the run ends with the provider's message, or with the failure.
pub proof fn law_refusals_are_errors<C, E>(
    request: RequestView,
    status: u16,
    reply: ChatReply<C, E>,
)
    requires
        status != 200,
    ensures
        run_through(
            (ChatRunView::<C>::Requesting { request }),
            seq![ChatReply::<C, E>::Responded(status), reply],
        ) == match reply {
            ChatReply::ErrorBody(body) => Some(
                Err::<ChatRunView<C>, ChatErrorView<E>>(
                    ChatErrorView::Message(body.error.message@),
                ),
            ),
            ChatReply::Failed(error) => Some(Err(ChatErrorView::Outside(error))),
            _ => None,
        },
{
    let start = ChatRunView::<C>::Requesting { request };
    let one = seq![ChatReply::<C, E>::Responded(status)];
    let two = seq![ChatReply::<C, E>::Responded(status), reply];
    lemma_one_reply(start, one[0]);
    assert(two.drop_last() =~= one);
}

/// What is posted first is the request that was prepared: told to stream if the answer is to
/// come piece by piece, and as it is otherwise.
pub proof fn law_prepared_request_is_posted<C>(request: RequestView, node: NodeInfo)
    ensures
        command_of((ChatRunView::<C>::OpeningStream { request: request.streamed(), node })) == (
        ChatCommandView::<C>::OpenStream(request.streamed())),
        command_of((ChatRunView::<C>::Requesting { request })) == (
        ChatCommandView::<C>::SendRequest(request)),
{
}

/// Whether `runs` shows a completion under way, before and after each of `replies`: every reply
/// was one that [`ChatRun::accepts_reply`] accepts, and [`ChatRun::step`] took it and went on.
pub open spec fn goes_on<C, E>(runs: Seq<ChatRun<C>>, replies: Seq<ChatReply<C, E>>) -> bool {
    &&& runs.len() == replies.len() + 1
    &&& forall|i: int|
        0 <= i < replies.len() ==> {
            &&& call_ensures(
                ChatRun::<C>::accepts_reply::<E>,
                (&#[trigger] runs[i], &replies[i]),
                true,
            )
            &&& call_ensures(ChatRun::<C>::step::<E>, (runs[i], replies[i]), Ok(runs[i + 1]))
        }
}

/// A completion that goes on stands where its replies lead.
proof fn lemma_goes_on<C, E>(runs: Seq<ChatRun<C>>, replies: Seq<ChatReply<C, E>>)
    requires
        goes_on(runs, replies),
    ensures
        run_through(runs[0]@, replies) == Some(
            Ok::<ChatRunView<C>, ChatErrorView<E>>(runs.last()@),
        ),
    decreases replies.len(),
{
    if replies.len() > 0 {
        let earlier = runs.drop_last();
        let i = replies.len() - 1;
        assert forall|j: int| 0 <= j < i implies {
            &&& call_ensures(
                ChatRun::<C>::accepts_reply::<E>,
                (&#[trigger] earlier[j], &replies.drop_last()[j]),
                true,
            )
            &&& call_ensures(
                ChatRun::<C>::step::<E>,
                (earlier[j], replies.drop_last()[j]),
                Ok(earlier[j + 1]),
            )
        } by {
            assert(earlier[j] == runs[j]);
            assert(earlier[j + 1] == runs[j + 1]);
        }
        lemma_goes_on(earlier, replies.drop_last());
        assert(runs[i] == earlier.last());
        assert(runs[i + 1] == runs.last());
    }
}

/// Texts, one after the other.
pub open spec fn spoken(texts: Seq<String>) -> Seq<char>
    decreases texts.len(),
{
    if texts.len() == 0 {
        Seq::empty()
    } else {
        spoken(texts.drop_last()) + texts.last()@
    }
}

/// The text of pieces is what they say.
proof fn lemma_joined_is_spoken(pieces: Seq<NodeStreamChunk>)
    ensures
        joined(pieces) == spoken(contents(pieces)),
    decreases pieces.len(),
{
    if pieces.len() > 0 {
        lemma_joined_is_spoken(pieces.drop_last());
        assert(contents(pieces).drop_last() =~= contents(pieces.drop_last()));
    }
}

/// Whether two requests go to the same address with the same headers and the same body.
pub open spec fn same_request(a: ChatRequest, b: ChatRequest) -> bool {
    &&& same_address(a, b)
    &&& json(a.body) == json(b.body)
}

/// Whether two requests go to the same address with the same headers.
pub open spec fn same_address(a: ChatRequest, b: ChatRequest) -> bool {
    &&& a.endpoint@ == b.endpoint@
    &&& a.headers@.len() == b.headers@.len()
    &&& forall|i: int|
        0 <= i < a.headers@.len() ==> (#[trigger] a.headers@[i]).name@ == b.headers@[i].name@
            && a.headers@[i].value@ == b.headers@[i].value@
}

/// Whether two messages have the same role and say the same.
pub open spec fn same_message(a: ChatMessage, b: ChatMessage) -> bool {
    &&& a.role@ == b.role@
    &&& match (a.content, b.content) {
        (ChatMessageContent::Text(text), ChatMessageContent::Text(other)) => text@ == other@,
        (ChatMessageContent::Parts(parts), ChatMessageContent::Parts(other)) => parts == other,
        _ => false,
    }
}

/// Requests whose views have the same address and headers go to the same place.
proof fn lemma_same_address(a: ChatRequest, b: ChatRequest)
    requires
        a@.endpoint == b@.endpoint,
        a@.headers == b@.headers,
    ensures
        same_address(a, b),
{
    assert(a@.headers.len() == a.headers@.len());
    assert(b@.headers.len() == b.headers@.len());
    assert forall|i: int| 0 <= i < a.headers@.len() implies (#[trigger] a.headers@[i]).name@
        == b.headers@[i].name@ && a.headers@[i].value@ == b.headers@[i].value@ by {
        assert(a@.headers[i] == a.headers@[i]@);
        assert(b@.headers[i] == b.headers@[i]@);
    }
}

/// What a streamed completion asks for depends on what came: first the request is posted, told
/// to stream, and the tokens of the prompt are counted by a fixed model. From then on every event
/// is read until the end mark or the end of the stream, and every chunk whose first choice holds
/// content, whatever the text, is handed on under the node's own names. When the stream is
/// closed, the cost is asked for the model that was named last, the count that was told and the
/// number of contents that were read. At last the assistant says all these contents, joined in
/// order, with these counts, their sum, the cost that was told and that model.
pub proof fn law_streamed_answer<C, E>(
    request: ChatRequest,
    node: NodeInfo,
    runs: Seq<ChatRun<C>>,
    replies: Seq<ChatReply<C, E>>,
    command: ChatCommand<'_, C>,
)
    requires
        json(request.body) is Object || json(request.body) is Null,
        call_ensures(ChatRun::<C>::start_streamed, (request, node), runs[0]),
        goes_on(runs, replies),
        call_ensures(ChatRun::<C>::command, (&runs.last(),), command),
    ensures
        replies.len() == 0 ==> {
            &&& command matches ChatCommand::OpenStream(posted)
            &&& same_address(*posted, request)
            &&& json(posted.body) matches Json::Object(fields)
            &&& fields == (match json(request.body) {
                Json::Object(given) => given,
                _ => Map::empty(),
            }).insert("stream"@, Json::Bool(true))
        },
        replies.len() == 1 ==> {
            &&& replies[0] is StreamOpened
            &&& command matches ChatCommand::CountPromptTokens { model }
            &&& model@ == "gpt-4o"@
        },
        replies.len() > 1 ==> match replies.last() {
            ChatReply::PromptTokens(_) => command is NextEvent,
            ChatReply::EventOpen => command is NextEvent,
            ChatReply::EventsEnded => command is CloseStream,
            ChatReply::EventMessage(event) => if event@ == "[DONE]"@ {
                command is CloseStream
            } else {
                command matches ChatCommand::ParseChunk { data } && data@ == event@
            },
            ChatReply::Chunk(chunk) => if chunk.choices@.len() > 0
                && chunk.choices@[0].delta.content is Some {
                &&& command matches ChatCommand::Send(piece)
                &&& piece.content@ == chunk.choices@[0].delta.content->0@
                &&& piece.id == node.id
                &&& piece.node_id == node.node_id
                &&& piece.node_name@ == node.node_name@
                &&& piece.node_type@ == node.node_type@
            } else {
                command is NextEvent
            },
            ChatReply::Sent => command is NextEvent,
            ChatReply::StreamClosed => {
                &&& command matches ChatCommand::EstimateCost {
                    model,
                    prompt_tokens,
                    completion_tokens,
                }
                &&& model@ == last_model(replies)
                &&& told_prompt_tokens(replies) == Some(prompt_tokens)
                &&& completion_tokens == said(replies).len()
            },
            ChatReply::Cost(cost) => {
                &&& command matches ChatCommand::Finish(completion)
                &&& completion.choices@.len() == 1
                &&& completion.choices@[0].message.role@ == "assistant"@
                &&& completion.choices@[0].message.content matches ChatMessageContent::Text(text)
                &&& text@ == spoken(said(replies))
                &&& completion.usage.completion_tokens == said(replies).len()
                &&& told_prompt_tokens(replies) == Some(completion.usage.prompt_tokens)
                &&& completion.usage.total_tokens == completion.usage.completion_tokens
                    + completion.usage.prompt_tokens
                &&& completion.usage.approximate_cost == cost
                &&& completion.model@ == last_model(replies)
            },
            _ => false,
        },
{
    let opening = ChatRunView::<C>::OpeningStream { request: request@.streamed(), node };
    let run = runs.last();
    lemma_goes_on(runs, replies);
    law_stream_is_faithful(request@.streamed(), node, replies, Ok(run@));
    let pieces = sent(opening, replies);
    lemma_joined_is_spoken(pieces);
    if replies.len() == 0 {
        let posted = *command->OpenStream_0;
        lemma_same_address(posted, request);
        assert(map!["stream"@ => Json::Bool(true)] =~= Map::<Seq<char>, Json>::empty().insert(
            "stream"@,
            Json::Bool(true),
        ));
    } else {
        let before = run_through(opening, replies.drop_last())->0->Ok_0;
        law_stream_is_faithful(request@.streamed(), node, replies.drop_last(), Ok(before));
        if replies.len() == 1 {
            assert(replies.drop_last() =~= Seq::<ChatReply<C, E>>::empty());
        }
        if let ChatReply::Cost(_) = replies.last() {
            let completion = *command->Finish_0;
            assert(completion@.choices.len() == 1);
            assert(completion@.choices[0] == completion.choices@[0].message@);
            assert(contents(pieces) + being_sent(Ok::<ChatRunView<C>, ChatErrorView<E>>(run@))
                =~= contents(pieces));
        }
        if let ChatReply::StreamClosed = replies.last() {
            assert(contents(pieces) + being_sent(Ok::<ChatRunView<C>, ChatErrorView<E>>(run@))
                =~= contents(pieces));
        }
    }
}

/// Where the replies lead that a completion that comes as a whole can get and go on.
proof fn lemma_whole_run<C, E>(request: RequestView, replies: Seq<ChatReply<C, E>>)
    requires
        run_through((ChatRunView::<C>::Requesting { request }), replies) matches Some(Ok(_)),
    ensures
        replies.len() <= 3,
        replies.len() >= 1 ==> replies[0] is Responded,
        replies.len() >= 2 ==> replies[0]->Responded_0 == 200 && replies[1] is Completion,
        replies.len() == 3 ==> replies[2] is Cost,
        ({
            let reached = run_through(
                (ChatRunView::<C>::Requesting { request }),
                replies,
            )->0->Ok_0;
            if replies.len() == 0 {
                reached == (ChatRunView::<C>::Requesting { request })
            } else if replies.len() == 1 {
                if replies[0]->Responded_0 == 200 {
                    reached is ReadingCompletion
                } else {
                    reached is ReadingError
                }
            } else if replies.len() == 2 {
                reached == (ChatRunView::<C>::PricingRead { completion: replies[1]->Completion_0@ })
            } else {
                &&& reached matches Phase::Done { completion }
                &&& completion.choices == replies[1]->Completion_0@.choices
                &&& completion.model == replies[1]->Completion_0@.model
                &&& completion.usage.prompt_tokens
                    == replies[1]->Completion_0@.usage.prompt_tokens
                &&& completion.usage.completion_tokens
                    == replies[1]->Completion_0@.usage.completion_tokens
                &&& completion.usage.total_tokens == replies[1]->Completion_0@.usage.total_tokens
                &&& completion.usage.approximate_cost == replies[2]->Cost_0
            }
        }),
    decreases replies.len(),
{
    if replies.len() > 0 {
        lemma_whole_run(request, replies.drop_last());
    }
}

/// What a completion that comes as a whole asks for depends on what came: the request is posted
/// as it is, and the response is read as an answer exactly if its status tells success. The cost
/// is asked for the model and the two counts of the answer. At last the answer is given as the
/// provider gave it: each choice with its message, in order, its model and its three counts, with
/// the cost that was told.
pub proof fn law_whole_answer<C, E>(
    request: ChatRequest,
    runs: Seq<ChatRun<C>>,
    replies: Seq<ChatReply<C, E>>,
    command: ChatCommand<'_, C>,
)
    requires
        call_ensures(ChatRun::<C>::start_whole, (request,), runs[0]),
        goes_on(runs, replies),
        call_ensures(ChatRun::<C>::command, (&runs.last(),), command),
    ensures
        replies.len() <= 3,
        replies.len() == 0 ==> {
            &&& command matches ChatCommand::SendRequest(posted)
            &&& same_request(*posted, request)
        },
        replies.len() >= 1 ==> replies[0] is Responded,
        replies.len() == 1 ==> if replies[0]->Responded_0 == 200 {
            command is ReadCompletion
        } else {
            command is ReadErrorBody
        },
        replies.len() >= 2 ==> replies[0]->Responded_0 == 200 && replies[1] is Completion,
        replies.len() == 2 ==> {
            let answer = replies[1]->Completion_0;
            &&& command matches ChatCommand::EstimateCost {
                model,
                prompt_tokens,
                completion_tokens,
            }
            &&& model@ == answer.model@
            &&& prompt_tokens == answer.usage.prompt_tokens
            &&& completion_tokens == answer.usage.completion_tokens
        },
        replies.len() == 3 ==> {
            let answer = replies[1]->Completion_0;
            &&& command matches ChatCommand::Finish(completion)
            &&& completion.choices@.len() == answer.choices@.len()
            &&& forall|i: int|
                0 <= i < answer.choices@.len() ==> same_message(
                    (#[trigger] completion.choices@[i]).message,
                    answer.choices@[i].message,
                )
            &&& completion.model@ == answer.model@
            &&& completion.usage.prompt_tokens == answer.usage.prompt_tokens
            &&& completion.usage.completion_tokens == answer.usage.completion_tokens
            &&& completion.usage.total_tokens == answer.usage.total_tokens
            &&& replies[2] == ChatReply::<C, E>::Cost(completion.usage.approximate_cost)
        },
{
    lemma_goes_on(runs, replies);
    lemma_whole_run(request@, replies);
    if replies.len() == 0 {
        lemma_same_address(*command->SendRequest_0, request);
    }
    if replies.len() == 3 {
        let answer = replies[1]->Completion_0;
        let completion = *command->Finish_0;
        assert(completion@.choices == answer@.choices);
        assert(completion@.choices.len() == completion.choices@.len());
        assert(answer@.choices.len() == answer.choices@.len());
        assert forall|i: int| 0 <= i < answer.choices@.len() implies same_message(
            (#[trigger] completion.choices@[i]).message,
            answer.choices@[i].message,
        ) by {
            assert(completion@.choices[i] == completion.choices@[i].message@);
            assert(answer@.choices[i] == answer.choices@[i].message@);
        }
    }
}

/// Only trouble ends a completion with an error, and the error says what the trouble was: an
/// outside failure is handed on as it is, a refused key is named as such, any other status is
/// shown, a fault of the stream is told, and an error body is given in the provider's own words.
/// After every other reply the completion goes on.
pub proof fn law_errors_tell_the_trouble<C, E>(
    run: ChatRun<C>,
    reply: ChatReply<C, E>,
    outcome: Result<ChatRun<C>, ChatError<E>>,
)
    requires
        call_ensures(ChatRun::<C>::accepts_reply::<E>, (&run, &reply), true),
        call_ensures(ChatRun::<C>::step::<E>, (run, reply), outcome),
    ensures
        match reply {
            ChatReply::Failed(failure) => outcome matches Err(ChatError::Outside(error)) && error
                == failure,
            ChatReply::EventInvalidStatus(code) => {
                &&& outcome matches Err(ChatError::Message(text))
                &&& text@ == if code == 401 {
                    "Invalid API key"@
                } else {
                    "Error. Status code: "@ + status_text(code)
                }
            },
            ChatReply::EventFault => outcome matches Err(ChatError::Message(text)) && text@
                == "Error on OpenAI streaming"@,
            ChatReply::ErrorBody(body) => outcome matches Err(ChatError::Message(text)) && text@
                == body.error.message@,
            _ => outcome is Ok,
        },
{
}

/// A completion accepts every reply that its command can have, and no other: only a count of
/// tokens that would leave its range is refused. What is accepted may be handed to
/// [`ChatRun::step`].
pub proof fn law_commands_and_replies_fit<C, E>(
    run: ChatRun<C>,
    command: ChatCommand<'_, C>,
    reply: ChatReply<C, E>,
    answer: bool,
)
    requires
        call_ensures(ChatRun::<C>::command, (&run,), command),
        call_ensures(ChatRun::<C>::accepts_reply::<E>, (&run, &reply), answer),
    ensures
        answer ==> call_requires(ChatRun::<C>::step::<E>, (run, reply)),
        answer == match command {
            ChatCommand::OpenStream(_) => reply is StreamOpened || reply is Failed,
            ChatCommand::CountPromptTokens { .. } => reply is PromptTokens,
            ChatCommand::NextEvent => match reply {
                ChatReply::EventInvalidStatus(code) => 100 <= code <= 999,
                ChatReply::EventOpen => true,
                ChatReply::EventMessage(_) => true,
                ChatReply::EventFault => true,
                ChatReply::EventsEnded => true,
                _ => false,
            },
            ChatCommand::ParseChunk { .. } => reply is Chunk || reply is Failed,
            ChatCommand::Send(_) => reply is Sent && run->Sending_progress.completion_tokens
                < u32::MAX,
            ChatCommand::CloseStream => reply is StreamClosed
                && run->Closing_progress.completion_tokens + run->Closing_prompt_tokens
                <= u32::MAX,
            ChatCommand::EstimateCost { .. } => reply is Cost,
            ChatCommand::SendRequest(_) => reply is Responded || reply is Failed,
            ChatCommand::ReadErrorBody => reply is ErrorBody || reply is Failed,
            ChatCommand::ReadCompletion => reply is Completion || reply is Failed,
            ChatCommand::Finish(_) => false,
        },
{
}

} // verus!
