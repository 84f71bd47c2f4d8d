use crate::ids::Uuid;
use serde_json::Value;
use vstd::prelude::*;

verus! {

/// What a chat message says: plain text, or content in another JSON form, which is carried
/// along unread.
#[derive(Debug)]
pub enum ChatMessageContent {
    Text(String),
    Parts(Value),
}

/// One message of a chat.
#[derive(Debug)]
pub struct ChatMessage {
    pub role: String,
    pub content: ChatMessageContent,
}

/// One answer that a model gives to a chat.
#[derive(Debug)]
pub struct ChatChoice {
    pub message: ChatMessage,
}

/// The tokens that a completion took. `C` is what the caller knows of the cost.
#[derive(Debug)]
pub struct ChatUsage<C> {
    pub completion_tokens: u32,
    pub prompt_tokens: u32,
    pub total_tokens: u32,
    pub approximate_cost: C,
}

/// A finished answer of a model.
#[derive(Debug)]
pub struct ChatCompletion<C> {
    pub choices: Vec<ChatChoice>,
    pub usage: ChatUsage<C>,
    pub model: String,
}

/// The part of an answer that one streamed event brings.
#[derive(Debug)]
pub struct ChunkDelta {
    pub content: Option<String>,
}

/// One answer's part of a streamed event.
#[derive(Debug)]
pub struct ChunkChoice {
    pub delta: ChunkDelta,
}

/// A streamed event, read from its JSON text.
#[derive(Debug)]
pub struct ChatCompletionChunk {
    pub model: Option<String>,
    pub choices: Vec<ChunkChoice>,
}

/// The pipeline node on whose behalf a completion runs.
#[derive(Debug)]
pub struct NodeInfo {
    pub id: Uuid,
    pub node_id: Uuid,
    pub node_name: String,
    pub node_type: String,
}

/// A piece of an answer, on its way to whoever follows the pipeline.
#[derive(Debug)]
pub struct NodeStreamChunk {
    pub id: Uuid,
    pub node_id: Uuid,
    pub node_name: String,
    pub node_type: String,
    pub content: String,
}

/// The text of an error that the provider reports.
#[derive(Debug)]
pub struct OpenAIErrorMessage {
    pub message: String,
}

/// The body of an error response of the provider.
#[derive(Debug)]
pub struct OpenAIError {
    pub error: OpenAIErrorMessage,
}

/// The content of a message, as mathematics.
#[verifier::ext_equal]
pub enum ContentView {
    Text(Seq<char>),
    Parts(Value),
}

/// A message, as mathematics.
#[verifier::ext_equal]
pub struct MessageView {
    pub role: Seq<char>,
    pub content: ContentView,
}

/// A completion, as mathematics: the messages of its choices, its usage and its model.
#[verifier::ext_equal]
pub struct CompletionView<C> {
    pub choices: Seq<MessageView>,
    pub usage: ChatUsage<C>,
    pub model: Seq<char>,
}

impl View for ChatMessageContent {
    type V = ContentView;

    open spec fn view(&self) -> ContentView {
        match self {
            ChatMessageContent::Text(text) => ContentView::Text(text@),
            ChatMessageContent::Parts(parts) => ContentView::Parts(*parts),
        }
    }
}

impl View for ChatMessage {
    type V = MessageView;

    open spec fn view(&self) -> MessageView {
        MessageView { role: self.role@, content: self.content@ }
    }
}

impl<C> View for ChatCompletion<C> {
    type V = CompletionView<C>;

    open spec fn view(&self) -> CompletionView<C> {
        CompletionView {
            choices: self.choices@.map_values(|choice: ChatChoice| choice.message@),
            usage: self.usage,
            model: self.model@,
        }
    }
}

impl ChatChoice {
    /// The choice that consists of `message`.
    pub fn new(message: ChatMessage) -> (choice: ChatChoice)
        ensures
            choice.message == message,
    {
        ChatChoice { message }
    }
}

/// What a streamed event says: the content of its first choice, if it has a choice and that
/// choice has content.
pub open spec fn content_of(chunk: ChatCompletionChunk) -> Option<String> {
    if chunk.choices@.len() == 0 {
        None
    } else {
        chunk.choices@[0].delta.content
    }
}

impl NodeInfo {
    /// The piece of an answer that carries `content` for this node.
    pub open spec fn chunk_of(self, content: String) -> NodeStreamChunk {
        NodeStreamChunk {
            id: self.id,
            node_id: self.node_id,
            node_name: self.node_name,
            node_type: self.node_type,
            content,
        }
    }

    /// The piece of an answer that carries `content` for this node.
    pub fn stream_chunk(&self, content: String) -> (chunk: NodeStreamChunk)
        ensures
            chunk == self.chunk_of(content),
    {
        NodeStreamChunk {
            id: self.id,
            node_id: self.node_id,
            node_name: self.node_name.clone(),
            node_type: self.node_type.clone(),
            content,
        }
    }
}

/// A piece carries the node's own names and the content that it was given, whole.
pub proof fn law_pieces_carry_names_and_content(
    node: NodeInfo,
    content: String,
    piece: NodeStreamChunk,
)
    requires
        call_ensures(NodeInfo::stream_chunk, (&node, content), piece),
    ensures
        piece.id == node.id,
        piece.node_id == node.node_id,
        piece.node_name@ == node.node_name@,
        piece.node_type@ == node.node_type@,
        piece.content@ == content@,
{
}

} // verus!
