//! The content model: messages and the blocks they are made of.
//!
//! These are plain data. A message is created once, by the user-input path or
//! by the backend, and never changed afterwards; the order of its blocks is
//! the order in which they are shown and in which tool responses are paired
//! with tool requests.

use vstd::prelude::*;

verus! {

/// Who wrote a message.
#[derive(Clone, Copy, Debug, PartialEq, Eq, Structural)]
pub enum Role {
    User,
    Assistant,
    System,
}

/// A request to run a named tool with JSON arguments.
#[derive(Debug, PartialEq)]
pub struct ToolCall {
    pub name: String,
    pub arguments: serde_json::Value,
}

/// Why a tool call sent by the backend could not be understood.
#[derive(Clone, Debug, PartialEq, Eq)]
pub struct ToolCallError {
    pub message: String,
}

/// Why running a tool failed.
#[derive(Clone, Debug, PartialEq, Eq)]
pub struct ToolError {
    pub message: String,
}

/// A piece of prose.
#[derive(Clone, Debug, PartialEq, Eq)]
pub struct Text {
    pub text: String,
}

/// The backend asks for a tool to be run.
#[derive(Debug, PartialEq)]
pub struct ToolRequest {
    pub id: String,
    pub call: Result<ToolCall, ToolCallError>,
}

/// The outcome of running a tool. It carries no tool name of its own.
#[derive(Debug, PartialEq)]
pub struct ToolResponse {
    pub id: String,
    pub result: Result<serde_json::Value, ToolError>,
}

/// An image, base64-encoded.
#[derive(Clone, Debug, PartialEq, Eq)]
pub struct Image {
    pub data: String,
    pub mime_type: String,
}

/// One block of a message.
#[derive(Debug, PartialEq)]
pub enum ContentBlock {
    Text(Text),
    ToolRequest(ToolRequest),
    ToolResponse(ToolResponse),
    Image(Image),
}

/// One entry of a transcript.
#[derive(Debug, PartialEq)]
pub struct Message {
    pub role: Role,
    pub content: Vec<ContentBlock>,
}

/// The view of a [`ToolCall`]: its name as text; its arguments as they are.
pub struct ToolCallView {
    pub name: Seq<char>,
    pub arguments: serde_json::Value,
}

/// The view of a [`ToolRequest`].
pub struct ToolRequestView {
    pub id: Seq<char>,
    pub call: Result<ToolCallView, Seq<char>>,
}

/// The view of a [`ToolResponse`].
pub struct ToolResponseView {
    pub id: Seq<char>,
    pub result: Result<serde_json::Value, Seq<char>>,
}

/// The view of an [`Image`].
pub struct ImageView {
    pub data: Seq<char>,
    pub mime_type: Seq<char>,
}

/// The view of a [`ContentBlock`].
pub enum ContentBlockView {
    Text(Seq<char>),
    ToolRequest(ToolRequestView),
    ToolResponse(ToolResponseView),
    Image(ImageView),
}

/// The view of a [`Message`].
pub struct MessageView {
    pub role: Role,
    pub content: Seq<ContentBlockView>,
}

impl View for ToolCall {
    type V = ToolCallView;

    open spec fn view(&self) -> ToolCallView {
        ToolCallView { name: self.name@, arguments: self.arguments }
    }
}

impl View for ToolCallError {
    type V = Seq<char>;

    open spec fn view(&self) -> Seq<char> {
        self.message@
    }
}

impl View for ToolError {
    type V = Seq<char>;

    open spec fn view(&self) -> Seq<char> {
        self.message@
    }
}

impl View for Text {
    type V = Seq<char>;

    open spec fn view(&self) -> Seq<char> {
        self.text@
    }
}

impl View for ToolRequest {
    type V = ToolRequestView;

    open spec fn view(&self) -> ToolRequestView {
        ToolRequestView {
            id: self.id@,
            call: match self.call {
                Ok(call) => Ok(call@),
                Err(error) => Err(error@),
            },
        }
    }
}

impl View for ToolResponse {
    type V = ToolResponseView;

    open spec fn view(&self) -> ToolResponseView {
        ToolResponseView {
            id: self.id@,
            result: match self.result {
                Ok(value) => Ok(value),
                Err(error) => Err(error@),
            },
        }
    }
}

impl View for Image {
    type V = ImageView;

    open spec fn view(&self) -> ImageView {
        ImageView { data: self.data@, mime_type: self.mime_type@ }
    }
}

impl View for ContentBlock {
    type V = ContentBlockView;

    open spec fn view(&self) -> ContentBlockView {
        match self {
            ContentBlock::Text(text) => ContentBlockView::Text(text@),
            ContentBlock::ToolRequest(request) => ContentBlockView::ToolRequest(request@),
            ContentBlock::ToolResponse(response) => ContentBlockView::ToolResponse(response@),
            ContentBlock::Image(image) => ContentBlockView::Image(image@),
        }
    }
}

impl View for Message {
    type V = MessageView;

    open spec fn view(&self) -> MessageView {
        MessageView { role: self.role, content: views(self.content@) }
    }
}

/// The views of the elements of `items`, in the same order.
pub open spec fn views<T: View>(items: Seq<T>) -> Seq<T::V> {
    items.map_values(|item: T| item@)
}

/// Appending an element appends its view.
pub proof fn lemma_views_push<T: View>(items: Seq<T>, item: T)
    ensures
        views(items.push(item)) == views(items).push(item@),
{
    assert(views(items.push(item)) =~= views(items).push(item@));
}

/// The message a user's line of text becomes: one text block, role `User`.
pub open spec fn user_message(text: Seq<char>) -> MessageView {
    MessageView { role: Role::User, content: seq![ContentBlockView::Text(text)] }
}

impl Message {
    /// A user message holding `text` as its only block.
    pub fn user(text: &str) -> (message: Message)
        ensures
            message@ == user_message(text@),
    {
        let block = ContentBlock::Text(Text { text: String::from_str(text) });
        let message = Message { role: Role::User, content: vec![block] };
        assert(message@.content =~= seq![ContentBlockView::Text(text@)]);
        message
    }
}

} // verus!
