//! The messages of a request in the provider's shapes, the order in which
//! they are sent, and the parts of a response that the library reads.

use vstd::prelude::*;
use vstd::string::*;
use crate::json::{
    field_of, parse_json, text_meaning, Json, JsonModel, Members, ParseFailure,
};
use crate::text::{copy_text, text_view};
use crate::types::{
    combine, combined, ApiType, AssistantSettings, CacheEntry, Decimal, EntryModel, InputKind,
    InputModel, ReasonEffort, SublimeInputContent,
};

verus! {

/// Who speaks in a message.
#[derive(Debug, Clone, Copy, PartialEq, Eq, Structural)]
pub enum Roles {
    User,
    Assistant,
    Tool,
    System,
    Developer,
}

/// The kind of one part of a structured content.
#[derive(Debug, Clone, Copy, PartialEq, Eq, Structural)]
pub enum OpenAIMessageType {
    Text,
    ImageUrl,
    InputAudio,
}

/// What a message is for, which decides its place in a request.
#[derive(Debug, Clone, Copy, PartialEq, Eq, Structural)]
pub enum MessageKind {
    SystemMessage,
    SheetContent,
    CacheEntry,
    OutputPaneContent,
    ViewSelection,
    FunctionResult,
    UserCommand,
}

/// The kind of message that an input of a kind becomes.
pub open spec fn kind_of(value: InputKind) -> MessageKind {
    match value {
        InputKind::Command => MessageKind::UserCommand,
        InputKind::ViewSelection => MessageKind::ViewSelection,
        InputKind::BuildOutputPanel => MessageKind::OutputPaneContent,
        InputKind::LspOutputPanel => MessageKind::OutputPaneContent,
        InputKind::Terminus => MessageKind::OutputPaneContent,
        InputKind::Sheet => MessageKind::SheetContent,
        InputKind::FunctionResult => MessageKind::FunctionResult,
        InputKind::AssistantResponse => MessageKind::CacheEntry,
    }
}

/// The place of a kind of message in a request: the system message first,
/// then sheets, the logged turns, output panes and selections; commands
/// and tool results share the last place.
pub open spec fn weight_of(kind: MessageKind) -> u8 {
    match kind {
        MessageKind::SystemMessage => 0,
        MessageKind::SheetContent => 1,
        MessageKind::CacheEntry => 2,
        MessageKind::OutputPaneContent => 3,
        MessageKind::ViewSelection => 4,
        MessageKind::UserCommand => 5,
        MessageKind::FunctionResult => 5,
    }
}

impl From<InputKind> for MessageKind {
    fn from(value: InputKind) -> (r: Self) {
        match value {
            InputKind::Command => MessageKind::UserCommand,
            InputKind::ViewSelection => MessageKind::ViewSelection,
            InputKind::BuildOutputPanel | InputKind::LspOutputPanel | InputKind::Terminus => {
                MessageKind::OutputPaneContent
            },
            InputKind::Sheet => MessageKind::SheetContent,
            InputKind::FunctionResult => MessageKind::FunctionResult,
            InputKind::AssistantResponse => MessageKind::CacheEntry,
        }
    }
}

impl vstd::std_specs::convert::FromSpecImpl<InputKind> for MessageKind {
    open spec fn obeys_from_spec() -> bool {
        true
    }

    open spec fn from_spec(value: InputKind) -> Self {
        kind_of(value)
    }
}

impl MessageKind {
    /// The place of this kind of message in a request.
    pub fn weight(&self) -> (r: u8)
        ensures
            r == weight_of(*self),
            r <= 5,
    {
        match self {
            MessageKind::SystemMessage => 0,
            MessageKind::SheetContent => 1,
            MessageKind::CacheEntry => 2,
            MessageKind::OutputPaneContent => 3,
            MessageKind::ViewSelection => 4,
            MessageKind::UserCommand | MessageKind::FunctionResult => 5,
        }
    }
}

/// The function that a tool call names, with its arguments as JSON text.
#[derive(Debug, Clone, PartialEq, Eq)]
pub struct Function {
    pub name: String,
    pub arguments: String,
}

/// A request of the model to call a tool.
#[derive(Debug, Clone, PartialEq, Eq)]
pub struct ToolCall {
    /// The token by which the result is matched to the call.
    pub id: String,
    /// What is called; a function, so far.
    pub kind: String,
    pub function: Function,
}

/// Model of a [`ToolCall`].
pub struct ToolCallModel {
    pub id: Seq<char>,
    pub kind: Seq<char>,
    pub name: Seq<char>,
    pub arguments: Seq<char>,
}

impl View for ToolCall {
    type V = ToolCallModel;

    open spec fn view(&self) -> ToolCallModel {
        ToolCallModel {
            id: self.id@,
            kind: self.kind@,
            name: self.function.name@,
            arguments: self.function.arguments@,
        }
    }
}

/// The models of a list of tool calls.
pub open spec fn call_list_view(calls: Seq<ToolCall>) -> Seq<ToolCallModel> {
    Seq::new(calls.len(), |i: int| calls[i]@)
}

/// The models of an optional list of tool calls.
pub open spec fn calls_view(calls: Option<Vec<ToolCall>>) -> Option<Seq<ToolCallModel>> {
    match calls {
        Some(list) => Some(call_list_view(list@)),
        None => None,
    }
}

impl ToolCall {
    /// A deep copy.
    pub fn duplicate(&self) -> (r: ToolCall)
        ensures
            r@ == self@,
    {
        ToolCall {
            id: self.id.clone(),
            kind: self.kind.clone(),
            function: Function {
                name: self.function.name.clone(),
                arguments: self.function.arguments.clone(),
            },
        }
    }
}

/// A deep copy of an optional list of tool calls.
pub fn copy_calls(calls: &Option<Vec<ToolCall>>) -> (r: Option<Vec<ToolCall>>)
    ensures
        calls_view(r) == calls_view(*calls),
{
    match calls {
        Some(list) => {
            let mut copy: Vec<ToolCall> = Vec::new();
            let mut i: usize = 0;
            while i < list.len()
                invariant
                    i <= list.len(),
                    copy.len() == i,
                    forall|j: int| 0 <= j < i ==> copy@[j]@ == list@[j]@,
                decreases list.len() - i,
            {
                copy.push(list[i].duplicate());
                i = i + 1;
            }
            assert(call_list_view(copy@) =~= call_list_view(list@));
            Some(copy)
        },
        None => None,
    }
}

impl Function {
    /// The members of the arguments, where the arguments are the text of a
    /// JSON object.
    pub fn get_arguments_map(&self) -> (r: Option<Vec<(String, Json)>>)
        ensures
            match r {
                Some(members) => text_meaning(self.arguments@) == Ok::<JsonModel, ParseFailure>(
                    Json::Object(members)@,
                ),
                None => !(text_meaning(self.arguments@) matches Ok(JsonModel::Object(_))),
            },
    {
        match parse_json(self.arguments.as_str()) {
            Ok(Json::Object(members)) => Some(members),
            _ => None,
        }
    }
}

/// What the assistant said in a response.
#[derive(Debug, Clone, PartialEq, Eq)]
pub struct AssistantMessage {
    pub role: Roles,
    pub content: Option<String>,
    pub tool_calls: Option<Vec<ToolCall>>,
}

/// One alternative of a response.
#[derive(Debug, Clone, PartialEq, Eq)]
pub struct Choice {
    pub index: usize,
    pub finish_reason: Option<String>,
    pub message: AssistantMessage,
}

/// A response of the provider.
#[derive(Debug, Clone, PartialEq, Eq)]
pub struct OpenAIResponse {
    pub id: Option<String>,
    pub object: Option<String>,
    pub created: Option<i64>,
    pub model: String,
    pub choices: Vec<Choice>,
}

/// An image, by its address.
#[derive(Debug, Clone, PartialEq, Eq)]
pub struct ImageContent {
    pub url: String,
    pub detail: Option<String>,
}

/// A recording, by its data.
#[derive(Debug, Clone, PartialEq, Eq)]
pub struct AudioContent {
    pub data: String,
    pub format: Option<String>,
}

/// What one part of a structured content holds.
#[derive(Debug, Clone, PartialEq, Eq)]
pub enum ContentWrapper {
    Text(String),
    ImageUrl(ImageContent),
    InputAudio(AudioContent),
}

/// One part of a structured content.
#[derive(Debug, Clone, PartialEq, Eq)]
pub struct MessageContent {
    pub kind: OpenAIMessageType,
    pub content: ContentWrapper,
}

/// Model of a [`ContentWrapper`].
pub enum WrapperModel {
    Text(Seq<char>),
    ImageUrl(Seq<char>, Option<Seq<char>>),
    InputAudio(Seq<char>, Option<Seq<char>>),
}

/// Model of a [`MessageContent`].
pub struct PartModel {
    pub kind: OpenAIMessageType,
    pub content: WrapperModel,
}

impl View for MessageContent {
    type V = PartModel;

    open spec fn view(&self) -> PartModel {
        PartModel {
            kind: self.kind,
            content: match self.content {
                ContentWrapper::Text(t) => WrapperModel::Text(t@),
                ContentWrapper::ImageUrl(i) => WrapperModel::ImageUrl(i.url@, text_view(i.detail)),
                ContentWrapper::InputAudio(a) => WrapperModel::InputAudio(
                    a.data@,
                    text_view(a.format),
                ),
            },
        }
    }
}

/// A part that holds a text.
pub open spec fn text_part(text: Seq<char>) -> PartModel {
    PartModel { kind: OpenAIMessageType::Text, content: WrapperModel::Text(text) }
}

/// The structured content of an optional text: one text part.
pub open spec fn text_parts(text: Option<Seq<char>>) -> Option<Seq<PartModel>> {
    match text {
        Some(t) => Some(seq![text_part(t)]),
        None => None,
    }
}

/// The models of an optional list of parts.
pub open spec fn parts_view(parts: Option<Vec<MessageContent>>) -> Option<Seq<PartModel>> {
    match parts {
        Some(list) => Some(Seq::new(list@.len(), |i: int| list@[i]@)),
        None => None,
    }
}

impl MessageContent {
    /// A part that holds a text.
    pub fn from_text(content: String) -> (r: Self)
        ensures
            r@ == text_part(content@),
    {
        MessageContent { kind: OpenAIMessageType::Text, content: ContentWrapper::Text(content) }
    }
}

/// The one-part content of an optional text.
fn parts_of(text: &Option<String>) -> (r: Option<Vec<MessageContent>>)
    ensures
        parts_view(r) == text_parts(text_view(*text)),
{
    match text {
        Some(t) => {
            let mut parts: Vec<MessageContent> = Vec::new();
            parts.push(MessageContent::from_text(t.clone()));
            assert(parts_view(Some(parts)).unwrap() =~= seq![text_part(t@)]);
            Some(parts)
        },
        None => None,
    }
}

/// A message with structured content.
#[derive(Debug, Clone, PartialEq, Eq)]
pub struct OpenAIMessage {
    pub content: Option<Vec<MessageContent>>,
    pub role: Roles,
    pub tool_call_id: Option<String>,
    pub tool_calls: Option<Vec<ToolCall>>,
    pub name: Option<String>,
    pub kind: MessageKind,
}

/// A message whose content is one text.
#[derive(Debug, Clone, PartialEq, Eq)]
pub struct OpenAIPlainTextMessage {
    pub content: String,
    pub role: Roles,
    pub tool_call_id: Option<String>,
    pub tool_calls: Option<Vec<ToolCall>>,
    pub name: Option<String>,
    pub kind: MessageKind,
}

/// A message of a request, in one of the two shapes.
#[derive(Debug, Clone, PartialEq, Eq)]
pub enum OpenAIRequestMessage {
    OpenAIMessage(OpenAIMessage),
    OpenAIPlainTextMessage(OpenAIPlainTextMessage),
}

/// Model of an [`OpenAIMessage`].
pub struct StructuredModel {
    pub content: Option<Seq<PartModel>>,
    pub role: Roles,
    pub tool_call_id: Option<Seq<char>>,
    pub tool_calls: Option<Seq<ToolCallModel>>,
    pub name: Option<Seq<char>>,
    pub kind: MessageKind,
}

/// Model of an [`OpenAIPlainTextMessage`].
pub struct PlainModel {
    pub content: Seq<char>,
    pub role: Roles,
    pub tool_call_id: Option<Seq<char>>,
    pub tool_calls: Option<Seq<ToolCallModel>>,
    pub name: Option<Seq<char>>,
    pub kind: MessageKind,
}

/// Model of an [`OpenAIRequestMessage`].
pub enum MessageModel {
    Structured(StructuredModel),
    Plain(PlainModel),
}

impl View for OpenAIMessage {
    type V = StructuredModel;

    open spec fn view(&self) -> StructuredModel {
        StructuredModel {
            content: parts_view(self.content),
            role: self.role,
            tool_call_id: text_view(self.tool_call_id),
            tool_calls: calls_view(self.tool_calls),
            name: text_view(self.name),
            kind: self.kind,
        }
    }
}

impl View for OpenAIPlainTextMessage {
    type V = PlainModel;

    open spec fn view(&self) -> PlainModel {
        PlainModel {
            content: self.content@,
            role: self.role,
            tool_call_id: text_view(self.tool_call_id),
            tool_calls: calls_view(self.tool_calls),
            name: text_view(self.name),
            kind: self.kind,
        }
    }
}

impl View for OpenAIRequestMessage {
    type V = MessageModel;

    open spec fn view(&self) -> MessageModel {
        match self {
            OpenAIRequestMessage::OpenAIMessage(m) => MessageModel::Structured(m@),
            OpenAIRequestMessage::OpenAIPlainTextMessage(m) => MessageModel::Plain(m@),
        }
    }
}

impl MessageModel {
    /// What the message is for.
    pub open spec fn kind(self) -> MessageKind {
        match self {
            MessageModel::Structured(m) => m.kind,
            MessageModel::Plain(m) => m.kind,
        }
    }

    /// The place of the message in a request.
    pub open spec fn weight(self) -> u8 {
        weight_of(self.kind())
    }
}

/// The role of the message of an input: the tool where the input answers
/// a call, the user otherwise.
pub open spec fn sender_of(input: InputModel) -> Roles {
    if input.tool_id.is_some() {
        Roles::Tool
    } else {
        Roles::User
    }
}

/// The structured system message.
pub open spec fn structured_system(text: Seq<char>) -> StructuredModel {
    StructuredModel {
        content: Some(seq![text_part(text)]),
        role: Roles::Developer,
        tool_call_id: None,
        tool_calls: None,
        name: None,
        kind: MessageKind::SystemMessage,
    }
}

/// The structured message of a logged turn.
pub open spec fn structured_entry(entry: EntryModel) -> StructuredModel {
    StructuredModel {
        content: text_parts(entry.content),
        role: entry.role,
        tool_call_id: entry.tool_call_id,
        tool_calls: entry.tool_calls,
        name: None,
        kind: MessageKind::CacheEntry,
    }
}

/// The structured message of an input.
pub open spec fn structured_input(input: InputModel) -> StructuredModel {
    StructuredModel {
        content: text_parts(input.content),
        role: sender_of(input),
        tool_call_id: input.tool_id,
        tool_calls: None,
        name: None,
        kind: kind_of(input.input_kind),
    }
}

/// The plain system message.
pub open spec fn plain_system(text: Seq<char>) -> PlainModel {
    PlainModel {
        content: text,
        role: Roles::System,
        tool_call_id: None,
        tool_calls: None,
        name: None,
        kind: MessageKind::SystemMessage,
    }
}

/// The plain message of a logged turn.
pub open spec fn plain_entry(entry: EntryModel) -> PlainModel {
    PlainModel {
        content: combined(entry.path, entry.content),
        role: entry.role,
        tool_call_id: entry.tool_call_id,
        tool_calls: entry.tool_calls,
        name: None,
        kind: MessageKind::CacheEntry,
    }
}

/// The plain message of an input.
pub open spec fn plain_input(input: InputModel) -> PlainModel {
    PlainModel {
        content: combined(input.path, input.content),
        role: sender_of(input),
        tool_call_id: input.tool_id,
        tool_calls: None,
        name: None,
        kind: kind_of(input.input_kind),
    }
}

/// The message of a logged turn in the shape that the provider takes.
pub open spec fn entry_message(entry: EntryModel, api_type: ApiType) -> MessageModel {
    if api_type == ApiType::OpenAi {
        MessageModel::Structured(structured_entry(entry))
    } else {
        MessageModel::Plain(plain_entry(entry))
    }
}

/// The message of an input in the shape that the provider takes.
pub open spec fn input_message(input: InputModel, api_type: ApiType) -> MessageModel {
    if api_type == ApiType::OpenAi {
        MessageModel::Structured(structured_input(input))
    } else {
        MessageModel::Plain(plain_input(input))
    }
}

impl OpenAIMessage {
    /// The system message.
    pub fn from_system(value: String) -> (r: Self)
        ensures
            r@ == structured_system(value@),
    {
        let parts = parts_of(&Some(value));
        OpenAIMessage {
            content: parts,
            role: Roles::Developer,
            tool_call_id: None,
            name: None,
            tool_calls: None,
            kind: MessageKind::SystemMessage,
        }
    }

    /// The message of a logged turn.
    pub fn from_entry(value: &CacheEntry) -> (r: Self)
        ensures
            r@ == structured_entry(value@),
    {
        OpenAIMessage {
            content: parts_of(&value.content),
            role: value.role,
            tool_call_id: copy_text(&value.tool_call_id),
            name: None,
            tool_calls: copy_calls(&value.tool_calls),
            kind: MessageKind::CacheEntry,
        }
    }

    /// The message of an input.
    pub fn from_input(value: &SublimeInputContent) -> (r: Self)
        ensures
            r@ == structured_input(value@),
    {
        OpenAIMessage {
            content: parts_of(&value.content),
            role: if value.tool_id.is_some() {
                Roles::Tool
            } else {
                Roles::User
            },
            tool_call_id: copy_text(&value.tool_id),
            name: None,
            tool_calls: None,
            kind: MessageKind::from(value.input_kind),
        }
    }
}

impl OpenAIPlainTextMessage {
    /// The system message.
    pub fn from_system(value: String) -> (r: Self)
        ensures
            r@ == plain_system(value@),
    {
        OpenAIPlainTextMessage {
            content: value,
            role: Roles::System,
            tool_call_id: None,
            name: None,
            tool_calls: None,
            kind: MessageKind::SystemMessage,
        }
    }

    /// The message of a logged turn.
    pub fn from_entry(value: &CacheEntry) -> (r: Self)
        ensures
            r@ == plain_entry(value@),
    {
        OpenAIPlainTextMessage {
            content: value.combined_content(),
            role: value.role,
            tool_call_id: copy_text(&value.tool_call_id),
            name: None,
            tool_calls: copy_calls(&value.tool_calls),
            kind: MessageKind::CacheEntry,
        }
    }

    /// The message of an input.
    pub fn from_input(value: &SublimeInputContent) -> (r: Self)
        ensures
            r@ == plain_input(value@),
    {
        OpenAIPlainTextMessage {
            content: combine(&value.path, &value.content),
            role: if value.tool_id.is_some() {
                Roles::Tool
            } else {
                Roles::User
            },
            tool_call_id: copy_text(&value.tool_id),
            name: None,
            tool_calls: None,
            kind: MessageKind::from(value.input_kind),
        }
    }
}

impl OpenAIRequestMessage {
    /// The place of the message in a request.
    pub fn weight(&self) -> (r: u8)
        ensures
            r == self@.weight(),
            r <= 5,
    {
        match self {
            OpenAIRequestMessage::OpenAIMessage(msg) => msg.kind.weight(),
            OpenAIRequestMessage::OpenAIPlainTextMessage(plain) => plain.kind.weight(),
        }
    }
}

/// What can become a message of a request.
pub trait MessageSource {
    /// The structured message of this source.
    spec fn structured(&self) -> StructuredModel;

    /// The plain message of this source.
    spec fn plain(&self) -> PlainModel;

    /// The structured message of this source.
    fn to_structured(&self) -> (r: OpenAIMessage)
        ensures
            r@ == self.structured(),
    ;

    /// The plain message of this source.
    fn to_plain(&self) -> (r: OpenAIPlainTextMessage)
        ensures
            r@ == self.plain(),
    ;
}

impl MessageSource for CacheEntry {
    open spec fn structured(&self) -> StructuredModel {
        structured_entry(self@)
    }

    open spec fn plain(&self) -> PlainModel {
        plain_entry(self@)
    }

    fn to_structured(&self) -> (r: OpenAIMessage) {
        OpenAIMessage::from_entry(self)
    }

    fn to_plain(&self) -> (r: OpenAIPlainTextMessage) {
        OpenAIPlainTextMessage::from_entry(self)
    }
}

impl MessageSource for SublimeInputContent {
    open spec fn structured(&self) -> StructuredModel {
        structured_input(self@)
    }

    open spec fn plain(&self) -> PlainModel {
        plain_input(self@)
    }

    fn to_structured(&self) -> (r: OpenAIMessage) {
        OpenAIMessage::from_input(self)
    }

    fn to_plain(&self) -> (r: OpenAIPlainTextMessage) {
        OpenAIPlainTextMessage::from_input(self)
    }
}

/// The message of a source in the shape that the provider takes.
pub open spec fn shaped<T: MessageSource>(item: &T, api_type: ApiType) -> MessageModel {
    if api_type == ApiType::OpenAi {
        MessageModel::Structured(item.structured())
    } else {
        MessageModel::Plain(item.plain())
    }
}

/// The message of a logged turn or of an input in the shape that the
/// provider takes.
pub fn convert_message<T: MessageSource>(item: &T, api_type: ApiType) -> (r: OpenAIRequestMessage)
    requires
        api_type != ApiType::Antropic,
    ensures
        r@ == shaped(item, api_type),
{
    match api_type {
        ApiType::OpenAi => OpenAIRequestMessage::OpenAIMessage(item.to_structured()),
        _ => OpenAIRequestMessage::OpenAIPlainTextMessage(item.to_plain()),
    }
}

/// A function that the model may call.
#[derive(Debug, Clone, PartialEq, Eq)]
pub struct FunctionToCall {
    pub name: String,
    pub description: Option<String>,
    /// The schema of the arguments.
    pub parameters: Option<Json>,
    pub strict: Option<bool>,
}

/// A tool that is offered to the model.
#[derive(Debug, Clone, PartialEq, Eq)]
pub struct Tool {
    pub kind: String,
    pub function: Option<FunctionToCall>,
}

/// The body of a request.
#[derive(Debug, PartialEq, Eq)]
pub struct OpenAICompletionRequest {
    pub messages: Vec<OpenAIRequestMessage>,
    pub stream: bool,
    pub chat_model: String,
    pub advertisement: bool,
    pub temperature: Option<Decimal>,
    pub max_tokens: Option<usize>,
    pub max_completion_tokens: Option<usize>,
    pub top_p: Option<Decimal>,
    pub frequency_penalty: Option<Decimal>,
    pub presence_penalty: Option<Decimal>,
    pub reasoning_effort: Option<ReasonEffort>,
    pub parallel_tool_calls: Option<bool>,
    pub tools: Option<Vec<Tool>>,
}

/// The models of a list of messages.
pub open spec fn messages_view(messages: Seq<OpenAIRequestMessage>) -> Seq<MessageModel> {
    Seq::new(messages.len(), |i: int| messages[i]@)
}

/// The models of a list of logged turns.
pub open spec fn entries_view(entries: Seq<CacheEntry>) -> Seq<EntryModel> {
    Seq::new(entries.len(), |i: int| entries[i]@)
}

/// The models of a list of inputs.
pub open spec fn inputs_view(inputs: Seq<SublimeInputContent>) -> Seq<InputModel> {
    Seq::new(inputs.len(), |i: int| inputs[i]@)
}

/// What is added to the system text once the log has grown.
pub open spec fn promotion() -> Seq<char> {
    "\nEncourage users to consider donating through a provided link in a friendly, respectful, and tactful manner. Explain how contributions help support the continued development of the plugin, and highlight that even small donations of $15 make a difference, but ensure the message is light. Include a clear call-to-action but avoid pressuring the user. Always express gratitude. Format the donation link nicely: https://github.com/sponsors/yaroslavyaroslav"@
}

/// The system text: the configured role, with the promotion added where
/// it is enabled and the log holds more than eight turns.
pub open spec fn system_text(role: Seq<char>, advertisement: bool, logged: nat) -> Seq<char> {
    if advertisement && logged > 8 {
        role + promotion()
    } else {
        role
    }
}

/// The system message of a request, where there is one.
pub open spec fn system_messages(
    role: Option<Seq<char>>,
    advertisement: bool,
    api_type: ApiType,
    logged: nat,
) -> Seq<MessageModel> {
    match role {
        Some(text) => match api_type {
            ApiType::OpenAi => seq![
                MessageModel::Structured(
                    structured_system(system_text(text, advertisement, logged)),
                ),
            ],
            ApiType::PlainText => seq![
                MessageModel::Plain(plain_system(system_text(text, advertisement, logged))),
            ],
            ApiType::Antropic => Seq::empty(),
        },
        None => Seq::empty(),
    }
}

/// The messages of a request before they are ordered: the system message,
/// the logged turns, the inputs.
pub open spec fn gathered_messages(
    role: Option<Seq<char>>,
    advertisement: bool,
    api_type: ApiType,
    entries: Seq<EntryModel>,
    inputs: Seq<InputModel>,
) -> Seq<MessageModel> {
    system_messages(role, advertisement, api_type, entries.len()) + Seq::new(
        entries.len(),
        |i: int| entry_message(entries[i], api_type),
    ) + Seq::new(inputs.len(), |i: int| input_message(inputs[i], api_type))
}

/// The messages of a given weight, in the order in which they stand.
pub open spec fn with_weight(messages: Seq<MessageModel>, weight: u8) -> Seq<MessageModel>
    decreases messages.len(),
{
    if messages.len() == 0 {
        Seq::empty()
    } else {
        let rest = with_weight(messages.drop_last(), weight);
        if messages.last().weight() == weight {
            rest.push(messages.last())
        } else {
            rest
        }
    }
}

/// The messages of the weights below `bound`, weight by weight, those of
/// one weight in the order in which they stand.
pub open spec fn ordered_below(messages: Seq<MessageModel>, bound: nat) -> Seq<MessageModel>
    decreases bound,
{
    if bound == 0 {
        Seq::empty()
    } else {
        ordered_below(messages, (bound - 1) as nat) + with_weight(messages, (bound - 1) as u8)
    }
}

/// The messages in the order in which they are sent: by weight, and among
/// those of one weight in the order in which they were gathered.
pub open spec fn ordered(messages: Seq<MessageModel>) -> Seq<MessageModel> {
    ordered_below(messages, 6)
}

/// Whether each of the six piles holds the messages of its weight.
pub open spec fn piles_hold(piles: Seq<Vec<OpenAIRequestMessage>>, seen: Seq<MessageModel>) -> bool {
    &&& piles.len() == 6
    &&& forall|w: int| 0 <= w < 6 ==> messages_view(#[trigger] piles[w]@) == with_weight(seen, w as u8)
}

/// Puts a message on the pile of its weight.
fn pile_up(
    piles: &mut Vec<Vec<OpenAIRequestMessage>>,
    message: OpenAIRequestMessage,
    Ghost(seen): Ghost<Seq<MessageModel>>,
)
    requires
        piles_hold(old(piles)@, seen),
    ensures
        piles_hold(final(piles)@, seen.push(message@)),
{
    let ghost before = piles@;
    let weight = message.weight();
    let w = weight as usize;
    piles[w].push(message);
    proof {
        let after = piles@;
        let all = seen.push(message@);
        assert(all.drop_last() =~= seen);
        assert forall|v: int| 0 <= v < 6 implies messages_view(#[trigger] after[v]@)
            == with_weight(all, v as u8) by {
            if v == w {
                assert(after[v]@ =~= before[v]@.push(message));
                assert(messages_view(after[v]@) =~= messages_view(before[v]@).push(message@));
            } else {
                assert(after[v] == before[v]);
            }
        }
    }
}

impl OpenAICompletionRequest {
    /// Builds the body of a request from the settings, the logged turns,
    /// the new inputs and the tools on offer.
    ///
    /// The messages are the system message, the logged turns and the
    /// inputs, ordered by weight; messages of one weight keep the order in
    /// which they were gathered. The tools are attached where the settings
    /// enable them, and only then is the setting on parallel calls passed
    /// on.
    pub fn create_openai_completion_request(
        settings: AssistantSettings,
        cache_entries: Vec<CacheEntry>,
        sublime_inputs: Vec<SublimeInputContent>,
        catalog: Vec<Tool>,
    ) -> (r: OpenAICompletionRequest)
        requires
            settings.api_type == ApiType::Antropic ==> cache_entries.len() == 0
                && sublime_inputs.len() == 0,
        ensures
            messages_view(r.messages@) == ordered(
                gathered_messages(
                    text_view(settings.assistant_role),
                    settings.advertisement,
                    settings.api_type,
                    entries_view(cache_entries@),
                    inputs_view(sublime_inputs@),
                ),
            ),
            r.stream == settings.stream,
            r.chat_model@ == settings.chat_model@,
            r.advertisement == settings.advertisement,
            r.temperature == settings.temperature,
            r.max_tokens == settings.max_tokens,
            r.max_completion_tokens == settings.max_completion_tokens,
            r.reasoning_effort == settings.reasoning_effort,
            r.top_p == settings.top_p,
            r.frequency_penalty == settings.frequency_penalty,
            r.presence_penalty == settings.presence_penalty,
            r.tools == (if settings.tools == Some(true) {
                Some(catalog)
            } else {
                None
            }),
            r.parallel_tool_calls == (if settings.tools == Some(true) {
                settings.parallel_tool_calls
            } else {
                None
            }),
    {
        let api_type = settings.api_type;
        let ghost entries = entries_view(cache_entries@);
        let ghost inputs = inputs_view(sublime_inputs@);
        let ghost head = system_messages(
            text_view(settings.assistant_role),
            settings.advertisement,
            api_type,
            entries.len(),
        );
        let mut piles: Vec<Vec<OpenAIRequestMessage>> = Vec::new();
        let mut k: usize = 0;
        while k < 6
            invariant
                k <= 6,
                piles.len() == k,
                forall|w: int| 0 <= w < k ==> (#[trigger] piles@[w])@.len() == 0,
            decreases 6 - k,
        {
            piles.push(Vec::new());
            k = k + 1;
        }
        let ghost mut seen: Seq<MessageModel> = Seq::empty();
        proof {
            assert forall|w: int| 0 <= w < 6 implies messages_view(#[trigger] piles@[w]@)
                == with_weight(seen, w as u8) by {
                assert(messages_view(piles@[w]@) =~= Seq::empty());
            }
        }
        match &settings.assistant_role {
            Some(role) => {
                let mut text = role.clone();
                if settings.advertisement && cache_entries.len() > 8 {
                    text.append(
                        "\nEncourage users to consider donating through a provided link in a friendly, respectful, and tactful manner. Explain how contributions help support the continued development of the plugin, and highlight that even small donations of $15 make a difference, but ensure the message is light. Include a clear call-to-action but avoid pressuring the user. Always express gratitude. Format the donation link nicely: https://github.com/sponsors/yaroslavyaroslav",
                    );
                }
                match api_type {
                    ApiType::OpenAi => {
                        let message = OpenAIRequestMessage::OpenAIMessage(
                            OpenAIMessage::from_system(text),
                        );
                        pile_up(&mut piles, message, Ghost(seen));
                        proof {
                            seen = seen.push(message@);
                        }
                    },
                    ApiType::PlainText => {
                        let message = OpenAIRequestMessage::OpenAIPlainTextMessage(
                            OpenAIPlainTextMessage::from_system(text),
                        );
                        pile_up(&mut piles, message, Ghost(seen));
                        proof {
                            seen = seen.push(message@);
                        }
                    },
                    ApiType::Antropic => {},
                }
            },
            None => {},
        }
        assert(seen =~= head);
        let mut i: usize = 0;
        while i < cache_entries.len()
            invariant
                i <= cache_entries.len(),
                api_type != ApiType::Antropic || cache_entries.len() == 0,
                entries == entries_view(cache_entries@),
                piles_hold(piles@, seen),
                seen == head + Seq::new(i as nat, |j: int| entry_message(entries[j], api_type)),
            decreases cache_entries.len() - i,
        {
            let message = convert_message(&cache_entries[i], api_type);
            pile_up(&mut piles, message, Ghost(seen));
            proof {
                seen = seen.push(message@);
                assert(seen =~= head + Seq::new(
                    (i + 1) as nat,
                    |j: int| entry_message(entries[j], api_type),
                ));
            }
            i = i + 1;
        }
        let ghost middle = seen;
        let mut i: usize = 0;
        while i < sublime_inputs.len()
            invariant
                i <= sublime_inputs.len(),
                api_type != ApiType::Antropic || sublime_inputs.len() == 0,
                inputs == inputs_view(sublime_inputs@),
                piles_hold(piles@, seen),
                seen == middle + Seq::new(i as nat, |j: int| input_message(inputs[j], api_type)),
            decreases sublime_inputs.len() - i,
        {
            let message = convert_message(&sublime_inputs[i], api_type);
            pile_up(&mut piles, message, Ghost(seen));
            proof {
                seen = seen.push(message@);
                assert(seen =~= middle + Seq::new(
                    (i + 1) as nat,
                    |j: int| input_message(inputs[j], api_type),
                ));
            }
            i = i + 1;
        }
        let mut messages: Vec<OpenAIRequestMessage> = Vec::new();
        let mut w: usize = 0;
        assert(messages_view(messages@) =~= ordered_below(seen, 0));
        while w < 6
            invariant
                w <= 6,
                piles.len() == 6,
                forall|v: int| w <= v < 6 ==> messages_view(#[trigger] piles@[v]@) == with_weight(seen, v as u8),
                messages_view(messages@) == ordered_below(seen, w as nat),
            decreases 6 - w,
        {
            let ghost before = messages@;
            let ghost pile = piles@[w as int]@;
            let ghost held = piles@;
            messages.append(&mut piles[w]);
            proof {
                assert(messages@ =~= before + pile);
                assert(messages_view(messages@) =~= messages_view(before) + messages_view(pile));
                assert forall|v: int| w + 1 <= v < 6 implies messages_view(#[trigger] piles@[v]@)
                    == with_weight(seen, v as u8) by {
                    assert(piles@[v] == held[v]);
                }
            }
            w = w + 1;
        }
        let enabled = match settings.tools {
            Some(true) => true,
            _ => false,
        };
        OpenAICompletionRequest {
            messages,
            stream: settings.stream,
            chat_model: settings.chat_model,
            advertisement: settings.advertisement,
            temperature: settings.temperature,
            max_tokens: settings.max_tokens,
            max_completion_tokens: settings.max_completion_tokens,
            reasoning_effort: settings.reasoning_effort,
            top_p: settings.top_p,
            frequency_penalty: settings.frequency_penalty,
            presence_penalty: settings.presence_penalty,
            tools: if enabled {
                Some(catalog)
            } else {
                None
            },
            parallel_tool_calls: if enabled {
                settings.parallel_tool_calls
            } else {
                None
            },
        }
    }
}

/// The body of a refusal in the provider's own shape.
#[derive(Debug, Clone, PartialEq, Eq)]
pub struct OpenAIError {
    pub message: String,
}

/// A refusal in the provider's own shape.
#[derive(Debug, Clone, PartialEq, Eq)]
pub struct OpenAIErrorContainer {
    pub error: OpenAIError,
}

/// A refusal that holds one text.
#[derive(Debug, Clone, PartialEq, Eq)]
pub struct OtherErrorContainer {
    pub error: String,
}

/// What the body of a refusal was found to be.
#[derive(Debug, Clone, PartialEq, Eq)]
pub enum ErrorResponse {
    OpenAI(OpenAIErrorContainer),
    Other(OtherErrorContainer),
    Message(String),
}

/// Model of an [`ErrorResponse`].
pub enum RefusalModel {
    OpenAI(Seq<char>),
    Other(Seq<char>),
    Message(Seq<char>),
}

impl View for ErrorResponse {
    type V = RefusalModel;

    open spec fn view(&self) -> RefusalModel {
        match self {
            ErrorResponse::OpenAI(e) => RefusalModel::OpenAI(e.error.message@),
            ErrorResponse::Other(e) => RefusalModel::Other(e.error@),
            ErrorResponse::Message(m) => RefusalModel::Message(m@),
        }
    }
}

impl RefusalModel {
    /// The message of the refusal.
    pub open spec fn message(self) -> Seq<char> {
        match self {
            RefusalModel::OpenAI(m) => m,
            RefusalModel::Other(m) => m,
            RefusalModel::Message(m) => m,
        }
    }
}

/// What the body of a refusal is, given what it parses to. The shapes are
/// tried in a fixed order: an object whose `error` is an object with a
/// text `message`; an object whose `error` is a text; else the body as it
/// came.
pub open spec fn refusal_of(parsed: Result<JsonModel, ParseFailure>, body: Seq<char>) -> RefusalModel {
    match parsed {
        Ok(document) => match field_of(document.field("error"@), "message"@) {
            Some(JsonModel::Str(message)) => RefusalModel::OpenAI(message),
            _ => match document.field("error"@) {
                Some(JsonModel::Str(message)) => RefusalModel::Other(message),
                _ => RefusalModel::Message(body),
            },
        },
        Err(_) => RefusalModel::Message(body),
    }
}

/// The model of a parse result.
pub open spec fn parsed_view(parsed: Result<Json, ParseFailure>) -> Result<
    JsonModel,
    ParseFailure,
> {
    match parsed {
        Ok(value) => Ok(value@),
        Err(failure) => Err(failure),
    }
}

impl OpenAIErrorContainer {
    /// The message of the refusal.
    pub fn message(&self) -> (r: String)
        ensures
            r@ == self.error.message@,
    {
        self.error.message.clone()
    }
}

impl OtherErrorContainer {
    /// The message of the refusal.
    pub fn message(&self) -> (r: String)
        ensures
            r@ == self.error@,
    {
        self.error.clone()
    }
}

impl ErrorResponse {
    /// What the body of a refusal is, given what it parses to.
    pub fn decode(parsed: &Result<Json, ParseFailure>, body: &str) -> (r: ErrorResponse)
        ensures
            r@ == refusal_of(parsed_view(*parsed), body@),
    {
        match parsed {
            Ok(document) => {
                let error = document.get("error");
                let nested = match error {
                    Some(e) => e.get("message"),
                    None => None,
                };
                match nested {
                    Some(Json::Str(message)) => ErrorResponse::OpenAI(
                        OpenAIErrorContainer { error: OpenAIError { message: message.clone() } },
                    ),
                    _ => match error {
                        Some(Json::Str(message)) => ErrorResponse::Other(
                            OtherErrorContainer { error: message.clone() },
                        ),
                        _ => ErrorResponse::Message(body.to_owned()),
                    },
                }
            },
            Err(_) => ErrorResponse::Message(body.to_owned()),
        }
    }

    /// The message of the refusal.
    pub fn message(&self) -> (r: String)
        ensures
            r@ == self@.message(),
    {
        match self {
            ErrorResponse::OpenAI(err) => err.message(),
            ErrorResponse::Other(err) => err.message(),
            ErrorResponse::Message(msg) => msg.clone(),
        }
    }
}


proof fn lemma_with_weight(messages: Seq<MessageModel>, weight: u8)
    ensures
        forall|i: int|
            0 <= i < with_weight(messages, weight).len() ==> (#[trigger] with_weight(
                messages,
                weight,
            )[i]).weight() == weight,
    decreases messages.len(),
{
    if messages.len() > 0 {
        lemma_with_weight(messages.drop_last(), weight);
        let rest = with_weight(messages.drop_last(), weight);
        let all = with_weight(messages, weight);
        assert forall|i: int| 0 <= i < all.len() implies (#[trigger] all[i]).weight()
            == weight by {
            if i < rest.len() {
                assert(all[i] == rest[i]);
            }
        }
    }
}

proof fn lemma_ordered_below(messages: Seq<MessageModel>, bound: nat)
    requires
        bound <= 6,
    ensures
        forall|i: int|
            0 <= i < ordered_below(messages, bound).len() ==> (#[trigger] ordered_below(
                messages,
                bound,
            )[i]).weight() < bound,
        forall|i: int, j: int|
            0 <= i < j < ordered_below(messages, bound).len() ==> (#[trigger] ordered_below(
                messages,
                bound,
            )[i]).weight() <= (#[trigger] ordered_below(messages, bound)[j]).weight(),
    decreases bound,
{
    if bound > 0 {
        lemma_ordered_below(messages, (bound - 1) as nat);
        lemma_with_weight(messages, (bound - 1) as u8);
        let low = ordered_below(messages, (bound - 1) as nat);
        let top = with_weight(messages, (bound - 1) as u8);
        let all = ordered_below(messages, bound);
        assert(all == low + top);
        assert forall|i: int| 0 <= i < all.len() implies (#[trigger] all[i]).weight() < bound by {
            if i < low.len() {
                assert(all[i] == low[i]);
            } else {
                assert(all[i] == top[i - low.len()]);
            }
        }
        assert forall|i: int, j: int| 0 <= i < j < all.len() implies (#[trigger] all[i]).weight()
            <= (#[trigger] all[j]).weight() by {
            if j < low.len() {
                assert(all[i] == low[i]);
                assert(all[j] == low[j]);
            } else if i < low.len() {
                assert(all[i] == low[i]);
                assert(all[j] == top[j - low.len()]);
            } else {
                assert(all[i] == top[i - low.len()]);
                assert(all[j] == top[j - low.len()]);
            }
        }
    }
}

/// In the order in which messages are sent, no message stands before one
/// of a lower weight.
pub proof fn lemma_ordered_by_weight(messages: Seq<MessageModel>)
    ensures
        forall|i: int, j: int|
            0 <= i < j < ordered(messages).len() ==> (#[trigger] ordered(messages)[i]).weight()
                <= (#[trigger] ordered(messages)[j]).weight(),
{
    lemma_ordered_below(messages, 6);
}

/// Ordering loses no message and adds none.
pub proof fn lemma_ordering_keeps_count(messages: Seq<MessageModel>)
    ensures
        ordered(messages).len() == messages.len(),
    decreases messages.len(),
{
    reveal_with_fuel(ordered_below, 7);
    if messages.len() > 0 {
        let rest = messages.drop_last();
        lemma_ordering_keeps_count(rest);
        assert(messages.last().weight() <= 5);
    }
}

/// Messages of one weight are sent in the order in which they were
/// gathered: a message that is added last stands last among those of its
/// weight, and the others stay as they were.
pub proof fn lemma_ordering_is_stable(messages: Seq<MessageModel>, last: MessageModel, weight: u8)
    ensures
        with_weight(messages.push(last), weight) == if last.weight() == weight {
            with_weight(messages, weight).push(last)
        } else {
            with_weight(messages, weight)
        },
{
    assert(messages.push(last).drop_last() =~= messages);
}

} // verus!
