//! What a caller hands in for a turn, what the conversation log keeps, and
//! the settings of an assistant.

use vstd::prelude::*;
use vstd::string::*;
use crate::openai_network_types::{
    calls_view, copy_calls, AssistantMessage, Roles, ToolCall, ToolCallModel,
};
use crate::text::{capture_first, copy_text, first_capture, replace_text, replaced, text_view};

verus! {

/// Where the answer of a turn goes, which decides whether the turn is kept.
#[derive(Debug, Clone, Copy, PartialEq, Eq, Structural)]
pub enum PromptMode {
    View,
    Phantom,
}

/// What kind of content a caller hands in.
#[derive(Debug, Clone, Copy, PartialEq, Eq, Structural)]
pub enum InputKind {
    ViewSelection,
    Command,
    BuildOutputPanel,
    LspOutputPanel,
    Terminus,
    Sheet,
    FunctionResult,
    AssistantResponse,
}

/// How much reasoning is asked of the model.
#[derive(Debug, Clone, Copy, PartialEq, Eq, Structural)]
pub enum ReasonEffort {
    Low,
    Medium,
    High,
}

/// The shape of the messages that the provider takes.
#[derive(Debug, Clone, Copy, PartialEq, Eq, Structural)]
pub enum ApiType {
    OpenAi,
    PlainText,
    Antropic,
}

/// A generation parameter with a fractional value, carried as the bit
/// pattern of its IEEE 754 double.
#[derive(Debug, Clone, Copy, PartialEq, Eq, Structural)]
pub struct Decimal {
    pub bits: u64,
}

/// One turn of the conversation log.
#[derive(Debug, PartialEq, Eq)]
pub struct CacheEntry {
    pub content: Option<String>,
    pub thinking: Option<String>,
    pub path: Option<String>,
    pub scope: Option<String>,
    pub role: Roles,
    /// The tools that an assistant turn asked for.
    pub tool_calls: Option<Vec<ToolCall>>,
    /// The call that a tool turn answers.
    pub tool_call_id: Option<String>,
}

/// Model of a [`CacheEntry`].
pub struct EntryModel {
    pub content: Option<Seq<char>>,
    pub thinking: Option<Seq<char>>,
    pub path: Option<Seq<char>>,
    pub scope: Option<Seq<char>>,
    pub role: Roles,
    pub tool_calls: Option<Seq<ToolCallModel>>,
    pub tool_call_id: Option<Seq<char>>,
}

impl View for CacheEntry {
    type V = EntryModel;

    open spec fn view(&self) -> EntryModel {
        EntryModel {
            content: text_view(self.content),
            thinking: text_view(self.thinking),
            path: text_view(self.path),
            scope: text_view(self.scope),
            role: self.role,
            tool_calls: calls_view(self.tool_calls),
            tool_call_id: text_view(self.tool_call_id),
        }
    }
}

/// New content that a caller hands in for a turn.
#[derive(Debug, Clone, PartialEq, Eq)]
pub struct SublimeInputContent {
    pub content: Option<String>,
    pub path: Option<String>,
    pub scope: Option<String>,
    pub input_kind: InputKind,
    /// The call that this content answers, where it is a tool's result.
    pub tool_id: Option<String>,
}

/// Model of a [`SublimeInputContent`].
pub struct InputModel {
    pub content: Option<Seq<char>>,
    pub path: Option<Seq<char>>,
    pub scope: Option<Seq<char>>,
    pub input_kind: InputKind,
    pub tool_id: Option<Seq<char>>,
}

impl View for SublimeInputContent {
    type V = InputModel;

    open spec fn view(&self) -> InputModel {
        InputModel {
            content: text_view(self.content),
            path: text_view(self.path),
            scope: text_view(self.scope),
            input_kind: self.input_kind,
            tool_id: text_view(self.tool_id),
        }
    }
}

/// A logged turn as it is shown.
#[derive(Debug, Clone, PartialEq, Eq)]
pub struct SublimeOutputContent {
    pub content: Option<String>,
    pub role: Roles,
    pub path: Option<String>,
}

/// A path and a content as one text: the content under a line that names
/// the path; the content alone where there is no path; nothing where there
/// is no content.
pub open spec fn combined(path: Option<Seq<char>>, content: Option<Seq<char>>) -> Seq<char> {
    match (path, content) {
        (Some(p), Some(c)) => "Path: `"@ + p + "`\n"@ + c,
        (None, Some(c)) => c,
        _ => Seq::empty(),
    }
}

/// A path and a content as one text.
pub fn combine(path: &Option<String>, content: &Option<String>) -> (r: String)
    ensures
        r@ == combined(text_view(*path), text_view(*content)),
{
    match content {
        Some(c) => match path {
            Some(p) => {
                let mut text = "Path: `".to_owned();
                text.append(p.as_str());
                text.append("`\n");
                text.append(c.as_str());
                text
            },
            None => c.clone(),
        },
        None => String::new(),
    }
}

/// The role under which an input is logged: an assistant's response as the
/// assistant; else a tool's result as the tool; else the user.
pub open spec fn logged_role(input: InputModel) -> Roles {
    if input.input_kind == InputKind::AssistantResponse {
        Roles::Assistant
    } else if input.tool_id.is_some() {
        Roles::Tool
    } else {
        Roles::User
    }
}

/// The log entry of an input.
pub open spec fn entry_of_input(input: InputModel) -> EntryModel {
    EntryModel {
        content: input.content,
        thinking: None,
        path: input.path,
        scope: input.scope,
        role: logged_role(input),
        tool_calls: None,
        tool_call_id: input.tool_id,
    }
}

/// An input that is logged as a tool's turn names the call that it
/// answers.
pub proof fn lemma_tool_entries_name_their_call(input: InputModel)
    ensures
        entry_of_input(input).role == Roles::Tool ==> entry_of_input(input).tool_call_id.is_some(),
{
}

/// The expression that finds a block of reasoning in a content.
pub open spec fn thinking_pattern() -> Seq<char> {
    "(?s)<think>(.*?)</think>"@
}

/// The reasoning that a content carries between its first pair of think
/// tags.
pub open spec fn thinking_of(content: Seq<char>) -> Option<Seq<char>> {
    first_capture(thinking_pattern(), content)
}

/// A content without its reasoning: every occurrence of the reasoning's
/// text is taken out, and the tags stay where they are.
pub open spec fn without_thinking(content: Seq<char>) -> Seq<char> {
    match thinking_of(content) {
        Some(thinking) => replaced(content, thinking, Seq::empty()),
        None => content,
    }
}

/// The log entry of an assistant's message.
pub open spec fn entry_of_message(
    role: Roles,
    content: Option<Seq<char>>,
    tool_calls: Option<Seq<ToolCallModel>>,
) -> EntryModel {
    EntryModel {
        content: match content {
            Some(c) => Some(without_thinking(c)),
            None => None,
        },
        thinking: match content {
            Some(c) => thinking_of(c),
            None => None,
        },
        path: None,
        scope: None,
        role,
        tool_calls,
        tool_call_id: None,
    }
}

/// A logged content as it is shown: the reasoning back between the emptied
/// think tags.
pub open spec fn shown_content(content: Option<Seq<char>>, thinking: Option<Seq<char>>) -> Option<
    Seq<char>,
> {
    match content {
        Some(c) => match thinking {
            Some(t) => Some(replaced(c, "<think></think>"@, "<think>"@ + t + "</think>"@)),
            None => Some(c),
        },
        None => None,
    }
}

impl CacheEntry {
    /// The log entry of an input.
    pub fn from_input(content: SublimeInputContent) -> (r: CacheEntry)
        ensures
            r@ == entry_of_input(content@),
    {
        let role = match content.input_kind {
            InputKind::AssistantResponse => Roles::Assistant,
            _ => {
                if content.tool_id.is_some() {
                    Roles::Tool
                } else {
                    Roles::User
                }
            },
        };
        CacheEntry {
            content: content.content,
            thinking: None,
            path: content.path,
            scope: content.scope,
            role,
            tool_calls: None,
            tool_call_id: content.tool_id,
        }
    }

    /// The log entry of an assistant's message: the reasoning goes to
    /// `thinking`, and the content keeps the emptied tags.
    pub fn from_message(content: AssistantMessage) -> (r: CacheEntry)
        ensures
            r@ == entry_of_message(
                content.role,
                text_view(content.content),
                calls_view(content.tool_calls),
            ),
    {
        let (text, thinking) = match content.content {
            Some(mut c) => {
                let t = Self::extract_thinking_part(&mut c);
                (Some(c), t)
            },
            None => (None, None),
        };
        CacheEntry {
            content: text,
            thinking,
            path: None,
            scope: None,
            role: content.role,
            tool_calls: content.tool_calls,
            tool_call_id: None,
        }
    }

    /// Takes the reasoning out of a content and hands it back.
    pub fn extract_thinking_part(content: &mut String) -> (r: Option<String>)
        ensures
            text_view(r) == thinking_of(old(content)@),
            final(content)@ == without_thinking(old(content)@),
    {
        let found = capture_first("(?s)<think>(.*?)</think>", content.as_str());
        match found {
            Some(thinking) => {
                let rest = replace_text(content.as_str(), thinking.as_str(), "");
                proof {
                    reveal_strlit("");
                    assert(""@ =~= Seq::<char>::empty());
                }
                *content = rest;
                Some(thinking)
            },
            None => None,
        }
    }

    /// Path and content as one text.
    pub fn combined_content(&self) -> (r: String)
        ensures
            r@ == combined(self@.path, self@.content),
    {
        combine(&self.path, &self.content)
    }

    /// A deep copy.
    pub fn duplicate(&self) -> (r: CacheEntry)
        ensures
            r@ == self@,
    {
        CacheEntry {
            content: copy_text(&self.content),
            thinking: copy_text(&self.thinking),
            path: copy_text(&self.path),
            scope: copy_text(&self.scope),
            role: self.role,
            tool_calls: copy_calls(&self.tool_calls),
            tool_call_id: copy_text(&self.tool_call_id),
        }
    }
}

impl SublimeInputContent {
    /// New content of a kind, answering no call.
    pub fn new(
        input_kind: InputKind,
        content: Option<String>,
        path: Option<String>,
        scope: Option<String>,
    ) -> (r: Self)
        ensures
            r == (SublimeInputContent { content, path, scope, input_kind, tool_id: None }),
    {
        SublimeInputContent { content, path, scope, input_kind, tool_id: None }
    }

    /// Path and content as one text.
    pub fn combined_content(&self) -> (r: String)
        ensures
            r@ == combined(self@.path, self@.content),
    {
        combine(&self.path, &self.content)
    }

    /// A deep copy.
    pub fn duplicate(&self) -> (r: SublimeInputContent)
        ensures
            r@ == self@,
    {
        SublimeInputContent {
            content: copy_text(&self.content),
            path: copy_text(&self.path),
            scope: copy_text(&self.scope),
            input_kind: self.input_kind,
            tool_id: copy_text(&self.tool_id),
        }
    }
}

impl SublimeOutputContent {
    /// A logged turn as it is shown.
    pub fn from_entry(content: &CacheEntry) -> (r: SublimeOutputContent)
        ensures
            text_view(r.content) == shown_content(content@.content, content@.thinking),
            r.role == content.role,
            text_view(r.path) == content@.path,
    {
        let shown = match &content.content {
            Some(text) => match &content.thinking {
                Some(thinking) => {
                    let mut block = "<think>".to_owned();
                    block.append(thinking.as_str());
                    block.append("</think>");
                    Some(replace_text(text.as_str(), "<think></think>", block.as_str()))
                },
                None => Some(text.clone()),
            },
            None => None,
        };
        SublimeOutputContent { content: shown, role: content.role, path: copy_text(&content.path) }
    }
}

/// The settings of an assistant.
#[derive(Debug, Clone, PartialEq, Eq)]
pub struct AssistantSettings {
    pub name: String,
    pub output_mode: PromptMode,
    pub url: String,
    pub chat_model: String,
    pub token: Option<String>,
    pub assistant_role: Option<String>,
    pub temperature: Option<Decimal>,
    pub max_tokens: Option<usize>,
    pub max_completion_tokens: Option<usize>,
    pub reasoning_effort: Option<ReasonEffort>,
    pub top_p: Option<Decimal>,
    pub frequency_penalty: Option<Decimal>,
    pub presence_penalty: Option<Decimal>,
    pub tools: Option<bool>,
    pub parallel_tool_calls: Option<bool>,
    /// Seconds to wait for one event of a stream.
    pub timeout: usize,
    pub stream: bool,
    pub advertisement: bool,
    pub api_type: ApiType,
}

/// Model of [`AssistantSettings`].
pub struct SettingsModel {
    pub name: Seq<char>,
    pub output_mode: PromptMode,
    pub url: Seq<char>,
    pub chat_model: Seq<char>,
    pub token: Option<Seq<char>>,
    pub assistant_role: Option<Seq<char>>,
    pub temperature: Option<Decimal>,
    pub max_tokens: Option<usize>,
    pub max_completion_tokens: Option<usize>,
    pub reasoning_effort: Option<ReasonEffort>,
    pub top_p: Option<Decimal>,
    pub frequency_penalty: Option<Decimal>,
    pub presence_penalty: Option<Decimal>,
    pub tools: Option<bool>,
    pub parallel_tool_calls: Option<bool>,
    pub timeout: usize,
    pub stream: bool,
    pub advertisement: bool,
    pub api_type: ApiType,
}

impl View for AssistantSettings {
    type V = SettingsModel;

    open spec fn view(&self) -> SettingsModel {
        SettingsModel {
            name: self.name@,
            output_mode: self.output_mode,
            url: self.url@,
            chat_model: self.chat_model@,
            token: text_view(self.token),
            assistant_role: text_view(self.assistant_role),
            temperature: self.temperature,
            max_tokens: self.max_tokens,
            max_completion_tokens: self.max_completion_tokens,
            reasoning_effort: self.reasoning_effort,
            top_p: self.top_p,
            frequency_penalty: self.frequency_penalty,
            presence_penalty: self.presence_penalty,
            tools: self.tools,
            parallel_tool_calls: self.parallel_tool_calls,
            timeout: self.timeout,
            stream: self.stream,
            advertisement: self.advertisement,
            api_type: self.api_type,
        }
    }
}

/// The settings that hold where nothing is configured.
pub open spec fn default_settings() -> SettingsModel {
    SettingsModel {
        name: "Default"@,
        output_mode: PromptMode::Phantom,
        url: "https://api.openai.com/v1/chat/completions"@,
        chat_model: "gpt-4o-mini"@,
        token: None,
        assistant_role: None,
        temperature: None,
        max_tokens: None,
        max_completion_tokens: None,
        reasoning_effort: None,
        top_p: None,
        frequency_penalty: None,
        presence_penalty: None,
        tools: None,
        parallel_tool_calls: None,
        timeout: 10,
        stream: true,
        advertisement: true,
        api_type: ApiType::PlainText,
    }
}

/// A configured value.
#[derive(Debug, Clone, PartialEq, Eq)]
pub enum RustyEnum {
    Bool(bool),
    Int(usize),
    Float(Decimal),
    String(String),
}

/// Model of a [`RustyEnum`].
pub enum ValueModel {
    Bool(bool),
    Int(usize),
    Float(Decimal),
    Text(Seq<char>),
}

impl View for RustyEnum {
    type V = ValueModel;

    open spec fn view(&self) -> ValueModel {
        match self {
            RustyEnum::Bool(b) => ValueModel::Bool(*b),
            RustyEnum::Int(i) => ValueModel::Int(*i),
            RustyEnum::Float(d) => ValueModel::Float(*d),
            RustyEnum::String(s) => ValueModel::Text(s@),
        }
    }
}

/// A configuration: keys with their values.
pub type Configuration = Seq<(Seq<char>, ValueModel)>;

/// The model of a configuration.
pub open spec fn configuration_view(dict: Seq<(String, RustyEnum)>) -> Configuration {
    Seq::new(dict.len(), |i: int| (dict[i].0@, dict[i].1@))
}

/// The index of the first entry from `start` on whose key is `key`, or
/// the number of entries.
pub open spec fn setting_from(dict: Configuration, key: Seq<char>, start: int) -> int
    decreases dict.len() - start,
{
    if start < 0 || start >= dict.len() {
        dict.len() as int
    } else if dict[start].0 == key {
        start
    } else {
        setting_from(dict, key, start + 1)
    }
}

/// The value that is configured under a key: that of the first entry with
/// the key.
pub open spec fn setting(dict: Configuration, key: Seq<char>) -> Option<ValueModel> {
    let i = setting_from(dict, key, 0);
    if i < dict.len() {
        Some(dict[i].1)
    } else {
        None
    }
}

/// The text that is configured under a key.
pub open spec fn text_setting(dict: Configuration, key: Seq<char>) -> Option<Seq<char>> {
    match setting(dict, key) {
        Some(ValueModel::Text(t)) => Some(t),
        _ => None,
    }
}

/// The fraction that is configured under a key.
pub open spec fn decimal_setting(dict: Configuration, key: Seq<char>) -> Option<Decimal> {
    match setting(dict, key) {
        Some(ValueModel::Float(d)) => Some(d),
        _ => None,
    }
}

/// The count that is configured under a key.
pub open spec fn count_setting(dict: Configuration, key: Seq<char>) -> Option<usize> {
    match setting(dict, key) {
        Some(ValueModel::Int(i)) => Some(i),
        _ => None,
    }
}

/// The switch that is configured under a key.
pub open spec fn switch_setting(dict: Configuration, key: Seq<char>) -> Option<bool> {
    match setting(dict, key) {
        Some(ValueModel::Bool(b)) => Some(b),
        _ => None,
    }
}

/// The mode that a name stands for.
pub open spec fn mode_named(name: Seq<char>) -> Option<PromptMode> {
    if name == "view"@ {
        Some(PromptMode::View)
    } else if name == "phantom"@ {
        Some(PromptMode::Phantom)
    } else {
        None
    }
}

/// The effort that a name stands for.
pub open spec fn effort_named(name: Seq<char>) -> Option<ReasonEffort> {
    if name == "low"@ {
        Some(ReasonEffort::Low)
    } else if name == "Medium"@ {
        Some(ReasonEffort::Medium)
    } else if name == "high"@ {
        Some(ReasonEffort::High)
    } else {
        None
    }
}

/// The shape that a name stands for.
pub open spec fn api_named(name: Seq<char>) -> Option<ApiType> {
    if name == "open_ai"@ {
        Some(ApiType::OpenAi)
    } else if name == "plain_text"@ {
        Some(ApiType::PlainText)
    } else if name == "antropic"@ {
        Some(ApiType::Antropic)
    } else {
        None
    }
}

/// The mode that is configured: the text under `output_mode`, or under
/// `prompt_mode` where there is no `output_mode`, with `panel` read as
/// `view`; a text that names no mode gives `Phantom`; without such a text
/// the default stays.
pub open spec fn configured_mode(dict: Configuration) -> PromptMode {
    let chosen = match setting(dict, "output_mode"@) {
        Some(value) => Some(value),
        None => setting(dict, "prompt_mode"@),
    };
    match chosen {
        Some(ValueModel::Text(name)) => match mode_named(
            if name == "panel"@ {
                "view"@
            } else {
                name
            },
        ) {
            Some(mode) => mode,
            None => PromptMode::Phantom,
        },
        _ => default_settings().output_mode,
    }
}

/// The settings that a configuration gives: each key that is configured
/// with a value of its kind replaces the default. `max_tokens` is taken
/// only where `max_completion_tokens` is not configured at all; an effort
/// that names none is no effort; a shape that names none is `PlainText`.
pub open spec fn configured(dict: Configuration) -> SettingsModel {
    let d = default_settings();
    SettingsModel {
        name: match text_setting(dict, "name"@) {
            Some(t) => t,
            None => d.name,
        },
        output_mode: configured_mode(dict),
        url: match text_setting(dict, "url"@) {
            Some(t) => t,
            None => d.url,
        },
        chat_model: match text_setting(dict, "chat_model"@) {
            Some(t) => t,
            None => d.chat_model,
        },
        token: text_setting(dict, "token"@),
        assistant_role: text_setting(dict, "assistant_role"@),
        temperature: decimal_setting(dict, "temperature"@),
        max_tokens: if setting(dict, "max_completion_tokens"@).is_none() {
            count_setting(dict, "max_tokens"@)
        } else {
            None
        },
        max_completion_tokens: count_setting(dict, "max_completion_tokens"@),
        reasoning_effort: match text_setting(dict, "reasoning_effort"@) {
            Some(t) => effort_named(t),
            None => None,
        },
        top_p: decimal_setting(dict, "top_p"@),
        frequency_penalty: decimal_setting(dict, "frequency_penalty"@),
        presence_penalty: decimal_setting(dict, "presence_penalty"@),
        tools: switch_setting(dict, "tools"@),
        parallel_tool_calls: switch_setting(dict, "parallel_tool_calls"@),
        timeout: match count_setting(dict, "timeout"@) {
            Some(i) => i,
            None => d.timeout,
        },
        stream: match switch_setting(dict, "stream"@) {
            Some(b) => b,
            None => d.stream,
        },
        advertisement: match switch_setting(dict, "advertisement"@) {
            Some(b) => b,
            None => d.advertisement,
        },
        api_type: match text_setting(dict, "api_type"@) {
            Some(t) => match api_named(t) {
                Some(api) => api,
                None => ApiType::PlainText,
            },
            None => d.api_type,
        },
    }
}

impl PromptMode {
    /// The mode that a name stands for.
    pub fn from_name(name: &str) -> (r: Option<PromptMode>)
        ensures
            r == mode_named(name@),
    {
        let wanted = name.to_owned();
        if wanted == "view".to_owned() {
            Some(PromptMode::View)
        } else if wanted == "phantom".to_owned() {
            Some(PromptMode::Phantom)
        } else {
            None
        }
    }
}

impl ReasonEffort {
    /// The effort that a name stands for.
    pub fn from_name(name: &str) -> (r: Option<ReasonEffort>)
        ensures
            r == effort_named(name@),
    {
        let wanted = name.to_owned();
        if wanted == "low".to_owned() {
            Some(ReasonEffort::Low)
        } else if wanted == "Medium".to_owned() {
            Some(ReasonEffort::Medium)
        } else if wanted == "high".to_owned() {
            Some(ReasonEffort::High)
        } else {
            None
        }
    }
}

impl ApiType {
    /// The shape that a name stands for.
    pub fn from_name(name: &str) -> (r: Option<ApiType>)
        ensures
            r == api_named(name@),
    {
        let wanted = name.to_owned();
        if wanted == "open_ai".to_owned() {
            Some(ApiType::OpenAi)
        } else if wanted == "plain_text".to_owned() {
            Some(ApiType::PlainText)
        } else if wanted == "antropic".to_owned() {
            Some(ApiType::Antropic)
        } else {
            None
        }
    }
}

/// The value that is configured under a key.
fn find_setting<'a>(dict: &'a Vec<(String, RustyEnum)>, key: &str) -> (r: Option<&'a RustyEnum>)
    ensures
        match r {
            Some(value) => setting(configuration_view(dict@), key@) == Some(value@),
            None => setting(configuration_view(dict@), key@).is_none(),
        },
{
    let wanted = key.to_owned();
    let ghost model = configuration_view(dict@);
    let mut i: usize = 0;
    while i < dict.len()
        invariant
            i <= dict.len(),
            wanted@ == key@,
            model == configuration_view(dict@),
            setting_from(model, key@, 0) == setting_from(model, key@, i as int),
        decreases dict.len() - i,
    {
        if dict[i].0 == wanted {
            return Some(&dict[i].1);
        }
        i = i + 1;
    }
    None
}

fn find_text(dict: &Vec<(String, RustyEnum)>, key: &str) -> (r: Option<String>)
    ensures
        text_view(r) == text_setting(configuration_view(dict@), key@),
{
    match find_setting(dict, key) {
        Some(RustyEnum::String(t)) => Some(t.clone()),
        _ => None,
    }
}

fn find_decimal(dict: &Vec<(String, RustyEnum)>, key: &str) -> (r: Option<Decimal>)
    ensures
        r == decimal_setting(configuration_view(dict@), key@),
{
    match find_setting(dict, key) {
        Some(RustyEnum::Float(d)) => Some(*d),
        _ => None,
    }
}

fn find_count(dict: &Vec<(String, RustyEnum)>, key: &str) -> (r: Option<usize>)
    ensures
        r == count_setting(configuration_view(dict@), key@),
{
    match find_setting(dict, key) {
        Some(RustyEnum::Int(i)) => Some(*i),
        _ => None,
    }
}

fn find_switch(dict: &Vec<(String, RustyEnum)>, key: &str) -> (r: Option<bool>)
    ensures
        r == switch_setting(configuration_view(dict@), key@),
{
    match find_setting(dict, key) {
        Some(RustyEnum::Bool(b)) => Some(*b),
        _ => None,
    }
}

fn find_mode(dict: &Vec<(String, RustyEnum)>) -> (r: PromptMode)
    ensures
        r == configured_mode(configuration_view(dict@)),
{
    let chosen = match find_setting(dict, "output_mode") {
        Some(value) => Some(value),
        None => find_setting(dict, "prompt_mode"),
    };
    match chosen {
        Some(RustyEnum::String(name)) => {
            let found = if *name == "panel".to_owned() {
                PromptMode::from_name("view")
            } else {
                PromptMode::from_name(name.as_str())
            };
            match found {
                Some(mode) => mode,
                None => PromptMode::Phantom,
            }
        },
        _ => PromptMode::Phantom,
    }
}

impl Default for AssistantSettings {
    fn default() -> (r: Self)
        ensures
            r@ == default_settings(),
    {
        AssistantSettings {
            name: "Default".to_owned(),
            output_mode: PromptMode::Phantom,
            chat_model: "gpt-4o-mini".to_owned(),
            assistant_role: None,
            url: "https://api.openai.com/v1/chat/completions".to_owned(),
            reasoning_effort: None,
            token: None,
            temperature: None,
            max_tokens: None,
            max_completion_tokens: None,
            top_p: None,
            frequency_penalty: None,
            presence_penalty: None,
            tools: None,
            timeout: 10,
            parallel_tool_calls: None,
            stream: true,
            advertisement: true,
            api_type: ApiType::PlainText,
        }
    }
}

impl AssistantSettings {
    /// The settings that a configuration gives.
    pub fn new(dict: &Vec<(String, RustyEnum)>) -> (r: Self)
        ensures
            r@ == configured(configuration_view(dict@)),
    {
        let mut settings = AssistantSettings::default();
        match find_text(dict, "name") {
            Some(value) => {
                settings.name = value;
            },
            None => {},
        }
        settings.output_mode = find_mode(dict);
        settings.token = find_text(dict, "token");
        match find_text(dict, "chat_model") {
            Some(value) => {
                settings.chat_model = value;
            },
            None => {},
        }
        match find_text(dict, "url") {
            Some(value) => {
                settings.url = value;
            },
            None => {},
        }
        settings.assistant_role = find_text(dict, "assistant_role");
        settings.reasoning_effort = match find_text(dict, "reasoning_effort") {
            Some(value) => ReasonEffort::from_name(value.as_str()),
            None => None,
        };
        settings.temperature = find_decimal(dict, "temperature");
        settings.max_tokens = if find_setting(dict, "max_completion_tokens").is_none() {
            find_count(dict, "max_tokens")
        } else {
            None
        };
        settings.max_completion_tokens = find_count(dict, "max_completion_tokens");
        match find_count(dict, "timeout") {
            Some(value) => {
                settings.timeout = value;
            },
            None => {},
        }
        settings.top_p = find_decimal(dict, "top_p");
        settings.frequency_penalty = find_decimal(dict, "frequency_penalty");
        settings.presence_penalty = find_decimal(dict, "presence_penalty");
        settings.tools = find_switch(dict, "tools");
        settings.parallel_tool_calls = find_switch(dict, "parallel_tool_calls");
        match find_switch(dict, "stream") {
            Some(value) => {
                settings.stream = value;
            },
            None => {},
        }
        match find_switch(dict, "advertisement") {
            Some(value) => {
                settings.advertisement = value;
            },
            None => {},
        }
        match find_text(dict, "api_type") {
            Some(value) => {
                settings.api_type = match ApiType::from_name(value.as_str()) {
                    Some(api) => api,
                    None => ApiType::PlainText,
                };
            },
            None => {},
        }
        settings
    }

    /// A copy of the settings.
    pub fn deep_copy(&self) -> (r: Self)
        ensures
            r@ == self@,
    {
        AssistantSettings {
            name: self.name.clone(),
            output_mode: self.output_mode,
            url: self.url.clone(),
            chat_model: self.chat_model.clone(),
            token: copy_text(&self.token),
            assistant_role: copy_text(&self.assistant_role),
            temperature: self.temperature,
            max_tokens: self.max_tokens,
            max_completion_tokens: self.max_completion_tokens,
            reasoning_effort: self.reasoning_effort,
            top_p: self.top_p,
            frequency_penalty: self.frequency_penalty,
            presence_penalty: self.presence_penalty,
            tools: self.tools,
            parallel_tool_calls: self.parallel_tool_calls,
            timeout: self.timeout,
            stream: self.stream,
            advertisement: self.advertisement,
            api_type: self.api_type,
        }
    }
}

} // verus!
