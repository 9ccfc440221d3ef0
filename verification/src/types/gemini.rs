//! The Gemini wire schema and its translation to and from the
//! vendor-independent schema.

use crate::agnostic;
use crate::json::{error_message, json_error_text};
use crate::milli::Milli;
use vstd::prelude::*;

verus! {

/// Everything that can go wrong between a caller's request and its answer.
#[derive(Debug, Clone, PartialEq, Eq)]
pub enum GeminiError {
    /// The inbound request was malformed or of an unsupported shape.
    InvalidRequest(String),
    /// The vendor answered with an HTTP error status.
    ApiError { status: u16, message: String },
    /// The network call itself failed.
    HttpError(String),
    /// The vendor's answer was missing or could not be used.
    InvalidResponse(String),
    /// JSON could not be read or written.
    SerdeError(String),
    /// The schema holds something that translation cannot represent.
    UnsupportedFeature(String),
    /// A value could not be converted for the wire.
    SerializationError(String),
}

pub enum GeminiErrorView {
    InvalidRequest(Seq<char>),
    ApiError { status: u16, message: Seq<char> },
    HttpError(Seq<char>),
    InvalidResponse(Seq<char>),
    SerdeError(Seq<char>),
    UnsupportedFeature(Seq<char>),
    SerializationError(Seq<char>),
}

impl View for GeminiError {
    type V = GeminiErrorView;

    open spec fn view(&self) -> GeminiErrorView {
        match self {
            GeminiError::InvalidRequest(m) => GeminiErrorView::InvalidRequest(m@),
            GeminiError::ApiError { status, message } => GeminiErrorView::ApiError {
                status: *status,
                message: message@,
            },
            GeminiError::HttpError(m) => GeminiErrorView::HttpError(m@),
            GeminiError::InvalidResponse(m) => GeminiErrorView::InvalidResponse(m@),
            GeminiError::SerdeError(m) => GeminiErrorView::SerdeError(m@),
            GeminiError::UnsupportedFeature(m) => GeminiErrorView::UnsupportedFeature(m@),
            GeminiError::SerializationError(m) => GeminiErrorView::SerializationError(m@),
        }
    }
}

impl GeminiErrorView {
    /// The one-line description of an error: the kind, then what was reported.
    pub open spec fn description(self) -> Seq<char> {
        match self {
            GeminiErrorView::InvalidRequest(m) => "InvalidRequest: "@ + m,
            GeminiErrorView::ApiError { status, message } => "ApiError (status "@
                + crate::text::decimal(status as nat) + "): "@ + message,
            GeminiErrorView::HttpError(m) => "HttpError: "@ + m,
            GeminiErrorView::InvalidResponse(m) => "InvalidResponse: "@ + m,
            GeminiErrorView::SerdeError(m) => "SerdeError: "@ + m,
            GeminiErrorView::UnsupportedFeature(m) => "UnsupportedFeature: "@ + m,
            GeminiErrorView::SerializationError(m) => "SerializationError: "@ + m,
        }
    }
}

impl GeminiError {
    /// Describes the error in one line, for a structured error response.
    pub fn describe(&self) -> (line: String)
        ensures
            line@ == self@.description(),
    {
        match self {
            GeminiError::InvalidRequest(m) => "InvalidRequest: ".to_string().concat(m.as_str()),
            GeminiError::ApiError { status, message } => {
                let number: String = crate::text::decimal_string(*status as u32);
                "ApiError (status ".to_string().concat(number.as_str()).concat("): ").concat(
                    message.as_str(),
                )
            },
            GeminiError::HttpError(m) => "HttpError: ".to_string().concat(m.as_str()),
            GeminiError::InvalidResponse(m) => "InvalidResponse: ".to_string().concat(m.as_str()),
            GeminiError::SerdeError(m) => "SerdeError: ".to_string().concat(m.as_str()),
            GeminiError::UnsupportedFeature(m) => "UnsupportedFeature: ".to_string().concat(
                m.as_str(),
            ),
            GeminiError::SerializationError(m) => "SerializationError: ".to_string().concat(
                m.as_str(),
            ),
        }
    }
}

impl From<serde_json::Error> for GeminiError {
    /// A JSON failure becomes `SerdeError` with the message that
    /// `serde_json` printed.
    fn from(err: serde_json::Error) -> (e: GeminiError)
        ensures
            e@ == GeminiErrorView::SerdeError(json_error_text(err)),
    {
        GeminiError::SerdeError(error_message(&err))
    }
}

/// Two strings are known to be equal only through their views, so what this
/// conversion gives is stated over views, in the contract of the conversion
/// itself.
impl vstd::std_specs::convert::FromSpecImpl<serde_json::Error> for GeminiError {
    open spec fn obeys_from_spec() -> bool {
        false
    }

    open spec fn from_spec(err: serde_json::Error) -> GeminiError {
        arbitrary()
    }
}

/// The author of a piece of content, as Gemini names it.
#[derive(Debug, Clone, Copy, PartialEq, Eq, Structural)]
pub enum Role {
    User,
    Model,
    System,
}

/// The vendor role that stands for an agnostic role.
pub open spec fn vendor_role(role: agnostic::Role) -> Role {
    match role {
        agnostic::Role::User => Role::User,
        agnostic::Role::Assistant => Role::Model,
        agnostic::Role::System => Role::System,
    }
}

/// The agnostic role that stands for a vendor role.
pub open spec fn agnostic_role(role: Role) -> agnostic::Role {
    match role {
        Role::User => agnostic::Role::User,
        Role::Model => agnostic::Role::Assistant,
        Role::System => agnostic::Role::System,
    }
}

impl From<agnostic::Role> for Role {
    fn from(role: agnostic::Role) -> (r: Role)
        ensures
            r == vendor_role(role),
    {
        match role {
            agnostic::Role::User => Role::User,
            agnostic::Role::Assistant => Role::Model,
            agnostic::Role::System => Role::System,
        }
    }
}

impl vstd::std_specs::convert::FromSpecImpl<agnostic::Role> for Role {
    open spec fn obeys_from_spec() -> bool {
        true
    }

    open spec fn from_spec(role: agnostic::Role) -> Role {
        vendor_role(role)
    }
}

impl From<Role> for agnostic::Role {
    fn from(role: Role) -> (r: agnostic::Role)
        ensures
            r == agnostic_role(role),
    {
        match role {
            Role::User => agnostic::Role::User,
            Role::Model => agnostic::Role::Assistant,
            Role::System => agnostic::Role::System,
        }
    }
}

impl vstd::std_specs::convert::FromSpecImpl<Role> for agnostic::Role {
    open spec fn obeys_from_spec() -> bool {
        true
    }

    open spec fn from_spec(role: Role) -> agnostic::Role {
        agnostic_role(role)
    }
}

impl Default for Role {
    /// Content without a role on the wire was written by the model.
    fn default() -> (r: Role)
        ensures
            r == Role::Model,
    {
        Role::Model
    }
}

impl Role {
    /// The name of the role on the wire.
    pub open spec fn tag(self) -> Seq<char> {
        match self {
            Role::User => "user"@,
            Role::Model => "model"@,
            Role::System => "system"@,
        }
    }

    /// The role that a wire name stands for, if it names one.
    pub open spec fn with_tag(tag: Seq<char>) -> Option<Role> {
        if tag == "user"@ {
            Some(Role::User)
        } else if tag == "model"@ {
            Some(Role::Model)
        } else if tag == "system"@ {
            Some(Role::System)
        } else {
            None
        }
    }

    /// The name of the role on the wire.
    pub fn wire_tag(&self) -> (tag: &'static str)
        ensures
            tag@ == self.tag(),
    {
        match self {
            Role::User => "user",
            Role::Model => "model",
            Role::System => "system",
        }
    }

    /// Reads a role from its wire name.
    pub fn from_wire_tag(tag: &str) -> (role: Option<Role>)
        ensures
            role == Role::with_tag(tag@),
    {
        if crate::text::same_text(tag, "user") {
            Some(Role::User)
        } else if crate::text::same_text(tag, "model") {
            Some(Role::Model)
        } else if crate::text::same_text(tag, "system") {
            Some(Role::System)
        } else {
            None
        }
    }

    /// Every role is read back from its own wire name.
    pub proof fn lemma_tag_round_trip(role: Role)
        ensures
            Role::with_tag(role.tag()) == Some(role),
    {
        reveal_strlit("user");
        reveal_strlit("model");
        reveal_strlit("system");
        assert("user"@.len() == 4);
        assert("model"@.len() == 5);
        assert("system"@.len() == 6);
    }
}

/// The two role vocabularies stand for each other one to one.
pub proof fn lemma_roles_bijective(vendor: Role, plain: agnostic::Role)
    ensures
        vendor_role(agnostic_role(vendor)) == vendor,
        agnostic_role(vendor_role(plain)) == plain,
{
}

/// The views of both sides of a result.
pub open spec fn view_result<T: View, E: View>(r: Result<T, E>) -> Result<T::V, E::V> {
    match r {
        Ok(t) => Ok(t@),
        Err(e) => Err(e@),
    }
}

/// One unit of message content in the vendor schema.
#[derive(Debug, Clone, PartialEq)]
pub enum ContentPart {
    /// Plain text.
    Text { text: String },
    /// Binary data, base64-encoded, with its media type.
    InlineData { mime_type: String, data: String },
    /// The model asks for a function to be called.
    ToolCall { name: String, args: serde_json::Value },
    /// The result of a function call, handed back to the model.
    ToolResult { name: String, response: serde_json::Value },
}

pub enum ContentPartView {
    Text { text: Seq<char> },
    InlineData { mime_type: Seq<char>, data: Seq<char> },
    ToolCall { name: Seq<char>, args: serde_json::Value },
    ToolResult { name: Seq<char>, response: serde_json::Value },
}

impl View for ContentPart {
    type V = ContentPartView;

    open spec fn view(&self) -> ContentPartView {
        match self {
            ContentPart::Text { text } => ContentPartView::Text { text: text@ },
            ContentPart::InlineData { mime_type, data } => ContentPartView::InlineData {
                mime_type: mime_type@,
                data: data@,
            },
            ContentPart::ToolCall { name, args } => ContentPartView::ToolCall {
                name: name@,
                args: *args,
            },
            ContentPart::ToolResult { name, response } => ContentPartView::ToolResult {
                name: name@,
                response: *response,
            },
        }
    }
}

impl DeepView for ContentPart {
    type V = ContentPartView;

    open spec fn deep_view(&self) -> ContentPartView {
        self.view()
    }
}

/// The error for agnostic content that has no vendor form.
pub open spec fn unsupported_block() -> GeminiErrorView {
    GeminiErrorView::UnsupportedFeature("only text is available right now"@)
}

/// The error for vendor content that has no agnostic form.
pub open spec fn unsupported_part() -> GeminiErrorView {
    GeminiErrorView::UnsupportedFeature("only text and tool calls are available right now"@)
}

/// The vendor part for one agnostic block: text maps to text, and nothing
/// else has a vendor form.
pub open spec fn part_of_block(block: agnostic::MessageContentView) -> Result<
    ContentPartView,
    GeminiErrorView,
> {
    match block {
        agnostic::MessageContentView::Text { text } => Ok(ContentPartView::Text { text }),
        _ => Err(unsupported_block()),
    }
}

/// The agnostic block for one vendor part: text maps to text, a tool call
/// to a tool-use block that is identified by the function's name, and
/// nothing else has an agnostic form.
pub open spec fn block_of_part(part: ContentPartView) -> Result<
    agnostic::MessageContentView,
    GeminiErrorView,
> {
    match part {
        ContentPartView::Text { text } => Ok(agnostic::MessageContentView::Text { text }),
        ContentPartView::ToolCall { name, args } => Ok(
            agnostic::MessageContentView::ToolUse { id: name, name, input: args },
        ),
        _ => Err(unsupported_part()),
    }
}

impl TryFrom<agnostic::MessageContent> for ContentPart {
    type Error = GeminiError;

    fn try_from(content: agnostic::MessageContent) -> (r: Result<ContentPart, GeminiError>)
        ensures
            view_result(r) == part_of_block(content@),
    {
        match content {
            agnostic::MessageContent::Text { text } => Ok(ContentPart::Text { text }),
            _ => Err(
                GeminiError::UnsupportedFeature("only text is available right now".to_string()),
            ),
        }
    }
}

/// Two strings are known to be equal only through their views, so what this
/// conversion gives is stated over views, in the contract of the conversion
/// itself.
impl vstd::std_specs::convert::TryFromSpecImpl<agnostic::MessageContent> for ContentPart {
    open spec fn obeys_try_from_spec() -> bool {
        false
    }

    open spec fn try_from_spec(content: agnostic::MessageContent) -> Result<
        ContentPart,
        GeminiError,
    > {
        arbitrary()
    }
}

impl TryFrom<ContentPart> for agnostic::MessageContent {
    type Error = GeminiError;

    fn try_from(content: ContentPart) -> (r: Result<agnostic::MessageContent, GeminiError>)
        ensures
            view_result(r) == block_of_part(content@),
    {
        match content {
            ContentPart::Text { text } => Ok(agnostic::MessageContent::Text { text }),
            ContentPart::ToolCall { name, args } => Ok(
                agnostic::MessageContent::ToolUse { id: name.clone(), name, input: args },
            ),
            _ => Err(
                GeminiError::UnsupportedFeature(
                    "only text and tool calls are available right now".to_string(),
                ),
            ),
        }
    }
}

/// Two strings are known to be equal only through their views, so what this
/// conversion gives is stated over views, in the contract of the conversion
/// itself.
impl vstd::std_specs::convert::TryFromSpecImpl<ContentPart> for agnostic::MessageContent {
    open spec fn obeys_try_from_spec() -> bool {
        false
    }

    open spec fn try_from_spec(content: ContentPart) -> Result<
        agnostic::MessageContent,
        GeminiError,
    > {
        arbitrary()
    }
}

/// An ordered run of parts by one author.
#[derive(Debug, Clone, PartialEq)]
pub struct Content {
    pub parts: Vec<ContentPart>,
    pub role: Role,
}

pub struct ContentView {
    pub parts: Seq<ContentPartView>,
    pub role: Role,
}

impl View for Content {
    type V = ContentView;

    open spec fn view(&self) -> ContentView {
        ContentView { parts: self.parts.deep_view(), role: self.role }
    }
}

impl DeepView for Content {
    type V = ContentView;

    open spec fn deep_view(&self) -> ContentView {
        self.view()
    }
}

/// The vendor parts for a run of agnostic blocks: each block's part, in
/// order, or the error if any block has no vendor form.
pub open spec fn parts_of_blocks(blocks: Seq<agnostic::MessageContentView>) -> Result<
    Seq<ContentPartView>,
    GeminiErrorView,
> {
    if forall|i: int| 0 <= i < blocks.len() ==> part_of_block(#[trigger] blocks[i]) is Ok {
        Ok(Seq::new(blocks.len(), |i: int| part_of_block(blocks[i])->Ok_0))
    } else {
        Err(unsupported_block())
    }
}

/// The agnostic blocks for a run of vendor parts: each part's block, in
/// order, or the error if any part has no agnostic form.
pub open spec fn blocks_of_parts(parts: Seq<ContentPartView>) -> Result<
    Seq<agnostic::MessageContentView>,
    GeminiErrorView,
> {
    if forall|i: int| 0 <= i < parts.len() ==> block_of_part(#[trigger] parts[i]) is Ok {
        Ok(Seq::new(parts.len(), |i: int| block_of_part(parts[i])->Ok_0))
    } else {
        Err(unsupported_part())
    }
}

/// The vendor content for an agnostic message.
pub open spec fn content_of_message(message: agnostic::MessageView) -> Result<
    ContentView,
    GeminiErrorView,
> {
    match parts_of_blocks(message.content) {
        Ok(parts) => Ok(ContentView { parts, role: vendor_role(message.role) }),
        Err(e) => Err(e),
    }
}

/// The agnostic message for a vendor content.
pub open spec fn message_of_content(content: ContentView) -> Result<
    agnostic::MessageView,
    GeminiErrorView,
> {
    match blocks_of_parts(content.parts) {
        Ok(blocks) => Ok(agnostic::MessageView { role: agnostic_role(content.role), content: blocks }),
        Err(e) => Err(e),
    }
}

/// Translates a run of agnostic blocks, stopping at the first one that has
/// no vendor form.
pub fn translate_blocks(blocks: Vec<agnostic::MessageContent>) -> (r: Result<
    Vec<ContentPart>,
    GeminiError,
>)
    ensures
        match r {
            Ok(parts) => parts_of_blocks(blocks.deep_view()) == Ok::<
                Seq<ContentPartView>,
                GeminiErrorView,
            >(parts.deep_view()),
            Err(e) => parts_of_blocks(blocks.deep_view()) == Err::<
                Seq<ContentPartView>,
                GeminiErrorView,
            >(e@),
        },
{
    let ghost given = blocks@;
    let ghost views = blocks.deep_view();
    let mut parts: Vec<ContentPart> = Vec::new();
    for block in it: blocks.into_iter()
        invariant
            it.seq() == given,
            views == Seq::new(given.len(), |i: int| given[i].deep_view()),
            parts@.len() == it.index(),
            forall|j: int| 0 <= j < it.index() ==> part_of_block(#[trigger] views[j]) is Ok,
            forall|j: int|
                0 <= j < it.index() ==> (#[trigger] parts@[j])@ == part_of_block(views[j])->Ok_0,
    {
        let ghost at = it.index() as int;
        assert(views[at] == block@);
        match ContentPart::try_from(block) {
            Ok(part) => {
                parts.push(part);
            },
            Err(e) => {
                assert(!(part_of_block(views[at]) is Ok));
                return Err(e);
            },
        }
    }
    assert(parts.deep_view() =~= parts_of_blocks(views)->Ok_0);
    Ok(parts)
}

/// Translates a run of vendor parts, stopping at the first one that has no
/// agnostic form.
pub fn translate_parts(parts: Vec<ContentPart>) -> (r: Result<
    Vec<agnostic::MessageContent>,
    GeminiError,
>)
    ensures
        match r {
            Ok(blocks) => blocks_of_parts(parts.deep_view()) == Ok::<
                Seq<agnostic::MessageContentView>,
                GeminiErrorView,
            >(blocks.deep_view()),
            Err(e) => blocks_of_parts(parts.deep_view()) == Err::<
                Seq<agnostic::MessageContentView>,
                GeminiErrorView,
            >(e@),
        },
{
    let ghost given = parts@;
    let ghost views = parts.deep_view();
    let mut blocks: Vec<agnostic::MessageContent> = Vec::new();
    for part in it: parts.into_iter()
        invariant
            it.seq() == given,
            views == Seq::new(given.len(), |i: int| given[i].deep_view()),
            blocks@.len() == it.index(),
            forall|j: int| 0 <= j < it.index() ==> block_of_part(#[trigger] views[j]) is Ok,
            forall|j: int|
                0 <= j < it.index() ==> (#[trigger] blocks@[j])@ == block_of_part(views[j])->Ok_0,
    {
        let ghost at = it.index() as int;
        assert(views[at] == part@);
        match agnostic::MessageContent::try_from(part) {
            Ok(block) => {
                blocks.push(block);
            },
            Err(e) => {
                assert(!(block_of_part(views[at]) is Ok));
                return Err(e);
            },
        }
    }
    assert(blocks.deep_view() =~= blocks_of_parts(views)->Ok_0);
    Ok(blocks)
}

impl TryFrom<agnostic::Message> for Content {
    type Error = GeminiError;

    fn try_from(message: agnostic::Message) -> (r: Result<Content, GeminiError>)
        ensures
            view_result(r) == content_of_message(message@),
    {
        let role: Role = Role::from(message.role);
        match translate_blocks(message.content) {
            Ok(parts) => Ok(Content { parts, role }),
            Err(e) => Err(e),
        }
    }
}

/// Two strings are known to be equal only through their views, so what this
/// conversion gives is stated over views, in the contract of the conversion
/// itself.
impl vstd::std_specs::convert::TryFromSpecImpl<agnostic::Message> for Content {
    open spec fn obeys_try_from_spec() -> bool {
        false
    }

    open spec fn try_from_spec(message: agnostic::Message) -> Result<Content, GeminiError> {
        arbitrary()
    }
}

impl TryFrom<Content> for agnostic::Message {
    type Error = GeminiError;

    fn try_from(content: Content) -> (r: Result<agnostic::Message, GeminiError>)
        ensures
            view_result(r) == message_of_content(content@),
    {
        let role: agnostic::Role = agnostic::Role::from(content.role);
        match translate_parts(content.parts) {
            Ok(blocks) => Ok(agnostic::Message { role, content: blocks }),
            Err(e) => Err(e),
        }
    }
}

/// Two strings are known to be equal only through their views, so what this
/// conversion gives is stated over views, in the contract of the conversion
/// itself.
impl vstd::std_specs::convert::TryFromSpecImpl<Content> for agnostic::Message {
    open spec fn obeys_try_from_spec() -> bool {
        false
    }

    open spec fn try_from_spec(content: Content) -> Result<agnostic::Message, GeminiError> {
        arbitrary()
    }
}

/// The optional knobs of generation. Each one is independent of the
/// others; an absent knob leaves the vendor's default in force.
#[derive(Debug, Clone, PartialEq, Eq)]
pub struct GenerationConfig {
    pub temperature: Option<Milli>,
    pub max_output_tokens: Option<u32>,
    pub top_p: Option<Milli>,
    pub top_k: Option<u32>,
    pub stop_sequences: Option<Vec<String>>,
}

pub struct GenerationConfigView {
    pub temperature: Option<Milli>,
    pub max_output_tokens: Option<u32>,
    pub top_p: Option<Milli>,
    pub top_k: Option<u32>,
    pub stop_sequences: Option<Seq<Seq<char>>>,
}

impl View for GenerationConfig {
    type V = GenerationConfigView;

    open spec fn view(&self) -> GenerationConfigView {
        GenerationConfigView {
            temperature: self.temperature,
            max_output_tokens: self.max_output_tokens,
            top_p: self.top_p,
            top_k: self.top_k,
            stop_sequences: self.stop_sequences.deep_view(),
        }
    }
}

impl DeepView for GenerationConfig {
    type V = GenerationConfigView;

    open spec fn deep_view(&self) -> GenerationConfigView {
        self.view()
    }
}

impl Default for GenerationConfig {
    /// No knob is set.
    fn default() -> (config: GenerationConfig)
        ensures
            config@ == (GenerationConfigView {
                temperature: None,
                max_output_tokens: None,
                top_p: None,
                top_k: None,
                stop_sequences: None,
            }),
    {
        GenerationConfig {
            temperature: None,
            max_output_tokens: None,
            top_p: None,
            top_k: None,
            stop_sequences: None,
        }
    }
}

/// A request to generate content, in the vendor schema.
#[derive(Debug, Clone, PartialEq)]
pub struct GenerateContentRequest {
    pub model: String,
    pub contents: Vec<Content>,
    pub generation_config: Option<GenerationConfig>,
    pub system_instruction: Option<Content>,
}

pub struct GenerateContentRequestView {
    pub model: Seq<char>,
    pub contents: Seq<ContentView>,
    pub generation_config: Option<GenerationConfigView>,
    pub system_instruction: Option<ContentView>,
}

impl View for GenerateContentRequest {
    type V = GenerateContentRequestView;

    open spec fn view(&self) -> GenerateContentRequestView {
        GenerateContentRequestView {
            model: self.model@,
            contents: self.contents.deep_view(),
            generation_config: self.generation_config.deep_view(),
            system_instruction: self.system_instruction.deep_view(),
        }
    }
}

/// The vendor contents for a conversation: each message's content, in
/// order, or the error if any message holds a block without a vendor form.
pub open spec fn contents_of_messages(messages: Seq<agnostic::MessageView>) -> Result<
    Seq<ContentView>,
    GeminiErrorView,
> {
    if forall|i: int|
        0 <= i < messages.len() ==> content_of_message(#[trigger] messages[i]) is Ok {
        Ok(Seq::new(messages.len(), |i: int| content_of_message(messages[i])->Ok_0))
    } else {
        Err(unsupported_block())
    }
}

/// The content that carries a system prompt: one text part by the system
/// role.
pub open spec fn system_content(prompt: Seq<char>) -> ContentView {
    ContentView { parts: seq![ContentPartView::Text { text: prompt }], role: Role::System }
}

/// The vendor request for an agnostic request. The model id is kept as it
/// is, every message becomes one content, the system prompt becomes the
/// system instruction, and no generation knob is set. A single block
/// without a vendor form fails the whole request.
pub open spec fn request_of(request: agnostic::CompletionRequestView) -> Result<
    GenerateContentRequestView,
    GeminiErrorView,
> {
    match contents_of_messages(request.messages) {
        Ok(contents) => Ok(
            GenerateContentRequestView {
                model: request.model,
                contents,
                generation_config: None,
                system_instruction: match request.system {
                    Some(prompt) => Some(system_content(prompt)),
                    None => None,
                },
            },
        ),
        Err(e) => Err(e),
    }
}

/// Translates the messages of a conversation, stopping at the first one
/// that cannot be translated.
pub fn translate_messages(messages: Vec<agnostic::Message>) -> (r: Result<
    Vec<Content>,
    GeminiError,
>)
    ensures
        match r {
            Ok(contents) => contents_of_messages(messages.deep_view()) == Ok::<
                Seq<ContentView>,
                GeminiErrorView,
            >(contents.deep_view()),
            Err(e) => contents_of_messages(messages.deep_view()) == Err::<
                Seq<ContentView>,
                GeminiErrorView,
            >(e@),
        },
{
    let ghost given = messages@;
    let ghost views = messages.deep_view();
    let mut contents: Vec<Content> = Vec::new();
    for message in it: messages.into_iter()
        invariant
            it.seq() == given,
            views == Seq::new(given.len(), |i: int| given[i].deep_view()),
            contents@.len() == it.index(),
            forall|j: int| 0 <= j < it.index() ==> content_of_message(#[trigger] views[j]) is Ok,
            forall|j: int|
                0 <= j < it.index() ==> (#[trigger] contents@[j])@ == content_of_message(
                    views[j],
                )->Ok_0,
    {
        let ghost at = it.index() as int;
        assert(views[at] == message@);
        match Content::try_from(message) {
            Ok(content) => {
                contents.push(content);
            },
            Err(e) => {
                assert(!(content_of_message(views[at]) is Ok));
                return Err(e);
            },
        }
    }
    assert(contents.deep_view() =~= contents_of_messages(views)->Ok_0);
    Ok(contents)
}

impl TryFrom<agnostic::CompletionRequest> for GenerateContentRequest {
    type Error = GeminiError;

    fn try_from(request: agnostic::CompletionRequest) -> (r: Result<
        GenerateContentRequest,
        GeminiError,
    >)
        ensures
            view_result(r) == request_of(request@),
    {
        let system_instruction: Option<Content> = match request.system {
            Some(prompt) => {
                let mut parts: Vec<ContentPart> = Vec::new();
                parts.push(ContentPart::Text { text: prompt });
                assert(parts.deep_view() =~= seq![ContentPartView::Text { text: prompt@ }]);
                Some(Content { parts, role: Role::System })
            },
            None => None,
        };
        match translate_messages(request.messages) {
            Ok(contents) => Ok(
                GenerateContentRequest {
                    model: request.model,
                    contents,
                    generation_config: None,
                    system_instruction,
                },
            ),
            Err(e) => Err(e),
        }
    }
}

/// Two strings are known to be equal only through their views, so what this
/// conversion gives is stated over views, in the contract of the conversion
/// itself.
impl vstd::std_specs::convert::TryFromSpecImpl<agnostic::CompletionRequest> for GenerateContentRequest {
    open spec fn obeys_try_from_spec() -> bool {
        false
    }

    open spec fn try_from_spec(request: agnostic::CompletionRequest) -> Result<
        GenerateContentRequest,
        GeminiError,
    > {
        arbitrary()
    }
}

/// The token counts that the vendor reports for one exchange.
#[derive(Debug, Clone, Copy, PartialEq, Eq, Structural)]
pub struct UsageMetadata {
    pub prompt_token_count: u32,
    pub candidates_token_count: u32,
    pub total_token_count: u32,
}

/// The agnostic usage for the vendor's counts: the prompt and candidate
/// counts are kept, the total is dropped.
pub open spec fn usage_of(usage: UsageMetadata) -> agnostic::Usage {
    agnostic::Usage {
        input_tokens: usage.prompt_token_count,
        output_tokens: usage.candidates_token_count,
    }
}

impl TryFrom<UsageMetadata> for agnostic::Usage {
    type Error = GeminiError;

    fn try_from(usage: UsageMetadata) -> (r: Result<agnostic::Usage, GeminiError>)
        ensures
            r == Ok::<agnostic::Usage, GeminiError>(usage_of(usage)),
    {
        Ok(
            agnostic::Usage {
                input_tokens: usage.prompt_token_count,
                output_tokens: usage.candidates_token_count,
            },
        )
    }
}

impl vstd::std_specs::convert::TryFromSpecImpl<UsageMetadata> for agnostic::Usage {
    open spec fn obeys_try_from_spec() -> bool {
        true
    }

    open spec fn try_from_spec(usage: UsageMetadata) -> Result<agnostic::Usage, GeminiError> {
        Ok(usage_of(usage))
    }
}

/// Why the vendor stopped generating a candidate.
#[derive(Debug, Clone, Copy, PartialEq, Eq, Structural)]
pub enum FinishReason {
    FinishReasonUnspecified,
    Stop,
    MaxTokens,
    Safety,
    Recitation,
    Language,
    Other,
    Blocklist,
    ProhibitedContent,
    Spii,
    MalformedFunctionCall,
    ImageSafety,
}

impl FinishReason {
    /// The name of the reason on the wire.
    pub open spec fn tag(self) -> Seq<char> {
        match self {
            FinishReason::FinishReasonUnspecified => "FINISH_REASON_UNSPECIFIED"@,
            FinishReason::Stop => "STOP"@,
            FinishReason::MaxTokens => "MAX_TOKENS"@,
            FinishReason::Safety => "SAFETY"@,
            FinishReason::Recitation => "RECITATION"@,
            FinishReason::Language => "LANGUAGE"@,
            FinishReason::Other => "OTHER"@,
            FinishReason::Blocklist => "BLOCKLIST"@,
            FinishReason::ProhibitedContent => "PROHIBITED_CONTENT"@,
            FinishReason::Spii => "SPII"@,
            FinishReason::MalformedFunctionCall => "MALFORMED_FUNCTION_CALL"@,
            FinishReason::ImageSafety => "IMAGE_SAFETY"@,
        }
    }

    /// The reason that a wire name stands for, if it names one.
    pub open spec fn with_tag(tag: Seq<char>) -> Option<FinishReason> {
        if tag == "FINISH_REASON_UNSPECIFIED"@ {
            Some(FinishReason::FinishReasonUnspecified)
        } else if tag == "STOP"@ {
            Some(FinishReason::Stop)
        } else if tag == "MAX_TOKENS"@ {
            Some(FinishReason::MaxTokens)
        } else if tag == "SAFETY"@ {
            Some(FinishReason::Safety)
        } else if tag == "RECITATION"@ {
            Some(FinishReason::Recitation)
        } else if tag == "LANGUAGE"@ {
            Some(FinishReason::Language)
        } else if tag == "OTHER"@ {
            Some(FinishReason::Other)
        } else if tag == "BLOCKLIST"@ {
            Some(FinishReason::Blocklist)
        } else if tag == "PROHIBITED_CONTENT"@ {
            Some(FinishReason::ProhibitedContent)
        } else if tag == "SPII"@ {
            Some(FinishReason::Spii)
        } else if tag == "MALFORMED_FUNCTION_CALL"@ {
            Some(FinishReason::MalformedFunctionCall)
        } else if tag == "IMAGE_SAFETY"@ {
            Some(FinishReason::ImageSafety)
        } else {
            None
        }
    }

    /// The name of the reason on the wire.
    pub fn wire_tag(&self) -> (tag: &'static str)
        ensures
            tag@ == self.tag(),
    {
        match self {
            FinishReason::FinishReasonUnspecified => "FINISH_REASON_UNSPECIFIED",
            FinishReason::Stop => "STOP",
            FinishReason::MaxTokens => "MAX_TOKENS",
            FinishReason::Safety => "SAFETY",
            FinishReason::Recitation => "RECITATION",
            FinishReason::Language => "LANGUAGE",
            FinishReason::Other => "OTHER",
            FinishReason::Blocklist => "BLOCKLIST",
            FinishReason::ProhibitedContent => "PROHIBITED_CONTENT",
            FinishReason::Spii => "SPII",
            FinishReason::MalformedFunctionCall => "MALFORMED_FUNCTION_CALL",
            FinishReason::ImageSafety => "IMAGE_SAFETY",
        }
    }

    /// Reads a reason from its wire name.
    pub fn from_wire_tag(tag: &str) -> (reason: Option<FinishReason>)
        ensures
            reason == FinishReason::with_tag(tag@),
    {
        if crate::text::same_text(tag, "FINISH_REASON_UNSPECIFIED") {
            Some(FinishReason::FinishReasonUnspecified)
        } else if crate::text::same_text(tag, "STOP") {
            Some(FinishReason::Stop)
        } else if crate::text::same_text(tag, "MAX_TOKENS") {
            Some(FinishReason::MaxTokens)
        } else if crate::text::same_text(tag, "SAFETY") {
            Some(FinishReason::Safety)
        } else if crate::text::same_text(tag, "RECITATION") {
            Some(FinishReason::Recitation)
        } else if crate::text::same_text(tag, "LANGUAGE") {
            Some(FinishReason::Language)
        } else if crate::text::same_text(tag, "OTHER") {
            Some(FinishReason::Other)
        } else if crate::text::same_text(tag, "BLOCKLIST") {
            Some(FinishReason::Blocklist)
        } else if crate::text::same_text(tag, "PROHIBITED_CONTENT") {
            Some(FinishReason::ProhibitedContent)
        } else if crate::text::same_text(tag, "SPII") {
            Some(FinishReason::Spii)
        } else if crate::text::same_text(tag, "MALFORMED_FUNCTION_CALL") {
            Some(FinishReason::MalformedFunctionCall)
        } else if crate::text::same_text(tag, "IMAGE_SAFETY") {
            Some(FinishReason::ImageSafety)
        } else {
            None
        }
    }

    /// What the wire names are made of: their lengths, and a character that
    /// tells apart the names of equal length.
    pub proof fn lemma_tag_shapes()
        ensures
            "FINISH_REASON_UNSPECIFIED"@.len() == 25,
            "STOP"@.len() == 4,
            "MAX_TOKENS"@.len() == 10,
            "SAFETY"@.len() == 6,
            "RECITATION"@.len() == 10,
            "LANGUAGE"@.len() == 8,
            "OTHER"@.len() == 5,
            "BLOCKLIST"@.len() == 9,
            "PROHIBITED_CONTENT"@.len() == 18,
            "SPII"@.len() == 4,
            "MALFORMED_FUNCTION_CALL"@.len() == 23,
            "IMAGE_SAFETY"@.len() == 12,
            "STOP"@[1] == 'T',
            "SPII"@[1] == 'P',
            "MAX_TOKENS"@[0] == 'M',
            "RECITATION"@[0] == 'R',
    {
        reveal_strlit("FINISH_REASON_UNSPECIFIED");
        reveal_strlit("STOP");
        reveal_strlit("MAX_TOKENS");
        reveal_strlit("SAFETY");
        reveal_strlit("RECITATION");
        reveal_strlit("LANGUAGE");
        reveal_strlit("OTHER");
        reveal_strlit("BLOCKLIST");
        reveal_strlit("PROHIBITED_CONTENT");
        reveal_strlit("SPII");
        reveal_strlit("MALFORMED_FUNCTION_CALL");
        reveal_strlit("IMAGE_SAFETY");
    }

    /// Every reason is read back from its own wire name.
    pub proof fn lemma_tag_round_trip(reason: FinishReason)
        ensures
            FinishReason::with_tag(reason.tag()) == Some(reason),
    {
        FinishReason::lemma_tag_shapes();
    }
}

/// The agnostic stop reason for a vendor finish reason. `Stop` and the
/// unspecified reason end the turn, `MaxTokens` keeps its meaning, and every
/// other reason is kept as `Other` with its wire name.
pub open spec fn stop_reason_of(reason: FinishReason) -> agnostic::StopReasonView {
    match reason {
        FinishReason::FinishReasonUnspecified => agnostic::StopReasonView::EndTurn,
        FinishReason::Stop => agnostic::StopReasonView::EndTurn,
        FinishReason::MaxTokens => agnostic::StopReasonView::MaxTokens,
        _ => agnostic::StopReasonView::Other(reason.tag()),
    }
}

impl From<FinishReason> for agnostic::StopReason {
    fn from(reason: FinishReason) -> (r: agnostic::StopReason)
        ensures
            r@ == stop_reason_of(reason),
    {
        match reason {
            FinishReason::FinishReasonUnspecified => agnostic::StopReason::EndTurn,
            FinishReason::Stop => agnostic::StopReason::EndTurn,
            FinishReason::MaxTokens => agnostic::StopReason::MaxTokens,
            _ => agnostic::StopReason::Other(reason.wire_tag().to_string()),
        }
    }
}

/// Two strings are known to be equal only through their views, so what this
/// conversion gives is stated over views, in the contract of the conversion
/// itself.
impl vstd::std_specs::convert::FromSpecImpl<FinishReason> for agnostic::StopReason {
    open spec fn obeys_from_spec() -> bool {
        false
    }

    open spec fn from_spec(reason: FinishReason) -> agnostic::StopReason {
        arbitrary()
    }
}

/// Every finish reason has exactly one stop reason: `EndTurn` for `Stop` and
/// the unspecified reason, `MaxTokens` for `MaxTokens`, and `Other` with the
/// reason's wire name for the rest, where reasons that differ keep names
/// that differ.
pub proof fn lemma_stop_reason_table(reason: FinishReason, other: FinishReason)
    ensures
        stop_reason_of(FinishReason::Stop) == agnostic::StopReasonView::EndTurn,
        stop_reason_of(FinishReason::FinishReasonUnspecified) == agnostic::StopReasonView::EndTurn,
        stop_reason_of(FinishReason::MaxTokens) == agnostic::StopReasonView::MaxTokens,
        reason != FinishReason::Stop && reason != FinishReason::FinishReasonUnspecified && reason
            != FinishReason::MaxTokens ==> stop_reason_of(reason) == agnostic::StopReasonView::Other(
            reason.tag(),
        ),
        stop_reason_of(reason) is Other && stop_reason_of(other) is Other && reason != other
            ==> stop_reason_of(reason) != stop_reason_of(other),
{
    FinishReason::lemma_tag_shapes();
}

/// How likely a piece of content is to be harmful in one category.
#[derive(Debug, Clone, PartialEq, Eq)]
pub struct SafetyRating {
    pub category: String,
    pub probability: String,
}

pub struct SafetyRatingView {
    pub category: Seq<char>,
    pub probability: Seq<char>,
}

impl View for SafetyRating {
    type V = SafetyRatingView;

    open spec fn view(&self) -> SafetyRatingView {
        SafetyRatingView { category: self.category@, probability: self.probability@ }
    }
}

impl DeepView for SafetyRating {
    type V = SafetyRatingView;

    open spec fn deep_view(&self) -> SafetyRatingView {
        self.view()
    }
}

/// One generated alternative.
#[derive(Debug, Clone, PartialEq)]
pub struct Candidate {
    pub content: Content,
    pub finish_reason: FinishReason,
    pub index: u32,
    pub safety_ratings: Vec<SafetyRating>,
}

pub struct CandidateView {
    pub content: ContentView,
    pub finish_reason: FinishReason,
    pub index: u32,
    pub safety_ratings: Seq<SafetyRatingView>,
}

impl View for Candidate {
    type V = CandidateView;

    open spec fn view(&self) -> CandidateView {
        CandidateView {
            content: self.content@,
            finish_reason: self.finish_reason,
            index: self.index,
            safety_ratings: self.safety_ratings.deep_view(),
        }
    }
}

impl DeepView for Candidate {
    type V = CandidateView;

    open spec fn deep_view(&self) -> CandidateView {
        self.view()
    }
}

/// What the vendor says about the prompt itself.
#[derive(Debug, Clone, PartialEq, Eq)]
pub struct PromptFeedback {
    pub safety_ratings: Vec<SafetyRating>,
}

pub struct PromptFeedbackView {
    pub safety_ratings: Seq<SafetyRatingView>,
}

impl View for PromptFeedback {
    type V = PromptFeedbackView;

    open spec fn view(&self) -> PromptFeedbackView {
        PromptFeedbackView { safety_ratings: self.safety_ratings.deep_view() }
    }
}

impl DeepView for PromptFeedback {
    type V = PromptFeedbackView;

    open spec fn deep_view(&self) -> PromptFeedbackView {
        self.view()
    }
}

/// The vendor's answer to a request to generate content.
#[derive(Debug, Clone, PartialEq)]
pub struct GenerateContentResponse {
    pub candidates: Vec<Candidate>,
    pub prompt_feedback: Option<PromptFeedback>,
    pub usage_metadata: Option<UsageMetadata>,
    pub model_version: String,
}

pub struct GenerateContentResponseView {
    pub candidates: Seq<CandidateView>,
    pub prompt_feedback: Option<PromptFeedbackView>,
    pub usage_metadata: Option<UsageMetadata>,
    pub model_version: Seq<char>,
}

impl View for GenerateContentResponse {
    type V = GenerateContentResponseView;

    open spec fn view(&self) -> GenerateContentResponseView {
        GenerateContentResponseView {
            candidates: self.candidates.deep_view(),
            prompt_feedback: self.prompt_feedback.deep_view(),
            usage_metadata: self.usage_metadata,
            model_version: self.model_version@,
        }
    }
}

impl DeepView for GenerateContentResponse {
    type V = GenerateContentResponseView;

    open spec fn deep_view(&self) -> GenerateContentResponseView {
        self.view()
    }
}

impl GenerateContentResponse {
    /// A response is well formed when it holds at least one candidate.
    pub open spec fn well_formed(&self) -> bool {
        self.candidates@.len() >= 1
    }
}

/// The error for a response without any candidate.
pub open spec fn no_candidate() -> GeminiErrorView {
    GeminiErrorView::InvalidResponse("the response holds no candidate"@)
}

/// Whether some block asks for a tool.
pub open spec fn has_tool_use(blocks: Seq<agnostic::MessageContentView>) -> bool {
    exists|i: int| 0 <= i < blocks.len() && #[trigger] blocks[i] is ToolUse
}

/// The stop reason of a translated answer: the finish reason's own stop
/// reason, except that a turn which ends with a request for a tool stops
/// for that tool.
pub open spec fn answer_stop_reason(
    reason: FinishReason,
    blocks: Seq<agnostic::MessageContentView>,
) -> agnostic::StopReasonView {
    if stop_reason_of(reason) is EndTurn && has_tool_use(blocks) {
        agnostic::StopReasonView::ToolUse
    } else {
        stop_reason_of(reason)
    }
}

/// The usage of a translated answer: the vendor's counts where it reports
/// them, zero where it does not.
pub open spec fn answer_usage(usage: Option<UsageMetadata>) -> agnostic::Usage {
    match usage {
        Some(counts) => usage_of(counts),
        None => agnostic::Usage { input_tokens: 0, output_tokens: 0 },
    }
}

/// The agnostic answer for a vendor response. Only the first candidate is
/// used. Its parts become the content, its index in decimal the id, its
/// role the role; the model is the version that the vendor reports. A
/// response without candidates, and a part without an agnostic form, fail
/// the whole translation.
pub open spec fn completion_of(response: GenerateContentResponseView) -> Result<
    agnostic::CompletionResponseView,
    GeminiErrorView,
> {
    if response.candidates.len() == 0 {
        Err(no_candidate())
    } else {
        let candidate = response.candidates[0];
        match blocks_of_parts(candidate.content.parts) {
            Ok(blocks) => Ok(
                agnostic::CompletionResponseView {
                    content: blocks,
                    id: crate::text::decimal(candidate.index as nat),
                    model: response.model_version,
                    role: agnostic_role(candidate.content.role),
                    stop_reason: answer_stop_reason(candidate.finish_reason, blocks),
                    stop_sequence: None,
                    message_type: "gemini"@,
                    usage: answer_usage(response.usage_metadata),
                },
            ),
            Err(e) => Err(e),
        }
    }
}

/// Whether some block asks for a tool.
pub fn holds_tool_use(blocks: &Vec<agnostic::MessageContent>) -> (found: bool)
    ensures
        found == has_tool_use(blocks.deep_view()),
{
    let mut i: usize = 0;
    while i < blocks.len()
        invariant
            i <= blocks.len(),
            forall|j: int| 0 <= j < i ==> !(#[trigger] blocks.deep_view()[j] is ToolUse),
        decreases blocks.len() - i,
    {
        match &blocks[i] {
            agnostic::MessageContent::ToolUse { .. } => {
                assert(blocks.deep_view()[i as int] is ToolUse);
                return true;
            },
            _ => {},
        }
        i += 1;
    }
    false
}

impl TryFrom<GenerateContentResponse> for agnostic::CompletionResponse {
    type Error = GeminiError;

    fn try_from(response: GenerateContentResponse) -> (r: Result<
        agnostic::CompletionResponse,
        GeminiError,
    >)
        ensures
            view_result(r) == completion_of(response@),
    {
        let mut candidates: Vec<Candidate> = response.candidates;
        if candidates.len() == 0 {
            return Err(
                GeminiError::InvalidResponse("the response holds no candidate".to_string()),
            );
        }
        let candidate: Candidate = candidates.remove(0);
        assert(candidate@ == response@.candidates[0]);
        let role: agnostic::Role = agnostic::Role::from(candidate.content.role);
        let content: Vec<agnostic::MessageContent> = match translate_parts(
            candidate.content.parts,
        ) {
            Ok(blocks) => blocks,
            Err(e) => {
                return Err(e);
            },
        };
        let ended: agnostic::StopReason = agnostic::StopReason::from(candidate.finish_reason);
        let stop_reason: agnostic::StopReason = match ended {
            agnostic::StopReason::EndTurn => {
                if holds_tool_use(&content) {
                    agnostic::StopReason::ToolUse
                } else {
                    agnostic::StopReason::EndTurn
                }
            },
            other => other,
        };
        let usage: agnostic::Usage = match response.usage_metadata {
            Some(counts) => agnostic::Usage {
                input_tokens: counts.prompt_token_count,
                output_tokens: counts.candidates_token_count,
            },
            None => agnostic::Usage { input_tokens: 0, output_tokens: 0 },
        };
        Ok(
            agnostic::CompletionResponse {
                content,
                id: crate::text::decimal_string(candidate.index),
                model: response.model_version,
                role,
                stop_reason,
                stop_sequence: None,
                message_type: "gemini".to_string(),
                usage,
            },
        )
    }
}

/// Two strings are known to be equal only through their views, so what this
/// conversion gives is stated over views, in the contract of the conversion
/// itself.
impl vstd::std_specs::convert::TryFromSpecImpl<GenerateContentResponse> for agnostic::CompletionResponse {
    open spec fn obeys_try_from_spec() -> bool {
        false
    }

    open spec fn try_from_spec(response: GenerateContentResponse) -> Result<
        agnostic::CompletionResponse,
        GeminiError,
    > {
        arbitrary()
    }
}

/// Whether every block of every message is text.
pub open spec fn only_text(messages: Seq<agnostic::MessageView>) -> bool {
    forall|i: int, j: int|
        0 <= i < messages.len() && 0 <= j < messages[i].content.len()
            ==> #[trigger] messages[i].content[j] is Text
}

/// A message of text blocks alone is translated, and mapping the content
/// back gives the message again: the same role and the same texts.
pub proof fn lemma_message_round_trip(message: agnostic::MessageView)
    requires
        forall|j: int| 0 <= j < message.content.len() ==> #[trigger] message.content[j] is Text,
    ensures
        content_of_message(message) is Ok,
        message_of_content(content_of_message(message)->Ok_0) == Ok::<
            agnostic::MessageView,
            GeminiErrorView,
        >(message),
{
    let blocks = message.content;
    assert forall|j: int| 0 <= j < blocks.len() implies part_of_block(#[trigger] blocks[j]) is Ok by {
        assert(blocks[j] is Text);
    }
    let content = content_of_message(message)->Ok_0;
    assert forall|j: int| 0 <= j < content.parts.len() implies block_of_part(
        #[trigger] content.parts[j],
    ) is Ok by {
        assert(blocks[j] is Text);
    }
    let back = blocks_of_parts(content.parts)->Ok_0;
    assert forall|j: int| 0 <= j < blocks.len() implies back[j] == blocks[j] by {
        assert(blocks[j] is Text);
    }
    assert(back =~= blocks);
}

/// A request built from text blocks alone is always translated, with one
/// content for each message, and mapping each content back gives the
/// message it came from: the role sequence and the texts are recovered
/// exactly.
pub proof fn lemma_text_round_trip(request: agnostic::CompletionRequestView)
    requires
        only_text(request.messages),
    ensures
        request_of(request) is Ok,
        request_of(request)->Ok_0.model == request.model,
        request_of(request)->Ok_0.contents.len() == request.messages.len(),
        forall|i: int|
            0 <= i < request.messages.len() ==> message_of_content(
                #[trigger] request_of(request)->Ok_0.contents[i],
            ) == Ok::<agnostic::MessageView, GeminiErrorView>(request.messages[i]),
{
    let messages = request.messages;
    assert forall|i: int| 0 <= i < messages.len() implies content_of_message(
        #[trigger] messages[i],
    ) is Ok && message_of_content(content_of_message(messages[i])->Ok_0) == Ok::<
        agnostic::MessageView,
        GeminiErrorView,
    >(messages[i]) by {
        assert forall|j: int| 0 <= j < messages[i].content.len() implies #[trigger] messages[i].content[j] is Text by {
        }
        lemma_message_round_trip(messages[i]);
    }
}

/// A request that holds a block other than text is refused as a whole, as
/// an unsupported feature.
pub proof fn lemma_unsupported_block_fails(
    request: agnostic::CompletionRequestView,
    i: int,
    j: int,
)
    requires
        0 <= i < request.messages.len(),
        0 <= j < request.messages[i].content.len(),
        !(request.messages[i].content[j] is Text),
    ensures
        request_of(request) == Err::<GenerateContentRequestView, GeminiErrorView>(
            unsupported_block(),
        ),
{
    let message = request.messages[i];
    assert(!(part_of_block(message.content[j]) is Ok));
    assert(!(content_of_message(message) is Ok));
}

/// What the proxy knows about one Gemini model.
#[derive(Debug, Clone, PartialEq, Eq)]
pub struct ModelInfo {
    pub id: String,
    pub display_name: String,
    pub description: Option<String>,
    pub input_token_limit: u32,
    pub output_token_limit: u32,
    pub supported_generation_methods: Vec<String>,
    pub temperature_range: Option<(Milli, Milli)>,
    pub top_p_range: Option<(Milli, Milli)>,
    pub top_k_range: Option<(u32, u32)>,
}

pub struct ModelInfoView {
    pub id: Seq<char>,
    pub display_name: Seq<char>,
    pub description: Option<Seq<char>>,
    pub input_token_limit: u32,
    pub output_token_limit: u32,
    pub supported_generation_methods: Seq<Seq<char>>,
    pub temperature_range: Option<(Milli, Milli)>,
    pub top_p_range: Option<(Milli, Milli)>,
    pub top_k_range: Option<(u32, u32)>,
}

impl View for ModelInfo {
    type V = ModelInfoView;

    open spec fn view(&self) -> ModelInfoView {
        ModelInfoView {
            id: self.id@,
            display_name: self.display_name@,
            description: self.description.deep_view(),
            input_token_limit: self.input_token_limit,
            output_token_limit: self.output_token_limit,
            supported_generation_methods: self.supported_generation_methods.deep_view(),
            temperature_range: self.temperature_range,
            top_p_range: self.top_p_range,
            top_k_range: self.top_k_range,
        }
    }
}

impl DeepView for ModelInfo {
    type V = ModelInfoView;

    open spec fn deep_view(&self) -> ModelInfoView {
        self.view()
    }
}

/// What callers are told about a model: its id and name, the provider
/// `google`, and the output limit as the token maximum.
pub open spec fn summary_of(model: ModelInfoView) -> agnostic::ModelInfoView {
    agnostic::ModelInfoView {
        id: model.id,
        display_name: model.display_name,
        max_tokens: model.output_token_limit,
        provider: "google"@,
    }
}

impl From<ModelInfo> for agnostic::ModelInfo {
    fn from(model: ModelInfo) -> (r: agnostic::ModelInfo)
        ensures
            r@ == summary_of(model@),
    {
        agnostic::ModelInfo {
            id: model.id,
            display_name: model.display_name,
            max_tokens: model.output_token_limit,
            provider: "google".to_string(),
        }
    }
}

/// Two strings are known to be equal only through their views, so what this
/// conversion gives is stated over views, in the contract of the conversion
/// itself.
impl vstd::std_specs::convert::FromSpecImpl<ModelInfo> for agnostic::ModelInfo {
    open spec fn obeys_from_spec() -> bool {
        false
    }

    open spec fn from_spec(model: ModelInfo) -> agnostic::ModelInfo {
        arbitrary()
    }
}

/// The generation methods that every catalogued model supports.
pub open spec fn catalog_methods() -> Seq<Seq<char>> {
    seq!["generateContent"@, "streamGenerateContent"@]
}

/// The catalogue entry of Gemini 2.0 Flash.
pub open spec fn flash_model() -> ModelInfoView {
    ModelInfoView {
        id: "gemini-2.0-flash"@,
        display_name: "Gemini 2.0 Flash"@,
        description: Some("Optimized for speed, versatile on a broad range of tasks"@),
        input_token_limit: 32_000,
        output_token_limit: 8_000,
        supported_generation_methods: catalog_methods(),
        temperature_range: Some((Milli { thousandths: 0 }, Milli { thousandths: 2000 })),
        top_p_range: Some((Milli { thousandths: 0 }, Milli { thousandths: 1000 })),
        top_k_range: Some((1u32, 40u32)),
    }
}

/// The catalogue entry of Gemini 2.0 Pro.
pub open spec fn pro_model() -> ModelInfoView {
    ModelInfoView {
        id: "gemini-2.0-pro"@,
        display_name: "Gemini 2.0 Pro"@,
        description: Some(
            "High-quality model with strong reasoning across a variety of tasks"@,
        ),
        input_token_limit: 32_000,
        output_token_limit: 16_000,
        supported_generation_methods: catalog_methods(),
        temperature_range: Some((Milli { thousandths: 0 }, Milli { thousandths: 2000 })),
        top_p_range: Some((Milli { thousandths: 0 }, Milli { thousandths: 1000 })),
        top_k_range: Some((1u32, 40u32)),
    }
}

/// The fixed catalogue of models, in the order in which it is listed.
pub open spec fn default_models() -> Seq<ModelInfoView> {
    seq![flash_model(), pro_model()]
}

fn methods() -> (methods: Vec<String>)
    ensures
        methods.deep_view() == catalog_methods(),
{
    let mut methods: Vec<String> = Vec::new();
    methods.push("generateContent".to_string());
    methods.push("streamGenerateContent".to_string());
    assert(methods.deep_view() =~= catalog_methods());
    methods
}

impl ModelInfo {
    /// The fixed catalogue of models.
    pub fn get_default_models() -> (models: Vec<ModelInfo>)
        ensures
            models.deep_view() == default_models(),
    {
        let mut models: Vec<ModelInfo> = Vec::new();
        models.push(
            ModelInfo {
                id: "gemini-2.0-flash".to_string(),
                display_name: "Gemini 2.0 Flash".to_string(),
                description: Some(
                    "Optimized for speed, versatile on a broad range of tasks".to_string(),
                ),
                input_token_limit: 32_000,
                output_token_limit: 8_000,
                supported_generation_methods: methods(),
                temperature_range: Some((Milli { thousandths: 0 }, Milli { thousandths: 2000 })),
                top_p_range: Some((Milli { thousandths: 0 }, Milli { thousandths: 1000 })),
                top_k_range: Some((1, 40)),
            },
        );
        models.push(
            ModelInfo {
                id: "gemini-2.0-pro".to_string(),
                display_name: "Gemini 2.0 Pro".to_string(),
                description: Some(
                    "High-quality model with strong reasoning across a variety of tasks".to_string(),
                ),
                input_token_limit: 32_000,
                output_token_limit: 16_000,
                supported_generation_methods: methods(),
                temperature_range: Some((Milli { thousandths: 0 }, Milli { thousandths: 2000 })),
                top_p_range: Some((Milli { thousandths: 0 }, Milli { thousandths: 1000 })),
                top_k_range: Some((1, 40)),
            },
        );
        assert(models.deep_view() =~= default_models());
        models
    }
}

/// An operation on the vendor schema itself.
#[derive(Debug, Clone, PartialEq)]
pub enum GeminiRequest {
    GenerateContent { request: GenerateContentRequest, model: String, stream: bool },
    ListModels,
}

pub enum GeminiRequestView {
    GenerateContent { request: GenerateContentRequestView, model: Seq<char>, stream: bool },
    ListModels,
}

impl View for GeminiRequest {
    type V = GeminiRequestView;

    open spec fn view(&self) -> GeminiRequestView {
        match self {
            GeminiRequest::GenerateContent { request, model, stream } => {
                GeminiRequestView::GenerateContent {
                    request: request@,
                    model: model@,
                    stream: *stream,
                }
            },
            GeminiRequest::ListModels => GeminiRequestView::ListModels,
        }
    }
}

/// The answer to an operation on the vendor schema itself.
#[derive(Debug, Clone, PartialEq)]
pub enum GeminiResponse {
    Content { content: GenerateContentResponse },
    ListModels { models: Vec<ModelInfo> },
    Error { error: String },
}

pub enum GeminiResponseView {
    Content { content: GenerateContentResponseView },
    ListModels { models: Seq<ModelInfoView> },
    Error { error: Seq<char> },
}

impl View for GeminiResponse {
    type V = GeminiResponseView;

    open spec fn view(&self) -> GeminiResponseView {
        match self {
            GeminiResponse::Content { content } => GeminiResponseView::Content { content: content@ },
            GeminiResponse::ListModels { models } => GeminiResponseView::ListModels {
                models: models.deep_view(),
            },
            GeminiResponse::Error { error } => GeminiResponseView::Error { error: error@ },
        }
    }
}

} // verus!
