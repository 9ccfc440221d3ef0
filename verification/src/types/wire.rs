//! The shapes in which Gemini's answer stands on the wire, and how they
//! are resolved into the typed schema.
//!
//! On the wire a content part carries no tag: which fields it holds decides
//! what it is. A role and a finish reason are names, and some fields may be
//! absent. The functions here resolve the shape of each part, read the
//! names, and fill in the defaults.

use crate::types::gemini::{
    Candidate, CandidateView, Content, ContentPart, ContentPartView, ContentView, FinishReason,
    GeminiError, GeminiErrorView, GenerateContentResponse, GenerateContentResponseView,
    PromptFeedback, PromptFeedbackView, Role, SafetyRating, SafetyRatingView, UsageMetadata,
    no_candidate, view_result,
};
use vstd::prelude::*;

verus! {

/// A request of the model to call a function.
#[derive(Debug, Clone, PartialEq)]
pub struct FunctionCall {
    pub name: String,
    pub args: serde_json::Value,
}

pub struct FunctionCallView {
    pub name: Seq<char>,
    pub args: serde_json::Value,
}

impl DeepView for FunctionCall {
    type V = FunctionCallView;

    open spec fn deep_view(&self) -> FunctionCallView {
        FunctionCallView { name: self.name@, args: self.args }
    }
}

/// The result of a function call.
#[derive(Debug, Clone, PartialEq)]
pub struct FunctionResponse {
    pub name: String,
    pub response: serde_json::Value,
}

pub struct FunctionResponseView {
    pub name: Seq<char>,
    pub response: serde_json::Value,
}

impl DeepView for FunctionResponse {
    type V = FunctionResponseView;

    open spec fn deep_view(&self) -> FunctionResponseView {
        FunctionResponseView { name: self.name@, response: self.response }
    }
}

/// Binary data, base64-encoded, with its media type.
#[derive(Debug, Clone, PartialEq, Eq)]
pub struct Blob {
    pub mime_type: String,
    pub data: String,
}

pub struct BlobView {
    pub mime_type: Seq<char>,
    pub data: Seq<char>,
}

impl DeepView for Blob {
    type V = BlobView;

    open spec fn deep_view(&self) -> BlobView {
        BlobView { mime_type: self.mime_type@, data: self.data@ }
    }
}

/// A content part as it stands on the wire: an object in which each known
/// field is present or absent.
#[derive(Debug, Clone, PartialEq)]
pub struct WirePart {
    pub function_call: Option<FunctionCall>,
    pub text: Option<String>,
    pub inline_data: Option<Blob>,
    pub function_response: Option<FunctionResponse>,
}

pub struct WirePartView {
    pub function_call: Option<FunctionCallView>,
    pub text: Option<Seq<char>>,
    pub inline_data: Option<BlobView>,
    pub function_response: Option<FunctionResponseView>,
}

impl View for WirePart {
    type V = WirePartView;

    open spec fn view(&self) -> WirePartView {
        WirePartView {
            function_call: self.function_call.deep_view(),
            text: self.text.deep_view(),
            inline_data: self.inline_data.deep_view(),
            function_response: self.function_response.deep_view(),
        }
    }
}

impl DeepView for WirePart {
    type V = WirePartView;

    open spec fn deep_view(&self) -> WirePartView {
        self.view()
    }
}

/// The error for a part that holds none of the known shapes, or more than
/// one of them.
pub open spec fn unresolved_part() -> GeminiErrorView {
    GeminiErrorView::InvalidResponse(
        "a content part must hold exactly one of functionCall, text, inlineData and functionResponse"@,
    )
}

/// The error for a role name that names no role.
pub open spec fn unknown_role() -> GeminiErrorView {
    GeminiErrorView::InvalidResponse("unknown role"@)
}

/// The error for a finish reason name that names no reason.
pub open spec fn unknown_finish_reason() -> GeminiErrorView {
    GeminiErrorView::InvalidResponse("unknown finish reason"@)
}

/// The part that a wire object stands for. The shapes are tried in a fixed
/// order: a function call, text, inline data, a function response. A part
/// is resolved when exactly one shape is present.
pub open spec fn resolved_part(part: WirePartView) -> Result<ContentPartView, GeminiErrorView> {
    match (part.function_call, part.text, part.inline_data, part.function_response) {
        (Some(call), None, None, None) => Ok(
            ContentPartView::ToolCall { name: call.name, args: call.args },
        ),
        (None, Some(text), None, None) => Ok(ContentPartView::Text { text }),
        (None, None, Some(blob), None) => Ok(
            ContentPartView::InlineData { mime_type: blob.mime_type, data: blob.data },
        ),
        (None, None, None, Some(result)) => Ok(
            ContentPartView::ToolResult { name: result.name, response: result.response },
        ),
        _ => Err(unresolved_part()),
    }
}

impl ContentPart {
    /// Resolves the shape of a wire part.
    pub fn from_wire(part: WirePart) -> (r: Result<ContentPart, GeminiError>)
        ensures
            view_result(r) == resolved_part(part@),
    {
        match (part.function_call, part.text, part.inline_data, part.function_response) {
            (Some(call), None, None, None) => Ok(
                ContentPart::ToolCall { name: call.name, args: call.args },
            ),
            (None, Some(text), None, None) => Ok(ContentPart::Text { text }),
            (None, None, Some(blob), None) => Ok(
                ContentPart::InlineData { mime_type: blob.mime_type, data: blob.data },
            ),
            (None, None, None, Some(result)) => Ok(
                ContentPart::ToolResult { name: result.name, response: result.response },
            ),
            _ => Err(
                GeminiError::InvalidResponse(
                    "a content part must hold exactly one of functionCall, text, inlineData and functionResponse".to_string(),
                ),
            ),
        }
    }
}

/// The parts that a run of wire parts stands for, in order, or the error if
/// any of them is not resolved.
pub open spec fn resolved_parts(parts: Seq<WirePartView>) -> Result<
    Seq<ContentPartView>,
    GeminiErrorView,
> {
    if forall|i: int| 0 <= i < parts.len() ==> resolved_part(#[trigger] parts[i]) is Ok {
        Ok(Seq::new(parts.len(), |i: int| resolved_part(parts[i])->Ok_0))
    } else {
        Err(unresolved_part())
    }
}

/// The role of a content on the wire: the model's where no role is named.
pub open spec fn resolved_role(role: Option<Seq<char>>) -> Result<Role, GeminiErrorView> {
    match role {
        None => Ok(Role::Model),
        Some(tag) => match Role::with_tag(tag) {
            Some(role) => Ok(role),
            None => Err(unknown_role()),
        },
    }
}

/// A content as it stands on the wire.
#[derive(Debug, Clone, PartialEq)]
pub struct WireContent {
    pub parts: Vec<WirePart>,
    pub role: Option<String>,
}

pub struct WireContentView {
    pub parts: Seq<WirePartView>,
    pub role: Option<Seq<char>>,
}

impl View for WireContent {
    type V = WireContentView;

    open spec fn view(&self) -> WireContentView {
        WireContentView { parts: self.parts.deep_view(), role: self.role.deep_view() }
    }
}

impl DeepView for WireContent {
    type V = WireContentView;

    open spec fn deep_view(&self) -> WireContentView {
        self.view()
    }
}

/// The content that a wire content stands for. The role is read first, then
/// the parts.
pub open spec fn resolved_content(content: WireContentView) -> Result<
    ContentView,
    GeminiErrorView,
> {
    match resolved_role(content.role) {
        Err(e) => Err(e),
        Ok(role) => match resolved_parts(content.parts) {
            Err(e) => Err(e),
            Ok(parts) => Ok(ContentView { parts, role }),
        },
    }
}

/// Resolves a run of wire parts, stopping at the first that is not
/// resolved.
pub fn resolve_parts(parts: Vec<WirePart>) -> (r: Result<Vec<ContentPart>, GeminiError>)
    ensures
        match r {
            Ok(resolved) => resolved_parts(parts.deep_view()) == Ok::<
                Seq<ContentPartView>,
                GeminiErrorView,
            >(resolved.deep_view()),
            Err(e) => resolved_parts(parts.deep_view()) == Err::<
                Seq<ContentPartView>,
                GeminiErrorView,
            >(e@),
        },
{
    let ghost given = parts@;
    let ghost views = parts.deep_view();
    let mut resolved: Vec<ContentPart> = Vec::new();
    for part in it: parts.into_iter()
        invariant
            it.seq() == given,
            views == Seq::new(given.len(), |i: int| given[i].deep_view()),
            resolved@.len() == it.index(),
            forall|j: int| 0 <= j < it.index() ==> resolved_part(#[trigger] views[j]) is Ok,
            forall|j: int|
                0 <= j < it.index() ==> (#[trigger] resolved@[j])@ == resolved_part(
                    views[j],
                )->Ok_0,
    {
        let ghost at = it.index() as int;
        assert(views[at] == part@);
        match ContentPart::from_wire(part) {
            Ok(one) => {
                resolved.push(one);
            },
            Err(e) => {
                assert(!(resolved_part(views[at]) is Ok));
                return Err(e);
            },
        }
    }
    assert(resolved.deep_view() =~= resolved_parts(views)->Ok_0);
    Ok(resolved)
}

impl Content {
    /// Resolves a wire content.
    pub fn from_wire(content: WireContent) -> (r: Result<Content, GeminiError>)
        ensures
            view_result(r) == resolved_content(content@),
    {
        let role: Role = match content.role {
            None => Role::Model,
            Some(tag) => match Role::from_wire_tag(tag.as_str()) {
                Some(role) => role,
                None => {
                    return Err(GeminiError::InvalidResponse("unknown role".to_string()));
                },
            },
        };
        match resolve_parts(content.parts) {
            Ok(parts) => Ok(Content { parts, role }),
            Err(e) => Err(e),
        }
    }
}

/// A candidate as it stands on the wire.
#[derive(Debug, Clone, PartialEq)]
pub struct WireCandidate {
    pub content: WireContent,
    pub finish_reason: String,
    pub index: Option<u32>,
    pub safety_ratings: Option<Vec<SafetyRating>>,
}

pub struct WireCandidateView {
    pub content: WireContentView,
    pub finish_reason: Seq<char>,
    pub index: Option<u32>,
    pub safety_ratings: Option<Seq<SafetyRatingView>>,
}

impl View for WireCandidate {
    type V = WireCandidateView;

    open spec fn view(&self) -> WireCandidateView {
        WireCandidateView {
            content: self.content@,
            finish_reason: self.finish_reason@,
            index: self.index,
            safety_ratings: self.safety_ratings.deep_view(),
        }
    }
}

impl DeepView for WireCandidate {
    type V = WireCandidateView;

    open spec fn deep_view(&self) -> WireCandidateView {
        self.view()
    }
}

/// The candidate that a wire candidate stands for. The content is resolved
/// first, then the finish reason is read. An absent index is 0, and absent
/// safety ratings are an empty list.
pub open spec fn resolved_candidate(candidate: WireCandidateView) -> Result<
    CandidateView,
    GeminiErrorView,
> {
    match resolved_content(candidate.content) {
        Err(e) => Err(e),
        Ok(content) => match FinishReason::with_tag(candidate.finish_reason) {
            None => Err(unknown_finish_reason()),
            Some(finish_reason) => Ok(
                CandidateView {
                    content,
                    finish_reason,
                    index: match candidate.index {
                        Some(index) => index,
                        None => 0,
                    },
                    safety_ratings: match candidate.safety_ratings {
                        Some(ratings) => ratings,
                        None => Seq::empty(),
                    },
                },
            ),
        },
    }
}

impl Candidate {
    /// Resolves a wire candidate.
    pub fn from_wire(candidate: WireCandidate) -> (r: Result<Candidate, GeminiError>)
        ensures
            view_result(r) == resolved_candidate(candidate@),
    {
        let content: Content = match Content::from_wire(candidate.content) {
            Ok(content) => content,
            Err(e) => {
                return Err(e);
            },
        };
        let finish_reason: FinishReason = match FinishReason::from_wire_tag(
            candidate.finish_reason.as_str(),
        ) {
            Some(reason) => reason,
            None => {
                return Err(GeminiError::InvalidResponse("unknown finish reason".to_string()));
            },
        };
        let index: u32 = match candidate.index {
            Some(index) => index,
            None => 0,
        };
        let safety_ratings: Vec<SafetyRating> = match candidate.safety_ratings {
            Some(ratings) => ratings,
            None => {
                let none: Vec<SafetyRating> = Vec::new();
                assert(none.deep_view() =~= Seq::<SafetyRatingView>::empty());
                none
            },
        };
        Ok(Candidate { content, finish_reason, index, safety_ratings })
    }
}

/// The candidates that a run of wire candidates stands for, in order, or
/// the error of the first one that is not resolved.
pub open spec fn resolved_candidates(candidates: Seq<WireCandidateView>) -> Result<
    Seq<CandidateView>,
    GeminiErrorView,
>
    decreases candidates.len(),
{
    if candidates.len() == 0 {
        Ok(Seq::empty())
    } else {
        match resolved_candidates(candidates.drop_last()) {
            Err(e) => Err(e),
            Ok(before) => match resolved_candidate(candidates.last()) {
                Err(e) => Err(e),
                Ok(last) => Ok(before.push(last)),
            },
        }
    }
}

/// A response as it stands on the wire.
#[derive(Debug, Clone, PartialEq)]
pub struct WireResponse {
    pub candidates: Vec<WireCandidate>,
    pub prompt_feedback: Option<PromptFeedback>,
    pub usage_metadata: Option<UsageMetadata>,
    pub model_version: String,
}

pub struct WireResponseView {
    pub candidates: Seq<WireCandidateView>,
    pub prompt_feedback: Option<PromptFeedbackView>,
    pub usage_metadata: Option<UsageMetadata>,
    pub model_version: Seq<char>,
}

impl View for WireResponse {
    type V = WireResponseView;

    open spec fn view(&self) -> WireResponseView {
        WireResponseView {
            candidates: self.candidates.deep_view(),
            prompt_feedback: self.prompt_feedback.deep_view(),
            usage_metadata: self.usage_metadata,
            model_version: self.model_version@,
        }
    }
}

/// The response that a wire response stands for. A response without
/// candidates is refused; otherwise every candidate is resolved, in order.
pub open spec fn resolved_response(response: WireResponseView) -> Result<
    GenerateContentResponseView,
    GeminiErrorView,
> {
    if response.candidates.len() == 0 {
        Err(no_candidate())
    } else {
        match resolved_candidates(response.candidates) {
            Err(e) => Err(e),
            Ok(candidates) => Ok(
                GenerateContentResponseView {
                    candidates,
                    prompt_feedback: response.prompt_feedback,
                    usage_metadata: response.usage_metadata,
                    model_version: response.model_version,
                },
            ),
        }
    }
}

/// Resolving keeps the number of candidates.
pub proof fn lemma_resolved_candidates_len(candidates: Seq<WireCandidateView>)
    ensures
        resolved_candidates(candidates) is Ok ==> resolved_candidates(candidates)->Ok_0.len()
            == candidates.len(),
    decreases candidates.len(),
{
    if candidates.len() > 0 {
        lemma_resolved_candidates_len(candidates.drop_last());
    }
}

/// Resolves a run of wire candidates, stopping at the first that is not
/// resolved.
pub fn resolve_candidates(candidates: Vec<WireCandidate>) -> (r: Result<
    Vec<Candidate>,
    GeminiError,
>)
    ensures
        match r {
            Ok(resolved) => resolved_candidates(candidates.deep_view()) == Ok::<
                Seq<CandidateView>,
                GeminiErrorView,
            >(resolved.deep_view()),
            Err(e) => resolved_candidates(candidates.deep_view()) == Err::<
                Seq<CandidateView>,
                GeminiErrorView,
            >(e@),
        },
{
    let ghost given = candidates@;
    let ghost views = candidates.deep_view();
    let mut resolved: Vec<Candidate> = Vec::new();
    assert(views.take(0) =~= Seq::<WireCandidateView>::empty());
    assert(resolved.deep_view() =~= Seq::<CandidateView>::empty());
    for candidate in it: candidates.into_iter()
        invariant
            it.seq() == given,
            views == Seq::new(given.len(), |i: int| given[i].deep_view()),
            resolved_candidates(views.take(it.index() as int)) == Ok::<
                Seq<CandidateView>,
                GeminiErrorView,
            >(resolved.deep_view()),
    {
        let ghost at = it.index() as int;
        let ghost before = resolved.deep_view();
        assert(views[at] == candidate@);
        assert(views.take(at + 1).drop_last() =~= views.take(at));
        assert(views.take(at + 1).last() == views[at]);
        match Candidate::from_wire(candidate) {
            Ok(one) => {
                resolved.push(one);
                assert(resolved.deep_view() =~= before.push(one@));
            },
            Err(e) => {
                proof {
                    lemma_failure_stays(views, at + 1);
                }
                return Err(e);
            },
        }
    }
    assert(views.take(given.len() as int) =~= views);
    Ok(resolved)
}

/// Once a prefix of the candidates fails, the whole run fails with the
/// same error.
pub proof fn lemma_failure_stays(candidates: Seq<WireCandidateView>, n: int)
    requires
        0 <= n <= candidates.len(),
        resolved_candidates(candidates.take(n)) is Err,
    ensures
        resolved_candidates(candidates) == resolved_candidates(candidates.take(n)),
    decreases candidates.len() - n,
{
    if n < candidates.len() {
        assert(candidates.take(n + 1).drop_last() =~= candidates.take(n));
        lemma_failure_stays(candidates, n + 1);
    } else {
        assert(candidates.take(n) =~= candidates);
    }
}

impl GenerateContentResponse {
    /// Resolves a wire response. What comes out is well formed.
    pub fn from_wire(response: WireResponse) -> (r: Result<GenerateContentResponse, GeminiError>)
        ensures
            view_result(r) == resolved_response(response@),
            r matches Ok(resolved) ==> resolved.well_formed(),
    {
        if response.candidates.len() == 0 {
            return Err(
                GeminiError::InvalidResponse("the response holds no candidate".to_string()),
            );
        }
        proof {
            lemma_resolved_candidates_len(response.candidates.deep_view());
        }
        match resolve_candidates(response.candidates) {
            Ok(candidates) => Ok(
                GenerateContentResponse {
                    candidates,
                    prompt_feedback: response.prompt_feedback,
                    usage_metadata: response.usage_metadata,
                    model_version: response.model_version,
                },
            ),
            Err(e) => Err(e),
        }
    }
}

} // verus!
