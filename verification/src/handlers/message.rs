//! The dispatcher: which operation a request asks for, and what the proxy
//! answers.

use crate::agnostic::{
    CompletionRequestView, CompletionResponse, ModelInfoView, ProxyRequest, ProxyRequestView,
    ProxyResponse, ProxyResponseView,
};
use crate::api::gemini::{GeminiClient, GeminiClientView, api_base_url};
use crate::agnostic;
use crate::types::gemini::{
    GeminiError, GeminiErrorView, GenerateContentRequest, GenerateContentRequestView,
    GenerateContentResponse, GenerateContentResponseView, ModelInfo, completion_of, default_models,
    lemma_unsupported_block_fails, request_of, summary_of, unsupported_block, view_result,
};
use crate::types::state::{State, StateView};
use vstd::prelude::*;

verus! {

/// What the proxy does with a request.
#[derive(Debug, PartialEq)]
pub enum Dispatch {
    /// The request is answered at once.
    Reply(ProxyResponse),
    /// The request needs content from the vendor: `client` is to make the
    /// call for `request`.
    Generate { client: GeminiClient, request: GenerateContentRequest },
}

pub enum DispatchView {
    Reply(ProxyResponseView),
    Generate { client: GeminiClientView, request: GenerateContentRequestView },
}

impl View for Dispatch {
    type V = DispatchView;

    open spec fn view(&self) -> DispatchView {
        match self {
            Dispatch::Reply(response) => DispatchView::Reply(response@),
            Dispatch::Generate { client, request } => DispatchView::Generate {
                client: client@,
                request: request@,
            },
        }
    }
}

/// The answer that reports a failure: what was attempted, then the error.
pub open spec fn failure_reply(attempted: Seq<char>, error: GeminiErrorView) -> ProxyResponseView {
    ProxyResponseView::Error { error: attempted + error.description() }
}

/// The catalogue of models, as callers are told it.
pub open spec fn model_summaries() -> Seq<ModelInfoView> {
    Seq::new(default_models().len(), |i: int| summary_of(default_models()[i]))
}

/// What the proxy does with a request. The list of models is answered at
/// once. A completion request is translated: if it has no vendor form, the
/// answer is the failure; otherwise a client with the state's key and the
/// state's retry policy is to make the call.
pub open spec fn dispatch_of(request: ProxyRequestView, state: StateView) -> DispatchView {
    match request {
        ProxyRequestView::ListModels => DispatchView::Reply(
            ProxyResponseView::ListModels { models: model_summaries() },
        ),
        ProxyRequestView::GenerateCompletion { request } => match request_of(request) {
            Ok(vendor) => DispatchView::Generate {
                client: GeminiClientView {
                    api_key: state.api_key,
                    base_url: api_base_url(),
                    retry_config: state.config.retry_config,
                },
                request: vendor,
            },
            Err(e) => DispatchView::Reply(failure_reply("Failed to convert request: "@, e)),
        },
    }
}

/// A completion request that holds a block other than text is answered at
/// once with an error: no client is handed out, so no call is made for it.
pub proof fn lemma_unsupported_request_makes_no_call(
    request: CompletionRequestView,
    state: StateView,
    i: int,
    j: int,
)
    requires
        0 <= i < request.messages.len(),
        0 <= j < request.messages[i].content.len(),
        !(request.messages[i].content[j] is Text),
    ensures
        dispatch_of(ProxyRequestView::GenerateCompletion { request }, state) == DispatchView::Reply(
            failure_reply("Failed to convert request: "@, unsupported_block()),
        ),
{
    lemma_unsupported_block_fails(request, i, j);
}

/// What the proxy makes of the vendor's answer to a completion request. A
/// failed call is answered with the failure. An answer is translated and
/// becomes the completion; an answer that cannot be translated is a hard
/// failure of the whole exchange, with a message and no response.
pub open spec fn conclusion_of(outcome: Result<GenerateContentResponseView, GeminiErrorView>)
    -> Result<ProxyResponseView, Seq<char>> {
    match outcome {
        Err(e) => Ok(failure_reply("Failed to generate content: "@, e)),
        Ok(response) => match completion_of(response) {
            Ok(completion) => Ok(ProxyResponseView::Completion { completion }),
            Err(e) => Err("Failed to convert content: "@ + e.description()),
        },
    }
}

/// The answer to a request that could not be read.
pub open spec fn rejection_of(reason: Seq<char>) -> ProxyResponseView {
    ProxyResponseView::Error { error: "Invalid request format: "@ + reason }
}

fn failure(attempted: &str, error: &GeminiError) -> (response: ProxyResponse)
    ensures
        response@ == failure_reply(attempted@, error@),
{
    let line: String = error.describe();
    ProxyResponse::Error { error: attempted.to_string().concat(line.as_str()) }
}

fn summaries(models: Vec<ModelInfo>) -> (listed: Vec<agnostic::ModelInfo>)
    ensures
        listed.deep_view() == Seq::new(
            models.deep_view().len(),
            |i: int| summary_of(models.deep_view()[i]),
        ),
{
    let ghost given = models@;
    let ghost views = models.deep_view();
    let mut listed: Vec<agnostic::ModelInfo> = Vec::new();
    for model in it: models.into_iter()
        invariant
            it.seq() == given,
            views == Seq::new(given.len(), |i: int| given[i].deep_view()),
            listed@.len() == it.index(),
            forall|j: int| 0 <= j < it.index() ==> (#[trigger] listed@[j])@ == summary_of(views[j]),
    {
        assert(views[it.index() as int] == model@);
        listed.push(agnostic::ModelInfo::from(model));
    }
    assert(listed.deep_view() =~= Seq::new(views.len(), |i: int| summary_of(views[i])));
    listed
}

/// Decides what the proxy does with a request.
pub fn handle_request(request: ProxyRequest, state: &State) -> (dispatch: Dispatch)
    ensures
        dispatch@ == dispatch_of(request@, state@),
{
    let client: GeminiClient = GeminiClient::new_with_retry_config(
        state.api_key.clone(),
        state.config.retry_config,
    );
    match request {
        ProxyRequest::GenerateCompletion { request } => {
            match GenerateContentRequest::try_from(request) {
                Ok(vendor) => Dispatch::Generate { client, request: vendor },
                Err(e) => Dispatch::Reply(failure("Failed to convert request: ", &e)),
            }
        },
        ProxyRequest::ListModels => {
            match client.list_models() {
                Ok(models) => {
                    let listed: Vec<agnostic::ModelInfo> = summaries(models);
                    assert(listed.deep_view() =~= model_summaries());
                    Dispatch::Reply(ProxyResponse::ListModels { models: listed })
                },
                Err(e) => Dispatch::Reply(failure("Failed to list models: ", &e)),
            }
        },
    }
}

/// Decides what the proxy answers once the call for content is over.
pub fn conclude_generation(outcome: Result<GenerateContentResponse, GeminiError>) -> (r: Result<
    ProxyResponse,
    String,
>)
    ensures
        match r {
            Ok(response) => conclusion_of(view_result(outcome)) == Ok::<
                ProxyResponseView,
                Seq<char>,
            >(response@),
            Err(message) => conclusion_of(view_result(outcome)) == Err::<
                ProxyResponseView,
                Seq<char>,
            >(message@),
        },
{
    match outcome {
        Err(e) => Ok(failure("Failed to generate content: ", &e)),
        Ok(response) => match CompletionResponse::try_from(response) {
            Ok(completion) => Ok(ProxyResponse::Completion { completion }),
            Err(e) => {
                let line: String = e.describe();
                Err("Failed to convert content: ".to_string().concat(line.as_str()))
            },
        },
    }
}

/// The answer to a request that could not be read: a structured error, so
/// that the caller still gets a response.
pub fn reject_request(reason: &str) -> (response: ProxyResponse)
    ensures
        response@ == rejection_of(reason@),
{
    ProxyResponse::Error { error: "Invalid request format: ".to_string().concat(reason) }
}

} // verus!
