//! The client for the Gemini API: which request a call sends, how a failed
//! attempt is retried, and what the final answer means.
//!
//! The client performs no network call itself. Its caller sends the request
//! that the client builds, reports how each attempt went, waits as long as
//! the client says, and hands over the answer at the end.

use crate::text::{lossy_text, utf8_lossy};
use crate::types::gemini::{
    GeminiError, GeminiErrorView, GenerateContentRequest, ModelInfo, default_models,
};
use crate::types::state::default_retry;
use vstd::prelude::*;

pub use crate::types::state::RetryConfig;

verus! {

/// An HTTP request, ready to be sent.
#[derive(Debug, Clone, PartialEq, Eq)]
pub struct HttpRequest {
    pub method: String,
    pub uri: String,
    pub headers: Vec<(String, String)>,
    pub body: Option<Vec<u8>>,
}

pub struct HttpRequestView {
    pub method: Seq<char>,
    pub uri: Seq<char>,
    pub headers: Seq<(Seq<char>, Seq<char>)>,
    pub body: Option<Seq<u8>>,
}

impl View for HttpRequest {
    type V = HttpRequestView;

    open spec fn view(&self) -> HttpRequestView {
        HttpRequestView {
            method: self.method@,
            uri: self.uri@,
            headers: self.headers.deep_view(),
            body: match self.body {
                Some(bytes) => Some(bytes@),
                None => None,
            },
        }
    }
}

/// An HTTP response, as it was received.
#[derive(Debug, Clone, PartialEq, Eq)]
pub struct HttpResponse {
    pub status: u16,
    pub headers: Vec<(String, String)>,
    pub body: Option<Vec<u8>>,
}

pub struct HttpResponseView {
    pub status: u16,
    pub headers: Seq<(Seq<char>, Seq<char>)>,
    pub body: Option<Seq<u8>>,
}

impl View for HttpResponse {
    type V = HttpResponseView;

    open spec fn view(&self) -> HttpResponseView {
        HttpResponseView {
            status: self.status,
            headers: self.headers.deep_view(),
            body: match self.body {
                Some(bytes) => Some(bytes@),
                None => None,
            },
        }
    }
}

/// How one network call went.
#[derive(Debug, Clone, PartialEq, Eq)]
pub enum AttemptOutcome {
    /// The call itself failed: no response was received.
    Failed(String),
    /// A response was received, whatever its status.
    Responded(HttpResponse),
}

pub enum AttemptOutcomeView {
    Failed(Seq<char>),
    Responded(HttpResponseView),
}

impl View for AttemptOutcome {
    type V = AttemptOutcomeView;

    open spec fn view(&self) -> AttemptOutcomeView {
        match self {
            AttemptOutcome::Failed(reason) => AttemptOutcomeView::Failed(reason@),
            AttemptOutcome::Responded(response) => AttemptOutcomeView::Responded(response@),
        }
    }
}

/// What follows one attempt.
#[derive(Debug, PartialEq, Eq)]
pub enum RetryStep {
    /// Wait this long, then send the same request again.
    Retry { delay_ms: u32 },
    /// The call is over, with this result.
    Finished(Result<HttpResponse, GeminiError>),
}

pub enum RetryStepView {
    Retry { delay_ms: nat },
    Finished(Result<HttpResponseView, GeminiErrorView>),
}

impl View for RetryStep {
    type V = RetryStepView;

    open spec fn view(&self) -> RetryStepView {
        match self {
            RetryStep::Retry { delay_ms } => RetryStepView::Retry { delay_ms: *delay_ms as nat },
            RetryStep::Finished(Ok(response)) => RetryStepView::Finished(Ok(response@)),
            RetryStep::Finished(Err(error)) => RetryStepView::Finished(Err(error@)),
        }
    }
}

/// Whether a response with this status is worth another attempt: too many
/// requests, and the server errors 500, 502, 503 and 504.
pub open spec fn is_retryable(status: u16) -> bool {
    status == 429 || status == 500 || status == 502 || status == 503 || status == 504
}

/// The text of a response body, for an error message: the body decoded as
/// UTF-8, lossily; nothing where there is no body.
pub open spec fn body_text(body: Option<Seq<u8>>) -> Seq<char> {
    match body {
        Some(bytes) => utf8_lossy(bytes),
        None => Seq::empty(),
    }
}

/// What follows the attempt with the number `attempt` (the first one is 0).
/// A failed call, and a response with a retryable status, are tried again
/// after the backoff delay while retries are left; when none is left, they
/// end the call with an error. Any other response ends the call at once and
/// is handed out as it is, whatever its status.
pub open spec fn step_of(config: RetryConfig, attempt: nat, outcome: AttemptOutcomeView)
    -> RetryStepView {
    match outcome {
        AttemptOutcomeView::Failed(reason) => {
            if attempt < config.max_retries {
                RetryStepView::Retry { delay_ms: config.delay_spec(attempt) }
            } else {
                RetryStepView::Finished(Err(GeminiErrorView::HttpError(reason)))
            }
        },
        AttemptOutcomeView::Responded(response) => {
            if !is_retryable(response.status) {
                RetryStepView::Finished(Ok(response))
            } else if attempt < config.max_retries {
                RetryStepView::Retry { delay_ms: config.delay_spec(attempt) }
            } else {
                RetryStepView::Finished(
                    Err(
                        GeminiErrorView::ApiError {
                            status: response.status,
                            message: body_text(response.body),
                        },
                    ),
                )
            }
        },
    }
}

/// How a whole call goes.
pub struct Run {
    /// How many network calls were made.
    pub calls: nat,
    /// The result, once the call is over.
    pub result: Option<Result<HttpResponseView, GeminiErrorView>>,
}

/// How a call goes from the attempt `attempt` on, when its network calls
/// have the given outcomes, one after the other. The call makes one
/// network call per attempt and stops at the first attempt that finishes
/// it; with too few outcomes it is still under way.
pub open spec fn run_from(config: RetryConfig, attempt: nat, outcomes: Seq<AttemptOutcomeView>)
    -> Run
    decreases outcomes.len(),
{
    if outcomes.len() == 0 {
        Run { calls: 0, result: None }
    } else {
        match step_of(config, attempt, outcomes[0]) {
            RetryStepView::Finished(result) => Run { calls: 1, result: Some(result) },
            RetryStepView::Retry { .. } => {
                let rest = run_from(config, attempt + 1, outcomes.drop_first());
                Run { calls: rest.calls + 1, result: rest.result }
            },
        }
    }
}

/// How a whole call goes, from its first attempt.
pub open spec fn run(config: RetryConfig, outcomes: Seq<AttemptOutcomeView>) -> Run {
    run_from(config, 0, outcomes)
}

/// Whether an attempt with this outcome is tried again while retries are
/// left: the call failed, or the response has a retryable status.
pub open spec fn is_failure(outcome: AttemptOutcomeView) -> bool {
    match outcome {
        AttemptOutcomeView::Failed(_) => true,
        AttemptOutcomeView::Responded(response) => is_retryable(response.status),
    }
}

/// The error that ends a call when its last attempt has this outcome: the
/// failure as it was reported, or the response's status with its body.
pub open spec fn last_error(outcome: AttemptOutcomeView) -> GeminiErrorView {
    match outcome {
        AttemptOutcomeView::Failed(reason) => GeminiErrorView::HttpError(reason),
        AttemptOutcomeView::Responded(response) => GeminiErrorView::ApiError {
            status: response.status,
            message: body_text(response.body),
        },
    }
}

/// While every attempt fails, a call that stands at the attempt `attempt`
/// makes one network call for each attempt that is left, and ends with the
/// error of the last one.
pub proof fn lemma_failing_run_from(
    config: RetryConfig,
    attempt: nat,
    outcomes: Seq<AttemptOutcomeView>,
)
    requires
        attempt <= config.max_retries,
        outcomes.len() > config.max_retries - attempt,
        forall|i: int| 0 <= i < outcomes.len() ==> is_failure(#[trigger] outcomes[i]),
    ensures
        run_from(config, attempt, outcomes).calls == config.max_retries - attempt + 1,
        run_from(config, attempt, outcomes).result == Some(
            Err::<HttpResponseView, GeminiErrorView>(
                last_error(outcomes[config.max_retries - attempt]),
            ),
        ),
    decreases outcomes.len(),
{
    assert(is_failure(outcomes[0]));
    if attempt < config.max_retries {
        let rest = outcomes.drop_first();
        assert forall|i: int| 0 <= i < rest.len() implies is_failure(#[trigger] rest[i]) by {
            assert(rest[i] == outcomes[i + 1]);
        }
        lemma_failing_run_from(config, attempt + 1, rest);
        assert(rest[config.max_retries - (attempt + 1)] == outcomes[config.max_retries
            - attempt]);
    }
}

/// When every attempt fails, by a failed call or by a retryable status, a
/// call makes exactly `max_retries + 1` network calls, and then ends with
/// the error of the last attempt.
pub proof fn lemma_failing_exhaustion(config: RetryConfig, outcomes: Seq<AttemptOutcomeView>)
    requires
        outcomes.len() > config.max_retries,
        forall|i: int| 0 <= i < outcomes.len() ==> is_failure(#[trigger] outcomes[i]),
    ensures
        run(config, outcomes).calls == config.max_retries + 1,
        run(config, outcomes).result == Some(
            Err::<HttpResponseView, GeminiErrorView>(
                last_error(outcomes[config.max_retries as int]),
            ),
        ),
{
    lemma_failing_run_from(config, 0, outcomes);
}

/// Whether an outcome is a response with a retryable status.
pub open spec fn is_retryable_response(outcome: AttemptOutcomeView) -> bool {
    outcome matches AttemptOutcomeView::Responded(response) && is_retryable(response.status)
}

/// When the vendor keeps answering with a retryable status, a call makes
/// exactly `max_retries + 1` network calls, and then ends with the error of
/// the last answer.
pub proof fn lemma_retryable_exhaustion(config: RetryConfig, outcomes: Seq<AttemptOutcomeView>)
    requires
        outcomes.len() > config.max_retries,
        forall|i: int| 0 <= i < outcomes.len() ==> is_retryable_response(#[trigger] outcomes[i]),
    ensures
        run(config, outcomes).calls == config.max_retries + 1,
        run(config, outcomes).result == Some(
            Err::<HttpResponseView, GeminiErrorView>(
                GeminiErrorView::ApiError {
                    status: outcomes[config.max_retries as int]->Responded_0.status,
                    message: body_text(outcomes[config.max_retries as int]->Responded_0.body),
                },
            ),
        ),
{
    assert forall|i: int| 0 <= i < outcomes.len() implies is_failure(#[trigger] outcomes[i]) by {
        assert(is_retryable_response(outcomes[i]));
    }
    lemma_failing_exhaustion(config, outcomes);
    assert(is_retryable_response(outcomes[config.max_retries as int]));
}

/// A call never makes more than `max_retries + 1` network calls, whatever
/// the outcomes are.
pub proof fn lemma_calls_bounded(
    config: RetryConfig,
    attempt: nat,
    outcomes: Seq<AttemptOutcomeView>,
)
    requires
        attempt <= config.max_retries,
    ensures
        run_from(config, attempt, outcomes).calls <= config.max_retries - attempt + 1,
        run_from(config, attempt, outcomes).calls <= outcomes.len(),
    decreases outcomes.len(),
{
    if outcomes.len() > 0 && attempt < config.max_retries {
        lemma_calls_bounded(config, attempt + 1, outcomes.drop_first());
    }
}

/// A response whose status is not retryable ends the call at once: one
/// network call, and the response is the result, whatever its status.
pub proof fn lemma_first_answer_ends(config: RetryConfig, outcomes: Seq<AttemptOutcomeView>)
    requires
        outcomes.len() > 0,
        outcomes[0] is Responded,
        !is_retryable(outcomes[0]->Responded_0.status),
    ensures
        run(config, outcomes).calls == 1,
        run(config, outcomes).result == Some(
            Ok::<HttpResponseView, GeminiErrorView>(outcomes[0]->Responded_0),
        ),
{
}

/// A client for the Gemini API.
#[derive(Debug, Clone, PartialEq, Eq)]
pub struct GeminiClient {
    /// The key that the API asks for.
    pub api_key: String,
    /// Where the API lives.
    pub base_url: String,
    /// How failed calls are retried.
    pub retry_config: RetryConfig,
}

pub struct GeminiClientView {
    pub api_key: Seq<char>,
    pub base_url: Seq<char>,
    pub retry_config: RetryConfig,
}

impl View for GeminiClient {
    type V = GeminiClientView;

    open spec fn view(&self) -> GeminiClientView {
        GeminiClientView {
            api_key: self.api_key@,
            base_url: self.base_url@,
            retry_config: self.retry_config,
        }
    }
}

/// Where the Gemini API lives.
pub open spec fn api_base_url() -> Seq<char> {
    "https://generativelanguage.googleapis.com/v1beta"@
}

/// The address of the call that generates content with a model.
pub open spec fn generate_content_uri(base_url: Seq<char>, model: Seq<char>, api_key: Seq<char>)
    -> Seq<char> {
    base_url + "/models/"@ + model + ":generateContent?key="@ + api_key
}

/// The request that asks a model to generate content: a POST of the JSON
/// body to the model's address.
pub open spec fn generate_content_call(client: GeminiClientView, model: Seq<char>, body: Seq<u8>)
    -> HttpRequestView {
    HttpRequestView {
        method: "POST"@,
        uri: generate_content_uri(client.base_url, model, client.api_key),
        headers: seq![("Content-Type"@, "application/json"@)],
        body: Some(body),
    }
}

/// The error for an answer without a body.
pub open spec fn no_body() -> GeminiErrorView {
    GeminiErrorView::InvalidResponse("No response body"@)
}

/// Whether a status reports success: the statuses from 200 to 299.
pub open spec fn is_success(status: u16) -> bool {
    200 <= status <= 299
}

/// What the end of a call means. A failed call keeps its error. An answer
/// whose status does not report success is an API error with the body as
/// its message. An answer that reports success gives its body, and is
/// invalid without one.
pub open spec fn answer_body(finished: Result<HttpResponseView, GeminiErrorView>) -> Result<
    Seq<u8>,
    GeminiErrorView,
> {
    match finished {
        Err(e) => Err(e),
        Ok(response) => {
            if !is_success(response.status) {
                Err(
                    GeminiErrorView::ApiError {
                        status: response.status,
                        message: body_text(response.body),
                    },
                )
            } else {
                match response.body {
                    Some(bytes) => Ok(bytes),
                    None => Err(no_body()),
                }
            }
        },
    }
}

/// Decodes a body for an error message.
fn text_of_body(body: &Option<Vec<u8>>) -> (text: String)
    ensures
        text@ == body_text(
            match *body {
                Some(bytes) => Some(bytes@),
                None => None,
            },
        ),
{
    match body {
        Some(bytes) => lossy_text(bytes.as_slice()),
        None => String::new(),
    }
}

impl GeminiClient {
    /// A client with the default retry policy.
    pub fn new(api_key: String) -> (client: GeminiClient)
        ensures
            client@ == (GeminiClientView {
                api_key: api_key@,
                base_url: api_base_url(),
                retry_config: default_retry(),
            }),
    {
        GeminiClient {
            api_key,
            base_url: "https://generativelanguage.googleapis.com/v1beta".to_string(),
            retry_config: RetryConfig::default(),
        }
    }

    /// A client with a retry policy of the caller's.
    pub fn new_with_retry_config(api_key: String, retry_config: RetryConfig) -> (client:
        GeminiClient)
        ensures
            client@ == (GeminiClientView {
                api_key: api_key@,
                base_url: api_base_url(),
                retry_config,
            }),
    {
        GeminiClient {
            api_key,
            base_url: "https://generativelanguage.googleapis.com/v1beta".to_string(),
            retry_config,
        }
    }

    /// How long to wait after the attempt with the number `attempt` has
    /// failed. The wait is a function of the retry policy and the attempt
    /// alone, and never longer than the policy's longest wait.
    pub fn calculate_delay(&self, attempt: u32) -> (wait: u32)
        ensures
            wait == self.retry_config.delay_spec(attempt as nat),
            wait <= self.retry_config.max_delay_ms,
    {
        self.retry_config.delay(attempt)
    }

    /// Whether a response with this status is worth another attempt.
    pub fn is_retryable_status(&self, status: u16) -> (retryable: bool)
        ensures
            retryable == is_retryable(status),
    {
        status == 503 || status == 429 || status == 500 || status == 502 || status == 504
    }

    /// Decides what follows the attempt with the number `attempt` (the
    /// first one is 0), given how its network call went.
    pub fn retry_step(&self, attempt: u32, outcome: AttemptOutcome) -> (step: RetryStep)
        ensures
            step@ == step_of(self.retry_config, attempt as nat, outcome@),
    {
        match outcome {
            AttemptOutcome::Failed(reason) => {
                if attempt < self.retry_config.max_retries {
                    RetryStep::Retry { delay_ms: self.calculate_delay(attempt) }
                } else {
                    RetryStep::Finished(Err(GeminiError::HttpError(reason)))
                }
            },
            AttemptOutcome::Responded(response) => {
                if !self.is_retryable_status(response.status) {
                    RetryStep::Finished(Ok(response))
                } else if attempt < self.retry_config.max_retries {
                    RetryStep::Retry { delay_ms: self.calculate_delay(attempt) }
                } else {
                    let message: String = text_of_body(&response.body);
                    RetryStep::Finished(
                        Err(GeminiError::ApiError { status: response.status, message }),
                    )
                }
            },
        }
    }

    /// The models that the API offers. The list is fixed: no call is made.
    pub fn list_models(&self) -> (r: Result<Vec<ModelInfo>, GeminiError>)
        ensures
            r is Ok,
            r->Ok_0.deep_view() == default_models(),
    {
        Ok(ModelInfo::get_default_models())
    }

    /// Builds the HTTP request that asks for content: a POST of `body`, the
    /// request as JSON, to the address of the request's model.
    pub fn generate_content_request(&self, request: &GenerateContentRequest, body: Vec<u8>) -> (call:
        HttpRequest)
        ensures
            call@ == generate_content_call(self@, request.model@, body@),
    {
        let uri: String = self.base_url.clone().concat("/models/").concat(
            request.model.as_str(),
        ).concat(":generateContent?key=").concat(self.api_key.as_str());
        let mut headers: Vec<(String, String)> = Vec::new();
        headers.push(("Content-Type".to_string(), "application/json".to_string()));
        assert(headers.deep_view() =~= seq![("Content-Type"@, "application/json"@)]);
        HttpRequest { method: "POST".to_string(), uri, headers, body: Some(body) }
    }

    /// Reads the end of a call that asked for content: the body of the
    /// answer, to be read as JSON, or the error that the call ends with.
    pub fn generate_content(&self, finished: Result<HttpResponse, GeminiError>) -> (r: Result<
        Vec<u8>,
        GeminiError,
    >)
        ensures
            match r {
                Ok(bytes) => answer_body(crate::types::gemini::view_result(finished)) == Ok::<
                    Seq<u8>,
                    GeminiErrorView,
                >(bytes@),
                Err(e) => answer_body(crate::types::gemini::view_result(finished)) == Err::<
                    Seq<u8>,
                    GeminiErrorView,
                >(e@),
            },
    {
        match finished {
            Err(e) => Err(e),
            Ok(response) => {
                if response.status < 200 || response.status > 299 {
                    let message: String = text_of_body(&response.body);
                    Err(GeminiError::ApiError { status: response.status, message })
                } else {
                    match response.body {
                        Some(bytes) => Ok(bytes),
                        None => Err(GeminiError::InvalidResponse("No response body".to_string())),
                    }
                }
            },
        }
    }
}

} // verus!
