use google_proxy::agnostic::{
    CompletionRequest, CompletionResponse, Message, MessageContent, ModelInfo, ProxyRequest,
    ProxyResponse, Role, StopReason, Usage,
};
use google_proxy::api::gemini::RetryConfig;
use google_proxy::api::GeminiClient;
use google_proxy::handlers::message::{
    conclude_generation, handle_request, reject_request, Dispatch,
};
use google_proxy::milli::Milli;
use google_proxy::types::gemini;
use google_proxy::types::gemini::{
    Candidate, Content, ContentPart, FinishReason, GeminiError, GenerateContentRequest,
    GenerateContentResponse,
};
use google_proxy::types::state::{InitConfig, State};

fn policy() -> RetryConfig {
    RetryConfig {
        max_retries: 9,
        base_delay_ms: 1,
        max_delay_ms: 2,
        backoff_multiplier: Milli::whole(1),
    }
}

fn state() -> State {
    let init = InitConfig {
        default_model: None,
        max_cache_size: None,
        timeout_ms: None,
        retry_config: Some(policy()),
    };
    State::new("actor".to_string(), "secret".to_string(), None, Some(init))
}

fn text(t: &str) -> MessageContent {
    MessageContent::Text { text: t.to_string() }
}

#[test]
fn list_models_is_answered_at_once() {
    let dispatch = handle_request(ProxyRequest::ListModels, &state());
    assert_eq!(
        dispatch,
        Dispatch::Reply(ProxyResponse::ListModels {
            models: vec![
                ModelInfo {
                    id: "gemini-2.0-flash".to_string(),
                    display_name: "Gemini 2.0 Flash".to_string(),
                    max_tokens: 8_000,
                    provider: "google".to_string(),
                },
                ModelInfo {
                    id: "gemini-2.0-pro".to_string(),
                    display_name: "Gemini 2.0 Pro".to_string(),
                    max_tokens: 16_000,
                    provider: "google".to_string(),
                },
            ]
        })
    );
}

#[test]
fn completion_request_asks_for_a_call() {
    let request = CompletionRequest {
        model: "gemini-2.0-flash".to_string(),
        messages: vec![Message { role: Role::User, content: vec![text("hi")] }],
        max_tokens: 100,
        system: None,
    };
    let dispatch = handle_request(ProxyRequest::GenerateCompletion { request }, &state());
    assert_eq!(
        dispatch,
        Dispatch::Generate {
            client: GeminiClient::new_with_retry_config("secret".to_string(), policy()),
            request: GenerateContentRequest {
                model: "gemini-2.0-flash".to_string(),
                contents: vec![Content {
                    parts: vec![ContentPart::Text { text: "hi".to_string() }],
                    role: gemini::Role::User,
                }],
                generation_config: None,
                system_instruction: None,
            },
        }
    );
}

#[test]
fn the_state_policy_governs_the_call() {
    let request = || CompletionRequest {
        model: "m".to_string(),
        messages: vec![Message { role: Role::User, content: vec![text("hi")] }],
        max_tokens: 1,
        system: None,
    };
    let mut none = state();
    none.config.retry_config.max_retries = 0;
    match handle_request(ProxyRequest::GenerateCompletion { request: request() }, &none) {
        Dispatch::Generate { client, .. } => {
            assert_eq!(client.retry_config.max_retries, 0);
            assert_eq!(client.api_key, "secret");
        }
        other => panic!("unexpected dispatch: {:?}", other),
    }
    let plain = State::new("actor".to_string(), "secret".to_string(), None, None);
    match handle_request(ProxyRequest::GenerateCompletion { request: request() }, &plain) {
        Dispatch::Generate { client, .. } => {
            assert_eq!(client, GeminiClient::new("secret".to_string()));
        }
        other => panic!("unexpected dispatch: {:?}", other),
    }
}

#[test]
fn unsupported_content_is_answered_without_a_call() {
    let request = CompletionRequest {
        model: "gemini-2.0-flash".to_string(),
        messages: vec![Message {
            role: Role::User,
            content: vec![
                text("hi"),
                MessageContent::ToolResult { tool_use_id: "t".to_string(), is_error: None },
            ],
        }],
        max_tokens: 100,
        system: None,
    };
    let dispatch = handle_request(ProxyRequest::GenerateCompletion { request }, &state());
    assert_eq!(
        dispatch,
        Dispatch::Reply(ProxyResponse::Error {
            error:
                "Failed to convert request: UnsupportedFeature: only text is available right now"
                    .to_string()
        })
    );
}

#[test]
fn failed_call_becomes_an_error_response() {
    let outcome = Err(GeminiError::ApiError { status: 503, message: "busy".to_string() });
    assert_eq!(
        conclude_generation(outcome),
        Ok(ProxyResponse::Error {
            error: "Failed to generate content: ApiError (status 503): busy".to_string()
        })
    );
    assert_eq!(
        conclude_generation(Err(GeminiError::HttpError("down".to_string()))),
        Ok(ProxyResponse::Error { error: "Failed to generate content: HttpError: down".to_string() })
    );
}

fn answer(parts: Vec<ContentPart>) -> GenerateContentResponse {
    GenerateContentResponse {
        candidates: vec![Candidate {
            content: Content { parts, role: gemini::Role::Model },
            finish_reason: FinishReason::Stop,
            index: 0,
            safety_ratings: vec![],
        }],
        prompt_feedback: None,
        usage_metadata: None,
        model_version: "gemini-2.0-flash".to_string(),
    }
}

#[test]
fn answer_becomes_a_completion() {
    let outcome = Ok(answer(vec![ContentPart::Text { text: "hello".to_string() }]));
    assert_eq!(
        conclude_generation(outcome),
        Ok(ProxyResponse::Completion {
            completion: CompletionResponse {
                content: vec![text("hello")],
                id: "0".to_string(),
                model: "gemini-2.0-flash".to_string(),
                role: Role::Assistant,
                stop_reason: StopReason::EndTurn,
                stop_sequence: None,
                message_type: "gemini".to_string(),
                usage: Usage { input_tokens: 0, output_tokens: 0 },
            }
        })
    );
}

#[test]
fn untranslatable_answer_is_a_hard_failure() {
    let outcome = Ok(answer(vec![ContentPart::InlineData {
        mime_type: "image/png".to_string(),
        data: "AAAA".to_string(),
    }]));
    assert_eq!(
        conclude_generation(outcome),
        Err("Failed to convert content: UnsupportedFeature: only text and tool calls are available right now".to_string())
    );
    let mut empty = answer(vec![]);
    empty.candidates.clear();
    assert_eq!(
        conclude_generation(Ok(empty)),
        Err("Failed to convert content: InvalidResponse: the response holds no candidate".to_string())
    );
}

#[test]
fn unreadable_request_gets_a_structured_error() {
    assert_eq!(
        reject_request("expected value at line 1 column 1"),
        ProxyResponse::Error {
            error: "Invalid request format: expected value at line 1 column 1".to_string()
        }
    );
    assert_eq!(
        reject_request(""),
        ProxyResponse::Error { error: "Invalid request format: ".to_string() }
    );
}
