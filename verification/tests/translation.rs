use google_proxy::agnostic;
use google_proxy::agnostic::{
    CompletionRequest, CompletionResponse, Message, MessageContent, StopReason, Usage,
};
use google_proxy::milli::Milli;
use google_proxy::text::decimal_string;
use google_proxy::types::gemini::{
    holds_tool_use, translate_blocks, translate_messages, translate_parts, Candidate, Content,
    ContentPart, FinishReason, GeminiError, GenerateContentRequest, GenerateContentResponse,
    GenerationConfig, ModelInfo, Role, UsageMetadata,
};
use serde_json::Value;

fn text(t: &str) -> MessageContent {
    MessageContent::Text { text: t.to_string() }
}

fn text_part(t: &str) -> ContentPart {
    ContentPart::Text { text: t.to_string() }
}

fn unsupported_block() -> GeminiError {
    GeminiError::UnsupportedFeature("only text is available right now".to_string())
}

fn unsupported_part() -> GeminiError {
    GeminiError::UnsupportedFeature(
        "only text and tool calls are available right now".to_string(),
    )
}

fn arguments() -> Value {
    let mut map = serde_json::Map::new();
    map.insert("path".to_string(), Value::String("/tmp".to_string()));
    map.insert("depth".to_string(), Value::from(2u32));
    Value::Object(map)
}

fn tool_use() -> MessageContent {
    MessageContent::ToolUse { id: "call-1".to_string(), name: "ls".to_string(), input: arguments() }
}

fn tool_result() -> MessageContent {
    MessageContent::ToolResult { tool_use_id: "call-1".to_string(), is_error: Some(false) }
}

#[test]
fn roles_map_one_to_one() {
    assert_eq!(Role::from(agnostic::Role::User), Role::User);
    assert_eq!(Role::from(agnostic::Role::Assistant), Role::Model);
    assert_eq!(Role::from(agnostic::Role::System), Role::System);
    assert_eq!(agnostic::Role::from(Role::User), agnostic::Role::User);
    assert_eq!(agnostic::Role::from(Role::Model), agnostic::Role::Assistant);
    assert_eq!(agnostic::Role::from(Role::System), agnostic::Role::System);
    for role in [agnostic::Role::User, agnostic::Role::Assistant, agnostic::Role::System] {
        assert_eq!(agnostic::Role::from(Role::from(role)), role);
    }
}

#[test]
fn text_block_becomes_text_part() {
    assert_eq!(ContentPart::try_from(text("hello")), Ok(text_part("hello")));
    assert_eq!(ContentPart::try_from(text("")), Ok(text_part("")));
}

#[test]
fn other_blocks_have_no_vendor_form() {
    assert_eq!(ContentPart::try_from(tool_use()), Err(unsupported_block()));
    assert_eq!(ContentPart::try_from(tool_result()), Err(unsupported_block()));
}

#[test]
fn parts_map_to_blocks() {
    assert_eq!(MessageContent::try_from(text_part("hello")), Ok(text("hello")));
    assert_eq!(
        MessageContent::try_from(ContentPart::ToolCall {
            name: "ls".to_string(),
            args: arguments()
        }),
        Ok(MessageContent::ToolUse {
            id: "ls".to_string(),
            name: "ls".to_string(),
            input: arguments()
        })
    );
    assert_eq!(
        MessageContent::try_from(ContentPart::InlineData {
            mime_type: "image/png".to_string(),
            data: "AAAA".to_string()
        }),
        Err(unsupported_part())
    );
    assert_eq!(
        MessageContent::try_from(ContentPart::ToolResult {
            name: "ls".to_string(),
            response: Value::Null
        }),
        Err(unsupported_part())
    );
}

#[test]
fn runs_of_blocks_and_parts() {
    assert_eq!(translate_blocks(vec![]), Ok(vec![]));
    assert_eq!(
        translate_blocks(vec![text("a"), text("b")]),
        Ok(vec![text_part("a"), text_part("b")])
    );
    assert_eq!(translate_blocks(vec![text("a"), tool_use(), text("b")]), Err(unsupported_block()));
    assert_eq!(translate_parts(vec![]), Ok(vec![]));
    assert_eq!(
        translate_parts(vec![text_part("a"), text_part("b")]),
        Ok(vec![text("a"), text("b")])
    );
    assert_eq!(
        translate_parts(vec![
            text_part("a"),
            ContentPart::InlineData { mime_type: "x".to_string(), data: "y".to_string() }
        ]),
        Err(unsupported_part())
    );
}

#[test]
fn message_becomes_content() {
    let message = Message { role: agnostic::Role::Assistant, content: vec![text("a"), text("b")] };
    assert_eq!(
        Content::try_from(message),
        Ok(Content { parts: vec![text_part("a"), text_part("b")], role: Role::Model })
    );
    let refused = Message { role: agnostic::Role::User, content: vec![text("a"), tool_result()] };
    assert_eq!(Content::try_from(refused), Err(unsupported_block()));
}

#[test]
fn content_becomes_message() {
    let content = Content { parts: vec![text_part("a")], role: Role::System };
    assert_eq!(
        Message::try_from(content),
        Ok(Message { role: agnostic::Role::System, content: vec![text("a")] })
    );
    let refused = Content {
        parts: vec![ContentPart::ToolResult { name: "f".to_string(), response: Value::Null }],
        role: Role::User,
    };
    assert_eq!(Message::try_from(refused), Err(unsupported_part()));
}

fn conversation() -> Vec<Message> {
    vec![
        Message { role: agnostic::Role::System, content: vec![text("be brief")] },
        Message { role: agnostic::Role::User, content: vec![text("hi"), text("there")] },
        Message { role: agnostic::Role::Assistant, content: vec![] },
        Message { role: agnostic::Role::User, content: vec![text("again \u{1F600}\n")] },
    ]
}

#[test]
fn request_is_translated() {
    let request = CompletionRequest {
        model: "gemini-2.0-flash".to_string(),
        messages: conversation(),
        max_tokens: 512,
        system: Some("You are kind.".to_string()),
    };
    let vendor = GenerateContentRequest::try_from(request).expect("translated");
    assert_eq!(vendor.model, "gemini-2.0-flash");
    assert_eq!(vendor.generation_config, None);
    assert_eq!(
        vendor.system_instruction,
        Some(Content { parts: vec![text_part("You are kind.")], role: Role::System })
    );
    assert_eq!(
        vendor.contents,
        vec![
            Content { parts: vec![text_part("be brief")], role: Role::System },
            Content { parts: vec![text_part("hi"), text_part("there")], role: Role::User },
            Content { parts: vec![], role: Role::Model },
            Content { parts: vec![text_part("again \u{1F600}\n")], role: Role::User },
        ]
    );
}

#[test]
fn request_without_system_prompt_or_messages() {
    let request = CompletionRequest {
        model: "m".to_string(),
        messages: vec![],
        max_tokens: 0,
        system: None,
    };
    assert_eq!(
        GenerateContentRequest::try_from(request),
        Ok(GenerateContentRequest {
            model: "m".to_string(),
            contents: vec![],
            generation_config: None,
            system_instruction: None,
        })
    );
}

#[test]
fn text_request_round_trips() {
    let request = CompletionRequest {
        model: "m".to_string(),
        messages: conversation(),
        max_tokens: 1,
        system: None,
    };
    let vendor = GenerateContentRequest::try_from(request).expect("translated");
    let back: Vec<Message> = vendor
        .contents
        .into_iter()
        .map(|content| Message::try_from(content).expect("mapped back"))
        .collect();
    assert_eq!(back, conversation());
}

#[test]
fn request_with_unsupported_content_fails_as_a_whole() {
    let mut messages = conversation();
    messages.push(Message { role: agnostic::Role::User, content: vec![text("a"), tool_result()] });
    let request = CompletionRequest {
        model: "m".to_string(),
        messages,
        max_tokens: 1,
        system: Some("s".to_string()),
    };
    assert_eq!(GenerateContentRequest::try_from(request), Err(unsupported_block()));
    let tool = CompletionRequest {
        model: "m".to_string(),
        messages: vec![Message { role: agnostic::Role::Assistant, content: vec![tool_use()] }],
        max_tokens: 1,
        system: None,
    };
    assert_eq!(GenerateContentRequest::try_from(tool), Err(unsupported_block()));
    assert_eq!(
        translate_messages(vec![Message {
            role: agnostic::Role::User,
            content: vec![tool_result()]
        }]),
        Err(unsupported_block())
    );
}

#[test]
fn generation_config_defaults_to_nothing() {
    assert_eq!(
        GenerationConfig::default(),
        GenerationConfig {
            temperature: None,
            max_output_tokens: None,
            top_p: None,
            top_k: None,
            stop_sequences: None,
        }
    );
}

#[test]
fn usage_keeps_prompt_and_candidate_counts() {
    let usage = UsageMetadata {
        prompt_token_count: 644,
        candidates_token_count: 11,
        total_token_count: 655,
    };
    assert_eq!(Usage::try_from(usage), Ok(Usage { input_tokens: 644, output_tokens: 11 }));
}

#[test]
fn stop_reasons_follow_the_table() {
    assert_eq!(StopReason::from(FinishReason::Stop), StopReason::EndTurn);
    assert_eq!(StopReason::from(FinishReason::FinishReasonUnspecified), StopReason::EndTurn);
    assert_eq!(StopReason::from(FinishReason::MaxTokens), StopReason::MaxTokens);
    let others = [
        (FinishReason::Safety, "SAFETY"),
        (FinishReason::Recitation, "RECITATION"),
        (FinishReason::Language, "LANGUAGE"),
        (FinishReason::Other, "OTHER"),
        (FinishReason::Blocklist, "BLOCKLIST"),
        (FinishReason::ProhibitedContent, "PROHIBITED_CONTENT"),
        (FinishReason::Spii, "SPII"),
        (FinishReason::MalformedFunctionCall, "MALFORMED_FUNCTION_CALL"),
        (FinishReason::ImageSafety, "IMAGE_SAFETY"),
    ];
    for (reason, tag) in others {
        assert_eq!(StopReason::from(reason), StopReason::Other(tag.to_string()));
    }
}

fn candidate(parts: Vec<ContentPart>, reason: FinishReason, index: u32) -> Candidate {
    Candidate {
        content: Content { parts, role: Role::Model },
        finish_reason: reason,
        index,
        safety_ratings: vec![],
    }
}

fn response(candidates: Vec<Candidate>, usage: Option<UsageMetadata>) -> GenerateContentResponse {
    GenerateContentResponse {
        candidates,
        prompt_feedback: None,
        usage_metadata: usage,
        model_version: "gemini-2.0-flash-001".to_string(),
    }
}

#[test]
fn text_answer_is_translated() {
    let usage = UsageMetadata {
        prompt_token_count: 644,
        candidates_token_count: 11,
        total_token_count: 655,
    };
    let answer = response(
        vec![candidate(
            vec![text_part("Hi there! How can I help you today?\n")],
            FinishReason::Stop,
            0,
        )],
        Some(usage),
    );
    assert_eq!(
        CompletionResponse::try_from(answer),
        Ok(CompletionResponse {
            content: vec![text("Hi there! How can I help you today?\n")],
            id: "0".to_string(),
            model: "gemini-2.0-flash-001".to_string(),
            role: agnostic::Role::Assistant,
            stop_reason: StopReason::EndTurn,
            stop_sequence: None,
            message_type: "gemini".to_string(),
            usage: Usage { input_tokens: 644, output_tokens: 11 },
        })
    );
}

#[test]
fn tool_call_answer_stops_for_the_tool() {
    let call = ContentPart::ToolCall {
        name: "list_allowed_dirs".to_string(),
        args: Value::Object(serde_json::Map::new()),
    };
    let answer = response(vec![candidate(vec![text_part("a"), call], FinishReason::Stop, 7)], None);
    let completion = CompletionResponse::try_from(answer).expect("translated");
    assert_eq!(completion.stop_reason, StopReason::ToolUse);
    assert_eq!(completion.id, "7");
    assert_eq!(completion.usage, Usage { input_tokens: 0, output_tokens: 0 });
    assert_eq!(
        completion.content,
        vec![
            text("a"),
            MessageContent::ToolUse {
                id: "list_allowed_dirs".to_string(),
                name: "list_allowed_dirs".to_string(),
                input: Value::Object(serde_json::Map::new()),
            }
        ]
    );
}

#[test]
fn tool_call_keeps_other_stop_reasons() {
    let call = || ContentPart::ToolCall { name: "f".to_string(), args: Value::Null };
    let cut = response(vec![candidate(vec![call()], FinishReason::MaxTokens, 0)], None);
    assert_eq!(CompletionResponse::try_from(cut).unwrap().stop_reason, StopReason::MaxTokens);
    let blocked = response(vec![candidate(vec![call()], FinishReason::Safety, 0)], None);
    assert_eq!(
        CompletionResponse::try_from(blocked).unwrap().stop_reason,
        StopReason::Other("SAFETY".to_string())
    );
    let unspecified =
        response(vec![candidate(vec![call()], FinishReason::FinishReasonUnspecified, 0)], None);
    assert_eq!(CompletionResponse::try_from(unspecified).unwrap().stop_reason, StopReason::ToolUse);
}

#[test]
fn only_the_first_candidate_is_used() {
    let answer = response(
        vec![
            candidate(vec![text_part("first")], FinishReason::MaxTokens, 4294967295),
            candidate(
                vec![ContentPart::InlineData { mime_type: "x".to_string(), data: "y".to_string() }],
                FinishReason::Stop,
                1,
            ),
        ],
        None,
    );
    let completion = CompletionResponse::try_from(answer).expect("translated");
    assert_eq!(completion.content, vec![text("first")]);
    assert_eq!(completion.id, "4294967295");
    assert_eq!(completion.stop_reason, StopReason::MaxTokens);
}

#[test]
fn answer_role_follows_the_candidate() {
    let mut answer = response(vec![candidate(vec![], FinishReason::Stop, 0)], None);
    answer.candidates[0].content.role = Role::User;
    let completion = CompletionResponse::try_from(answer).expect("translated");
    assert_eq!(completion.role, agnostic::Role::User);
    assert_eq!(completion.content, vec![]);
    assert_eq!(completion.stop_sequence, None);
    assert_eq!(completion.message_type, "gemini");
}

#[test]
fn answer_without_candidates_is_an_error() {
    assert_eq!(
        CompletionResponse::try_from(response(vec![], None)),
        Err(GeminiError::InvalidResponse("the response holds no candidate".to_string()))
    );
}

#[test]
fn answer_with_unsupported_part_is_an_error() {
    let answer = response(
        vec![candidate(
            vec![
                text_part("a"),
                ContentPart::InlineData { mime_type: "x".to_string(), data: "y".to_string() },
            ],
            FinishReason::Stop,
            0,
        )],
        None,
    );
    assert_eq!(CompletionResponse::try_from(answer), Err(unsupported_part()));
}

#[test]
fn tool_use_is_found_anywhere() {
    assert!(!holds_tool_use(&vec![]));
    assert!(!holds_tool_use(&vec![text("a"), tool_result()]));
    assert!(holds_tool_use(&vec![text("a"), tool_result(), tool_use()]));
    assert!(holds_tool_use(&vec![tool_use(), text("a")]));
}

#[test]
fn decimal_rendering() {
    assert_eq!(decimal_string(0), "0");
    assert_eq!(decimal_string(7), "7");
    assert_eq!(decimal_string(10), "10");
    assert_eq!(decimal_string(1203), "1203");
    assert_eq!(decimal_string(u32::MAX), "4294967295");
}

#[test]
fn cloned_part_keeps_its_arguments() {
    let part = ContentPart::ToolCall { name: "ls".to_string(), args: arguments() };
    let copy = part.clone();
    assert_eq!(copy, part);
    assert_eq!(copy, ContentPart::ToolCall { name: "ls".to_string(), args: arguments() });
}

#[test]
fn json_failure_becomes_serde_error() {
    let failure = serde_json::from_str::<Value>("{\"a\": ").expect_err("not JSON");
    let printed = failure.to_string();
    assert!(!printed.is_empty());
    assert_eq!(GeminiError::from(failure), GeminiError::SerdeError(printed));
}

#[test]
fn errors_are_described_in_one_line() {
    assert_eq!(
        GeminiError::InvalidRequest("bad".to_string()).describe(),
        "InvalidRequest: bad"
    );
    assert_eq!(
        GeminiError::ApiError { status: 503, message: "overloaded".to_string() }.describe(),
        "ApiError (status 503): overloaded"
    );
    assert_eq!(GeminiError::HttpError("reset".to_string()).describe(), "HttpError: reset");
    assert_eq!(
        GeminiError::InvalidResponse("No response body".to_string()).describe(),
        "InvalidResponse: No response body"
    );
    assert_eq!(GeminiError::SerdeError("eof".to_string()).describe(), "SerdeError: eof");
    assert_eq!(unsupported_block().describe(), "UnsupportedFeature: only text is available right now");
    assert_eq!(
        GeminiError::SerializationError("x".to_string()).describe(),
        "SerializationError: x"
    );
}

#[test]
fn catalogue_lists_two_models() {
    let models = ModelInfo::get_default_models();
    assert_eq!(models.len(), 2);
    assert_eq!(
        models[0],
        ModelInfo {
            id: "gemini-2.0-flash".to_string(),
            display_name: "Gemini 2.0 Flash".to_string(),
            description: Some(
                "Optimized for speed, versatile on a broad range of tasks".to_string()
            ),
            input_token_limit: 32_000,
            output_token_limit: 8_000,
            supported_generation_methods: vec![
                "generateContent".to_string(),
                "streamGenerateContent".to_string()
            ],
            temperature_range: Some((Milli::whole(0), Milli::whole(2))),
            top_p_range: Some((Milli::whole(0), Milli::whole(1))),
            top_k_range: Some((1, 40)),
        }
    );
    assert_eq!(models[1].id, "gemini-2.0-pro");
    assert_eq!(models[1].display_name, "Gemini 2.0 Pro");
    assert_eq!(
        models[1].description,
        Some("High-quality model with strong reasoning across a variety of tasks".to_string())
    );
    assert_eq!(models[1].input_token_limit, 32_000);
    assert_eq!(models[1].output_token_limit, 16_000);
    assert_eq!(models[1].supported_generation_methods, models[0].supported_generation_methods);
    assert_eq!(models[1].temperature_range, models[0].temperature_range);
    assert_eq!(models[1].top_p_range, models[0].top_p_range);
    assert_eq!(models[1].top_k_range, Some((1, 40)));
}

#[test]
fn model_summary_names_the_provider() {
    let models = ModelInfo::get_default_models();
    let summary = agnostic::ModelInfo::from(models[1].clone());
    assert_eq!(
        summary,
        agnostic::ModelInfo {
            id: "gemini-2.0-pro".to_string(),
            display_name: "Gemini 2.0 Pro".to_string(),
            max_tokens: 16_000,
            provider: "google".to_string(),
        }
    );
}
