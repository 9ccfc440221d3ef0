use google_proxy::api::gemini::{AttemptOutcome, HttpRequest, HttpResponse, RetryConfig, RetryStep};
use google_proxy::api::GeminiClient;
use google_proxy::milli::Milli;
use google_proxy::types::gemini::{GeminiError, GenerateContentRequest};

fn answer(status: u16, body: Option<&[u8]>) -> HttpResponse {
    HttpResponse {
        status,
        headers: vec![("Content-Type".to_string(), "application/json".to_string())],
        body: body.map(|b| b.to_vec()),
    }
}

fn client() -> GeminiClient {
    GeminiClient::new("secret".to_string())
}

struct Ended {
    calls: u32,
    waits: Vec<u32>,
    result: Result<HttpResponse, GeminiError>,
}

fn drive(client: &GeminiClient, mut next: impl FnMut(u32) -> AttemptOutcome) -> Ended {
    let mut calls: u32 = 0;
    let mut waits: Vec<u32> = Vec::new();
    let mut attempt: u32 = 0;
    loop {
        calls += 1;
        match client.retry_step(attempt, next(attempt)) {
            RetryStep::Retry { delay_ms } => {
                waits.push(delay_ms);
                attempt += 1;
            }
            RetryStep::Finished(result) => {
                return Ended { calls, waits, result };
            }
        }
    }
}

#[test]
fn new_client_has_the_default_policy() {
    let client = client();
    assert_eq!(client.api_key, "secret");
    assert_eq!(client.base_url, "https://generativelanguage.googleapis.com/v1beta");
    assert_eq!(client.retry_config, RetryConfig::default());
}

#[test]
fn client_keeps_a_given_policy() {
    let policy = RetryConfig {
        max_retries: 1,
        base_delay_ms: 10,
        max_delay_ms: 15,
        backoff_multiplier: Milli::whole(4),
    };
    let client = GeminiClient::new_with_retry_config("k".to_string(), policy);
    assert_eq!(client.api_key, "k");
    assert_eq!(client.base_url, "https://generativelanguage.googleapis.com/v1beta");
    assert_eq!(client.retry_config, policy);
    assert_eq!(client.calculate_delay(0), 10);
    assert_eq!(client.calculate_delay(1), 15);
}

#[test]
fn retryable_statuses() {
    let client = client();
    for status in [429u16, 500, 502, 503, 504] {
        assert!(client.is_retryable_status(status));
    }
    for status in [0u16, 200, 201, 301, 400, 401, 403, 404, 428, 430, 501, 505, 599, u16::MAX] {
        assert!(!client.is_retryable_status(status));
    }
}

#[test]
fn calculate_delay_follows_the_policy() {
    let client = client();
    assert_eq!(client.calculate_delay(0), 1000);
    assert_eq!(client.calculate_delay(1), 2000);
    assert_eq!(client.calculate_delay(2), 4000);
    assert_eq!(client.calculate_delay(10), 30000);
}

#[test]
fn retry_exhaustion_on_503() {
    let policy = RetryConfig {
        max_retries: 3,
        base_delay_ms: 1000,
        max_delay_ms: 30000,
        backoff_multiplier: Milli::whole(2),
    };
    let client = GeminiClient::new_with_retry_config("k".to_string(), policy);
    let ended = drive(&client, |_| AttemptOutcome::Responded(answer(503, Some(b"overloaded"))));
    assert_eq!(ended.calls, 4);
    assert_eq!(ended.waits, vec![1000, 2000, 4000]);
    assert_eq!(
        ended.result,
        Err(GeminiError::ApiError { status: 503, message: "overloaded".to_string() })
    );
}

#[test]
fn exhaustion_reports_the_last_answer() {
    let ended = drive(&client(), |attempt| match attempt {
        0 => AttemptOutcome::Responded(answer(500, Some(b"first"))),
        1 => AttemptOutcome::Failed("reset".to_string()),
        2 => AttemptOutcome::Responded(answer(429, Some(b"slow down"))),
        _ => AttemptOutcome::Responded(answer(504, None)),
    });
    assert_eq!(ended.calls, 4);
    assert_eq!(ended.result, Err(GeminiError::ApiError { status: 504, message: String::new() }));
}

#[test]
fn non_retryable_status_returns_at_once() {
    let ended = drive(&client(), |_| AttemptOutcome::Responded(answer(404, Some(b"not found"))));
    assert_eq!(ended.calls, 1);
    assert_eq!(ended.waits, Vec::<u32>::new());
    assert_eq!(ended.result, Ok(answer(404, Some(b"not found"))));
}

#[test]
fn success_returns_at_once() {
    let ended = drive(&client(), |_| AttemptOutcome::Responded(answer(200, Some(b"{}"))));
    assert_eq!(ended.calls, 1);
    assert_eq!(ended.result, Ok(answer(200, Some(b"{}"))));
}

#[test]
fn transport_failure_is_retried_then_returned() {
    let ended = drive(&client(), |attempt| AttemptOutcome::Failed(format!("refused {}", attempt)));
    assert_eq!(ended.calls, 4);
    assert_eq!(ended.waits, vec![1000, 2000, 4000]);
    assert_eq!(ended.result, Err(GeminiError::HttpError("refused 3".to_string())));
}

#[test]
fn recovery_after_failures() {
    let ended = drive(&client(), |attempt| {
        if attempt < 2 {
            AttemptOutcome::Responded(answer(502, None))
        } else {
            AttemptOutcome::Responded(answer(200, Some(b"ok")))
        }
    });
    assert_eq!(ended.calls, 3);
    assert_eq!(ended.waits, vec![1000, 2000]);
    assert_eq!(ended.result, Ok(answer(200, Some(b"ok"))));
}

#[test]
fn no_retries_means_one_call() {
    let policy = RetryConfig {
        max_retries: 0,
        base_delay_ms: 1000,
        max_delay_ms: 30000,
        backoff_multiplier: Milli::whole(2),
    };
    let client = GeminiClient::new_with_retry_config("k".to_string(), policy);
    let ended = drive(&client, |_| AttemptOutcome::Responded(answer(503, None)));
    assert_eq!(ended.calls, 1);
    assert_eq!(ended.result, Err(GeminiError::ApiError { status: 503, message: String::new() }));
    let failed = drive(&client, |_| AttemptOutcome::Failed("down".to_string()));
    assert_eq!(failed.calls, 1);
    assert_eq!(failed.result, Err(GeminiError::HttpError("down".to_string())));
}

#[test]
fn attempts_past_the_last_are_not_retried() {
    let client = client();
    assert_eq!(
        client.retry_step(9, AttemptOutcome::Failed("down".to_string())),
        RetryStep::Finished(Err(GeminiError::HttpError("down".to_string())))
    );
    assert_eq!(
        client.retry_step(2, AttemptOutcome::Failed("down".to_string())),
        RetryStep::Retry { delay_ms: 4000 }
    );
    assert_eq!(
        client.retry_step(u32::MAX, AttemptOutcome::Responded(answer(429, Some(b"x")))),
        RetryStep::Finished(Err(GeminiError::ApiError { status: 429, message: "x".to_string() }))
    );
}

#[test]
fn error_message_is_the_body_decoded_lossily() {
    let client = client();
    let step = client
        .retry_step(3, AttemptOutcome::Responded(answer(500, Some(&[b'a', 0xff, b'b', 0xc3, 0xa9]))));
    assert_eq!(
        step,
        RetryStep::Finished(Err(GeminiError::ApiError {
            status: 500,
            message: "a\u{fffd}b\u{e9}".to_string()
        }))
    );
}

#[test]
fn request_is_a_post_to_the_model() {
    let client = client();
    let request = GenerateContentRequest {
        model: "gemini-2.0-flash".to_string(),
        contents: vec![],
        generation_config: None,
        system_instruction: None,
    };
    let call = client.generate_content_request(&request, b"{\"contents\":[]}".to_vec());
    assert_eq!(
        call,
        HttpRequest {
            method: "POST".to_string(),
            uri: "https://generativelanguage.googleapis.com/v1beta/models/gemini-2.0-flash:generateContent?key=secret"
                .to_string(),
            headers: vec![("Content-Type".to_string(), "application/json".to_string())],
            body: Some(b"{\"contents\":[]}".to_vec()),
        }
    );
}

#[test]
fn finished_call_gives_its_body() {
    let client = client();
    assert_eq!(client.generate_content(Ok(answer(200, Some(b"{\"a\":1}")))), Ok(b"{\"a\":1}".to_vec()));
    assert_eq!(client.generate_content(Ok(answer(200, Some(b"")))), Ok(vec![]));
}

#[test]
fn every_success_status_gives_the_body() {
    let client = client();
    for status in [200u16, 201, 204, 250, 299] {
        assert_eq!(client.generate_content(Ok(answer(status, Some(b"{}")))), Ok(b"{}".to_vec()));
    }
}

#[test]
fn finished_call_without_body_is_invalid() {
    assert_eq!(
        client().generate_content(Ok(answer(200, None))),
        Err(GeminiError::InvalidResponse("No response body".to_string()))
    );
    assert_eq!(
        client().generate_content(Ok(answer(201, None))),
        Err(GeminiError::InvalidResponse("No response body".to_string()))
    );
}

#[test]
fn finished_call_with_another_status_is_an_api_error() {
    let client = client();
    assert_eq!(
        client.generate_content(Ok(answer(404, Some(b"no such model")))),
        Err(GeminiError::ApiError { status: 404, message: "no such model".to_string() })
    );
    assert_eq!(
        client.generate_content(Ok(answer(199, None))),
        Err(GeminiError::ApiError { status: 199, message: String::new() })
    );
    assert_eq!(
        client.generate_content(Ok(answer(300, Some(b"moved")))),
        Err(GeminiError::ApiError { status: 300, message: "moved".to_string() })
    );
    assert_eq!(
        client.generate_content(Ok(answer(503, Some(b"busy")))),
        Err(GeminiError::ApiError { status: 503, message: "busy".to_string() })
    );
    assert_eq!(
        client.generate_content(Ok(answer(400, Some(&[0x80])))),
        Err(GeminiError::ApiError { status: 400, message: "\u{fffd}".to_string() })
    );
}

#[test]
fn failed_call_keeps_its_error() {
    let client = client();
    assert_eq!(
        client.generate_content(Err(GeminiError::HttpError("down".to_string()))),
        Err(GeminiError::HttpError("down".to_string()))
    );
    assert_eq!(
        client.generate_content(Err(GeminiError::ApiError {
            status: 503,
            message: "busy".to_string()
        })),
        Err(GeminiError::ApiError { status: 503, message: "busy".to_string() })
    );
}

#[test]
fn models_are_listed_without_a_call() {
    let models = client().list_models().expect("listed");
    assert_eq!(models.len(), 2);
    assert_eq!(models[0].id, "gemini-2.0-flash");
    assert_eq!(models[1].id, "gemini-2.0-pro");
}
