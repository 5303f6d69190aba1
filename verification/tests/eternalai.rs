use rustle::completion::{self, CompletionError, ModelChoice};
use rustle::embeddings::EmbeddingError;
use rustle::eternalai::{
    get_chain_id, ApiErrorResponse, ApiResponse, Choice, Client, CompletionModel,
    CompletionResponse, EmbeddingData, EmbeddingModel, EmbeddingResponse, Function, Message,
    ProviderReply, ToolCall, ToolDefinition, Usage, ETERNALAI_API_BASE_URL,
    NOUS_RESErustleH_HERMES_3_LLAMA_3_1_70B_FP8, REQUEST_TIMEOUT_SECS, TEXT_EMBEDDING_3_LARGE,
    TEXT_EMBEDDING_3_SMALL, TEXT_EMBEDDING_ADA_002, UNSLOTH_LLAMA_3_3_70B_INSTRUCT_BNB_4BIT,
};

fn client() -> Client {
    Client::new("secret-key")
}

fn usage(p: usize, t: usize) -> Usage {
    Usage { prompt_tokens: p, total_tokens: t }
}

fn message(content: Option<&str>, tool_calls: Option<Vec<ToolCall>>) -> Message {
    Message {
        role: "assistant".to_string(),
        content: content.map(|c| c.to_string()),
        tool_calls,
    }
}

fn choice(message: Message) -> Choice {
    Choice { index: 0, message, logprobs: None, finish_reason: "stop".to_string() }
}

fn tool_call(name: &str, arguments: &str) -> ToolCall {
    ToolCall {
        id: "call_1".to_string(),
        call_type: "function".to_string(),
        function: Function { name: name.to_string(), arguments: arguments.to_string() },
    }
}

fn response(choices: Vec<Choice>) -> CompletionResponse {
    CompletionResponse {
        id: "id-1".to_string(),
        object: "chat.completion".to_string(),
        created: 7,
        model: "m".to_string(),
        system_fingerprint: None,
        choices,
        usage: Some(usage(1, 2)),
        onchain_data: None,
    }
}

fn tool(name: &str) -> completion::ToolDefinition {
    completion::ToolDefinition {
        name: name.to_string(),
        description: "a tool".to_string(),
        parameters: serde_json::Value::Null,
    }
}

fn chat_message(role: &str, content: &str) -> completion::Message {
    completion::Message { role: role.to_string(), content: content.to_string() }
}

#[test]
fn chain_id_of_known_models() {
    assert_eq!(get_chain_id(NOUS_RESErustleH_HERMES_3_LLAMA_3_1_70B_FP8), Some("45762"));
    assert_eq!(get_chain_id(UNSLOTH_LLAMA_3_3_70B_INSTRUCT_BNB_4BIT), Some("45762"));
    assert_eq!(
        get_chain_id("unsloth/Llama-3.3-70B-Instruct-bnb-4bit"),
        Some("45762")
    );
}

#[test]
fn chain_id_of_unknown_model() {
    assert_eq!(get_chain_id("gpt-4"), None);
    assert_eq!(get_chain_id(""), None);
}

#[test]
fn client_settings() {
    let c = Client::from_url("abc", "http://localhost:8080");
    assert_eq!(c.base_url(), "http://localhost:8080");
    assert_eq!(c.authorization(), "Bearer abc");
    assert_eq!(c.timeout_secs(), 120);
    let d = client();
    assert_eq!(d.base_url(), ETERNALAI_API_BASE_URL);
    assert_eq!(d.base_url(), "https://api.eternalai.org/v1");
    assert_eq!(d.authorization(), "Bearer secret-key");
    assert_eq!(d.timeout_secs(), REQUEST_TIMEOUT_SECS);
}

#[test]
fn api_key_header_validity() {
    assert!(Client::accepts_api_key("sk-123_ABC"));
    assert!(Client::accepts_api_key("tab\tinside"));
    assert!(Client::accepts_api_key("caf\u{e9}"));
    assert!(!Client::accepts_api_key("line\nbreak"));
    assert!(!Client::accepts_api_key("del\u{7f}"));
}

#[test]
fn post_url_collapses_double_slashes() {
    let c = client();
    assert_eq!(c.post_url("/embeddings"), "https:/api.eternalai.org/v1/embeddings");
    assert_eq!(c.post_url("embeddings"), "https:/api.eternalai.org/v1/embeddings");
    let local = Client::from_url("k", "http://host/v1/");
    assert_eq!(local.post_url("/chat/completions"), "http:/host/v1//chat/completions");
    assert_eq!(local.post_url("chat/completions"), "http:/host/v1/chat/completions");
    let triple = Client::from_url("k", "a/");
    assert_eq!(triple.post_url("/b"), "a//b");
}

#[test]
fn usage_display() {
    assert_eq!(usage(12, 345).display_text(), "Prompt tokens: 12 Total tokens: 345");
    assert_eq!(usage(0, 10).display_text(), "Prompt tokens: 0 Total tokens: 10");
}

#[test]
fn embedding_model_dimensions() {
    let c = client();
    assert_eq!(c.embedding_model(TEXT_EMBEDDING_3_LARGE).ndims(), 3072);
    assert_eq!(c.embedding_model(TEXT_EMBEDDING_3_SMALL).ndims(), 1536);
    assert_eq!(c.embedding_model(TEXT_EMBEDDING_ADA_002).ndims(), 1536);
    assert_eq!(c.embedding_model("some-other-model").ndims(), 0);
    let m = c.embedding_model_with_ndims("some-other-model", 42);
    assert_eq!(m.ndims(), 42);
    assert_eq!(m.model, "some-other-model");
    assert_eq!(m.client().authorization(), "Bearer secret-key");
}

#[test]
fn embeddings_request_shape() {
    let m = EmbeddingModel::new(client(), "text-embedding-3-large", 3072);
    let req = m.embeddings_request(vec!["a".to_string(), "b".to_string()]);
    assert_eq!(req.url, "https:/api.eternalai.org/v1/embeddings");
    assert_eq!(req.model, "text-embedding-3-large");
    assert_eq!(req.input, vec!["a".to_string(), "b".to_string()]);
}

fn embedding_reply(vectors: Vec<Vec<i32>>) -> ProviderReply<EmbeddingResponse<Vec<i32>>> {
    let data = vectors
        .into_iter()
        .enumerate()
        .map(|(i, v)| EmbeddingData { object: "embedding".to_string(), embedding: v, index: i })
        .collect();
    ProviderReply::Success(ApiResponse::Payload(EmbeddingResponse {
        object: "list".to_string(),
        data,
        model: "m".to_string(),
        usage: usage(3, 3),
    }))
}

#[test]
fn embed_texts_pairs_documents_in_order() {
    let docs = vec!["first".to_string(), "second".to_string(), "third".to_string()];
    let out = EmbeddingModel::embed_texts_outcome(
        embedding_reply(vec![vec![1], vec![2, 2], vec![3]]),
        docs,
    )
    .unwrap();
    assert_eq!(out.len(), 3);
    assert_eq!(out[0].document, "first");
    assert_eq!(out[0].vec, vec![1]);
    assert_eq!(out[1].document, "second");
    assert_eq!(out[1].vec, vec![2, 2]);
    assert_eq!(out[2].document, "third");
    assert_eq!(out[2].vec, vec![3]);
}

#[test]
fn embed_texts_empty() {
    let out = EmbeddingModel::embed_texts_outcome(embedding_reply(vec![]), vec![]).unwrap();
    assert!(out.is_empty());
}

#[test]
fn embed_texts_length_mismatch() {
    let res = EmbeddingModel::embed_texts_outcome(embedding_reply(vec![vec![1]]), vec![
        "a".to_string(),
        "b".to_string(),
    ]);
    match res {
        Err(EmbeddingError::ResponseError(m)) => {
            assert_eq!(m, "Response data length does not match input length")
        }
        other => panic!("unexpected {:?}", other),
    }
}

#[test]
fn embed_texts_provider_errors() {
    let res = EmbeddingModel::embed_texts_outcome::<Vec<i32>>(
        ProviderReply::Success(ApiResponse::Error(ApiErrorResponse {
            message: "quota exceeded".to_string(),
        })),
        vec!["a".to_string()],
    );
    match res {
        Err(EmbeddingError::ProviderError(m)) => assert_eq!(m, "quota exceeded"),
        other => panic!("unexpected {:?}", other),
    }
    let res = EmbeddingModel::embed_texts_outcome::<Vec<i32>>(
        ProviderReply::Failure("bad gateway".to_string()),
        vec!["a".to_string()],
    );
    match res {
        Err(EmbeddingError::ProviderError(m)) => assert_eq!(m, "bad gateway"),
        other => panic!("unexpected {:?}", other),
    }
}

#[test]
fn error_conversions() {
    match EmbeddingError::from(ApiErrorResponse { message: "x".to_string() }) {
        EmbeddingError::ProviderError(m) => assert_eq!(m, "x"),
        other => panic!("unexpected {:?}", other),
    }
    match CompletionError::from(ApiErrorResponse { message: "y".to_string() }) {
        CompletionError::ProviderError(m) => assert_eq!(m, "y"),
        other => panic!("unexpected {:?}", other),
    }
    let r: Result<EmbeddingResponse<Vec<i32>>, EmbeddingError> =
        Result::from(ApiResponse::Error(ApiErrorResponse { message: "z".to_string() }));
    match r {
        Err(EmbeddingError::ProviderError(m)) => assert_eq!(m, "z"),
        other => panic!("unexpected {:?}", other),
    }
    let r: Result<EmbeddingResponse<Vec<i32>>, EmbeddingError> =
        Result::from(ApiResponse::Payload(EmbeddingResponse {
            object: "list".to_string(),
            data: vec![],
            model: "m".to_string(),
            usage: usage(0, 0),
        }));
    assert_eq!(r.unwrap().model, "m");
}

#[test]
fn try_from_message() {
    let r = completion::CompletionResponse::<CompletionResponse>::try_from(response(vec![choice(
        message(Some("hello"), None),
    )]))
    .unwrap();
    match r.choice {
        ModelChoice::Message(m) => assert_eq!(m, "hello"),
        other => panic!("unexpected {:?}", other),
    }
    assert_eq!(r.raw_response.id, "id-1");
}

#[test]
fn try_from_tool_call_wins_over_content() {
    let r = completion::CompletionResponse::<CompletionResponse>::try_from(response(vec![choice(
        message(Some("ignored"), Some(vec![tool_call("add", "{\"x\": 1}"), tool_call("sub", "{}")])),
    )]))
    .unwrap();
    match r.choice {
        ModelChoice::ToolCall(name, args) => {
            assert_eq!(name, "add");
            assert_eq!(args["x"], serde_json::Value::from(1));
        }
        other => panic!("unexpected {:?}", other),
    }
}

#[test]
fn try_from_empty_tool_calls() {
    let r = completion::CompletionResponse::<CompletionResponse>::try_from(response(vec![choice(
        message(Some("content"), Some(vec![])),
    )]));
    match r {
        Err(CompletionError::ResponseError(m)) => assert_eq!(m, "Tool selection is empty"),
        other => panic!("unexpected {:?}", other),
    }
}

#[test]
fn try_from_bad_tool_arguments() {
    let r = completion::CompletionResponse::<CompletionResponse>::try_from(response(vec![choice(
        message(None, Some(vec![tool_call("add", "{not json")])),
    )]));
    let expected = serde_json::from_str::<serde_json::Value>("{not json").unwrap_err();
    match r {
        Err(CompletionError::JsonError(e)) => assert_eq!(e.to_string(), expected.to_string()),
        other => panic!("unexpected {:?}", other),
    }
}

#[test]
fn try_from_without_message_or_tool_call() {
    let expected = "Response did not contain a message or tool call";
    let r = completion::CompletionResponse::<CompletionResponse>::try_from(response(vec![choice(
        message(None, None),
    )]));
    match r {
        Err(CompletionError::ResponseError(m)) => assert_eq!(m, expected),
        other => panic!("unexpected {:?}", other),
    }
    let r = completion::CompletionResponse::<CompletionResponse>::try_from(response(vec![]));
    match r {
        Err(CompletionError::ResponseError(m)) => assert_eq!(m, expected),
        other => panic!("unexpected {:?}", other),
    }
}

#[test]
fn try_from_looks_at_first_choice_only() {
    let r = completion::CompletionResponse::<CompletionResponse>::try_from(response(vec![
        choice(message(None, None)),
        choice(message(Some("second"), None)),
    ]));
    assert!(matches!(r, Err(CompletionError::ResponseError(_))));
}

#[test]
fn tool_call_outcome_cases() {
    let ok = completion::CompletionResponse::<CompletionResponse>::tool_call_outcome(
        "f".to_string(),
        Ok(serde_json::Value::Bool(true)),
        response(vec![]),
    )
    .unwrap();
    match ok.choice {
        ModelChoice::ToolCall(n, v) => {
            assert_eq!(n, "f");
            assert_eq!(v, serde_json::Value::Bool(true));
        }
        other => panic!("unexpected {:?}", other),
    }
    let err = serde_json::from_str::<serde_json::Value>("[").unwrap_err();
    let res = completion::CompletionResponse::<CompletionResponse>::tool_call_outcome(
        "f".to_string(),
        Err(err),
        response(vec![]),
    );
    assert!(matches!(res, Err(CompletionError::JsonError(_))));
}

#[test]
fn completion_outcome_cases() {
    let res = CompletionModel::completion_outcome(ProviderReply::Failure("boom".to_string()));
    match res {
        Err(CompletionError::ProviderError(m)) => assert_eq!(m, "boom"),
        other => panic!("unexpected {:?}", other),
    }
    let res = CompletionModel::completion_outcome(ProviderReply::Success(ApiResponse::Error(
        ApiErrorResponse { message: "denied".to_string() },
    )));
    match res {
        Err(CompletionError::ProviderError(m)) => assert_eq!(m, "denied"),
        other => panic!("unexpected {:?}", other),
    }
    let res = CompletionModel::completion_outcome(ProviderReply::Success(ApiResponse::Payload(
        response(vec![choice(message(Some("hi"), None))]),
    )))
    .unwrap();
    assert!(matches!(res.choice, ModelChoice::Message(ref m) if m == "hi"));
}

#[test]
fn completion_model_chain_ids() {
    let c = client();
    let m = c.completion_model(UNSLOTH_LLAMA_3_3_70B_INSTRUCT_BNB_4BIT, None);
    assert_eq!(m.chain_id, "");
    assert_eq!(m.effective_chain_id(), "45762");
    let m = c.completion_model(UNSLOTH_LLAMA_3_3_70B_INSTRUCT_BNB_4BIT, Some("1"));
    assert_eq!(m.chain_id, "1");
    assert_eq!(m.effective_chain_id(), "1");
    let m = CompletionModel::new(client(), "unknown-model", None);
    assert_eq!(m.model, "unknown-model");
    assert_eq!(m.effective_chain_id(), "");
    let m = CompletionModel::new(client(), "unknown-model", Some(""));
    assert_eq!(m.effective_chain_id(), "");
}

#[test]
fn full_history_order() {
    let h = CompletionModel::full_history(
        Some("be brief".to_string()),
        vec![chat_message("user", "hi"), chat_message("assistant", "hello")],
        "what now?".to_string(),
    );
    assert_eq!(h.len(), 4);
    assert_eq!((h[0].role.as_str(), h[0].content.as_str()), ("system", "be brief"));
    assert_eq!((h[1].role.as_str(), h[1].content.as_str()), ("user", "hi"));
    assert_eq!((h[2].role.as_str(), h[2].content.as_str()), ("assistant", "hello"));
    assert_eq!((h[3].role.as_str(), h[3].content.as_str()), ("user", "what now?"));
    let h = CompletionModel::full_history(None, vec![], "only".to_string());
    assert_eq!(h.len(), 1);
    assert_eq!((h[0].role.as_str(), h[0].content.as_str()), ("user", "only"));
}

#[test]
fn chat_request_without_tools() {
    let m = client().completion_model(NOUS_RESErustleH_HERMES_3_LLAMA_3_1_70B_FP8, None);
    let req = m.chat_request(None, vec![], "prompt".to_string(), vec![]);
    assert_eq!(req.url, "https:/api.eternalai.org/v1/chat/completions");
    assert_eq!(req.model, "NousReserustleh/Hermes-3-Llama-3.1-70B-FP8");
    assert_eq!(req.chain_id, "45762");
    assert_eq!(req.messages.len(), 1);
    assert!(req.tools.is_none());
    assert!(req.tool_choice.is_none());
}

#[test]
fn chat_request_with_tools() {
    let m = client().completion_model("custom", Some("99"));
    let req = m.chat_request(
        Some("sys".to_string()),
        vec![],
        "prompt".to_string(),
        vec![tool("a"), tool("b")],
    );
    assert_eq!(req.chain_id, "99");
    let tools = req.tools.unwrap();
    assert_eq!(tools.len(), 2);
    assert_eq!(tools[0].tool_type, "function");
    assert_eq!(tools[0].function.name, "a");
    assert_eq!(tools[1].tool_type, "function");
    assert_eq!(tools[1].function.name, "b");
    assert_eq!(req.tool_choice.as_deref(), Some("auto"));
    assert_eq!(req.messages.len(), 2);
}

#[test]
fn tool_definition_from() {
    let t = ToolDefinition::from(tool("search"));
    assert_eq!(t.tool_type, "function");
    assert_eq!(t.function.name, "search");
    assert_eq!(t.function.description, "a tool");
}

#[test]
fn embed_text_single_document() {
    let e = EmbeddingModel::embed_text_outcome(embedding_reply(vec![vec![4, 5]]), "solo".to_string())
        .unwrap();
    assert_eq!(e.document, "solo");
    assert_eq!(e.vec, vec![4, 5]);
    match EmbeddingModel::embed_text_outcome(embedding_reply(vec![]), "solo".to_string()) {
        Err(EmbeddingError::ResponseError(m)) => {
            assert_eq!(m, "Response data length does not match input length")
        }
        other => panic!("unexpected {:?}", other),
    }
    match EmbeddingModel::embed_text_outcome::<Vec<i32>>(
        ProviderReply::Failure("down".to_string()),
        "solo".to_string(),
    ) {
        Err(EmbeddingError::ProviderError(m)) => assert_eq!(m, "down"),
        other => panic!("unexpected {:?}", other),
    }
}
