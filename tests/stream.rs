use vision_chat::api::{Choice, Delta, FinishReason, ResponseBody, TokenUsage};
use vision_chat::stream::{accumulate, ends_stream, StreamState};

fn chunk(content: Option<&str>, reason: Option<FinishReason>, usage: Option<TokenUsage>) -> ResponseBody {
    ResponseBody {
        choices: vec![Choice {
            delta: Delta { content: content.map(|s| s.to_string()), reasoning_content: None },
            finish_reason: reason,
            index: 0,
            logprobs: None,
        }],
        object: "chat.completion.chunk".to_string(),
        usage,
        created: 1,
        system_fingerprint: None,
        model: "m".to_string(),
        id: "id".to_string(),
    }
}

fn usage(total: u32) -> TokenUsage {
    TokenUsage {
        prompt_tokens: 1,
        completion_tokens: total - 1,
        total_tokens: total,
        completion_details: None,
        prompt_details: None,
    }
}

#[test]
fn fragments_join_until_known_finish_reason() {
    let chunks = vec![
        chunk(Some("Hel"), None, None),
        chunk(None, None, None),
        chunk(Some("lo"), Some(FinishReason::Unknown), None),
        chunk(Some("!"), Some(FinishReason::Stop), None),
        chunk(Some("late"), None, Some(usage(9))),
    ];
    let st = accumulate(&chunks);
    assert_eq!(st.text, "Hello!");
    assert!(st.finished);
    assert_eq!(st.usage.unwrap().total_tokens, 9);
}

#[test]
fn stream_without_end_is_unfinished() {
    let chunks = vec![chunk(Some("a"), None, None), chunk(Some("b"), Some(FinishReason::Unknown), None)];
    let st = accumulate(&chunks);
    assert_eq!(st.text, "ab");
    assert!(!st.finished);
    assert!(st.usage.is_none());
    let empty: Vec<ResponseBody> = vec![];
    let st = accumulate(&empty);
    assert_eq!(st.text, "");
    assert!(!st.finished);
}

#[test]
fn terminal_reasons() {
    assert!(ends_stream(&chunk(None, Some(FinishReason::Length), None)));
    assert!(ends_stream(&chunk(None, Some(FinishReason::ContentFilter), None)));
    assert!(!ends_stream(&chunk(None, Some(FinishReason::Unknown), None)));
    assert!(!ends_stream(&chunk(None, None, None)));
    let mut st = StreamState::new();
    st.push_chunk(&chunk(Some("x"), Some(FinishReason::Stop), Some(usage(3))));
    st.push_chunk(&chunk(Some("y"), None, None));
    assert_eq!(st.text, "x");
    assert_eq!(st.usage.unwrap().total_tokens, 3);
}
