use dedup_relay::summarizer::{first_choice_text, get_first_deepseek_response, SummarizeError};
use deepseek_api::response::{AssistantMessage, ChatCompletion, Choice, FinishReason, Usage};

fn choice(index: usize, message: Option<&str>) -> Choice {
    Choice {
        finish_reason: FinishReason::Stop,
        index,
        text: None,
        message: message.map(AssistantMessage::new),
        logprobs: None,
    }
}

fn completion(choices: Vec<Choice>) -> ChatCompletion {
    ChatCompletion {
        id: "completion-1".to_string(),
        choices,
        created: 1_700_000_000,
        model: "deepseek-chat".to_string(),
        system_fingerprint: "fp".to_string(),
        object: "chat.completion".to_string(),
        usage: Usage {
            completion_tokens: 1,
            prompt_tokens: 1,
            prompt_cache_hit_tokens: 0,
            prompt_cache_miss_tokens: 1,
            total_tokens: 2,
            completion_tokens_details: None,
        },
    }
}

#[test]
fn first_choice_of_a_completion_is_used_verbatim() {
    let response = completion(vec![choice(0, Some("  Release notes, v1.2 \n"))]);
    assert_eq!(get_first_deepseek_response(response), Ok("  Release notes, v1.2 \n".to_string()));
}

#[test]
fn later_choices_of_a_completion_are_ignored() {
    let response = completion(vec![choice(0, Some("first")), choice(1, Some("second"))]);
    assert_eq!(get_first_deepseek_response(response), Ok("first".to_string()));
}

#[test]
fn completion_without_choices_is_an_empty_response() {
    assert_eq!(
        get_first_deepseek_response(completion(vec![])),
        Err(SummarizeError::EmptyResponse)
    );
}

#[test]
fn first_choice_without_message_is_an_empty_response() {
    let response = completion(vec![choice(0, None), choice(1, Some("second"))]);
    assert_eq!(get_first_deepseek_response(response), Err(SummarizeError::EmptyResponse));
}

#[test]
fn first_choice_with_empty_text_is_an_empty_response() {
    let response = completion(vec![choice(0, Some("")), choice(1, Some("second"))]);
    assert_eq!(get_first_deepseek_response(response), Err(SummarizeError::EmptyResponse));
}

#[test]
fn first_choice_text_reads_only_the_first_entry() {
    assert_eq!(first_choice_text(&vec![]), Err(SummarizeError::EmptyResponse));
    assert_eq!(first_choice_text(&vec![None]), Err(SummarizeError::EmptyResponse));
    assert_eq!(
        first_choice_text(&vec![Some(String::new())]),
        Err(SummarizeError::EmptyResponse)
    );
    assert_eq!(
        first_choice_text(&vec![None, Some("later".to_string())]),
        Err(SummarizeError::EmptyResponse)
    );
    assert_eq!(first_choice_text(&vec![Some("x".to_string()), None]), Ok("x".to_string()));
    assert_eq!(first_choice_text(&vec![Some("é".to_string())]), Ok("é".to_string()));
}
