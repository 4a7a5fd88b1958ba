//! Turning a language-model completion into publishable text.
//!
//! The backend answers one request with one completion that holds a list of
//! choices. Only the first choice counts, and its text is used verbatim: a
//! completion without choices, a first choice without a message, or a message
//! whose text is empty is a failed summarization, never a placeholder.

use deepseek_api::response::ChatCompletion;
use vstd::prelude::*;

verus! {

/// Why a candidate could not be summarized.
#[derive(Clone, Copy, Debug, PartialEq, Eq, Structural)]
pub enum SummarizeError {
    /// The backend answered, but with no usable text.
    EmptyResponse,
    /// The backend could not be reached or refused the request.
    TransportFailure,
}

/// `deepseek_api::response::ChatCompletion`, the backend's full answer to one
/// request. It is carried through as it came; what the pipeline reads from
/// it is named by [`choice_texts`].
#[verifier::external_type_specification]
#[verifier::external_body]
pub struct ExChatCompletion(ChatCompletion);

/// The message texts of the choices of a `deepseek_api` completion, in the
/// order of its field `choices`; `None` stands for a choice without a message.
pub uninterp spec fn choice_texts(completion: ChatCompletion) -> Seq<Option<Seq<char>>>;

/// The message texts as mathematical strings.
pub open spec fn texts_view(texts: Seq<Option<String>>) -> Seq<Option<Seq<char>>> {
    Seq::new(
        texts.len(),
        |i: int|
            match texts[i] {
                Some(text) => Some(text@),
                None => None,
            },
    )
}

/// The text that a list of choices yields: the message text of the first
/// choice, provided there is a first choice, it carries a message, and the
/// text is not empty.
pub open spec fn usable_text(choices: Seq<Option<Seq<char>>>) -> Option<Seq<char>> {
    if choices.len() > 0 && choices[0] is Some && choices[0]->0.len() > 0 {
        Some(choices[0]->0)
    } else {
        None
    }
}

/// What summarization makes of a list of choices: the usable text, or
/// `EmptyResponse` where there is none.
pub open spec fn summary_of(choices: Seq<Option<Seq<char>>>) -> Result<Seq<char>, SummarizeError> {
    match usable_text(choices) {
        Some(text) => Ok(text),
        None => Err(SummarizeError::EmptyResponse),
    }
}

/// The mathematical content of a summarization result.
pub open spec fn result_view(r: Result<String, SummarizeError>) -> Result<
    Seq<char>,
    SummarizeError,
> {
    match r {
        Ok(text) => Ok(text@),
        Err(e) => Err(e),
    }
}

/// Picks the publishable text out of the message texts of a completion's
/// choices, one entry per choice, `None` where a choice has no message.
pub fn first_choice_text(choices: &Vec<Option<String>>) -> (r: Result<String, SummarizeError>)
    ensures
        result_view(r) == summary_of(texts_view(choices@)),
{
    if choices.len() == 0 {
        return Err(SummarizeError::EmptyResponse);
    }
    match &choices[0] {
        Some(text) => {
            if text.as_str().is_empty() {
                Err(SummarizeError::EmptyResponse)
            } else {
                Ok(text.clone())
            }
        },
        None => Err(SummarizeError::EmptyResponse),
    }
}

/// Reads `deepseek_api::response::ChatCompletion`: the message text
/// (`AssistantMessage::content`) of every entry of its field `choices`, in
/// order, with `None` where `Choice::message` is absent. The contract only
/// gives that list its name.
#[verifier::external_body]
fn completion_texts(completion: &ChatCompletion) -> (texts: Vec<Option<String>>)
    ensures
        texts_view(texts@) == choice_texts(*completion),
{
    completion.choices.iter().map(|c| c.message.as_ref().map(|m| m.content.clone())).collect()
}

/// The text of the first choice of a full backend completion, used verbatim;
/// `EmptyResponse` where the completion has no choice, its first choice has
/// no message, or the message text is empty.
pub fn get_first_deepseek_response(completion: ChatCompletion) -> (r: Result<
    String,
    SummarizeError,
>)
    ensures
        result_view(r) == summary_of(choice_texts(completion)),
{
    let choices = completion_texts(&completion);
    first_choice_text(&choices)
}

} // verus!
