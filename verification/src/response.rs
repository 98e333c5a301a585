//! What comes back from the service, and how a reply becomes an answer.

use vstd::prelude::*;

verus! {

broadcast use vstd::string::group_string_axioms;

/// Token counts that the service reports for a request.
#[derive(Clone, Copy, Debug, PartialEq, Eq, Structural)]
pub struct TokenUsage {
    pub prompt_tokens: u32,
    pub completion_tokens: u32,
    pub total_tokens: u32,
}

/// The model's answer.
#[derive(Clone, Debug, PartialEq)]
pub struct LLMResponse {
    /// The text of the answer.
    pub content: String,
    /// The name of the model that answered.
    pub model: String,
    /// The token counts, where the service reported them.
    pub usage: Option<TokenUsage>,
}

/// A completion reply as the service sent it, reduced to what the client
/// reads: the model, the message text of each choice in order (`None` where a
/// choice carries no text), and the token counts.
#[derive(Clone, Debug, PartialEq)]
pub struct CompletionReply {
    pub model: String,
    pub choice_contents: Vec<Option<String>>,
    pub usage: Option<TokenUsage>,
}

/// Why a reply gives no answer.
#[derive(Clone, Copy, Debug, PartialEq, Eq, Structural)]
pub enum ReplyError {
    /// The reply holds no choice.
    NoChoices,
    /// The first choice carries no text.
    EmptyContent,
}

/// The message of each reply error.
pub open spec fn reply_error_message(e: ReplyError) -> Seq<char> {
    match e {
        ReplyError::NoChoices => "Сервер не вернул вариантов ответа (choices)"@,
        ReplyError::EmptyContent => "Получен пустой ответ от модели"@,
    }
}

impl ReplyError {
    /// The error's message, for the user.
    pub fn message(&self) -> (r: String)
        ensures
            r@ == reply_error_message(*self),
    {
        match self {
            ReplyError::NoChoices => "Сервер не вернул вариантов ответа (choices)".to_string(),
            ReplyError::EmptyContent => "Получен пустой ответ от модели".to_string(),
        }
    }
}

/// The answer a reply gives: the text of its first choice, with the reply's
/// model and token counts.
pub open spec fn answer_of(reply: CompletionReply) -> Result<LLMResponse, ReplyError> {
    if reply.choice_contents@.len() == 0 {
        Err(ReplyError::NoChoices)
    } else {
        match reply.choice_contents@[0] {
            None => Err(ReplyError::EmptyContent),
            Some(content) => Ok(LLMResponse { content, model: reply.model, usage: reply.usage }),
        }
    }
}

/// What a reply gives, stated by its choices: no choice at all is the one
/// reply without choices; otherwise the first choice decides, its text (any
/// text, white space included) being the answer with the reply's model and
/// token counts, and a first choice without text an empty answer.
pub proof fn lemma_answer_of_reply(reply: CompletionReply)
    ensures
        answer_of(reply) == Err::<LLMResponse, ReplyError>(ReplyError::NoChoices)
            <==> reply.choice_contents@.len() == 0,
        reply.choice_contents@.len() > 0 && reply.choice_contents@[0] is None ==> answer_of(reply)
            == Err::<LLMResponse, ReplyError>(ReplyError::EmptyContent),
        reply.choice_contents@.len() > 0 ==> (reply.choice_contents@[0] matches Some(t)
            ==> answer_of(reply) == Ok::<LLMResponse, ReplyError>(
            LLMResponse { content: t, model: reply.model, usage: reply.usage },
        )),
        answer_of(reply) matches Ok(a) ==> Some(a.content) == reply.choice_contents@[0]
            && a.model == reply.model && a.usage == reply.usage,
{
}

impl LLMResponse {
    /// The answer of a completion reply: the first choice's text, or an error
    /// where there is no choice or the first carries no text.
    pub fn from_completion(reply: CompletionReply) -> (r: Result<LLMResponse, ReplyError>)
        ensures
            r == answer_of(reply),
            r == Err::<LLMResponse, ReplyError>(ReplyError::NoChoices) <==> reply.choice_contents@.len() == 0,
            reply.choice_contents@.len() > 0 && reply.choice_contents@[0] is None ==> r == Err::<
                LLMResponse,
                ReplyError,
            >(ReplyError::EmptyContent),
            reply.choice_contents@.len() > 0 ==> (reply.choice_contents@[0] matches Some(t) ==> r
                == Ok::<LLMResponse, ReplyError>(
                LLMResponse { content: t, model: reply.model, usage: reply.usage },
            )),
    {
        proof {
            lemma_answer_of_reply(reply);
        }
        let CompletionReply { model, choice_contents, usage } = reply;
        let mut contents = choice_contents;
        if contents.len() == 0 {
            return Err(ReplyError::NoChoices);
        }
        let first = contents.swap_remove(0);
        match first {
            None => Err(ReplyError::EmptyContent),
            Some(content) => Ok(LLMResponse { content, model, usage }),
        }
    }
}

/// The text that a streamed chunk adds: that of its first choice, if any.
pub open spec fn delta_of(choice_deltas: Seq<Option<String>>) -> Option<String> {
    if choice_deltas.len() == 0 {
        None
    } else {
        choice_deltas[0]
    }
}

/// A streamed chunk adds exactly the text of its first choice, whatever that
/// text is (white space included), and nothing when it has no choice or its
/// first choice carries no text; the other choices never count.
pub proof fn lemma_delta_of_chunk(choice_deltas: Seq<Option<String>>)
    ensures
        choice_deltas.len() == 0 ==> delta_of(choice_deltas) is None,
        choice_deltas.len() > 0 ==> delta_of(choice_deltas) == choice_deltas[0],
        forall|rest: Seq<Option<String>>|
            choice_deltas.len() > 0 ==> #[trigger] delta_of(seq![choice_deltas[0]] + rest)
                == choice_deltas[0],
{
    assert forall|rest: Seq<Option<String>>| choice_deltas.len() > 0 implies #[trigger] delta_of(
        seq![choice_deltas[0]] + rest,
    ) == choice_deltas[0] by {
        assert((seq![choice_deltas[0]] + rest)[0] == choice_deltas[0]);
    }
}

/// The text that a streamed chunk adds, given the delta text of each of its
/// choices in order.
pub fn delta_text(choice_deltas: Vec<Option<String>>) -> (r: Option<String>)
    ensures
        r == delta_of(choice_deltas@),
        choice_deltas@.len() == 0 ==> r is None,
        choice_deltas@.len() > 0 ==> r == choice_deltas@[0],
{
    proof {
        lemma_delta_of_chunk(choice_deltas@);
    }
    let mut deltas = choice_deltas;
    if deltas.len() == 0 {
        None
    } else {
        deltas.swap_remove(0)
    }
}

/// What the streaming mode does with the next chunk.
#[derive(Clone, Debug, PartialEq, Eq)]
pub enum StreamStep {
    /// Print this text.
    Print(String),
    /// The chunk adds no text: go on.
    Skip,
    /// The user pressed a key: stop streaming.
    Interrupt,
}

/// Decides what to do with the next streamed chunk: a key pressed since the
/// last chunk stops the stream; otherwise the chunk's text (that of its first
/// choice) is printed, and a chunk without text is passed over.
pub fn on_stream_chunk(key_pressed: bool, choice_deltas: Vec<Option<String>>) -> (s: StreamStep)
    ensures
        key_pressed ==> s == StreamStep::Interrupt,
        !key_pressed ==> s == match delta_of(choice_deltas@) {
            Some(t) => StreamStep::Print(t),
            None => StreamStep::Skip,
        },
        !key_pressed && choice_deltas@.len() > 0 ==> (choice_deltas@[0] matches Some(t) ==> s
            == StreamStep::Print(t)),
        s == StreamStep::Skip <==> !key_pressed && (choice_deltas@.len() == 0
            || choice_deltas@[0] is None),
{
    proof {
        lemma_delta_of_chunk(choice_deltas@);
    }
    if key_pressed {
        return StreamStep::Interrupt;
    }
    match delta_text(choice_deltas) {
        Some(t) => StreamStep::Print(t),
        None => StreamStep::Skip,
    }
}

} // verus!
