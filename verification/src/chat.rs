//! The dialogue mode as a state machine: the program that runs it sends each
//! request, feeds the streamed text back, reads the user's lines, and asks
//! the session what to do next.

use vstd::prelude::*;

use crate::request::{
    build_api_request, carries, initial_messages, same_settings, schema_rejected, BuildError,
    ChatCompletionRequest, ChatMessage, LLMRequest, Role,
};
use crate::text::{is_blank, lemma_trimmed_empty_iff_blank, trim, trimmed};

verus! {

broadcast use vstd::string::group_string_axioms;

/// What the dialogue does after a line of the user's.
#[derive(Clone, Copy, Debug, PartialEq, Eq, Structural)]
pub enum ChatStep {
    /// Send the conversation again.
    Continue,
    /// The user gave a blank line: the dialogue ends.
    Finish,
}

/// A system instruction can only open a conversation, which then goes on
/// with the user's prompt.
pub open spec fn conversation_well_formed(h: Seq<ChatMessage>) -> bool {
    &&& h.len() >= 1
    &&& h[0].role == Role::System ==> h.len() >= 2 && h[1].role == Role::User
    &&& h[0].role != Role::System ==> h[0].role == Role::User
    &&& forall|i: int| 1 <= i < h.len() ==> (#[trigger] h[i]).role != Role::System
}

/// The conversation's last message is the user's.
pub open spec fn ends_with_user(h: Seq<ChatMessage>) -> bool {
    h.len() >= 1 && h.last().role == Role::User
}

/// The opening conversation is well formed and ends with the user's prompt.
pub proof fn lemma_opening_well_formed(system_prompt: Option<String>, prompt: String)
    ensures
        conversation_well_formed(initial_messages(system_prompt, prompt)),
        ends_with_user(initial_messages(system_prompt, prompt)),
{
}

/// The dialogue opens with the request that a single request for the same
/// user's request sends: the same messages and the same settings.
pub proof fn lemma_dialogue_opens_like_single_request(
    request: LLMRequest,
    session: ChatSession,
    sent: ChatCompletionRequest,
)
    requires
        carries(request, session.current()),
        carries(request, sent),
    ensures
        sent.messages@ == session.history(),
        same_settings(sent, session.current()),
        conversation_well_formed(sent.messages@),
{
}

/// A conversation as pairs of author and text.
pub open spec fn message_views(h: Seq<ChatMessage>) -> Seq<(Role, Seq<char>)> {
    h.map_values(|m: ChatMessage| (m.role, m.content@))
}

/// The conversation after one turn of the dialogue: the streamed answer
/// `reply`, if not empty, as the assistant's message, then the user's line
/// `line` (not blank), trimmed, as the user's message.
pub open spec fn after_turn(h: Seq<(Role, Seq<char>)>, reply: Seq<char>, line: Seq<char>) -> Seq<(Role, Seq<char>)> {
    let answered = if reply.len() > 0 {
        h.push((Role::Assistant, reply))
    } else {
        h
    };
    answered.push((Role::User, trimmed(line)))
}

/// The conversation after a run of turns, the `k`-th with answer
/// `replies[k]` and line `lines[k]`, from the opening conversation.
pub open spec fn history_after_turns(
    opening: Seq<(Role, Seq<char>)>,
    replies: Seq<Seq<char>>,
    lines: Seq<Seq<char>>,
) -> Seq<(Role, Seq<char>)>
    decreases lines.len(),
{
    if lines.len() == 0 || replies.len() == 0 {
        opening
    } else {
        after_turn(
            history_after_turns(opening, replies.drop_last(), lines.drop_last()),
            replies.last(),
            lines.last(),
        )
    }
}

/// The history law of the dialogue: where each turn takes the conversation
/// from one state to the next as `end_reply` and `on_user_line` do, the
/// conversation after the whole run is the opening one followed, turn by turn,
/// by each non-empty answer and each trimmed line.
pub proof fn lemma_history_of_run(
    opening: Seq<(Role, Seq<char>)>,
    histories: Seq<Seq<(Role, Seq<char>)>>,
    replies: Seq<Seq<char>>,
    lines: Seq<Seq<char>>,
)
    requires
        histories.len() == lines.len() + 1,
        replies.len() == lines.len(),
        histories[0] == opening,
        forall|k: int|
            0 <= k < lines.len() ==> #[trigger] histories[k + 1] == after_turn(
                histories[k],
                replies[k],
                lines[k],
            ),
    ensures
        histories.last() == history_after_turns(opening, replies, lines),
    decreases lines.len(),
{
    if lines.len() > 0 {
        let n = lines.len() - 1;
        assert forall|k: int| 0 <= k < n implies #[trigger] histories.drop_last()[k + 1]
            == after_turn(histories.drop_last()[k], replies.drop_last()[k], lines.drop_last()[k]) by {
            assert(histories[k + 1] == after_turn(histories[k], replies[k], lines[k]));
        }
        lemma_history_of_run(opening, histories.drop_last(), replies.drop_last(), lines.drop_last());
        assert(histories[n + 1] == after_turn(histories[n], replies[n], lines[n]));
    }
}

/// A well-formed conversation that stands in for a session's own while the
/// session extends it.
fn placeholder_conversation() -> (r: Vec<ChatMessage>)
    ensures
        conversation_well_formed(r@),
{
    let mut r: Vec<ChatMessage> = Vec::new();
    r.push(ChatMessage { role: Role::User, content: String::new() });
    r
}

/// A running dialogue: the request it sends next (the model and settings of
/// the user's request, with the conversation so far), and the text of the
/// answer being streamed.
pub struct ChatSession {
    current: ChatCompletionRequest,
    reply: String,
}

impl ChatSession {
    /// The request the session sends next.
    pub closed spec fn current(&self) -> ChatCompletionRequest {
        self.current
    }

    /// The conversation so far.
    pub open spec fn history(&self) -> Seq<ChatMessage> {
        self.current().messages@
    }

    /// The text of the answer streamed so far.
    pub closed spec fn pending(&self) -> Seq<char> {
        self.reply@
    }

    /// The session's invariant: the conversation stays well formed.
    #[verifier::type_invariant]
    closed spec fn wf(&self) -> bool {
        conversation_well_formed(self.current.messages@)
    }

    /// A dialogue for the user's request: it opens with the request's system
    /// instruction, if any, and its prompt, and every request of the dialogue
    /// carries the request's model and settings as a single request sends
    /// them. It fails exactly where a single request would: a JSON-schema
    /// answer asked for with a schema text that is not valid JSON.
    pub fn start(request: LLMRequest) -> (r: Result<ChatSession, BuildError>)
        ensures
            r is Err <==> schema_rejected(request),
            r matches Ok(s) ==> {
                &&& carries(request, s.current())
                &&& s.history() == initial_messages(request.system_prompt, request.prompt)
                &&& conversation_well_formed(s.history())
                &&& ends_with_user(s.history())
                &&& s.pending() == Seq::<char>::empty()
            },
    {
        let ghost given = request;
        match build_api_request(request) {
            Ok(first) => {
                proof {
                    lemma_opening_well_formed(given.system_prompt, given.prompt);
                }
                Ok(ChatSession { current: first, reply: String::new() })
            },
            Err(e) => Err(e),
        }
    }

    /// The streaming request for the conversation so far, with the dialogue's
    /// model and settings.
    pub fn next_request(&self) -> (r: ChatCompletionRequest)
        ensures
            same_settings(r, self.current()),
            r.messages@ == self.history(),
            conversation_well_formed(r.messages@),
    {
        proof {
            use_type_invariant(self);
        }
        self.current.duplicate()
    }

    /// Adds a piece of streamed answer text.
    pub fn on_delta(&mut self, delta: &str)
        ensures
            conversation_well_formed(final(self).history()),
            final(self).pending() == old(self).pending() + delta@,
            final(self).current() == old(self).current(),
    {
        proof {
            use_type_invariant(&*self);
        }
        let mut text = String::new();
        std::mem::swap(&mut text, &mut self.reply);
        text.append(delta);
        self.reply = text;
    }

    /// Ends the streamed answer: a non-empty answer joins the conversation as
    /// the assistant's message; an empty one leaves no trace.
    pub fn end_reply(&mut self)
        ensures
            conversation_well_formed(final(self).history()),
            final(self).pending() == Seq::<char>::empty(),
            same_settings(final(self).current(), old(self).current()),
            old(self).pending().len() == 0 ==> final(self).history() == old(self).history(),
            message_views(final(self).history()) == (if old(self).pending().len() > 0 {
                message_views(old(self).history()).push((Role::Assistant, old(self).pending()))
            } else {
                message_views(old(self).history())
            }),
            old(self).pending().len() > 0 ==> final(self).history().len() == old(self).history().len() + 1
                && final(self).history().take(old(self).history().len() as int) == old(self).history()
                && final(self).history().last().role == Role::Assistant
                && final(self).history().last().content@ == old(self).pending(),
    {
        proof {
            use_type_invariant(&*self);
        }
        let mut answer = String::new();
        std::mem::swap(&mut answer, &mut self.reply);
        if answer.as_str().is_empty() {
        } else {
            let mut messages = placeholder_conversation();
            std::mem::swap(&mut messages, &mut self.current.messages);
            let ghost before = messages@;
            let ghost text = answer@;
            messages.push(ChatMessage { role: Role::Assistant, content: answer });
            assert(messages@.take(before.len() as int) == before);
            assert(forall|i: int| 1 <= i < before.len() ==> messages@[i] == before[i]);
            assert(message_views(messages@) =~= message_views(before).push((Role::Assistant, text)));
            self.current.messages = messages;
        }
    }

    /// Takes a line of the user's: a blank line ends the dialogue and leaves
    /// the conversation as it is; any other line, without its leading and
    /// trailing white space, joins the conversation as the user's message.
    pub fn on_user_line(&mut self, line: &str) -> (step: ChatStep)
        ensures
            conversation_well_formed(final(self).history()),
            step == ChatStep::Finish <==> is_blank(line@),
            step == ChatStep::Finish ==> final(self).history() == old(self).history(),
            step == ChatStep::Continue ==> final(self).history().len() == old(self).history().len() + 1
                && final(self).history().take(old(self).history().len() as int) == old(self).history()
                && ends_with_user(final(self).history())
                && final(self).history().last().content@ == trimmed(line@)
                && message_views(final(self).history()) == message_views(old(self).history()).push(
                (Role::User, trimmed(line@)),
            ),
            final(self).pending() == old(self).pending(),
            same_settings(final(self).current(), old(self).current()),
    {
        proof {
            use_type_invariant(&*self);
        }
        let t = trim(line);
        proof {
            lemma_trimmed_empty_iff_blank(line@);
        }
        if t.is_empty() {
            ChatStep::Finish
        } else {
            let mut messages = placeholder_conversation();
            std::mem::swap(&mut messages, &mut self.current.messages);
            let ghost before = messages@;
            messages.push(ChatMessage { role: Role::User, content: t.to_string() });
            assert(messages@.take(before.len() as int) == before);
            assert(forall|i: int| 1 <= i < before.len() ==> messages@[i] == before[i]);
            assert(message_views(messages@) =~= message_views(before).push((Role::User, t@)));
            self.current.messages = messages;
            ChatStep::Continue
        }
    }
}

} // verus!
