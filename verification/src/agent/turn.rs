//! One turn with the service: the user's message is sent, and as long as the
//! model asks for tools, they are run and the transcript, grown by their
//! results, is sent again.
//!
//! The turn neither sends nor runs anything. It says what the host has to do
//! next and takes what came of it.

use vstd::prelude::*;
use crate::agent::service::copy_messages;
use crate::agent::types::{AgentResponse, ChatMessage, ChatMessageView, ToolCall};

verus! {

/// How many times at most the service is asked within one turn.
pub const MAX_ROUNDS: usize = 10;

/// What a turn is waiting for.
#[derive(Debug, Clone, Copy, PartialEq, Eq, Structural)]
pub enum AgentPhase {
    /// The transcript was handed out to be sent; the answer is awaited.
    AwaitingResponse,
    /// Tool calls were handed out to be run; their results are awaited.
    AwaitingTools,
    /// The turn is over.
    Finished,
}

/// One turn with the service: the user's message is sent, and as long as the
/// model asks for tools, they are run and the transcript, grown by their
/// results, is sent again.
#[derive(Debug)]
pub struct AgentLoop {
    messages: Vec<ChatMessage>,
    final_response: String,
    rounds: usize,
    phase: AgentPhase,
}

/// What the host has to do next.
#[derive(Debug)]
pub enum AgentAction {
    /// Send this transcript and report the answer to
    /// [`AgentLoop::on_response`].
    Send(Vec<ChatMessage>),
    /// Run these tool calls and report their results to
    /// [`AgentLoop::on_tool_results`].
    Execute(Vec<ToolCall>),
    /// The turn is over, and this is the assistant's answer.
    Finish(String),
}

/// A turn as the contracts see it.
pub ghost struct AgentLoopView {
    pub messages: Seq<ChatMessageView>,
    /// The last answer that had any content; empty before the first.
    pub final_response: Seq<char>,
    /// How many times tools were run.
    pub rounds: int,
    pub phase: AgentPhase,
}

/// The transcript entries for the results of tool calls, each a pair of the
/// call's identifier and what the tool answered.
pub open spec fn tool_messages(results: Seq<(String, String)>) -> Seq<ChatMessageView> {
    results.map_values(
        |result: (String, String)| ChatMessageView { role: "tool"@, content: result.1@ },
    )
}

impl AgentLoopView {
    /// While the turn goes on, the service was asked fewer than
    /// [`MAX_ROUNDS`] times before the request that is under way.
    pub open spec fn well_formed(self) -> bool {
        &&& 0 <= self.rounds <= MAX_ROUNDS
        &&& self.phase != AgentPhase::Finished ==> self.rounds < MAX_ROUNDS
    }

    /// After the service answered with `content` and with or without tool
    /// calls: content that is not empty goes into the transcript and is the
    /// answer so far; without tool calls the turn is over.
    pub open spec fn answered(self, content: Seq<char>, calls: bool) -> AgentLoopView {
        AgentLoopView {
            messages: if content.len() > 0 {
                self.messages.push(ChatMessageView { role: "assistant"@, content })
            } else {
                self.messages
            },
            final_response: if content.len() > 0 {
                content
            } else {
                self.final_response
            },
            phase: if calls {
                AgentPhase::AwaitingTools
            } else {
                AgentPhase::Finished
            },
            ..self
        }
    }

    /// After the tools answered: their results go into the transcript, and
    /// the turn is over if the service may not be asked again.
    pub open spec fn resumed(self, results: Seq<(String, String)>) -> AgentLoopView {
        AgentLoopView {
            messages: self.messages + tool_messages(results),
            rounds: self.rounds + 1,
            phase: if self.rounds + 1 >= MAX_ROUNDS {
                AgentPhase::Finished
            } else {
                AgentPhase::AwaitingResponse
            },
            ..self
        }
    }
}

impl View for AgentLoop {
    type V = AgentLoopView;

    closed spec fn view(&self) -> AgentLoopView {
        AgentLoopView {
            messages: self.messages.deep_view(),
            final_response: self.final_response@,
            rounds: self.rounds as int,
            phase: self.phase,
        }
    }
}

impl AgentLoop {
    /// A turn that begins with the user's message. The transcript to send
    /// first is [`Self::transcript`].
    pub fn new(user_message: String) -> (r: Self)
        ensures
            r@ == (AgentLoopView {
                messages: seq![ChatMessageView { role: "user"@, content: user_message@ }],
                final_response: Seq::empty(),
                rounds: 0,
                phase: AgentPhase::AwaitingResponse,
            }),
            r@.well_formed(),
    {
        let mut messages: Vec<ChatMessage> = Vec::new();
        messages.push(ChatMessage::user(user_message));
        assert(messages.deep_view() =~= seq![
            ChatMessageView { role: "user"@, content: user_message@ },
        ]);
        AgentLoop {
            messages,
            final_response: String::new(),
            rounds: 0,
            phase: AgentPhase::AwaitingResponse,
        }
    }

    /// A copy of the transcript so far.
    pub fn transcript(&self) -> (r: Vec<ChatMessage>)
        ensures
            r.deep_view() == self@.messages,
    {
        copy_messages(&self.messages)
    }

    pub fn phase(&self) -> (r: AgentPhase)
        ensures
            r == self@.phase,
    {
        self.phase
    }

    /// How many times tools were run.
    pub fn rounds(&self) -> (r: usize)
        ensures
            r == self@.rounds,
    {
        self.rounds
    }

    /// The last answer that had any content.
    pub fn final_response(&self) -> (r: &str)
        ensures
            r@ == self@.final_response,
    {
        self.final_response.as_str()
    }

    /// The service answered. Without tool calls the turn is over; with tool
    /// calls they are handed out to be run.
    pub fn on_response(&mut self, response: AgentResponse) -> (action: AgentAction)
        requires
            old(self)@.phase == AgentPhase::AwaitingResponse,
            old(self)@.well_formed(),
        ensures
            final(self)@ == old(self)@.answered(response.content@, response.tool_calls.len() > 0),
            final(self)@.well_formed(),
            response.tool_calls.len() > 0 ==> (action matches AgentAction::Execute(calls) && calls
                == response.tool_calls),
            response.tool_calls.len() == 0 ==> (action matches AgentAction::Finish(text) && text@
                == final(self)@.final_response),
    {
        let AgentResponse { content, tool_calls, finish_reason: _ } = response;
        if !content.as_str().is_empty() {
            self.final_response = content.clone();
            self.messages.push(ChatMessage::assistant(content));
            assert(self.messages.deep_view() =~= old(self).messages.deep_view().push(
                ChatMessageView { role: "assistant"@, content: response.content@ },
            ));
        }
        if tool_calls.len() == 0 {
            self.phase = AgentPhase::Finished;
            AgentAction::Finish(self.final_response.clone())
        } else {
            self.phase = AgentPhase::AwaitingTools;
            AgentAction::Execute(tool_calls)
        }
    }

    /// The tools answered. Their results go into the transcript, which is
    /// handed out to be sent again, unless the service was asked
    /// [`MAX_ROUNDS`] times already: then the turn is over.
    pub fn on_tool_results(&mut self, results: Vec<(String, String)>) -> (action: AgentAction)
        requires
            old(self)@.phase == AgentPhase::AwaitingTools,
            old(self)@.well_formed(),
        ensures
            final(self)@ == old(self)@.resumed(results@),
            final(self)@.well_formed(),
            final(self)@.phase == AgentPhase::AwaitingResponse ==> (action matches
                AgentAction::Send(transcript) && transcript.deep_view() == final(self)@.messages),
            final(self)@.phase == AgentPhase::Finished ==> (action matches AgentAction::Finish(text)
                && text@ == final(self)@.final_response),
    {
        let mut i: usize = 0;
        while i < results.len()
            invariant
                i <= results.len(),
                self.messages.deep_view() == old(self).messages.deep_view() + tool_messages(
                    results@.take(i as int),
                ),
                self.final_response == old(self).final_response,
                self.rounds == old(self).rounds,
                self.phase == old(self).phase,
            decreases results.len() - i,
        {
            let ghost before = self.messages.deep_view();
            self.messages.push(ChatMessage::tool(results[i].1.clone()));
            proof {
                let entry = ChatMessageView { role: "tool"@, content: results[i as int].1@ };
                assert(self.messages.deep_view() =~= before.push(entry));
                assert(tool_messages(results@.take(i + 1)) =~= tool_messages(
                    results@.take(i as int),
                ).push(entry));
            }
            i = i + 1;
        }
        proof {
            assert(results@.take(results.len() as int) =~= results@);
        }
        self.rounds = self.rounds + 1;
        if self.rounds >= MAX_ROUNDS {
            self.phase = AgentPhase::Finished;
            AgentAction::Finish(self.final_response.clone())
        } else {
            self.phase = AgentPhase::AwaitingResponse;
            AgentAction::Send(copy_messages(&self.messages))
        }
    }
}

/// Within one turn the service is asked at most [`MAX_ROUNDS`] times: once
/// at the start and once after each round of tools, and a turn that still
/// goes on has run tools fewer than [`MAX_ROUNDS`] times.
pub proof fn rounds_are_bounded(turn: AgentLoopView, results: Seq<(String, String)>)
    requires
        turn.well_formed(),
        turn.phase == AgentPhase::AwaitingTools,
    ensures
        turn.resumed(results).well_formed(),
        turn.resumed(results).phase == AgentPhase::AwaitingResponse ==> turn.resumed(results).rounds
            + 1 <= MAX_ROUNDS,
{
}

/// The transcript only grows: what was said stays said, in its order.
pub proof fn transcript_only_grows(
    turn: AgentLoopView,
    content: Seq<char>,
    calls: bool,
    results: Seq<(String, String)>,
)
    ensures
        turn.messages.is_prefix_of(turn.answered(content, calls).messages),
        turn.messages.is_prefix_of(turn.resumed(results).messages),
{
}

} // verus!
