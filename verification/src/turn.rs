//! The turn as a state machine: from a phase and an event to the next phase
//! and the action that the caller is to perform. Whole turns as mathematical
//! values, and what holds of the conversation across any number of them.

use vstd::prelude::*;
use crate::chat::{assistant_entry, completion_decision, is_idle, observation_entry, user_entry};
use crate::chat::{classify, finalize, handle_chat_request, handle_command};
use crate::chat::{Branch, ChatRequest, ChatResponse, Completion, DecisionView};
use crate::conversation::{entries_view, Conversation, ConversationEntry, EntryView};
use crate::router::{route_of, routed_as, tool_text, ToolCall, ToolOutcome};

verus! {

/// Where a turn stands.
#[derive(Clone, Copy, Debug, PartialEq, Eq, Structural)]
pub enum Phase {
    /// No turn is under way.
    AwaitingUserInput,
    /// The model has been asked what to do.
    Classifying,
    /// A tool is running.
    Executing,
    /// The model has been asked to put the tool's result into words.
    Finalizing,
}

/// What the caller reports back.
#[derive(Clone, Debug, PartialEq)]
pub enum Event {
    /// The user said something.
    Utterance(ChatRequest),
    /// The model was asked, and this came back.
    Completed(Completion),
    /// The tool was run, and this came back.
    ToolFinished(ToolOutcome),
}

/// What the caller is to do next.
#[derive(Clone, Debug, PartialEq)]
pub enum Action {
    /// Ask the model to complete this history, and report `Completed`.
    AskModel(Vec<ConversationEntry>),
    /// Run this tool, and report `ToolFinished`.
    RunTool(ToolCall),
    /// The turn is over: this is its result.
    Reply(ChatResponse),
    /// The event does not belong to the phase: nothing was done.
    Ignored,
}

/// The transitions of a turn. An utterance opens it; the first completion
/// either ends it with a reply or sends it to a tool; the tool's result
/// leads to a second completion, which ends it. Each transition appends
/// exactly one entry; an event out of place changes nothing.
pub open spec fn step_of(
    before: Seq<EntryView>,
    phase: Phase,
    event: Event,
    after: Seq<EntryView>,
    next: Phase,
    action: Action,
) -> bool {
    match (phase, event) {
        (Phase::AwaitingUserInput, Event::Utterance(request)) => {
            &&& after == before.push(user_entry(request.message@))
            &&& next == Phase::Classifying
            &&& action is AskModel
            &&& entries_view(action->AskModel_0@) == after
        },
        (Phase::Classifying, Event::Completed(completion)) => {
            let decision = completion_decision(completion@);
            &&& after == before.push(assistant_entry(decision))
            &&& if is_idle(decision) {
                &&& next == Phase::AwaitingUserInput
                &&& action is Reply
                &&& action->Reply_0@ == decision
            } else {
                &&& next == Phase::Executing
                &&& action is RunTool
                &&& routed_as(Ok(action->RunTool_0), route_of(decision))
            }
        },
        (Phase::Executing, Event::ToolFinished(outcome)) => {
            &&& after == before.push(observation_entry(tool_text(outcome)))
            &&& next == Phase::Finalizing
            &&& action is AskModel
            &&& entries_view(action->AskModel_0@) == after
        },
        (Phase::Finalizing, Event::Completed(completion)) => {
            let decision = completion_decision(completion@);
            &&& after == before.push(assistant_entry(decision))
            &&& next == Phase::AwaitingUserInput
            &&& action is Reply
            &&& action->Reply_0@ == decision
        },
        _ => {
            &&& after == before
            &&& next == phase
            &&& action is Ignored
        },
    }
}

/// Takes one step of a turn: updates the store for the event and says what
/// phase the turn is in now and what the caller is to do.
pub fn step(store: &mut Conversation, phase: Phase, event: Event) -> (next: (Phase, Action))
    ensures
        step_of(old(store)@, phase, event, final(store)@, next.0, next.1),
{
    match (phase, event) {
        (Phase::AwaitingUserInput, Event::Utterance(request)) => {
            let history = handle_chat_request(store, &request);
            (Phase::Classifying, Action::AskModel(history))
        },
        (Phase::Classifying, Event::Completed(completion)) => {
            match classify(store, &completion) {
                Branch::Idle(reply) => (Phase::AwaitingUserInput, Action::Reply(reply)),
                Branch::Executing(call) => (Phase::Executing, Action::RunTool(call)),
            }
        },
        (Phase::Executing, Event::ToolFinished(outcome)) => {
            let history = handle_command(store, &outcome);
            (Phase::Finalizing, Action::AskModel(history))
        },
        (Phase::Finalizing, Event::Completed(completion)) => {
            let reply = finalize(store, &completion);
            (Phase::AwaitingUserInput, Action::Reply(reply))
        },
        (phase, _) => (phase, Action::Ignored),
    }
}

/// Everything that comes in from outside during one turn: what the user
/// said, what the model answered the first time, and, for a turn that runs
/// a tool, the tool's result text and the model's second answer.
pub struct TurnTrace {
    pub message: Seq<char>,
    pub first: Option<Seq<char>>,
    pub tool_result: Seq<char>,
    pub second: Option<Seq<char>>,
}

/// Whether the turn needs no tool.
pub open spec fn idle_turn(turn: TurnTrace) -> bool {
    is_idle(completion_decision(turn.first))
}

/// The entries that a turn appends, in order: the user's and the
/// assistant's, and for a tool turn the observation and the assistant's
/// final entry as well.
pub open spec fn turn_entries(turn: TurnTrace) -> Seq<EntryView> {
    let opening = seq![
        user_entry(turn.message),
        assistant_entry(completion_decision(turn.first)),
    ];
    if idle_turn(turn) {
        opening
    } else {
        opening.push(observation_entry(turn.tool_result)).push(
            assistant_entry(completion_decision(turn.second)),
        )
    }
}

/// The decision that a turn returns.
pub open spec fn turn_reply(turn: TurnTrace) -> DecisionView {
    if idle_turn(turn) {
        completion_decision(turn.first)
    } else {
        completion_decision(turn.second)
    }
}

/// How many requests to the model an action makes.
pub open spec fn requests(action: Action) -> nat {
    if action is AskModel {
        1
    } else {
        0
    }
}

/// How many tools an action runs.
pub open spec fn tool_runs(action: Action) -> nat {
    if action is RunTool {
        1
    } else {
        0
    }
}

/// The store after a sequence of turns.
pub open spec fn after_turns(store: Seq<EntryView>, turns: Seq<TurnTrace>) -> Seq<EntryView>
    decreases turns.len(),
{
    if turns.len() == 0 {
        store
    } else {
        after_turns(store, turns.drop_last()) + turn_entries(turns.last())
    }
}

/// How many of the turns run a tool.
pub open spec fn tool_turns(turns: Seq<TurnTrace>) -> nat
    decreases turns.len(),
{
    if turns.len() == 0 {
        0
    } else {
        tool_turns(turns.drop_last()) + if idle_turn(turns.last()) {
            0nat
        } else {
            1nat
        }
    }
}

/// The trace of an idle turn: nothing is asked of a tool or of the model a
/// second time.
pub open spec fn idle_trace(request: ChatRequest, first: Completion) -> TurnTrace {
    TurnTrace {
        message: request.message@,
        first: first@,
        tool_result: Seq::<char>::empty(),
        second: None,
    }
}

/// The trace of a turn that runs a tool.
pub open spec fn tool_trace(
    request: ChatRequest,
    first: Completion,
    outcome: ToolOutcome,
    second: Completion,
) -> TurnTrace {
    TurnTrace {
        message: request.message@,
        first: first@,
        tool_result: tool_text(outcome),
        second: second@,
    }
}

/// A turn whose first decision is `none` is over after two steps: of the
/// two actions exactly one asks the model and none runs a tool, the reply
/// is that decision, and the store has grown by the user's entry and the
/// assistant's.
pub proof fn lemma_idle_turn_steps(
    before: Seq<EntryView>,
    request: ChatRequest,
    first: Completion,
    asked: (Seq<EntryView>, Phase, Action),
    done: (Seq<EntryView>, Phase, Action),
)
    requires
        step_of(
            before,
            Phase::AwaitingUserInput,
            Event::Utterance(request),
            asked.0,
            asked.1,
            asked.2,
        ),
        step_of(asked.0, asked.1, Event::Completed(first), done.0, done.1, done.2),
        is_idle(completion_decision(first@)),
    ensures
        requests(asked.2) + requests(done.2) == 1,
        tool_runs(asked.2) + tool_runs(done.2) == 0,
        done.1 == Phase::AwaitingUserInput,
        done.2 is Reply,
        done.2->Reply_0@ == turn_reply(idle_trace(request, first)),
        done.0 == before + turn_entries(idle_trace(request, first)),
        done.0.len() == before.len() + 2,
{
    assert(done.0 =~= before + turn_entries(idle_trace(request, first)));
}

/// A turn whose first decision routes to a tool is over after four steps:
/// of the four actions exactly two ask the model and one runs a tool, the
/// reply is the second decision, and the store has grown by four entries:
/// the user's, the assistant's, the observation, the assistant's.
pub proof fn lemma_tool_turn_steps(
    before: Seq<EntryView>,
    request: ChatRequest,
    first: Completion,
    outcome: ToolOutcome,
    second: Completion,
    asked: (Seq<EntryView>, Phase, Action),
    routed: (Seq<EntryView>, Phase, Action),
    observed: (Seq<EntryView>, Phase, Action),
    done: (Seq<EntryView>, Phase, Action),
)
    requires
        step_of(
            before,
            Phase::AwaitingUserInput,
            Event::Utterance(request),
            asked.0,
            asked.1,
            asked.2,
        ),
        step_of(asked.0, asked.1, Event::Completed(first), routed.0, routed.1, routed.2),
        step_of(routed.0, routed.1, Event::ToolFinished(outcome), observed.0, observed.1, observed.2),
        step_of(observed.0, observed.1, Event::Completed(second), done.0, done.1, done.2),
        !is_idle(completion_decision(first@)),
    ensures
        requests(asked.2) + requests(routed.2) + requests(observed.2) + requests(done.2) == 2,
        tool_runs(asked.2) + tool_runs(routed.2) + tool_runs(observed.2) + tool_runs(done.2) == 1,
        routed.2 is RunTool,
        done.1 == Phase::AwaitingUserInput,
        done.2 is Reply,
        done.2->Reply_0@ == turn_reply(tool_trace(request, first, outcome, second)),
        done.0 == before + turn_entries(tool_trace(request, first, outcome, second)),
        done.0.len() == before.len() + 4,
{
    assert(done.0 =~= before + turn_entries(tool_trace(request, first, outcome, second)));
}

/// A turn appends exactly two entries when its decision is `none` and
/// exactly four when it runs a tool.
pub proof fn lemma_turn_appends_two_or_four(turn: TurnTrace)
    ensures
        idle_turn(turn) ==> turn_entries(turn).len() == 2,
        !idle_turn(turn) ==> turn_entries(turn).len() == 4,
{
}

/// A turn whose first decision is `none` appends the user's entry and the
/// assistant's and nothing else, and returns that first decision.
pub proof fn lemma_idle_turn_entries(turn: TurnTrace)
    requires
        idle_turn(turn),
    ensures
        turn_reply(turn) == completion_decision(turn.first),
        turn_entries(turn) == seq![
            user_entry(turn.message),
            assistant_entry(completion_decision(turn.first)),
        ],
{
}

/// Over any sequence of turns the store only grows at its end: what was
/// there stays where it was, and the length rises by two for every turn and
/// by two more for every turn that runs a tool.
pub proof fn lemma_store_grows_by_turns(store: Seq<EntryView>, turns: Seq<TurnTrace>)
    ensures
        after_turns(store, turns).len() == store.len() + 2 * turns.len() + 2 * tool_turns(turns),
        tool_turns(turns) <= turns.len(),
        store.is_prefix_of(after_turns(store, turns)),
    decreases turns.len(),
{
    if turns.len() > 0 {
        lemma_store_grows_by_turns(store, turns.drop_last());
        lemma_turn_appends_two_or_four(turns.last());
    }
}

} // verus!
