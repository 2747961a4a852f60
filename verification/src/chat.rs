//! Decisions of the language model and the phases of one turn.
//!
//! A turn runs `AwaitingUserInput -> Classifying -> (Idle | Executing) ->
//! Finalizing`. The caller performs the outside work between the phases:
//! it asks the model for a completion of the history it is handed, and it
//! runs the tool that a decision calls for. Each phase is one function here.

use vstd::prelude::*;
use vstd::string::*;
pub use crate::conversation::to_json_message;
use crate::conversation::{entries_view, Conversation, ConversationEntry, EntryView, Role};
use crate::json::{json_element, json_empty_object, json_is_object, json_member, json_text};
use crate::json::parse_json;
use crate::json::{element_of, json_tree, member_of, parsed_json, text_of, JsonTree};
use crate::router::{route, route_of, routed_as, tool_result_text, tool_text};
use crate::router::{ToolCall, ToolOutcome};

verus! {

/// What the user said.
#[derive(Clone, Debug, PartialEq, Eq)]
pub struct ChatRequest {
    pub message: String,
}

/// A decision of the language model: the command it chose, the command's
/// parameters, and the text to be spoken.
#[derive(Clone, Debug, PartialEq)]
pub struct ChatResponse {
    pub command: String,
    pub parameters: serde_json::Value,
    pub text: String,
}

/// A decision as a mathematical value.
pub struct DecisionView {
    pub command: Seq<char>,
    pub parameters: JsonTree,
    pub text: Seq<char>,
}

impl View for ChatResponse {
    type V = DecisionView;

    open spec fn view(&self) -> DecisionView {
        DecisionView {
            command: self.command@,
            parameters: json_tree(self.parameters),
            text: self.text@,
        }
    }
}

/// What came back from asking the language model: the body of its answer,
/// or nothing where the model could not be reached or answered with an
/// unreadable body.
#[derive(Clone, Debug, PartialEq, Eq)]
pub enum Completion {
    Unavailable,
    Body(String),
}

impl View for Completion {
    type V = Option<Seq<char>>;

    open spec fn view(&self) -> Option<Seq<char>> {
        match self {
            Completion::Unavailable => None,
            Completion::Body(body) => Some(body@),
        }
    }
}

/// The commands that a decision can name.
#[derive(Clone, Copy, Debug, PartialEq, Eq, Structural)]
pub enum Command {
    GetEvents,
    PlaySong,
    AddEvent,
    GetWeather,
    /// `none`: no tool is needed.
    NoCommand,
    /// Any other name.
    Unrecognized,
}

/// The command that a name stands for.
pub open spec fn command_kind(name: Seq<char>) -> Command {
    if name == "none"@ {
        Command::NoCommand
    } else if name == "get_weather"@ {
        Command::GetWeather
    } else if name == "get_events"@ {
        Command::GetEvents
    } else if name == "add_event"@ {
        Command::AddEvent
    } else if name == "play_song"@ {
        Command::PlaySong
    } else {
        Command::Unrecognized
    }
}

/// The apology that is spoken when the model's reply cannot be used.
pub open spec fn fallback_text() -> Seq<char> {
    "I didn't understand that."@
}

/// The decision that stands in for every reply that cannot be used: no
/// command, no parameters, and the apology.
pub open spec fn default_decision() -> DecisionView {
    DecisionView {
        command: "none"@,
        parameters: JsonTree::Object(Map::<Seq<char>, JsonTree>::empty()),
        text: fallback_text(),
    }
}

/// The member of an object under `key` where it is a JSON string.
pub open spec fn text_member_of(doc: JsonTree, key: Seq<char>) -> Option<Seq<char>> {
    match member_of(doc, key) {
        Some(member) => text_of(member),
        None => None,
    }
}

/// The three members of a document as a decision, whatever they hold.
pub open spec fn members_of(doc: JsonTree) -> DecisionView {
    DecisionView {
        command: text_member_of(doc, "command"@).unwrap(),
        parameters: member_of(doc, "parameters"@).unwrap(),
        text: text_member_of(doc, "text"@).unwrap(),
    }
}

/// Whether a document has the shape of a decision: an object with a string
/// `command`, an object `parameters` and a string `text`, in which the
/// parameters hold what the command requires.
pub open spec fn conforms(doc: JsonTree) -> bool {
    &&& text_member_of(doc, "command"@).is_some()
    &&& member_of(doc, "parameters"@).is_some()
    &&& member_of(doc, "parameters"@).unwrap() is Object
    &&& text_member_of(doc, "text"@).is_some()
    &&& route_of(members_of(doc)).is_ok()
}

/// The decision that a document holds: its three members where it conforms,
/// the default decision where it does not.
pub open spec fn decision_in(doc: JsonTree) -> DecisionView {
    if conforms(doc) {
        members_of(doc)
    } else {
        default_decision()
    }
}

/// The decision for the outcome of parsing a reply.
pub open spec fn decision_of(parsed: Option<JsonTree>) -> DecisionView {
    match parsed {
        Some(doc) => decision_in(doc),
        None => default_decision(),
    }
}

/// The model's reply inside the envelope of a completion: the string at
/// `choices[0].message.content`.
pub open spec fn reply_in(envelope: JsonTree) -> Option<Seq<char>> {
    match member_of(envelope, "choices"@) {
        Some(choices) => match element_of(choices, 0) {
            Some(choice) => match member_of(choice, "message"@) {
                Some(message) => text_member_of(message, "content"@),
                None => None,
            },
            None => None,
        },
        None => None,
    }
}

/// The decision for a parsed envelope.
pub open spec fn envelope_decision(parsed: Option<JsonTree>) -> DecisionView {
    match parsed {
        Some(envelope) => match reply_in(envelope) {
            Some(reply) => decision_of(parsed_json(reply)),
            None => default_decision(),
        },
        None => default_decision(),
    }
}

/// The decision that a completion amounts to. Every failure on the way (no
/// answer, a body that is no JSON, an envelope without a reply, a reply that
/// is no JSON or does not conform) gives the default decision.
pub open spec fn completion_decision(completion: Option<Seq<char>>) -> DecisionView {
    match completion {
        Some(body) => envelope_decision(parsed_json(body)),
        None => default_decision(),
    }
}

/// Whether an optional string has exactly the given optional characters.
pub open spec fn same_text(found: Option<String>, expected: Option<Seq<char>>) -> bool {
    match (found, expected) {
        (Some(a), Some(b)) => a@ == b,
        (None, None) => true,
        _ => false,
    }
}

/// The default decision.
pub fn default_response() -> (response: ChatResponse)
    ensures
        response@ == default_decision(),
{
    ChatResponse {
        command: String::from_str("none"),
        parameters: json_empty_object(),
        text: String::from_str("I didn't understand that."),
    }
}

/// Tells which command a decision names.
pub fn command_of(decision: &ChatResponse) -> (command: Command)
    ensures
        command == command_kind(decision.command@),
{
    if decision.command == String::from_str("none") {
        Command::NoCommand
    } else if decision.command == String::from_str("get_weather") {
        Command::GetWeather
    } else if decision.command == String::from_str("get_events") {
        Command::GetEvents
    } else if decision.command == String::from_str("add_event") {
        Command::AddEvent
    } else if decision.command == String::from_str("play_song") {
        Command::PlaySong
    } else {
        Command::Unrecognized
    }
}

/// Reads the string member `key` of an object.
pub fn text_member(doc: &serde_json::Value, key: &str) -> (found: Option<String>)
    ensures
        same_text(found, text_member_of(json_tree(*doc), key@)),
{
    match json_member(doc, key) {
        Some(member) => match json_text(member) {
            Some(text) => Some(String::from_str(text)),
            None => None,
        },
        None => None,
    }
}

/// Reads a decision out of a parsed reply. A document that does not
/// conform, be it for a missing member, for parameters that are no object
/// or for a parameter that its command requires, gives the default
/// decision.
pub fn decide(doc: &serde_json::Value) -> (response: ChatResponse)
    ensures
        response@ == decision_in(json_tree(*doc)),
{
    let command = text_member(doc, "command");
    let parameters = json_member(doc, "parameters");
    let text = text_member(doc, "text");
    match (command, parameters, text) {
        (Some(command), Some(parameters), Some(text)) => {
            if json_is_object(parameters) {
                let response = ChatResponse { command, parameters: parameters.clone(), text };
                match route(&response) {
                    Ok(_) => response,
                    Err(_) => default_response(),
                }
            } else {
                default_response()
            }
        },
        _ => default_response(),
    }
}

/// Decodes the model's reply text into a decision. A reply that is no JSON
/// or does not conform gives the default decision; nothing is ever raised.
pub fn decode_reply(reply: &str) -> (response: ChatResponse)
    ensures
        response@ == decision_of(parsed_json(reply@)),
{
    match parse_json(reply) {
        Ok(doc) => decide(&doc),
        Err(_) => default_response(),
    }
}

/// Finds the model's reply inside a parsed completion envelope.
pub fn extract_reply(envelope: &serde_json::Value) -> (reply: Option<String>)
    ensures
        same_text(reply, reply_in(json_tree(*envelope))),
{
    match json_member(envelope, "choices") {
        Some(choices) => match json_element(choices, 0) {
            Some(choice) => match json_member(choice, "message") {
                Some(message) => text_member(message, "content"),
                None => None,
            },
            None => None,
        },
        None => None,
    }
}

/// Turns what came back from the model into a decision, whatever came back.
pub fn read_completion(completion: &Completion) -> (response: ChatResponse)
    ensures
        response@ == completion_decision(completion@),
{
    match completion {
        Completion::Unavailable => default_response(),
        Completion::Body(body) => match parse_json(body.as_str()) {
            Ok(envelope) => match extract_reply(&envelope) {
                Some(reply) => decode_reply(reply.as_str()),
                None => default_response(),
            },
            Err(_) => default_response(),
        },
    }
}

/// A reply that is no JSON, or whose document does not conform, decodes to
/// the default decision.
pub proof fn lemma_unusable_reply_gives_default(reply: Seq<char>)
    requires
        parsed_json(reply).is_none() || !conforms(parsed_json(reply).unwrap()),
    ensures
        decision_of(parsed_json(reply)) == default_decision(),
{
}

/// Whatever came back from the model, the decision made of it can be
/// routed: it lacks no parameter that its command requires.
pub proof fn lemma_decoded_decision_routes(completion: Option<Seq<char>>)
    ensures
        route_of(completion_decision(completion)).is_ok(),
{
}

/// A completion that is missing, or whose body is no JSON or holds no
/// reply, gives the default decision.
pub proof fn lemma_unusable_completion_gives_default(completion: Option<Seq<char>>)
    requires
        completion.is_none() || parsed_json(completion.unwrap()).is_none() || reply_in(
            parsed_json(completion.unwrap()).unwrap(),
        ).is_none(),
    ensures
        completion_decision(completion) == default_decision(),
{
}

/// The credential that goes with a request to the model.
pub open spec fn authorization_text(api_key: Seq<char>) -> Seq<char> {
    "Bearer "@ + api_key
}

/// Builds the value of the authorization header for a key.
pub fn authorization(api_key: &str) -> (header: String)
    ensures
        header@ == authorization_text(api_key@),
{
    let mut header = String::from_str("Bearer ");
    header.append(api_key);
    header
}

/// The entry for what the user said: the words, then the reminder to answer
/// in JSON only.
pub open spec fn user_entry(message: Seq<char>) -> EntryView {
    (Role::User, message + " \nREMEMBER RESPOND IN JSON ONLY"@)
}

/// The entry for a decision: its text alone, never the raw reply.
pub open spec fn assistant_entry(decision: DecisionView) -> EntryView {
    (Role::Assistant, decision.text)
}

/// The entry that shows the model a tool's result: a marker, the result,
/// and the reminder to answer in JSON only.
pub open spec fn observation_entry(result: Seq<char>) -> EntryView {
    (Role::System, "Returned_Value:"@ + result + "\nREMEMBER RESPOND IN JSON ONLY\n"@)
}

/// Whether a decision asks for no tool.
pub open spec fn is_idle(decision: DecisionView) -> bool {
    command_kind(decision.command) == Command::NoCommand
}

/// Where a turn goes once its first completion is decoded.
#[derive(Clone, Debug, PartialEq)]
pub enum Branch {
    /// No tool is needed: the decision is the turn's result.
    Idle(ChatResponse),
    /// A tool is to be run; its outcome goes to `handle_command`.
    Executing(ToolCall),
}

/// Whether `branch` is the one that `decision` leads to.
pub open spec fn branch_of(branch: Branch, decision: DecisionView) -> bool {
    match branch {
        Branch::Idle(reply) => is_idle(decision) && reply@ == decision,
        Branch::Executing(call) => !is_idle(decision) && routed_as(Ok(call), route_of(decision)),
    }
}

/// `AwaitingUserInput -> Classifying`: appends what the user said and hands
/// back the history to send to the model.
pub fn handle_chat_request(store: &mut Conversation, request: &ChatRequest) -> (history: Vec<
    ConversationEntry,
>)
    ensures
        final(store)@ == old(store)@.push(user_entry(request.message@)),
        entries_view(history@) == final(store)@,
{
    let mut content = request.message.clone();
    content.append(" \nREMEMBER RESPOND IN JSON ONLY");
    store.append(ConversationEntry { role: Role::User, content });
    store.snapshot()
}

/// `Classifying -> (Idle | Executing)`: decodes the first completion,
/// appends the decision's text as the assistant's entry, and says where the
/// turn goes next.
pub fn classify(store: &mut Conversation, completion: &Completion) -> (branch: Branch)
    ensures
        final(store)@ == old(store)@.push(assistant_entry(completion_decision(completion@))),
        branch_of(branch, completion_decision(completion@)),
{
    let decision = read_completion(completion);
    store.append(ConversationEntry { role: Role::Assistant, content: decision.text.clone() });
    match command_of(&decision) {
        Command::NoCommand => Branch::Idle(decision),
        _ => match route(&decision) {
            Ok(call) => Branch::Executing(call),
            Err(_) => {
                proof {
                    lemma_decoded_decision_routes(completion@);
                }
                unreached()
            },
        },
    }
}

/// `Executing`: appends the tool's result as an observation of the system
/// and hands back the history to send to the model a second time.
pub fn handle_command(store: &mut Conversation, outcome: &ToolOutcome) -> (history: Vec<
    ConversationEntry,
>)
    ensures
        final(store)@ == old(store)@.push(observation_entry(tool_text(*outcome))),
        entries_view(history@) == final(store)@,
{
    let result = tool_result_text(outcome);
    let mut content = String::from_str("Returned_Value:");
    content.append(result.as_str());
    content.append("\nREMEMBER RESPOND IN JSON ONLY\n");
    store.append(ConversationEntry { role: Role::System, content });
    store.snapshot()
}

/// `Executing -> Finalizing`: decodes the second completion, appends its
/// text as the assistant's entry, and returns it as the turn's result.
pub fn finalize(store: &mut Conversation, completion: &Completion) -> (reply: ChatResponse)
    ensures
        final(store)@ == old(store)@.push(assistant_entry(completion_decision(completion@))),
        reply@ == completion_decision(completion@),
{
    let reply = read_completion(completion);
    store.append(ConversationEntry { role: Role::Assistant, content: reply.text.clone() });
    reply
}

} // verus!
