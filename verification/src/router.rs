//! The command router: which tool a decision calls for, and the text that
//! reports a tool's result back into the conversation.

use vstd::prelude::*;
use vstd::string::*;
use crate::calendar_api::{create_basic_event, events_string, events_text, CalendarEvent, EventDraft};
use crate::calendar_api::{draft_description, draft_visibility, target_calendar};
use crate::chat::{command_kind, command_of, text_member, text_member_of};
use crate::chat::{ChatResponse, Command, DecisionView};
use crate::weather_api::{weather_string, weather_text, WeatherResponse};

verus! {

/// The outside work that a decision calls for.
#[derive(Clone, Debug, PartialEq, Eq)]
pub enum ToolCall {
    /// Look up the current weather at a location.
    Weather(String),
    /// Read the coming week of all calendars.
    Events,
    /// Write an event.
    AddEvent(EventDraft),
    /// Nothing to run: the command is not one that the router handles.
    Unhandled,
}

/// A tool call as a mathematical value.
pub enum ToolPlan {
    Weather(Seq<char>),
    Events,
    AddEvent { name: Seq<char>, start: Seq<char>, end: Seq<char> },
    Unhandled,
}

impl View for ToolCall {
    type V = ToolPlan;

    open spec fn view(&self) -> ToolPlan {
        match self {
            ToolCall::Weather(location) => ToolPlan::Weather(location@),
            ToolCall::Events => ToolPlan::Events,
            ToolCall::AddEvent(draft) => ToolPlan::AddEvent {
                name: draft.summary@,
                start: draft.start_date@,
                end: draft.end_date@,
            },
            ToolCall::Unhandled => ToolPlan::Unhandled,
        }
    }
}

impl ToolCall {
    /// An event to be added carries the fixed description and visibility
    /// and goes to the assistant's calendar.
    pub open spec fn well_formed(&self) -> bool {
        match self {
            ToolCall::AddEvent(draft) => {
                &&& draft.description@ == draft_description()
                &&& draft.visibility@ == draft_visibility()
                &&& draft.calendar_id@ == target_calendar()
            },
            _ => true,
        }
    }
}

/// Why a decision cannot be routed: a parameter that its command requires
/// is missing or is not a string.
#[derive(Clone, Copy, Debug, PartialEq, Eq, Structural)]
pub enum RouteError {
    MissingLocation,
    MissingEventName,
    MissingDate,
}

/// The tool that a decision calls for. The weather needs a string
/// `location`; adding an event needs a string `event_name` and a string
/// `date`, the single day on which the event both starts and ends. Playing
/// a song is left to whoever shows the reply, and so is every name that is
/// no command: both are unhandled here.
pub open spec fn route_of(decision: DecisionView) -> Result<ToolPlan, RouteError> {
    match command_kind(decision.command) {
        Command::GetWeather => match text_member_of(decision.parameters, "location"@) {
            Some(location) => Ok(ToolPlan::Weather(location)),
            None => Err(RouteError::MissingLocation),
        },
        Command::GetEvents => Ok(ToolPlan::Events),
        Command::AddEvent => match text_member_of(decision.parameters, "event_name"@) {
            Some(name) => match text_member_of(decision.parameters, "date"@) {
                Some(date) => Ok(ToolPlan::AddEvent { name, start: date, end: date }),
                None => Err(RouteError::MissingDate),
            },
            None => Err(RouteError::MissingEventName),
        },
        _ => Ok(ToolPlan::Unhandled),
    }
}

/// Whether `found` is the routing `expected`.
pub open spec fn routed_as(
    found: Result<ToolCall, RouteError>,
    expected: Result<ToolPlan, RouteError>,
) -> bool {
    match expected {
        Ok(plan) => found.is_ok() && found.unwrap()@ == plan && found.unwrap().well_formed(),
        Err(error) => found == Err::<ToolCall, RouteError>(error),
    }
}

/// Maps a decision to the tool that it calls for, or says which required
/// parameter is missing. Nothing is run and nothing is kept.
pub fn route(decision: &ChatResponse) -> (call: Result<ToolCall, RouteError>)
    ensures
        routed_as(call, route_of(decision@)),
{
    match command_of(decision) {
        Command::GetWeather => match text_member(&decision.parameters, "location") {
            Some(location) => Ok(ToolCall::Weather(location)),
            None => Err(RouteError::MissingLocation),
        },
        Command::GetEvents => Ok(ToolCall::Events),
        Command::AddEvent => match text_member(&decision.parameters, "event_name") {
            Some(name) => match text_member(&decision.parameters, "date") {
                Some(date) => {
                    let end = date.clone();
                    Ok(ToolCall::AddEvent(create_basic_event(name, date, end)))
                },
                None => Err(RouteError::MissingDate),
            },
            None => Err(RouteError::MissingEventName),
        },
        _ => Ok(ToolCall::Unhandled),
    }
}

/// What a tool brought back.
#[derive(Clone, Debug, PartialEq, Eq)]
pub enum ToolOutcome {
    Weather(WeatherResponse),
    Events(Vec<CalendarEvent>),
    EventAdded,
    Unhandled,
    /// The tool could not do its work.
    Failed,
}

/// The text that confirms a written event.
pub open spec fn added_text() -> Seq<char> {
    "Added Event"@
}

/// The text that marks a command as not handled.
pub open spec fn unhandled_text() -> Seq<char> {
    "None"@
}

/// The text that reports a tool's failure.
pub open spec fn failed_text() -> Seq<char> {
    "Tool failed"@
}

/// The result text of a tool: terse lines, never JSON.
pub open spec fn tool_text(outcome: ToolOutcome) -> Seq<char> {
    match outcome {
        ToolOutcome::Weather(weather) => weather_text(
            weather.location.name@,
            weather.current.temp_f@,
        ),
        ToolOutcome::Events(events) => events_text(events@),
        ToolOutcome::EventAdded => added_text(),
        ToolOutcome::Unhandled => unhandled_text(),
        ToolOutcome::Failed => failed_text(),
    }
}

/// Renders what a tool brought back as the text that the model is shown.
pub fn tool_result_text(outcome: &ToolOutcome) -> (text: String)
    ensures
        text@ == tool_text(*outcome),
{
    match outcome {
        ToolOutcome::Weather(weather) => weather_string(weather),
        ToolOutcome::Events(events) => events_string(events),
        ToolOutcome::EventAdded => String::from_str("Added Event"),
        ToolOutcome::Unhandled => String::from_str("None"),
        ToolOutcome::Failed => String::from_str("Tool failed"),
    }
}

} // verus!
