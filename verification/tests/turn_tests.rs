use mirror_ai::chat::{
    classify, decide, decode_reply, default_response, extract_reply, finalize,
    handle_chat_request, handle_command, read_completion, text_member, to_json_message, Branch,
    ChatRequest, ChatResponse, Completion,
};
use mirror_ai::conversation::{Conversation, ConversationEntry, Role};
use mirror_ai::router::{ToolCall, ToolOutcome};
use mirror_ai::weather_api::{Condition, CurrentResponse, LocationResponse, WeatherResponse};

const REMINDER: &str = " \nREMEMBER RESPOND IN JSON ONLY";
const FALLBACK: &str = "I didn't understand that.";

fn json(text: &str) -> serde_json::Value {
    serde_json::from_str(text).unwrap()
}

fn envelope(reply: &str) -> Completion {
    let body = format!(
        "{{\"choices\":[{{\"message\":{{\"role\":\"assistant\",\"content\":{}}}}}]}}",
        serde_json::Value::String(reply.to_string())
    );
    Completion::Body(body)
}

fn is_default(response: &ChatResponse) -> bool {
    response.command == "none" && response.parameters == json("{}") && response.text == FALLBACK
}

fn seattle() -> WeatherResponse {
    WeatherResponse {
        location: LocationResponse {
            name: "Seattle".to_string(),
            region: "Washington".to_string(),
            country: "USA".to_string(),
        },
        current: CurrentResponse {
            temp_f: 55.0f64.to_string(),
            condition: Condition { text: "Cloudy".to_string(), icon: "c.png".to_string() },
        },
    }
}

#[test]
fn default_response_is_the_fixed_decision() {
    let d = default_response();
    assert_eq!(d.command, "none");
    assert_eq!(d.parameters, json("{}"));
    assert_eq!(d.text, FALLBACK);
}

#[test]
fn decode_reply_reads_a_conforming_reply() {
    let d = decode_reply("{\"command\":\"get_weather\",\"parameters\":{\"location\":\"Seattle\"},\"text\":\"Checking.\"}");
    assert_eq!(d.command, "get_weather");
    assert_eq!(d.parameters, json("{\"location\":\"Seattle\"}"));
    assert_eq!(d.text, "Checking.");
}

#[test]
fn decode_reply_ignores_extra_members() {
    let d = decode_reply("{\"command\":\"none\",\"parameters\":{},\"text\":\"Hi!\",\"mood\":3}");
    assert_eq!(d.command, "none");
    assert_eq!(d.text, "Hi!");
}

#[test]
fn decode_reply_defaults_on_text_that_is_no_json() {
    assert!(is_default(&decode_reply("Sure, here is the weather")));
    assert!(is_default(&decode_reply("")));
    assert!(is_default(&decode_reply("{\"command\":\"none\"")));
}

#[test]
fn decode_reply_defaults_on_a_reply_off_the_schema() {
    assert!(is_default(&decode_reply("{\"command\":\"get_events\",\"text\":\"x\"}")));
    assert!(is_default(&decode_reply("{\"command\":7,\"parameters\":{},\"text\":\"x\"}")));
    assert!(is_default(&decode_reply("{\"command\":\"get_events\",\"parameters\":{},\"text\":null}")));
    assert!(is_default(&decode_reply("{\"command\":\"get_events\",\"parameters\":{}}")));
    assert!(is_default(&decode_reply("[\"get_events\",{},\"x\"]")));
    assert!(is_default(&decode_reply("42")));
}

#[test]
fn decide_copies_the_parameters() {
    let doc = json("{\"command\":\"play_song\",\"parameters\":{\"a\":[1,2,{\"b\":null}]},\"text\":\"ok\"}");
    let d = decide(&doc);
    assert_eq!(d.parameters, json("{\"a\":[1,2,{\"b\":null}]}"));
    assert_eq!(d.command, "play_song");
    assert_eq!(d.text, "ok");
}

#[test]
fn text_member_reads_only_strings() {
    let doc = json("{\"a\":\"x\",\"b\":1}");
    assert_eq!(text_member(&doc, "a"), Some("x".to_string()));
    assert_eq!(text_member(&doc, "b"), None);
    assert_eq!(text_member(&doc, "c"), None);
    assert_eq!(text_member(&json("[\"a\"]"), "a"), None);
}

#[test]
fn extract_reply_finds_the_first_choice() {
    let env = json("{\"choices\":[{\"message\":{\"content\":\"one\"}},{\"message\":{\"content\":\"two\"}}]}");
    assert_eq!(extract_reply(&env), Some("one".to_string()));
}

#[test]
fn extract_reply_is_none_without_a_reply() {
    assert_eq!(extract_reply(&json("{\"choices\":[]}")), None);
    assert_eq!(extract_reply(&json("{\"error\":{\"message\":\"quota\"}}")), None);
    assert_eq!(extract_reply(&json("{\"choices\":[{\"message\":{\"content\":null}}]}")), None);
    assert_eq!(extract_reply(&json("{\"choices\":{\"0\":1}}")), None);
}

#[test]
fn read_completion_degrades_to_the_default() {
    assert!(is_default(&read_completion(&Completion::Unavailable)));
    assert!(is_default(&read_completion(&Completion::Body("<html>".to_string()))));
    assert!(is_default(&read_completion(&Completion::Body("{\"choices\":[]}".to_string()))));
    assert!(is_default(&read_completion(&envelope("not json"))));
}

#[test]
fn read_completion_reads_the_decision() {
    let d = read_completion(&envelope("{\"command\":\"get_events\",\"parameters\":{},\"text\":\"Let me look.\"}"));
    assert_eq!(d.command, "get_events");
    assert_eq!(d.text, "Let me look.");
}

#[test]
fn to_json_message_keeps_role_and_message() {
    let e = to_json_message(Role::User, "hello");
    assert_eq!(e, ConversationEntry { role: Role::User, content: "hello".to_string() });
}

#[test]
fn to_json_message_sys_is_the_system_prompt() {
    let e = to_json_message(Role::User, "sys");
    assert_eq!(e.role, Role::System);
    assert!(e.content.starts_with("You are a helpful AI for a smart mirror. Possible commands:\n- \"get_events\""));
    assert!(e.content.ends_with("The text section is the only sections that is given to text_to_speech"));
    assert!(e.content.contains("Always respond in strict JSON: {\"command\":\"...\",\"parameters\":{...},\"text\":\"...\"}\n"));
}

#[test]
fn seeded_store_holds_prompt_and_date() {
    let store = Conversation::seeded("2024-01-01 10:00:00 +00:00");
    let all = store.snapshot();
    assert_eq!(store.len(), 2);
    assert_eq!(all[0], to_json_message(Role::System, "sys"));
    assert_eq!(
        all[1],
        ConversationEntry {
            role: Role::System,
            content: "Current Date:2024-01-01 10:00:00 +00:00".to_string()
        }
    );
}

#[test]
fn append_and_snapshot_keep_order() {
    let mut store = Conversation::new();
    assert_eq!(store.len(), 0);
    store.append(to_json_message(Role::User, "a"));
    let first = store.snapshot();
    store.append(to_json_message(Role::Assistant, "b"));
    let second = store.snapshot();
    assert_eq!(first.len(), 1);
    assert_eq!(second.len(), 2);
    assert_eq!(second[0], first[0]);
    assert_eq!(second[1].content, "b");
    assert_eq!(second[1].role, Role::Assistant);
}

#[test]
fn idle_turn_appends_two_entries_and_runs_no_tool() {
    let mut store = Conversation::seeded("today");
    let before = store.len();
    let history = handle_chat_request(&mut store, &ChatRequest { message: "Hello".to_string() });
    assert_eq!(history.len(), before + 1);
    assert_eq!(history[before].role, Role::User);
    assert_eq!(history[before].content, format!("Hello{}", REMINDER));
    let branch = classify(
        &mut store,
        &envelope("{\"command\":\"none\",\"parameters\":{},\"text\":\"Hi!\"}"),
    );
    match branch {
        Branch::Idle(reply) => {
            assert_eq!(reply.command, "none");
            assert_eq!(reply.text, "Hi!");
            assert_eq!(reply.parameters, json("{}"));
        }
        other => panic!("unexpected branch {:?}", other),
    }
    let all = store.snapshot();
    assert_eq!(all.len(), before + 2);
    assert_eq!(all[before + 1], ConversationEntry { role: Role::Assistant, content: "Hi!".to_string() });
}

#[test]
fn tool_turn_appends_four_entries() {
    let mut store = Conversation::seeded("today");
    let before = store.len();
    handle_chat_request(&mut store, &ChatRequest { message: "Weather in Seattle?".to_string() });
    let branch = classify(
        &mut store,
        &envelope("{\"command\":\"get_weather\",\"parameters\":{\"location\":\"Seattle\"},\"text\":\"One moment.\"}"),
    );
    assert_eq!(branch, Branch::Executing(ToolCall::Weather("Seattle".to_string())));
    let history = handle_command(&mut store, &ToolOutcome::Weather(seattle()));
    assert_eq!(history.len(), before + 3);
    assert_eq!(history[before + 1].content, "One moment.");
    assert_eq!(history[before + 2].role, Role::System);
    assert_eq!(
        history[before + 2].content,
        "Returned_Value:Location:Seattle\nWeather:55 Degrees Farenheit\n\nREMEMBER RESPOND IN JSON ONLY\n"
    );
    let reply = finalize(
        &mut store,
        &envelope("{\"command\":\"none\",\"parameters\":{},\"text\":\"It is 55 degrees in Seattle.\"}"),
    );
    assert_eq!(reply.text, "It is 55 degrees in Seattle.");
    let all = store.snapshot();
    assert_eq!(all.len(), before + 4);
    assert_eq!(all[before + 3].role, Role::Assistant);
    assert_eq!(all[before + 3].content, "It is 55 degrees in Seattle.");
    assert_eq!(&all[..before + 3], &history[..]);
}

#[test]
fn failed_model_still_gives_a_spoken_reply() {
    let mut store = Conversation::new();
    handle_chat_request(&mut store, &ChatRequest { message: "Hello".to_string() });
    let branch = classify(&mut store, &Completion::Unavailable);
    match branch {
        Branch::Idle(reply) => assert!(is_default(&reply)),
        other => panic!("unexpected branch {:?}", other),
    }
    let all = store.snapshot();
    assert_eq!(all.len(), 2);
    assert_eq!(all[1].content, FALLBACK);
}

#[test]
fn finalize_defaults_on_a_broken_second_reply() {
    let mut store = Conversation::new();
    let reply = finalize(&mut store, &envelope("I added it"));
    assert!(is_default(&reply));
    assert_eq!(store.len(), 1);
    assert_eq!(store.snapshot()[0].content, FALLBACK);
}

#[test]
fn several_turns_grow_the_store_by_two_or_four() {
    let mut store = Conversation::seeded("today");
    let mut expected = store.len();
    for round in 0..3 {
        handle_chat_request(&mut store, &ChatRequest { message: format!("turn {}", round) });
        let branch = if round == 1 {
            classify(&mut store, &envelope("{\"command\":\"get_events\",\"parameters\":{},\"text\":\"Looking.\"}"))
        } else {
            classify(&mut store, &envelope("{\"command\":\"none\",\"parameters\":{},\"text\":\"Ok.\"}"))
        };
        match branch {
            Branch::Idle(_) => expected += 2,
            Branch::Executing(call) => {
                assert_eq!(call, ToolCall::Events);
                handle_command(&mut store, &ToolOutcome::Events(vec![]));
                finalize(&mut store, &envelope("{\"command\":\"none\",\"parameters\":{},\"text\":\"Nothing.\"}"));
                expected += 4;
            }
        }
        assert_eq!(store.len(), expected);
    }
    assert_eq!(store.len(), 2 + 2 + 4 + 2);
}
