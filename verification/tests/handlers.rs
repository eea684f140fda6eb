use ponchik::api_error::{accept_payload, APIError, Received};
use ponchik::cli::{parse_command, Command, CommandError};
use ponchik::interaction::{interaction_acceptable, read_interaction, read_interaction_text, ButtonAction, InteractionPlan};
use ponchik::json::{read_reply, Json};
use ponchik::launcher::{plan_launch, Action, LaunchDecision, LaunchPayload};
use ponchik::sheets::{last_cell_text, Config};
use ponchik::status::{FinalStatus, MeetingStatus};

fn parse(text: &str) -> Json {
    read_reply(text).unwrap()
}

#[test]
fn api_errors_carry_their_codes() {
    let e = APIError::no_payload();
    assert_eq!((e.message, e.code), ("No payload", "no_payload"));
    let e = APIError::invalid_payload();
    assert_eq!((e.message, e.code), ("Invalid payload", "invalid_payload"));
    let e = APIError::json_parse_error();
    assert_eq!((e.message, e.code), ("could not parse JSON successfully", "json_parse_error"));
    let e = APIError::invalid_structure();
    assert_eq!((e.message, e.code), ("Invalid payload structure", "invalid_structure"));
    let e = APIError::no_authorization();
    assert_eq!((e.message, e.code), ("Missing api key", "no_authorization"));
    assert_eq!(e.describe(), "no_authorization: Missing api key");
}

#[test]
fn payloads_are_accepted_or_named() {
    assert_eq!(accept_payload(Received::Present(3)).unwrap(), 3);
    assert_eq!(accept_payload::<i32>(Received::Missing).unwrap_err().code, "no_payload");
    assert_eq!(accept_payload::<i32>(Received::Invalid).unwrap_err().code, "invalid_payload");
}

#[test]
fn buttons_answer_and_record() {
    let cases = [
        ("mid_yes", ButtonAction::MidYes, Some(MeetingStatus::Closed(FinalStatus::Met)),
         "It's time for a midpoint checkin!\n\n *Did you get a chance to meet?*\n\n✅ <@U7> said that you've met!"),
        ("mid_no", ButtonAction::MidNo, None,
         "It's time for a midpoint checkin!\n\n *Did you get a chance to meet?*\n\n*:C* <@U7> said that you have not scheduled yet."),
        ("mid_scheduled", ButtonAction::MidScheduled, Some(MeetingStatus::Scheduled),
         "It's time for a midpoint checkin!\n\n *Did you get a chance to meet?*\n\n📅 <@U7> said that your meeting is scheduled!"),
        ("close_yes", ButtonAction::CloseYes, Some(MeetingStatus::Closed(FinalStatus::Met)),
         "Checking in! Did you guys get a chance to connect?\n\n🥳<@U7> said that you met! Great!"),
        ("close_no", ButtonAction::CloseNo, Some(MeetingStatus::Closed(FinalStatus::Fail)),
         "Checking in! Did you guys get a chance to connect?\n\n😶‍🌫️<@U7> said no. Better luck next time!"),
    ];
    for (value, action, status, text) in cases.iter() {
        assert_eq!(ButtonAction::from_value(value), Some(*action));
        assert_eq!(action.value(), *value);
        assert_eq!(action.new_status(), *status);
        assert_eq!(action.reply_text("U7"), *text);
        assert_eq!(action.reply_text("U7"), format!("{}", text));
    }
    assert_eq!(ButtonAction::from_value("close_maybe"), None);
}

#[test]
fn interaction_payloads_are_read() {
    let good = parse(r#"{"response_url": "https://hooks/x", "actions": [{"value": "mid_scheduled"}],
        "user": {"id": "U7"}, "channel": {"id": "D9"}}"#);
    assert!(interaction_acceptable(&good));
    match read_interaction(Some(&good)) {
        InteractionPlan::Answer { action, user_id, channel_id, response_url } => {
            assert_eq!(action, ButtonAction::MidScheduled);
            assert_eq!(user_id, "U7");
            assert_eq!(channel_id, "D9");
            assert_eq!(response_url, "https://hooks/x");
        }
        other => panic!("unexpected plan {:?}", other),
    }
    let no_actions = parse(r#"{"response_url": "https://hooks/x"}"#);
    assert!(interaction_acceptable(&no_actions));
    assert!(matches!(read_interaction(Some(&no_actions)), InteractionPlan::Refuse(e) if e.code == "invalid_structure"));
    assert!(matches!(read_interaction(None), InteractionPlan::Fail(e) if e.code == "json_parse_error"));
    let unknown = parse(r#"{"response_url": "u", "actions": [{"value": "nope"}], "user": {"id": "U"}, "channel": {"id": "C"}}"#);
    assert!(!interaction_acceptable(&unknown));
    let no_user = parse(r#"{"response_url": "u", "actions": [{"value": "mid_no"}], "channel": {"id": "C"}}"#);
    assert!(!interaction_acceptable(&no_user));
}

fn launch(action: &str, key: &str) -> Received<LaunchPayload> {
    Received::Present(LaunchPayload { action: action.to_string(), api_key: key.to_string() })
}

#[test]
fn interaction_texts_are_read() {
    let text = r#"{"response_url": "https://hooks/x", "actions": [{"value": "close_no"}],
        "user": {"id": "U7"}, "channel": {"id": "D9"}}"#;
    assert!(matches!(read_interaction_text(text),
        InteractionPlan::Answer { action: ButtonAction::CloseNo, ref user_id, .. } if user_id == "U7"));
    assert!(matches!(read_interaction_text("{not json"), InteractionPlan::Fail(e) if e.code == "json_parse_error"));
    assert!(matches!(read_interaction_text(r#"{"actions": []}"#), InteractionPlan::Refuse(e) if e.code == "invalid_structure"));
    let unknown = r#"{"response_url": "u", "actions": [{"value": "nope"}], "user": {"id": "U"}, "channel": {"id": "C"}}"#;
    assert!(matches!(read_interaction_text(unknown), InteractionPlan::Unanswerable));
}

#[test]
fn launches_need_the_key_and_a_known_action() {
    assert!(matches!(plan_launch(launch("launch_intro", "k"), "k"), LaunchDecision::Run(Action::LaunchIntros)));
    assert!(matches!(plan_launch(launch("test_cur_round", "k"), "k"), LaunchDecision::Run(Action::TestCurRound)));
    assert!(matches!(plan_launch(launch("launch_intro", "wrong"), "k"), LaunchDecision::Refuse(e) if e.code == "no_authorization"));
    assert!(matches!(plan_launch(launch("dance", "k"), "k"), LaunchDecision::Fail(t) if t == "invalid option"));
    assert!(matches!(plan_launch(Received::Missing, "k"), LaunchDecision::Refuse(e) if e.code == "no_payload" && e.message == "No payload"));
    assert!(matches!(plan_launch(Received::Invalid, "k"), LaunchDecision::Refuse(e) if e.code == "invalid_payload" && e.message == "Invalid payload"));
    assert_eq!("launch_closing".parse::<Action>(), Ok(Action::LaunchClosing));
    assert_eq!("x".parse::<Action>(), Err("invalid option".to_string()));
    assert_eq!(Action::LaunchIntros.done_message(), Some("intros sent successfully"));
    assert_eq!(Action::LaunchMidpoint.done_message(), Some("midpoints sent successfully"));
    assert_eq!(Action::LaunchClosing.done_message(), Some("closings set up successfully"));
    assert_eq!(Action::TestGenPairs.done_message(), None);
}

#[test]
fn config_holds_the_sheet_settings() {
    let c = Config::new();
    assert_eq!(c.priv_key, "priv_key.json");
    assert_eq!(c.sheet_id, "1PNWBP6onxP6F0zMVxNE-GeDQiejbbV9i4-eBXbMJYKY");
    assert_eq!(c.deposit_range_input, "A2:B");
    assert_eq!(c.deposit_range_output, "A2:B");
}

#[test]
fn last_cell_skips_empty_rows() {
    let rows: Vec<Vec<serde_json::Value>> = vec![
        vec![serde_json::Value::from("a"), serde_json::Value::from(2)],
        vec![serde_json::Value::from("c")],
        vec![],
    ];
    assert_eq!(last_cell_text(&rows), "\"c\"");
    let numbers: Vec<Vec<serde_json::Value>> = vec![vec![serde_json::Value::from(1), serde_json::Value::from(42)]];
    assert_eq!(last_cell_text(&numbers), "42");
    let none: Vec<Vec<serde_json::Value>> = vec![vec![], vec![]];
    assert_eq!(last_cell_text(&none), "");
}

#[test]
fn commands_are_read_from_arguments() {
    let args = |xs: &[&str]| xs.iter().map(|s| s.to_string()).collect::<Vec<String>>();
    assert_eq!(parse_command(&args(&["bot", "new-pairings"])), Ok(Command::NewPairings));
    assert_eq!(parse_command(&args(&["bot", "midpoint"])), Ok(Command::Midpoint));
    assert_eq!(parse_command(&args(&["bot", "db"])), Ok(Command::Db));
    assert_eq!(parse_command(&args(&["bot", "dance"])), Err(CommandError::UnknownCommand));
    assert_eq!(parse_command(&args(&["bot"])), Err(CommandError::WrongArgumentCount));
}
