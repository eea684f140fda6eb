use ponchik::blocks::{closing_blocks, intro_blocks, intro_message, midpoint_blocks, MessageError, INTRO_BLOCK};
use ponchik::introduction::{IntroAction, IntroEvent, IntroFailure, IntroRun};
use ponchik::json::Json;
use ponchik::pairing::{latest_round, round_after, Pairing};
use ponchik::partition::{group_by_size, random_partition, shuffle_with};
use ponchik::status::MeetingStatus;

fn names(items: &[&str]) -> Vec<String> {
    items.iter().map(|s| s.to_string()).collect()
}

#[test]
fn intro_message_matches_std_replace_chain() {
    let group = names(&["U1", "U2"]);
    let expected = INTRO_BLOCK.replace("channel", "C9").replace("userid1", "U1").replace("userid2", "U2");
    assert_eq!(intro_message("C9", &group), expected);
    assert!(expected.contains("<@U1>, <@U2>"));
    assert!(expected.contains("<#C9>"));
}

#[test]
fn intro_message_greets_first_two_of_larger_group() {
    let group = names(&["U1", "U2", "U3"]);
    let text = intro_message("C9", &group);
    assert!(text.contains("<@U1>, <@U2>"));
    assert!(!text.contains("U3"));
}

#[test]
fn blocks_parse() {
    let group = names(&["U1", "U2"]);
    let blocks = intro_blocks("C9", &group).unwrap();
    assert!(matches!(blocks, Json::Array(_)));
    let expected: serde_json::Value = serde_json::from_str(&intro_message("C9", &group)).unwrap();
    assert_eq!(blocks.to_text(), expected.to_string());
    assert!(matches!(midpoint_blocks().unwrap(), Json::Array(_)));
    assert!(matches!(closing_blocks().unwrap(), Json::Array(_)));
    let bad = names(&["U\"1", "U2"]);
    assert_eq!(intro_blocks("C9", &bad).unwrap_err(), MessageError::NotJson);
}

#[test]
fn shuffle_draws_in_pick_order() {
    let items = names(&["a", "b", "c", "d"]);
    let picks: Vec<usize> = vec![2, 0, 1, 0];
    assert_eq!(shuffle_with(items, &picks), names(&["c", "a", "d", "b"]));
    let items = names(&["a", "b", "c"]);
    let picks: Vec<usize> = vec![0, 0, 0];
    assert_eq!(shuffle_with(items, &picks), names(&["a", "b", "c"]));
}

#[test]
fn groups_absorb_leftovers() {
    assert_eq!(group_by_size(names(&["a", "b", "c", "d"]), 2), vec![names(&["a", "b"]), names(&["c", "d"])]);
    assert_eq!(group_by_size(names(&["a", "b", "c", "d", "e"]), 2), vec![names(&["a", "b"]), names(&["c", "d", "e"])]);
    assert_eq!(group_by_size(names(&["a", "b", "c"]), 2), vec![names(&["a", "b", "c"])]);
    assert_eq!(group_by_size(names(&["a"]), 2), vec![names(&["a"])]);
    assert_eq!(group_by_size(names(&[]), 2), Vec::<Vec<String>>::new());
    assert_eq!(group_by_size(names(&["a", "b", "c", "d", "e", "f", "g"]), 4), vec![names(&["a", "b", "c", "d", "e", "f", "g"])]);
}

#[test]
fn random_partition_keeps_every_member_once() {
    let mut users = names(&["u1", "u2", "u3", "u4", "u5", "u6", "u7"]);
    let groups = random_partition(&mut users, 2);
    let mut all: Vec<String> = groups.iter().flatten().cloned().collect();
    let flat_in_order: Vec<String> = groups.concat();
    assert_eq!(flat_in_order, users);
    all.sort();
    assert_eq!(all, names(&["u1", "u2", "u3", "u4", "u5", "u6", "u7"]));
    assert_eq!(groups.len(), 3);
    assert!(groups.iter().all(|g| g.len() == 2 || g.len() == 3));
}

#[test]
fn rounds_count_up_from_zero() {
    assert_eq!(latest_round(None), 0);
    assert_eq!(latest_round(Some(4)), 4);
    assert_eq!(round_after(latest_round(None)), 1);
    assert_eq!(round_after(4), 5);
}

#[test]
fn introduced_pairing_is_open() {
    let p = Pairing::introduced("D1".to_string(), 3, names(&["U1", "U2"]));
    assert_eq!(p.group_channel_id, "D1");
    assert_eq!(p.round, 3);
    assert_eq!(p.meeting_status, MeetingStatus::Open);
    assert_eq!(p.names, names(&["U1", "U2"]));
}

#[test]
fn a_run_introduces_each_group_in_one_round() {
    let groups = vec![names(&["U1", "U2"]), names(&["U3", "U4", "U5"])];
    let mut run = IntroRun::new("C9".to_string(), groups, 6);
    let mut recorded: Vec<Pairing> = Vec::new();
    let mut posted: Vec<String> = Vec::new();
    let mut event = IntroEvent::Proceed;
    let mut opened = 0;
    loop {
        assert!(run.can_step());
        event = match run.step(event) {
            IntroAction::OpenDirectMessage(members) => {
                opened += 1;
                assert_eq!(members.len() >= 2, true);
                IntroEvent::Opened(format!("D{}", opened))
            }
            IntroAction::Record(p) => {
                recorded.push(p);
                IntroEvent::Proceed
            }
            IntroAction::Post { channel_id, blocks } => {
                assert!(matches!(blocks, Json::Array(_)));
                posted.push(channel_id);
                IntroEvent::Proceed
            }
            IntroAction::Finish(outcome) => {
                assert_eq!(outcome, Ok(()));
                break;
            }
        };
    }
    assert_eq!(recorded.len(), 2);
    assert!(recorded.iter().all(|p| p.round == 7 && p.meeting_status == MeetingStatus::Open));
    assert_eq!(recorded[0].names, names(&["U1", "U2"]));
    assert_eq!(recorded[1].group_channel_id, "D2");
    assert_eq!(posted, vec!["D1".to_string(), "D2".to_string()]);
}

#[test]
fn a_run_stops_on_a_failed_direct_message() {
    let groups = vec![names(&["U1", "U2"]), names(&["U3", "U4"])];
    let mut run = IntroRun::new("C9".to_string(), groups, 0);
    assert!(matches!(run.step(IntroEvent::Proceed), IntroAction::OpenDirectMessage(_)));
    assert!(matches!(run.step(IntroEvent::Failed), IntroAction::Finish(Err(IntroFailure::DirectMessage))));
}

#[test]
fn a_run_stops_on_an_unparsable_message() {
    let groups = vec![names(&["U\"1", "U2"])];
    let mut run = IntroRun::new("C9".to_string(), groups, 0);
    assert!(matches!(run.step(IntroEvent::Proceed), IntroAction::Finish(Err(IntroFailure::Message(MessageError::NotJson)))));
}

#[test]
fn a_run_ignores_a_failed_record_and_stops_on_a_failed_post() {
    let groups = vec![names(&["U1", "U2"])];
    let mut run = IntroRun::new("C9".to_string(), groups, 0);
    assert!(matches!(run.step(IntroEvent::Proceed), IntroAction::OpenDirectMessage(_)));
    assert!(matches!(run.step(IntroEvent::Opened("D1".to_string())), IntroAction::Record(_)));
    assert!(matches!(run.step(IntroEvent::Failed), IntroAction::Post { .. }));
    assert!(matches!(run.step(IntroEvent::Failed), IntroAction::Finish(Err(IntroFailure::Post))));
}

#[test]
fn a_run_with_no_groups_finishes() {
    let mut run = IntroRun::new("C9".to_string(), Vec::new(), 0);
    assert!(matches!(run.step(IntroEvent::Proceed), IntroAction::Finish(Ok(()))));
}
