use std::str::FromStr;

use quickwit_actors::model::Index;
use quickwit_actors::model::Split;
use quickwit_actors::model::SplitState;

fn split(state: &str, start: Option<i64>, end: Option<i64>) -> Split {
    Split {
        split_id: "split-one".to_string(),
        split_state: state.to_string(),
        start_time_range: start,
        end_time_range: end,
        tags: vec!["tenant:a".to_string()],
        split_metadata_json: "{}".to_string(),
        index_id: "index-one".to_string(),
    }
}

#[test]
fn test_time_range_needs_both_ends() {
    assert_eq!(
        split("New", Some(-5), Some(20)).get_time_range(),
        Some(-5..=20)
    );
    assert_eq!(split("New", Some(7), Some(7)).get_time_range(), Some(7..=7));
    assert_eq!(split("New", Some(9), Some(1)).get_time_range(), Some(9..=1));
    assert_eq!(split("New", None, Some(20)).get_time_range(), None);
    assert_eq!(split("New", Some(-5), None).get_time_range(), None);
    assert_eq!(split("New", None, None).get_time_range(), None);
    assert_eq!(
        split("New", Some(i64::MIN), Some(i64::MAX)).get_time_range(),
        Some(i64::MIN..=i64::MAX)
    );
}

#[test]
fn test_split_state_is_read_from_its_name() {
    assert_eq!(
        split("New", None, None).get_split_state(),
        Some(SplitState::New)
    );
    assert_eq!(
        split("Staged", None, None).get_split_state(),
        Some(SplitState::Staged)
    );
    assert_eq!(
        split("Published", None, None).get_split_state(),
        Some(SplitState::Published)
    );
    assert_eq!(
        split("ScheduledForDeletion", None, None).get_split_state(),
        Some(SplitState::ScheduledForDeletion)
    );
}

#[test]
fn test_split_state_of_an_unknown_name() {
    assert_eq!(split("", None, None).get_split_state(), None);
    assert_eq!(split("new", None, None).get_split_state(), None);
    assert_eq!(split("Published ", None, None).get_split_state(), None);
    assert_eq!(split("Deleted", None, None).get_split_state(), None);
}

#[test]
fn test_split_state_from_str() {
    assert_eq!(SplitState::from_str("Staged"), Ok(SplitState::Staged));
    assert_eq!(SplitState::from_str("staged"), Err("Unknown split state"));
    assert_eq!(
        SplitState::from_name(&"ScheduledForDeletion".to_string()),
        Some(SplitState::ScheduledForDeletion)
    );
}

#[test]
fn test_index_row_holds_its_fields() {
    let index = Index {
        index_id: "index-one".to_string(),
        index_metadata_json: "{\"index_id\":\"index-one\"}".to_string(),
    };
    assert_eq!(index.index_id, "index-one");
    assert!(format!("{:?}", index).contains("index_metadata_json"));
}
