use avro_decode::avro::{AvroDecoderState, CounterIncrements, DecodeError, DiffPair, Diff, Timestamp};

fn insert(row: &str) -> Result<DiffPair<String>, String> {
    Ok(DiffPair { before: None, after: Some(row.to_string()) })
}

fn update(before: &str, after: &str) -> Result<DiffPair<String>, String> {
    Ok(DiffPair { before: Some(before.to_string()), after: Some(after.to_string()) })
}

fn failure() -> Result<DiffPair<String>, String> {
    Err("unexpected end of input".to_string())
}

#[test]
fn new_state_has_zero_counts() {
    let st = AvroDecoderState::new((), false);
    assert_eq!(st.log_error_count(), CounterIncrements { success: None, error: None });
}

#[test]
fn insert_emits_one_positive_tuple() {
    let mut st = AvroDecoderState::new((), false);
    let mut session: Vec<(String, Timestamp, Diff)> = Vec::new();
    assert_eq!(st.give_value(insert("a"), &mut session, 5), Ok(()));
    assert_eq!(session, vec![("a".to_string(), 5, 1)]);
    assert_eq!(st.log_error_count(), CounterIncrements { success: Some(1), error: None });
}

#[test]
fn failed_value_decode_emits_nothing_and_counts_an_error() {
    let mut st = AvroDecoderState::new((), false);
    let mut session: Vec<(String, Timestamp, Diff)> = Vec::new();
    let r = st.give_value(failure(), &mut session, 5);
    assert_eq!(r, Err(DecodeError::Deserialization("unexpected end of input".to_string())));
    assert!(session.is_empty());
    assert_eq!(st.log_error_count(), CounterIncrements { success: None, error: Some(1) });
}

#[test]
fn failed_key_value_decode_emits_nothing_and_counts_an_error() {
    let mut st = AvroDecoderState::new((), false);
    let mut session: Vec<(String, Option<String>, Timestamp)> = Vec::new();
    let r = st.give_key_value("k".to_string(), failure(), &mut session, 5);
    assert!(matches!(r, Err(DecodeError::Deserialization(_))));
    assert!(session.is_empty());
    assert_eq!(st.log_error_count(), CounterIncrements { success: None, error: Some(1) });
}

#[test]
fn update_emits_before_then_after() {
    let mut st = AvroDecoderState::new((), false);
    let mut session: Vec<(String, Timestamp, Diff)> = Vec::new();
    assert_eq!(st.give_value(update("b", "a"), &mut session, 9), Ok(()));
    assert_eq!(session, vec![("b".to_string(), 9, 1), ("a".to_string(), 9, 1)]);
    assert_eq!(st.log_error_count(), CounterIncrements { success: Some(1), error: None });
}

#[test]
fn delete_emits_before_only() {
    let mut st = AvroDecoderState::new((), false);
    let mut session: Vec<(String, Timestamp, Diff)> = Vec::new();
    let pair = Ok(DiffPair { before: Some("b".to_string()), after: None });
    assert_eq!(st.give_value(pair, &mut session, 3), Ok(()));
    assert_eq!(session, vec![("b".to_string(), 3, 1)]);
}

#[test]
fn empty_pair_emits_nothing_but_counts_a_success() {
    let mut st = AvroDecoderState::new((), false);
    let mut session: Vec<(String, Timestamp, Diff)> = Vec::new();
    let pair: Result<DiffPair<String>, String> = Ok(DiffPair { before: None, after: None });
    assert_eq!(st.give_value(pair, &mut session, 3), Ok(()));
    assert!(session.is_empty());
    assert_eq!(st.log_error_count(), CounterIncrements { success: Some(1), error: None });
}

#[test]
fn insert_only_source_rejects_update_before_emitting() {
    let mut st = AvroDecoderState::new((), true);
    let mut session: Vec<(String, Timestamp, Diff)> = vec![("earlier".to_string(), 1, 1)];
    let r = st.give_value(update("b", "a"), &mut session, 9);
    let expected = DiffPair { before: Some("b".to_string()), after: Some("a".to_string()) };
    assert_eq!(r, Err(DecodeError::NonInsertOnInsertOnlySource(expected)));
    assert_eq!(session, vec![("earlier".to_string(), 1, 1)]);
}

#[test]
fn insert_only_source_accepts_inserts() {
    let mut st = AvroDecoderState::new((), true);
    let mut session: Vec<(String, Timestamp, Diff)> = Vec::new();
    assert_eq!(st.give_value(insert("a"), &mut session, 2), Ok(()));
    assert_eq!(session, vec![("a".to_string(), 2, 1)]);
}

#[test]
fn decode_key_returns_after_row() {
    let mut st = AvroDecoderState::new((), false);
    assert_eq!(st.decode_key(insert("key")), Ok("key".to_string()));
    assert_eq!(st.log_error_count(), CounterIncrements { success: Some(1), error: None });
}

#[test]
fn decode_key_without_row_is_no_key_error() {
    let mut st = AvroDecoderState::new((), false);
    let pair = Ok(DiffPair { before: Some("old".to_string()), after: None });
    let r = st.decode_key(pair);
    assert_eq!(r, Err(DecodeError::NoKey));
    assert_eq!(r.unwrap_err().message(), "no avro key found for record");
    assert_eq!(st.log_error_count(), CounterIncrements { success: None, error: Some(1) });
}

#[test]
fn decode_key_failure_wraps_cause() {
    let mut st = AvroDecoderState::new((), false);
    let r = st.decode_key(failure());
    assert_eq!(
        r.unwrap_err().message(),
        "avro deserialization error: unexpected end of input"
    );
    assert_eq!(st.log_error_count(), CounterIncrements { success: None, error: Some(1) });
}

#[test]
fn key_value_with_absent_value_emits_delete_marker() {
    let mut st = AvroDecoderState::new((), true);
    let mut session: Vec<(String, Option<String>, Timestamp)> = Vec::new();
    let pair = Ok(DiffPair { before: Some("old".to_string()), after: None });
    assert_eq!(st.give_key_value("k".to_string(), pair, &mut session, 4), Ok(()));
    assert_eq!(session, vec![("k".to_string(), None, 4)]);
    assert_eq!(st.log_error_count(), CounterIncrements { success: Some(1), error: None });
}

#[test]
fn key_value_emits_key_and_value() {
    let mut st = AvroDecoderState::new((), false);
    let mut session: Vec<(String, Option<String>, Timestamp)> = Vec::new();
    assert_eq!(st.give_key_value("k".to_string(), insert("v"), &mut session, 4), Ok(()));
    assert_eq!(session, vec![("k".to_string(), Some("v".to_string()), 4)]);
}

#[test]
fn log_publishes_counts_since_reset_and_repeats_them() {
    let mut st = AvroDecoderState::new((), false);
    let mut values: Vec<(String, Timestamp, Diff)> = Vec::new();
    let _ = st.give_value(failure(), &mut values, 1);
    st.reset_event_count();
    let _ = st.give_value(insert("a"), &mut values, 2);
    let _ = st.give_value(failure(), &mut values, 2);
    let _ = st.decode_key(insert("k"));
    let _ = st.decode_key(Ok(DiffPair::<String> { before: None, after: None }));
    let mut pairs: Vec<(String, Option<String>, Timestamp)> = Vec::new();
    let _ = st.give_key_value("k".to_string(), failure(), &mut pairs, 2);
    let expected = CounterIncrements { success: Some(2), error: Some(3) };
    assert_eq!(st.log_error_count(), expected);
    assert_eq!(st.log_error_count(), expected);
    st.reset_event_count();
    assert_eq!(st.log_error_count(), CounterIncrements { success: None, error: None });
}

#[test]
fn non_insert_message_names_the_policy() {
    let e: DecodeError<String> = DecodeError::NonInsertOnInsertOnlySource(DiffPair { before: None, after: None });
    assert!(e.message().starts_with("Updates and deletes are not allowed for this source!"));
}

#[test]
fn room_for_attempt_on_fresh_state() {
    let mut st = AvroDecoderState::new(7u32, false);
    assert!(st.has_room_for_attempt());
    *st.decoder() += 1;
    assert_eq!(*st.decoder(), 8);
}
