use biboop::entry::{PinItem, MAX_RESULT_SIZE_BYTES, STALE_AGE_MILLIS, STALE_AGE_MINS};
use biboop::handlers::{
    claim_pin, claim_pin_at, create_pin_http_response, poll_pin, poll_waiting, respond_with,
    store_result, store_result_at, waiting_reply, PinResponse, Reply, MAX_PIN_ATTEMPTS,
};
use biboop::pin::{make_key, random_pin};
use biboop::store::{stale_at, BiboopState};

fn sorted(mut keys: Vec<String>) -> Vec<String> {
    keys.sort();
    keys
}

#[test]
fn constants_match_policy() {
    assert_eq!(MAX_RESULT_SIZE_BYTES, 3000);
    assert_eq!(STALE_AGE_MINS, 10);
    assert_eq!(STALE_AGE_MILLIS, STALE_AGE_MINS * 60 * 1000);
    assert_eq!(MAX_PIN_ATTEMPTS, 10);
}

#[test]
fn make_key_joins_with_colon() {
    assert_eq!(make_key("test", "ABCD"), "test:ABCD");
    assert_eq!(make_key("", ""), ":");
    assert_eq!(make_key("a:b", "c"), "a:b:c");
}

#[test]
fn random_pins_are_upper_case_alphanumeric() {
    let mut saw_letter = false;
    for _ in 0..500 {
        let pin = random_pin();
        assert_eq!(pin.chars().count(), 4);
        for c in pin.chars() {
            assert!(c.is_ascii_digit() || c.is_ascii_uppercase(), "bad pin {}", pin);
            saw_letter = saw_letter || c.is_ascii_uppercase();
        }
    }
    assert!(saw_letter);
}

#[test]
fn new_store_is_empty() {
    let state = BiboopState::new();
    assert!(state.snapshot().is_empty());
    assert!(!state.contains("test:ABCD"));
    assert!(state.get("test:ABCD").is_none());
}

#[test]
fn insert_is_seen_by_reads() {
    let mut state = BiboopState::new();
    state.insert("test:ABCD".to_string(), PinItem::at(7, "ABCD".to_string(), None));
    assert!(state.contains("test:ABCD"));
    assert!(!state.contains("other:ABCD"));
    assert_eq!(
        state.get("test:ABCD"),
        Some(PinItem::at(7, "ABCD".to_string(), None))
    );
    let all = state.snapshot();
    assert_eq!(all.len(), 1);
    assert_eq!(all[0].0, "test:ABCD");
    assert_eq!(all[0].1, PinItem::at(7, "ABCD".to_string(), None));
}

#[test]
fn update_replaces_the_entry() {
    let mut state = BiboopState::new();
    state.insert("n:AAAA".to_string(), PinItem::at(1, "AAAA".to_string(), None));
    state.update(
        "n:AAAA".to_string(),
        PinItem::at(2, "AAAA".to_string(), Some("{\"x\":1}".to_string())),
    );
    assert_eq!(state.snapshot().len(), 1);
    assert_eq!(
        state.get("n:AAAA"),
        Some(PinItem::at(2, "AAAA".to_string(), Some("{\"x\":1}".to_string())))
    );
    state.update("n:BBBB".to_string(), PinItem::at(3, "BBBB".to_string(), None));
    assert_eq!(state.snapshot().len(), 2);
}

#[test]
fn remove_deletes_only_its_key() {
    let mut state = BiboopState::new();
    state.insert("n:AAAA".to_string(), PinItem::at(1, "AAAA".to_string(), None));
    state.insert("n:BBBB".to_string(), PinItem::at(1, "BBBB".to_string(), None));
    state.remove("n:AAAA".to_string());
    assert!(!state.contains("n:AAAA"));
    assert!(state.contains("n:BBBB"));
    state.remove("n:ZZZZ".to_string());
    assert_eq!(state.snapshot().len(), 1);
}

#[test]
fn take_if_populated_consumes_once() {
    let mut state = BiboopState::new();
    assert!(state.take_if_populated("n:AAAA").is_none());
    state.insert("n:AAAA".to_string(), PinItem::at(1, "AAAA".to_string(), None));
    for _ in 0..3 {
        assert_eq!(
            state.take_if_populated("n:AAAA"),
            Some(PinItem::at(1, "AAAA".to_string(), None))
        );
        assert!(state.contains("n:AAAA"));
    }
    state.update(
        "n:AAAA".to_string(),
        PinItem::at(2, "AAAA".to_string(), Some("{}".to_string())),
    );
    assert_eq!(
        state.take_if_populated("n:AAAA"),
        Some(PinItem::at(2, "AAAA".to_string(), Some("{}".to_string())))
    );
    assert!(!state.contains("n:AAAA"));
    assert!(state.take_if_populated("n:AAAA").is_none());
}

#[test]
fn stale_at_is_strictly_over_the_threshold() {
    assert!(!stale_at(0, 0));
    assert!(!stale_at(0, 599_999));
    assert!(!stale_at(0, 600_000));
    assert!(stale_at(0, 600_001));
    assert!(!stale_at(1_000, 0));
    assert!(stale_at(i64::MIN, i64::MAX));
    assert!(!stale_at(i64::MAX, i64::MIN));
    assert!(stale_at(-600_001, 0));
}

#[test]
fn evict_stale_removes_exactly_the_stale() {
    let mut state = BiboopState::new();
    state.insert("a:OLD1".to_string(), PinItem::at(0, "OLD1".to_string(), None));
    state.insert(
        "a:OLD2".to_string(),
        PinItem::at(10, "OLD2".to_string(), Some("{}".to_string())),
    );
    state.insert("a:EDGE".to_string(), PinItem::at(400_000, "EDGE".to_string(), None));
    state.insert("b:NEW1".to_string(), PinItem::at(900_000, "NEW1".to_string(), None));

    let removed = state.evict_stale(500_000);
    assert!(removed.is_empty());
    assert_eq!(state.snapshot().len(), 4);

    let removed = state.evict_stale(1_000_000);
    assert_eq!(sorted(removed), vec!["a:OLD1".to_string(), "a:OLD2".to_string()]);
    assert!(!state.contains("a:OLD1"));
    assert!(!state.contains("a:OLD2"));
    assert_eq!(
        state.get("a:EDGE"),
        Some(PinItem::at(400_000, "EDGE".to_string(), None))
    );
    assert!(state.contains("b:NEW1"));

    let removed = state.evict_stale(1_000_001);
    assert_eq!(removed, vec!["a:EDGE".to_string()]);
    assert_eq!(state.snapshot().len(), 1);
}

#[test]
fn sweep_drops_the_long_untouched_and_keeps_the_fresh() {
    let mut state = BiboopState::new();
    state.insert("a:OLD1".to_string(), PinItem::at(0, "OLD1".to_string(), None));
    state.insert(
        "a:OLD2".to_string(),
        PinItem::at(1, "OLD2".to_string(), Some("{}".to_string())),
    );
    state.insert("a:NEW1".to_string(), PinItem::new("NEW1".to_string(), None));
    let removed = state.sweep();
    assert_eq!(sorted(removed), vec!["a:OLD1".to_string(), "a:OLD2".to_string()]);
    assert!(state.contains("a:NEW1"));
    assert_eq!(state.snapshot().len(), 1);
    assert!(state.sweep().is_empty());
}

#[test]
fn claim_pin_takes_a_free_label_once() {
    let mut state = BiboopState::new();
    assert_eq!(
        claim_pin("n", "AB3K".to_string(), &mut state),
        Some("AB3K".to_string())
    );
    let entry = state.get("n:AB3K").unwrap();
    assert_eq!(entry.pin, "AB3K");
    assert_eq!(entry.result, None);
    assert_eq!(claim_pin("n", "AB3K".to_string(), &mut state), None);
    assert_eq!(state.snapshot().len(), 1);
    assert_eq!(
        claim_pin("m", "AB3K".to_string(), &mut state),
        Some("AB3K".to_string())
    );
    assert_eq!(state.snapshot().len(), 2);
}

#[test]
fn stamps_are_the_instants_given() {
    let mut state = BiboopState::new();
    assert_eq!(
        claim_pin_at("n", "AB3K".to_string(), 1_000, &mut state),
        Some("AB3K".to_string())
    );
    assert_eq!(
        state.snapshot(),
        vec![("n:AB3K".to_string(), PinItem::at(1_000, "AB3K".to_string(), None))]
    );
    assert_eq!(claim_pin_at("n", "AB3K".to_string(), 2_000, &mut state), None);
    assert_eq!(
        state.get("n:AB3K"),
        Some(PinItem::at(1_000, "AB3K".to_string(), None))
    );

    assert_eq!(
        store_result_at("n", "AB3K", "{\"x\":1}".to_string(), 500_000, &mut state),
        Reply::Accepted
    );
    assert_eq!(
        state.snapshot(),
        vec![(
            "n:AB3K".to_string(),
            PinItem::at(500_000, "AB3K".to_string(), Some("{\"x\":1}".to_string()))
        )]
    );
    assert_eq!(
        store_result_at("n", "NONE", "{}".to_string(), 500_000, &mut state),
        Reply::NotFound
    );
    assert_eq!(
        store_result_at("n", "AB3K", "y".repeat(3001), 600_000, &mut state),
        Reply::TooLarge
    );
    assert_eq!(state.get("n:AB3K").unwrap().timestamp, 500_000);

    assert!(state.evict_stale(1_100_000).is_empty());
    assert_eq!(state.evict_stale(1_100_001), vec!["n:AB3K".to_string()]);
    assert!(state.snapshot().is_empty());
}

#[test]
fn handoff_scenario() {
    let mut state = BiboopState::new();
    assert_eq!(
        claim_pin("n", "AB3K".to_string(), &mut state),
        Some("AB3K".to_string())
    );
    assert_eq!(
        poll_pin("n", "AB3K", &mut state),
        Reply::Pin(PinResponse { pin: "AB3K".to_string(), result: None })
    );

    let reply = store_result("n", "AB3K", "{\"x\":1}".to_string(), &mut state);
    assert_eq!(reply, Reply::Accepted);
    assert_eq!(reply.status(), 202);

    assert_eq!(
        poll_pin("n", "AB3K", &mut state),
        Reply::Pin(PinResponse {
            pin: "AB3K".to_string(),
            result: Some("{\"x\":1}".to_string()),
        })
    );

    match poll_pin("n", "AB3K", &mut state) {
        Reply::Pin(response) => {
            assert_ne!(response.pin, "AB3K");
            assert_eq!(response.result, None);
            assert!(state.contains(&make_key("n", &response.pin)));
        }
        other => panic!("expected a new pin, got {:?}", other),
    }
    assert!(!state.contains("n:AB3K"));
}

#[test]
fn waiting_poll_has_no_side_effects() {
    let mut state = BiboopState::new();
    state.insert("n:WAIT".to_string(), PinItem::at(5, "WAIT".to_string(), None));
    for _ in 0..5 {
        assert_eq!(
            poll_pin("n", "WAIT", &mut state),
            Reply::Pin(PinResponse { pin: "WAIT".to_string(), result: None })
        );
        assert_eq!(
            state.snapshot(),
            vec![("n:WAIT".to_string(), PinItem::at(5, "WAIT".to_string(), None))]
        );
    }
}

#[test]
fn size_ceiling_is_inclusive() {
    let mut state = BiboopState::new();
    state.insert("n:SIZE".to_string(), PinItem::at(5, "SIZE".to_string(), None));

    let over = "y".repeat(MAX_RESULT_SIZE_BYTES + 1);
    assert_eq!(store_result("n", "SIZE", over, &mut state), Reply::TooLarge);
    assert_eq!(
        state.get("n:SIZE"),
        Some(PinItem::at(5, "SIZE".to_string(), None))
    );

    let exact = "y".repeat(MAX_RESULT_SIZE_BYTES);
    assert_eq!(store_result("n", "SIZE", exact.clone(), &mut state), Reply::Accepted);
    assert_eq!(state.get("n:SIZE").unwrap().result, Some(exact.clone()));

    let again = "z".repeat(MAX_RESULT_SIZE_BYTES + 1);
    assert_eq!(store_result("n", "SIZE", again, &mut state), Reply::TooLarge);
    assert_eq!(state.get("n:SIZE").unwrap().result, Some(exact));
}

#[test]
fn size_is_counted_in_bytes() {
    let mut state = BiboopState::new();
    state.insert("n:UTF8".to_string(), PinItem::at(5, "UTF8".to_string(), None));
    let text = "\u{e9}".repeat(1501);
    assert_eq!(text.chars().count(), 1501);
    assert_eq!(store_result("n", "UTF8", text, &mut state), Reply::TooLarge);
    let text = "\u{e9}".repeat(1500);
    assert_eq!(store_result("n", "UTF8", text, &mut state), Reply::Accepted);
}

#[test]
fn oversized_payload_is_refused_before_lookup() {
    let mut state = BiboopState::new();
    let over = "y".repeat(MAX_RESULT_SIZE_BYTES + 1);
    assert_eq!(store_result("n", "NONE", over, &mut state), Reply::TooLarge);
    assert_eq!(
        store_result("n", "NONE", "{}".to_string(), &mut state),
        Reply::NotFound
    );
    assert!(state.snapshot().is_empty());
}

#[test]
fn submission_refreshes_the_stamp() {
    let mut state = BiboopState::new();
    state.insert("n:OLD1".to_string(), PinItem::at(0, "OLD1".to_string(), None));
    assert_eq!(
        store_result("n", "OLD1", "{}".to_string(), &mut state),
        Reply::Accepted
    );
    assert!(state.sweep().is_empty());
    let entry = state.get("n:OLD1").unwrap();
    assert!(entry.timestamp > 0);
    assert_eq!(entry.pin, "OLD1");
}

#[test]
fn failed_serialization_is_an_internal_error() {
    let mut state = BiboopState::new();
    state.insert("n:FAIL".to_string(), PinItem::at(5, "FAIL".to_string(), None));
    let failure = serde_json::from_str::<serde_json::Value>("{").unwrap_err();
    let reply = respond_with("n", "FAIL", Err(failure), &mut state);
    assert_eq!(reply, Reply::Unserializable);
    assert_eq!(reply.status(), 500);
    assert_eq!(reply.message(), Some("Failed to serialize data"));
    assert_eq!(
        state.get("n:FAIL"),
        Some(PinItem::at(5, "FAIL".to_string(), None))
    );
}

#[test]
fn reply_status_and_text() {
    let pin = Reply::Pin(PinResponse { pin: "AB3K".to_string(), result: None });
    assert_eq!(pin.status(), 200);
    assert_eq!(pin.message(), None);
    assert_eq!(Reply::Exhausted.status(), 429);
    assert_eq!(
        Reply::Exhausted.message(),
        Some("Could not find a free pin soon enough.")
    );
    assert_eq!(Reply::Accepted.status(), 202);
    assert_eq!(Reply::Accepted.message(), Some("Thanks!"));
    assert_eq!(Reply::NotFound.status(), 404);
    assert_eq!(Reply::NotFound.message(), Some("Pin not found."));
    assert_eq!(Reply::TooLarge.status(), 413);
    assert_eq!(Reply::TooLarge.message(), Some("Payload too large."));
    assert_eq!(Reply::Unserializable.status(), 500);
    assert_eq!(Reply::Healthy.status(), 200);
    assert_eq!(Reply::Healthy.message(), Some("All good."));
}

#[test]
fn issued_pins_are_distinct_while_live() {
    let mut state = BiboopState::new();
    let mut pins: Vec<String> = Vec::new();
    for _ in 0..200 {
        match create_pin_http_response("busy", &mut state) {
            Reply::Pin(response) => {
                assert_eq!(response.result, None);
                assert!(!pins.contains(&response.pin));
                pins.push(response.pin);
            }
            other => panic!("expected a pin, got {:?}", other),
        }
    }
    assert_eq!(state.snapshot().len(), 200);
}

#[test]
fn duplicate_copies_every_field() {
    let item = PinItem::at(42, "COPY".to_string(), Some("{\"a\":[1,2]}".to_string()));
    assert_eq!(item.duplicate(), item);
    let bare = PinItem::at(-1, "BARE".to_string(), None);
    assert_eq!(bare.duplicate(), bare);
}

#[test]
fn waiting_reply_settles_only_a_waiting_pin() {
    assert_eq!(waiting_reply("AB3K", None), None);
    assert_eq!(
        waiting_reply("AB3K", Some(PinItem::at(1, "AB3K".to_string(), None))),
        Some(Reply::Pin(PinResponse { pin: "AB3K".to_string(), result: None }))
    );
    assert_eq!(
        waiting_reply(
            "AB3K",
            Some(PinItem::at(1, "AB3K".to_string(), Some("{}".to_string())))
        ),
        None
    );
}

#[test]
fn reader_sees_what_is_published() {
    let mut state = BiboopState::new();
    let reader = state.reader();
    assert_eq!(reader.peek("n:AB3K"), None);
    assert_eq!(poll_waiting("n", "AB3K", &reader), None);

    assert!(claim_pin_at("n", "AB3K".to_string(), 9, &mut state).is_some());
    assert_eq!(
        reader.peek("n:AB3K"),
        Some(PinItem::at(9, "AB3K".to_string(), None))
    );
    assert_eq!(
        poll_waiting("n", "AB3K", &reader),
        Some(Reply::Pin(PinResponse { pin: "AB3K".to_string(), result: None }))
    );
    assert!(state.contains("n:AB3K"));

    assert_eq!(
        store_result_at("n", "AB3K", "{}".to_string(), 10, &mut state),
        Reply::Accepted
    );
    assert_eq!(poll_waiting("n", "AB3K", &reader), None);
    assert_eq!(
        state.reader().peek("n:AB3K"),
        Some(PinItem::at(10, "AB3K".to_string(), Some("{}".to_string())))
    );

    assert!(state.take_if_populated("n:AB3K").is_some());
    assert_eq!(reader.peek("n:AB3K"), None);
}

#[test]
fn reader_outlives_the_store() {
    let reader = {
        let mut state = BiboopState::new();
        assert!(claim_pin_at("n", "AB3K".to_string(), 9, &mut state).is_some());
        state.reader()
    };
    assert_eq!(reader.peek("n:AB3K"), None);
}
