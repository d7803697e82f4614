use collab_sync::router::{handle_text_message, route_text};
use collab_sync::store::AppState;

#[test]
fn round_trip_content_update() {
    let mut st = AppState::new();
    let sent = route_text(
        &mut st,
        "{\"type\":\"content_update\",\"payload\":{\"content\":\"hello\"}}",
        7,
    );
    assert_eq!(
        sent.as_deref(),
        Some("{\"type\":\"content_update\",\"payload\":{\"content\":\"hello\",\"version\":1}}"),
    );
    let doc = st.get_document("default").unwrap();
    assert_eq!(doc.content(), "hello");
    assert_eq!(doc.version(), 1);
}

#[test]
fn versions_climb_one_by_one_across_updates() {
    let mut st = AppState::new();
    for (i, text) in [
        "{\"type\":\"content_update\",\"payload\":{\"content\":\"a\"}}",
        "{\"type\":\"content_update\",\"payload\":{\"content\":\"b\"}}",
        "{\"type\":\"content_update\",\"payload\":{\"content\":\"c\"}}",
    ]
    .iter()
    .enumerate()
    {
        let sent = route_text(&mut st, text, i as u64).unwrap();
        assert!(sent.ends_with(&format!("\"version\":{}}}}}", i + 1)));
    }
    assert_eq!(st.get_document("default").unwrap().version(), 3);
}

#[test]
fn ping_is_accepted_and_ignored() {
    let mut st = AppState::new();
    st.update_document("default", "seed", 1);
    st.add_user("a".to_string(), 1);
    let sent = route_text(&mut st, "{\"type\":\"ping\",\"payload\":{}}", 2);
    assert!(sent.is_none());
    assert_eq!(st.get_document("default").unwrap().version(), 1);
    assert_eq!(st.get_document("default").unwrap().content(), "seed");
    assert_eq!(st.get_user_count(), 1);
}

#[test]
fn malformed_frames_are_dropped() {
    let mut st = AppState::new();
    assert!(route_text(&mut st, "not json at all", 1).is_none());
    assert!(route_text(&mut st, "{\"payload\":{\"content\":\"x\"}}", 1).is_none());
    assert!(route_text(&mut st, "{\"type\":7,\"payload\":{}}", 1).is_none());
    assert!(route_text(&mut st, "{\"type\":\"content_update\"}", 1).is_none());
    assert!(st.get_document("default").is_none());
}

#[test]
fn content_update_without_content_string_is_ignored() {
    let mut st = AppState::new();
    assert!(route_text(&mut st, "{\"type\":\"content_update\",\"payload\":{}}", 1).is_none());
    assert!(
        route_text(&mut st, "{\"type\":\"content_update\",\"payload\":{\"content\":5}}", 1)
            .is_none()
    );
    assert!(st.get_document("default").is_none());
}

#[test]
fn broadcast_content_is_json_escaped() {
    let mut st = AppState::new();
    let sent = route_text(
        &mut st,
        "{\"type\":\"content_update\",\"payload\":{\"content\":\"a\\\"b\\\\c\"}}",
        1,
    )
    .unwrap();
    assert_eq!(
        sent,
        "{\"type\":\"content_update\",\"payload\":{\"content\":\"a\\\"b\\\\c\",\"version\":1}}",
    );
    assert_eq!(st.get_document("default").unwrap().content(), "a\"b\\c");
}

#[test]
fn handled_message_reaches_subscribers() {
    let mut st = AppState::new();
    let mut rx = st.subscribe();
    let sent = handle_text_message(
        &mut st,
        "{\"type\":\"content_update\",\"payload\":{\"content\":\"hi\"}}",
        1,
    )
    .unwrap();
    assert_eq!(rx.try_recv().unwrap(), sent);
}

#[test]
fn user_count_envelope_is_exact() {
    let st = AppState::new();
    let mut rx = st.subscribe();
    let msg = st.broadcast_user_count(3);
    assert_eq!(msg, "{\"type\":\"user_count_update\",\"payload\":{\"count\":3}}");
    assert_eq!(rx.try_recv().unwrap(), msg);
}
