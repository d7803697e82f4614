use collab_sync::model::{Document, User};
use collab_sync::store::AppState;

#[test]
fn user_new_sets_both_timestamps() {
    let u = User::new("abc".to_string(), 42);
    assert_eq!(u.id, "abc");
    assert_eq!(u.connected_at, 42);
    assert_eq!(u.last_activity, 42);
}

#[test]
fn document_default_is_empty_at_version_zero() {
    let d = Document::default();
    assert_eq!(d.content, "");
    assert_eq!(d.version, 0);
}

#[test]
fn document_update_replaces_and_increments() {
    let mut d = Document::default();
    d.update("first", 10);
    assert_eq!(d.content(), "first");
    assert_eq!(d.version(), 1);
    assert_eq!(d.last_modified, 10);
    d.update("second", 11);
    assert_eq!(d.content(), "second");
    assert_eq!(d.version(), 2);
}

#[test]
fn add_and_remove_users_track_the_count() {
    let mut st = AppState::new();
    assert_eq!(st.get_user_count(), 0);
    assert_eq!(st.add_user("a".to_string(), 1), 1);
    assert_eq!(st.add_user("b".to_string(), 2), 2);
    assert_eq!(st.remove_user("a"), 1);
    assert_eq!(st.remove_user("a"), 1);
    assert_eq!(st.remove_user("b"), 0);
}

#[test]
fn add_then_remove_restores_count_despite_interleaving() {
    let mut st = AppState::new();
    st.add_user("x".to_string(), 1);
    let before = st.get_user_count();
    st.add_user("session".to_string(), 2);
    st.add_user("y".to_string(), 3);
    st.remove_user("x");
    st.remove_user("session");
    assert_eq!(st.get_user_count(), before - 1 + 1);
}

#[test]
fn re_adding_a_user_is_an_upsert() {
    let mut st = AppState::new();
    assert_eq!(st.add_user("a".to_string(), 1), 1);
    assert_eq!(st.add_user("a".to_string(), 9), 1);
    assert_eq!(st.get_user_last_activity("a"), Some(9));
}

#[test]
fn user_activity_refresh_is_best_effort() {
    let mut st = AppState::new();
    st.add_user("a".to_string(), 5);
    assert_eq!(st.get_user_last_activity("a"), Some(5));
    st.update_user_activity("a", 9);
    assert_eq!(st.get_user_last_activity("a"), Some(9));
    st.update_user_activity("ghost", 9);
    assert_eq!(st.get_user_last_activity("ghost"), None);
    assert_eq!(st.get_user_count(), 1);
}

#[test]
fn document_updates_serialize_versions() {
    let mut st = AppState::new();
    assert!(st.get_document("default").is_none());
    let d1 = st.update_document("default", "one", 1);
    assert_eq!(d1.version(), 1);
    let d2 = st.update_document("default", "two", 2);
    assert_eq!(d2.version(), 2);
    let d3 = st.update_document("default", "three", 3);
    assert_eq!(d3.version(), 3);
    let seen = st.get_document("default").unwrap();
    assert_eq!(seen.content(), "three");
    assert_eq!(seen.version(), 3);
}
