use hawkbit_operator::content::{to_selector, track_bytes, track_texts};
use hawkbit_operator::text_map::TextMap;
use operator_framework::tracker::ConfigTracker;

fn texts(entries: Vec<(&str, &str)>) -> TextMap<String> {
    let mut map = TextMap::new();
    for (key, text) in entries {
        map.insert(key.to_string(), text.to_string());
    }
    map
}

fn bytes(entries: Vec<(&str, Vec<u8>)>) -> TextMap<Vec<u8>> {
    let mut map = TextMap::new();
    for (key, value) in entries {
        map.insert(key.to_string(), value);
    }
    map
}

#[test]
fn nothing_has_a_hash_of_its_own() {
    let mut tracker = ConfigTracker::new();
    assert_eq!(tracker.current_hash(), "da39a3ee5e6b4b0d3255bfef95601890afd80709");
    track_texts(&mut tracker, &None);
    track_bytes(&mut tracker, &None);
    track_texts(&mut tracker, &Some(TextMap::new()));
    assert_eq!(tracker.current_hash(), "da39a3ee5e6b4b0d3255bfef95601890afd80709");
}

#[test]
fn texts_are_hashed_in_key_order() {
    let mut tracker = ConfigTracker::new();
    track_texts(&mut tracker, &Some(texts(vec![("b", "1"), ("a", "2")])));
    // of "21"
    assert_eq!(tracker.current_hash(), "472b07b9fcf2c2451e8781e944bf5f77cd8457c8");
}

#[test]
fn bytes_are_hashed_in_key_order() {
    let mut tracker = ConfigTracker::new();
    track_bytes(&mut tracker, &Some(bytes(vec![("z", vec![255]), ("a", vec![1, 2])])));
    assert_eq!(tracker.current_hash(), "ce14e11cd864de1ad5a5b9c9627eb036d292e8e5");
}

#[test]
fn contents_add_up() {
    let mut tracker = ConfigTracker::new();
    track_texts(&mut tracker, &Some(texts(vec![("x", "abc")])));
    track_bytes(&mut tracker, &Some(bytes(vec![("x", vec![255, 0])])));
    assert_eq!(tracker.current_hash(), "35a6dd9eec07ed9764c95cf36940b278b374f7b9");
}

#[test]
fn a_change_of_one_value_changes_the_hash() {
    let mut before = ConfigTracker::new();
    track_bytes(&mut before, &Some(bytes(vec![("a", vec![1]), ("b", vec![2])])));
    let mut after = ConfigTracker::new();
    track_bytes(&mut after, &Some(bytes(vec![("a", vec![1]), ("b", vec![2, 3])])));
    assert_ne!(before.current_hash(), after.current_hash());
    let mut before = ConfigTracker::new();
    track_texts(&mut before, &Some(texts(vec![("a", "1"), ("b", "2")])));
    let mut after = ConfigTracker::new();
    track_texts(&mut after, &Some(texts(vec![("a", ""), ("b", "2")])));
    assert_ne!(before.current_hash(), after.current_hash());
}

#[test]
fn changes_of_several_values_change_the_hash() {
    let hash = |user: &[u8], password: &[u8]| {
        let mut tracker = ConfigTracker::new();
        track_bytes(
            &mut tracker,
            &Some(bytes(vec![("adminUsername", user.to_vec()), ("adminPassword", password.to_vec())])),
        );
        tracker.current_hash()
    };
    assert_ne!(hash(b"admin", b"{noop}one"), hash(b"other", b"{noop}two"));
    assert_ne!(hash(b"admin", b"{noop}one"), hash(b"me", b"{noop}something"));
    // values that join to the same bytes are not told apart
    assert_eq!(hash(b"y", b"x"), hash(b"", b"xy"));
}

#[test]
fn selectors_ask_for_every_label() {
    assert_eq!(to_selector(&TextMap::new()), "");
    assert_eq!(to_selector(&texts(vec![("foo", "bar")])), "foo=bar");
    assert_eq!(to_selector(&texts(vec![("foo", "bar"), ("bar", "baz"), ("x", "")])), "bar=baz,foo=bar,x=");
}
