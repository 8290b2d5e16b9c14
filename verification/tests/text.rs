use hawkbit_operator::order::{is_before, is_same};
use hawkbit_operator::text::{chain, chain3, to_decimal};
use hawkbit_operator::text_map::TextMap;

#[test]
fn numbers_are_written_without_leading_zeros() {
    assert_eq!(to_decimal(0), "0");
    assert_eq!(to_decimal(9), "9");
    assert_eq!(to_decimal(10), "10");
    assert_eq!(to_decimal(5672), "5672");
    assert_eq!(to_decimal(65535), "65535");
    let mut n: u16 = 0;
    loop {
        assert_eq!(to_decimal(n), format!("{}", n));
        if n > 65000 {
            break;
        }
        n += 37;
    }
}

#[test]
fn texts_are_put_together() {
    assert_eq!(chain("a", "b"), "ab");
    assert_eq!(chain3("a", "", "c"), "ac");
}

#[test]
fn texts_are_ordered_by_bytes() {
    let texts = vec!["", "A", "Z", "a", "a-", "ab", "b", "z", "\u{e9}", "\u{20ac}", "\u{1f600}"];
    for (i, a) in texts.iter().enumerate() {
        for (j, b) in texts.iter().enumerate() {
            assert_eq!(is_before(a, b), i < j, "{} {}", a, b);
            assert_eq!(is_before(a, b), a < b, "{} {}", a, b);
            assert_eq!(is_same(a, b), i == j, "{} {}", a, b);
        }
    }
}

#[test]
fn maps_are_walked_in_key_order() {
    let mut map = TextMap::new();
    for key in vec!["m", "b", "z", "a", "b"] {
        map.insert(key.to_string(), format!("{}!", key));
    }
    let keys: Vec<&str> = map.entries().iter().map(|e| e.0.as_str()).collect();
    assert_eq!(keys, vec!["a", "b", "m", "z"]);
}

#[test]
fn maps_hold_the_last_value_of_a_key() {
    let mut map = TextMap::new();
    map.insert("k".to_string(), "1".to_string());
    map.insert("k".to_string(), "2".to_string());
    map.insert("l".to_string(), "3".to_string());
    assert_eq!(map.get("k"), Some(&"2".to_string()));
    map.remove("k");
    map.remove("other");
    assert_eq!(map.get("k"), None);
    assert_eq!(map.get("l"), Some(&"3".to_string()));
    assert_eq!(map.clone(), map);
}
