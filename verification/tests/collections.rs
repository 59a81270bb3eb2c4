use open_meteo_rs::param_map::ParamMap;
use open_meteo_rs::text::{decimal_string, join, str_eq};

#[test]
fn new_map_is_empty() {
    let map: ParamMap<i32> = ParamMap::new();
    assert_eq!(map.len(), 0);
    assert!(map.is_empty());
    assert!(!map.contains_key("rain"));
    assert_eq!(map.get("rain"), None);
}

#[test]
fn insert_then_get() {
    let mut map = ParamMap::new();
    assert_eq!(map.insert("rain".to_string(), 1), None);
    assert_eq!(map.insert("snowfall".to_string(), 2), None);
    assert_eq!(map.len(), 2);
    assert!(!map.is_empty());
    assert_eq!(map.get("rain"), Some(&1));
    assert_eq!(map.get("snowfall"), Some(&2));
    assert_eq!(map.get("Rain"), None);
    assert!(map.contains_key("snowfall"));
    assert!(!map.contains_key("snow"));
}

#[test]
fn insert_replaces_in_place() {
    let mut map = ParamMap::new();
    map.insert("rain".to_string(), 1);
    map.insert("snowfall".to_string(), 2);
    map.insert("dust".to_string(), 3);
    assert_eq!(map.insert("snowfall".to_string(), 20), Some(2));
    assert_eq!(map.len(), 3);
    assert_eq!(map.get("snowfall"), Some(&20));
    assert_eq!(map.key_at(0), "rain");
    assert_eq!(map.key_at(1), "snowfall");
    assert_eq!(map.key_at(2), "dust");
    assert_eq!(*map.value_at(0), 1);
    assert_eq!(*map.value_at(1), 20);
    assert_eq!(*map.value_at(2), 3);
}

#[test]
fn keys_are_compared_by_their_characters() {
    let mut map = ParamMap::new();
    map.insert("°C".to_string(), 1);
    map.insert("".to_string(), 2);
    assert_eq!(map.get("°C"), Some(&1));
    assert_eq!(map.get(""), Some(&2));
    assert_eq!(map.get("°"), None);
    assert_eq!(map.get("C"), None);
}

#[test]
fn text_equality() {
    assert!(str_eq("time", "time"));
    assert!(str_eq("", ""));
    assert!(str_eq("μg/m³", "μg/m³"));
    assert!(!str_eq("time", "times"));
    assert!(!str_eq("time", "tima"));
    assert!(!str_eq("time", "Time"));
    assert!(!str_eq("", "a"));
}

#[test]
fn numbers_in_decimal() {
    assert_eq!(decimal_string(0), "0");
    assert_eq!(decimal_string(7), "7");
    assert_eq!(decimal_string(10), "10");
    assert_eq!(decimal_string(1536), "1536");
    assert_eq!(decimal_string(65535), "65535");
    assert_eq!(decimal_string(1_000_000), "1000000");
    assert_eq!(decimal_string(u64::MAX), "18446744073709551615");
    for n in [9u64, 99, 100, 101, 255, 256, 12_345_678_901] {
        assert_eq!(decimal_string(n), n.to_string());
    }
}

#[test]
fn joins_with_separator() {
    assert_eq!(join(&Vec::new(), ","), "");
    assert_eq!(join(&vec!["a".to_string()], ","), "a");
    assert_eq!(join(&vec!["a".to_string(), "b".to_string(), "c".to_string()], ","), "a,b,c");
    assert_eq!(join(&vec!["".to_string(), "".to_string()], ","), ",");
    assert_eq!(join(&vec!["x".to_string(), "y".to_string()], ", "), "x, y");
    let parts = vec!["temperature_2m".to_string(), "windspeed_10m".to_string()];
    assert_eq!(join(&parts, ","), parts.join(","));
}

#[test]
fn entries_come_out_in_order() {
    let mut map = ParamMap::new();
    map.insert("rain".to_string(), 1);
    map.insert("dust".to_string(), 2);
    map.insert("rain".to_string(), 3);
    assert_eq!(map.into_entries(), vec![("rain".to_string(), 3), ("dust".to_string(), 2)]);
    let empty: ParamMap<u8> = ParamMap::new();
    assert_eq!(empty.into_entries(), Vec::new());
}
