use redox_core::level::{parse_objects, RawObject};
use redox_core::object::{parse_decimal_i32, ObjectFields};

#[test]
fn parses_decimal_integers() {
    assert_eq!(parse_decimal_i32("0"), Some(0));
    assert_eq!(parse_decimal_i32("1226"), Some(1226));
    assert_eq!(parse_decimal_i32("-42"), Some(-42));
    assert_eq!(parse_decimal_i32("+7"), Some(7));
    assert_eq!(parse_decimal_i32("007"), Some(7));
    assert_eq!(parse_decimal_i32("2147483647"), Some(i32::MAX));
    assert_eq!(parse_decimal_i32("-2147483648"), Some(i32::MIN));
}

#[test]
fn rejects_non_decimal_or_out_of_range() {
    for s in ["", "-", "+", "1.5", " 1", "1 ", "abc", "2147483648", "-2147483649", "99999999999", "--1"] {
        assert_eq!(parse_decimal_i32(s), None, "{:?}", s);
        assert_eq!(parse_decimal_i32(s), s.parse::<i32>().ok(), "{:?}", s);
    }
}

#[test]
fn reads_object_fields_last_value_winning() {
    let objs = parse_objects("1,8,2,200,3,6,4,1,5,0,6,90,32,2,128,0.5,129,3,1,13,99,x");
    let f = ObjectFields::from_raw(&objs[0]);
    assert_eq!(f.id, 13);
    assert_eq!(f.x.as_deref(), Some("200"));
    assert_eq!(f.y.as_deref(), Some("6"));
    assert!(f.flip_x);
    assert!(!f.flip_y);
    assert_eq!(f.rotation.as_deref(), Some("90"));
    assert_eq!(f.scale.as_deref(), Some("2"));
    assert_eq!(f.scale_x.as_deref(), Some("0.5"));
    assert_eq!(f.scale_y.as_deref(), Some("3"));
}

#[test]
fn missing_or_bad_fields_fall_back() {
    let raw = RawObject { properties: vec![("1".to_string(), "spike".to_string())] };
    let f = ObjectFields::from_raw(&raw);
    assert_eq!(f.id, 0);
    assert!(f.x.is_none() && f.y.is_none() && f.rotation.is_none());
    assert!(f.scale.is_none() && f.scale_x.is_none() && f.scale_y.is_none());
    assert!(!f.flip_x && !f.flip_y);
}
