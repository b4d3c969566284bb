use rdap_core::json::{Json, JsonNumber};
use rdap_core::lenient::{to_opt_vectorstringish, Boolish, Numberish, VectorStringish};

fn from_value(v: &serde_json::Value) -> Json {
    match v {
        serde_json::Value::Null => Json::Null,
        serde_json::Value::Bool(b) => Json::Bool(*b),
        serde_json::Value::Number(n) => {
            if let Some(u) = n.as_u64() {
                Json::Number(JsonNumber::PosInt(u))
            } else if let Some(i) = n.as_i64() {
                Json::Number(JsonNumber::NegInt(i))
            } else {
                Json::Number(JsonNumber::Float(n.as_f64().unwrap().to_bits()))
            }
        }
        serde_json::Value::String(s) => Json::String(s.clone()),
        serde_json::Value::Array(a) => Json::Array(a.iter().map(from_value).collect()),
        serde_json::Value::Object(m) => {
            Json::Object(m.iter().map(|(k, v)| (k.clone(), from_value(v))).collect())
        }
    }
}

fn to_value(j: &Json) -> serde_json::Value {
    match j {
        Json::Null => serde_json::Value::Null,
        Json::Bool(b) => serde_json::Value::Bool(*b),
        Json::Number(JsonNumber::PosInt(u)) => serde_json::Value::from(*u),
        Json::Number(JsonNumber::NegInt(i)) => serde_json::Value::from(*i),
        Json::Number(JsonNumber::Float(bits)) => serde_json::Value::from(f64::from_bits(*bits)),
        Json::String(s) => serde_json::Value::String(s.clone()),
        Json::Array(a) => serde_json::Value::Array(a.iter().map(to_value).collect()),
        Json::Object(m) => serde_json::Value::Object(
            m.iter().map(|(k, v)| (k.clone(), to_value(v))).collect(),
        ),
    }
}

fn parse(text: &str) -> Json {
    from_value(&serde_json::from_str::<serde_json::Value>(text).unwrap())
}

fn print(j: &Json) -> String {
    serde_json::to_string(&to_value(j)).unwrap()
}

fn numberish_text<T>(text: &str) -> Numberish<T> {
    Numberish::from_json(&Json::String(text.to_string())).unwrap()
}

//
// VectorStringish tests
//

#[test]
fn test_vectorstringish_serialize_many() {
    // GIVEN
    let many = VectorStringish::from(vec!["one".to_string(), "two".to_string()]);

    // WHEN
    let serialized = print(&many.to_json());

    // THEN
    assert_eq!(serialized, r#"["one","two"]"#);
}

#[test]
fn test_vectorstringish_serialize_one() {
    // GIVEN
    let one = VectorStringish::from("one".to_string());

    // WHEN
    let serialized = print(&one.to_json());

    // THEN
    assert_eq!(serialized, r#"["one"]"#);
}

#[test]
fn test_vectorstringish_deserialize_many() {
    // GIVEN
    let json_str = r#"["one","two"]"#;

    // WHEN
    let deserialized = VectorStringish::from_json(&parse(json_str)).unwrap();

    // THEN
    assert_eq!(
        deserialized.vec(),
        &vec!["one".to_string(), "two".to_string()]
    );

    // and THEN is not string
    assert!(!deserialized.is_string())
}

#[test]
fn test_vectorstringish_deserialize_one() {
    // GIVEN
    let json_str = r#""one""#;

    // WHEN
    let deserialized = VectorStringish::from_json(&parse(json_str)).unwrap();

    // THEN
    assert_eq!(deserialized.vec(), &vec!["one".to_string()]);

    // and THEN is string
    assert!(deserialized.is_string())
}

#[test]
fn vectorstringish_rejects_other_shapes() {
    assert!(VectorStringish::from_json(&parse("12")).is_none());
    assert!(VectorStringish::from_json(&parse("null")).is_none());
    assert!(VectorStringish::from_json(&parse("{}")).is_none());
    assert!(VectorStringish::from_json(&parse(r#"["one", 2]"#)).is_none());
    let empty = VectorStringish::from_json(&parse("[]")).unwrap();
    assert!(empty.vec().is_empty());
    assert!(!empty.is_string());
}

#[test]
fn vectorstringish_lenient_shape_is_written_as_array() {
    let one = VectorStringish::from_json(&parse(r#""one""#)).unwrap();
    assert_eq!(print(&one.to_json()), r#"["one"]"#);
    let again = VectorStringish::from_json(&one.to_json()).unwrap();
    assert_eq!(again.vec(), one.vec());
    assert!(!again.is_string());
}

#[test]
fn vectorstringish_conversions() {
    let v = VectorStringish::from("one");
    assert_eq!(v.vec(), &vec!["one".to_string()]);
    assert!(!v.is_string());
    let borrowed: Vec<String> = Vec::from(&v);
    assert_eq!(borrowed, vec!["one".to_string()]);
    let copy = v.clone();
    assert_eq!(copy, v);
    let owned: Vec<String> = Vec::from(v);
    assert_eq!(owned, vec!["one".to_string()]);
    assert_eq!(copy.into_vec(), vec!["one".to_string()]);
}

#[test]
fn to_opt_vectorstringish_empty_and_not() {
    assert!(to_opt_vectorstringish(vec![]).is_none());
    let v = to_opt_vectorstringish(vec!["a".to_string(), "b".to_string()]).unwrap();
    assert_eq!(v.vec(), &vec!["a".to_string(), "b".to_string()]);
    assert!(!v.is_string());
}

//
// Boolish tests
//

#[test]
fn test_boolish_serialize_bool() {
    // GIVEN
    let b = Boolish::from(true);

    // WHEN
    let serialized = print(&b.to_json());

    // THEN
    assert_eq!(serialized, "true");
}

#[test]
fn test_boolish_deserialize_bool_true() {
    // GIVEN
    let json_str = "true";

    // WHEN
    let deserialized = Boolish::from_json(&parse(json_str)).unwrap();

    // THEN
    assert!(deserialized.into_bool());
    assert!(!deserialized.is_string());
}

#[test]
fn test_boolish_deserialize_bool_false() {
    // GIVEN
    let json_str = "false";

    // WHEN
    let deserialized = Boolish::from_json(&parse(json_str)).unwrap();

    // THEN
    assert!(!deserialized.into_bool());
    assert!(!deserialized.is_string());
}

#[test]
fn test_boolish_deserialize_string_true() {
    // GIVEN
    let json_str = r#""true""#;

    // WHEN
    let deserialized = Boolish::from_json(&parse(json_str)).unwrap();

    // THEN
    assert!(deserialized.into_bool());
    assert!(deserialized.is_string());
}

#[test]
fn test_boolish_deserialize_string_false() {
    // GIVEN
    let json_str = r#""false""#;

    // WHEN
    let deserialized = Boolish::from_json(&parse(json_str)).unwrap();

    // THEN
    assert!(!deserialized.into_bool());
    assert!(deserialized.is_string());
}

#[test]
fn test_boolish_is_true() {
    // GIVEN various true values
    let true_values = ["true", "t", "yes", "y", " True ", " T ", " Yes ", " Y "];

    // THEN all are true
    for value in true_values {
        assert!(Boolish::is_true(value));
    }
}

#[test]
fn test_boolish_is_false() {
    // GIVEN various false values
    let false_values = ["false", "f", "no", "n", "False", "blah", "1", "0", ""];

    // THEN all are false
    for value in false_values {
        assert!(!Boolish::is_true(value));
    }
}

#[test]
fn test_boolish_from_bool() {
    assert!(Boolish::from(true).into_bool());
    assert!(!Boolish::from(false).into_bool());
}

#[test]
fn boolish_trims_unicode_white_space_and_folds_ascii_case() {
    assert!(Boolish::is_true("\u{2003}\tYeS\u{a0}\r\n"));
    assert!(Boolish::is_true("TRUE"));
    assert!(!Boolish::is_true("t rue"));
    assert!(!Boolish::is_true("yes."));
    assert!(!Boolish::is_true("\u{212a}"));
}

#[test]
fn boolish_rejects_other_shapes() {
    assert!(Boolish::from_json(&parse("1")).is_none());
    assert!(Boolish::from_json(&parse("null")).is_none());
    assert!(Boolish::from_json(&parse("[true]")).is_none());
}

#[test]
fn boolish_text_and_canonical_json() {
    let yes = Boolish::from_json(&parse(r#"" Yes ""#)).unwrap();
    assert_eq!(yes.to_string(), "true");
    assert_eq!(print(&yes.to_json()), "true");
    let no = Boolish::from_json(&parse(r#""nope""#)).unwrap();
    assert_eq!(no.to_string(), "false");
    assert_eq!(print(&no.to_json()), "false");
    assert_eq!(yes.clone(), yes);
}

//
// Numberish Tests
//

#[test]
fn test_numberish_serialize_number() {
    // GIVEN a Numberish from a number
    let n = Numberish::<u32>::from(123);

    // WHEN serialized
    let serialized = print(&n.to_json());

    // THEN it is the correct string
    assert_eq!(serialized, "123");
}

#[test]
fn test_numberish_deserialize_number() {
    // GIVEN a JSON string representing a number
    let json_str = "123";

    // WHEN deserialized
    let deserialized: Numberish<u32> = Numberish::from_json(&parse(json_str)).unwrap();

    // THEN the value is correct and it's not a string
    assert_eq!(deserialized.as_u32(), Some(123));
    assert!(!deserialized.is_string());
}

#[test]
fn test_numberish_deserialize_string() {
    // GIVEN a JSON string representing a number as a string
    let json_str = r#""123""#;

    // WHEN deserialized
    let deserialized: Numberish<u32> = Numberish::from_json(&parse(json_str)).unwrap();

    // THEN the value is correct and it's a string
    assert_eq!(deserialized.as_u32(), Some(123));
    assert!(deserialized.is_string());
}

#[test]
fn test_numberish_as_u64_number() {
    // GIVEN a Numberish from a u64
    let n = Numberish::from(123u64);

    // WHEN as_u64 is called
    let result = n.as_u64();

    // THEN the result is Some(123)
    assert_eq!(result, Some(123));
}

#[test]
fn test_numberish_as_u64_string_invalid() {
    // GIVEN a Numberish from a string that does not represent a u64
    let n = numberish_text::<u64>("abc");

    // WHEN as_u64 is called
    let result = n.as_u64();

    // THEN the result is None
    assert_eq!(result, None);
}

#[test]
fn test_numberish_as_smaller_types() {
    // GIVEN a valid number
    let n = Numberish::from(123u64);

    // THEN smaller type conversions work
    assert_eq!(n.as_u32(), Some(123));
    assert_eq!(n.as_u16(), Some(123));
    assert_eq!(n.as_u8(), Some(123));

    // GIVEN a number too large
    let n = Numberish::from(u32::MAX as u64 + 1);

    // THEN smaller type conversions fail
    assert_eq!(n.as_u32(), None);
    assert_eq!(n.as_u16(), None);
    assert_eq!(n.as_u8(), None);

    // GIVEN a valid number string
    let n = numberish_text::<u64>("123");

    // THEN smaller type conversions work
    assert_eq!(n.as_u32(), Some(123));
    assert_eq!(n.as_u16(), Some(123));
    assert_eq!(n.as_u8(), Some(123));

    // GIVEN a number string too large
    let n = numberish_text::<u64>(&(u32::MAX as u64 + 1).to_string());

    // THEN smaller type conversions fail
    assert_eq!(n.as_u32(), None);
}

#[test]
fn test_numberish_display_number() {
    let n = Numberish::<u32>::from(123);
    assert_eq!(n.to_string(), "123");
}

#[test]
fn test_numberish_display_string_valid() {
    let n = numberish_text::<u32>("123");
    assert_eq!(n.to_string(), "123");
}

#[test]
fn test_numberish_display_string_invalid() {
    let n = numberish_text::<u32>("abc");
    assert_eq!(n.to_string(), "RANGE_ERRROR");
}

#[test]
fn numberish_string_must_be_plain_decimal_text() {
    for text in ["", "-1", "+1", "01", "1.0", "1e2", " 1", "1 ", "0x10", "18446744073709551616"] {
        assert_eq!(numberish_text::<u64>(text).as_u64(), None, "{text:?}");
    }
    assert_eq!(numberish_text::<u64>("0").as_u64(), Some(0));
    assert_eq!(
        numberish_text::<u64>("18446744073709551615").as_u64(),
        Some(u64::MAX)
    );
}

#[test]
fn numberish_width_limits() {
    assert_eq!(Numberish::from(255u64).as_u8(), Some(255));
    assert_eq!(Numberish::from(256u64).as_u8(), None);
    assert_eq!(Numberish::from(65535u64).as_u16(), Some(65535));
    assert_eq!(Numberish::from(65536u64).as_u16(), None);
    assert_eq!(Numberish::from(u32::MAX as u64).as_u32(), Some(u32::MAX));
    assert_eq!(Numberish::from(7u8).as_u64(), Some(7));
    assert_eq!(Numberish::from(7u16).as_u64(), Some(7));
}

#[test]
fn numberish_other_numbers_read_as_no_value() {
    let neg: Numberish<u32> = Numberish::from_json(&parse("-5")).unwrap();
    assert_eq!(neg.as_u64(), None);
    assert!(!neg.is_string());
    assert_eq!(print(&neg.to_json()), "-5");
    let frac: Numberish<u32> = Numberish::from_json(&parse("1.5")).unwrap();
    assert_eq!(frac.as_u32(), None);
    assert_eq!(frac.to_string(), "RANGE_ERRROR");
    assert!(Numberish::<u32>::from_json(&parse("true")).is_none());
    assert!(Numberish::<u32>::from_json(&parse("[1]")).is_none());
}

#[test]
fn numberish_lenient_shape_is_written_as_number() {
    let n = numberish_text::<u32>("123");
    assert_eq!(print(&n.to_json()), "123");
    let again: Numberish<u32> = Numberish::from_json(&n.to_json()).unwrap();
    assert!(!again.is_string());
    assert_eq!(again.as_u32(), Some(123));
    let bad = numberish_text::<u32>("abc");
    assert_eq!(print(&bad.to_json()), "null");
    assert_eq!(n.clone(), n);
}
