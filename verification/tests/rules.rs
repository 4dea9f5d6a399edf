//! The rules for single values: flags, and what stands around them in an object.

use openrtb2::codec::{get, put};
use openrtb2::{
    from_str, i32_as_bool, i32_as_opt_bool, to_string, Codec, Error, ErrorKind, Found, Step,
};
use serde_json::Value;

fn number(text: &str) -> serde_json::Number {
    text.parse().unwrap()
}

/// An object with one flag, which must be present.
#[derive(Debug, PartialEq)]
struct Flagged {
    flag: bool,
}

fn flagged_from_str(json: &str) -> Result<Flagged, String> {
    let value: Value = serde_json::from_str(json).map_err(|e| e.to_string())?;
    let map = value.as_object().ok_or("no object")?;
    let flag = get::<bool>(map, "flag").map_err(|e| format!("{:?}", e))?;
    Ok(Flagged { flag })
}

fn flagged_to_string(o: &Flagged) -> String {
    let mut map = serde_json::Map::new();
    put::<bool>(&mut map, "flag", &o.flag);
    serde_json::to_string(&Value::Object(map)).unwrap()
}

/// An object with one member that must be present, and holds a flag or `null`.
#[derive(Debug, PartialEq)]
struct MaybeFlagged {
    flag: Option<bool>,
}

fn maybe_flagged_from_str(json: &str) -> Result<MaybeFlagged, String> {
    let value: Value = serde_json::from_str(json).map_err(|e| e.to_string())?;
    let map = value.as_object().ok_or("no object")?;
    let member = map.get("flag").ok_or("no member")?;
    let number = if member.is_null() {
        None
    } else {
        Some(i32::from_value(member).map_err(|e| format!("{:?}", e))?)
    };
    let flag = i32_as_opt_bool::deserialize(number).map_err(|e| format!("{:?}", e))?;
    Ok(MaybeFlagged { flag })
}

fn maybe_flagged_to_string(o: &MaybeFlagged) -> String {
    let mut map = serde_json::Map::new();
    let member = match i32_as_opt_bool::serialize(&o.flag) {
        Some(n) => n.to_value(),
        None => Value::Null,
    };
    map.insert("flag".to_owned(), member);
    serde_json::to_string(&Value::Object(map)).unwrap()
}

#[test]
fn i32_as_bool() {
    assert!(flagged_from_str(r#"{}"#).is_err());
    assert!(flagged_from_str(r#"{"flag":-1}"#).is_err());
    assert!(flagged_from_str(r#"{"flag":2}"#).is_err());

    let j1 = r#"{"flag":1}"#;
    let o1 = flagged_from_str(j1).unwrap();
    assert_eq!(o1, Flagged { flag: true });
    assert_eq!(flagged_to_string(&o1), j1);

    let j2 = r#"{"flag":0}"#;
    let o2 = flagged_from_str(j2).unwrap();
    assert_eq!(o2, Flagged { flag: false });
    assert_eq!(flagged_to_string(&o2), j2);
}

#[test]
fn i32_as_opt_bool() {
    assert!(maybe_flagged_from_str(r#"{}"#).is_err());
    assert!(maybe_flagged_from_str(r#"{"flag":-1}"#).is_err());
    assert!(maybe_flagged_from_str(r#"{"flag":2}"#).is_err());
    assert!(maybe_flagged_from_str(r#"{"flag":null}"#).is_ok());

    let j1 = r#"{"flag":1}"#;
    let o1 = maybe_flagged_from_str(j1).unwrap();
    assert_eq!(o1, MaybeFlagged { flag: Some(true) });
    assert_eq!(maybe_flagged_to_string(&o1), j1);

    let j2 = r#"{"flag":0}"#;
    let o2 = maybe_flagged_from_str(j2).unwrap();
    assert_eq!(o2, MaybeFlagged { flag: Some(false) });
    assert_eq!(maybe_flagged_to_string(&o2), j2);
}

#[test]
fn flag_is_zero_or_one() {
    assert_eq!(i32_as_bool::deserialize(0), Ok(false));
    assert_eq!(i32_as_bool::deserialize(1), Ok(true));
    assert_eq!(i32_as_bool::serialize(&true), 1);
    assert_eq!(i32_as_bool::serialize(&false), 0);
    for n in [2, -1, i32::MAX, i32::MIN] {
        let e = i32_as_bool::deserialize(n).unwrap_err();
        assert_eq!(e.kind, ErrorKind::Domain);
        assert_eq!(e.found, Found::Integer(n as i64));
        assert_eq!(e.expected, "0 or 1");
    }
}



#[test]
fn optional_flag_is_absent_or_zero_or_one() {
    assert_eq!(i32_as_opt_bool::deserialize(None), Ok(None));
    assert_eq!(i32_as_opt_bool::deserialize(Some(0)), Ok(Some(false)));
    assert_eq!(i32_as_opt_bool::deserialize(Some(1)), Ok(Some(true)));
    assert_eq!(i32_as_opt_bool::serialize(&None), None);
    assert_eq!(i32_as_opt_bool::serialize(&Some(true)), Some(1));
    assert_eq!(i32_as_opt_bool::serialize(&Some(false)), Some(0));
    let e = i32_as_opt_bool::deserialize(Some(2)).unwrap_err();
    assert_eq!(e.kind, ErrorKind::Domain);
    assert_eq!(e.found, Found::Integer(2));
}

#[test]
fn flag_in_a_document() {
    assert_eq!(from_str::<bool>("0"), Ok(false));
    assert_eq!(from_str::<bool>("1"), Ok(true));
    assert_eq!(to_string(&true), "1");
    assert_eq!(to_string(&false), "0");
    // No truthiness: `true`, a text and a number with a fraction are no flags.
    assert_eq!(from_str::<bool>("true").unwrap_err().kind, ErrorKind::Shape);
    assert_eq!(from_str::<bool>("true").unwrap_err().found, Found::Bool(true));
    assert_eq!(from_str::<bool>(r#""1""#).unwrap_err().kind, ErrorKind::Shape);
    assert_eq!(from_str::<bool>("1.0").unwrap_err().found, Found::Number(number("1.0")));
    assert_eq!(from_str::<bool>("2").unwrap_err().kind, ErrorKind::Domain);
}

#[test]
fn flag_error_in_words() {
    let e = i32_as_bool::deserialize(2).unwrap_err();
    assert_eq!(e.message(), "invalid value: 2, expected 0 or 1");
    let e = i32_as_bool::deserialize(-1).unwrap_err();
    assert_eq!(e.message(), "invalid value: -1, expected 0 or 1");
    let e = i32_as_bool::deserialize(i32::MIN).unwrap_err();
    assert_eq!(e.message(), "invalid value: -2147483648, expected 0 or 1");
}

#[test]
fn integer_of_32_bits() {
    assert_eq!(from_str::<i32>("0"), Ok(0));
    assert_eq!(from_str::<i32>("-2147483648"), Ok(i32::MIN));
    assert_eq!(from_str::<i32>("2147483647"), Ok(i32::MAX));
    assert_eq!(to_string(&i32::MIN), "-2147483648");
    assert_eq!(to_string(&i32::MAX), "2147483647");

    let e = from_str::<i32>("2147483648").unwrap_err();
    assert_eq!(e.kind, ErrorKind::Domain);
    assert_eq!(e.found, Found::Integer(2147483648));
    assert_eq!(e.message(), "invalid value: 2147483648, expected an integer of 32 bits");
    let e = from_str::<i32>("-9223372036854775808").unwrap_err();
    assert_eq!(e.message(), "invalid value: -9223372036854775808, expected an integer of 32 bits");

    // An integer beyond 64 bits and a number with a fraction have the wrong shape.
    let e = from_str::<i32>("18446744073709551615").unwrap_err();
    assert_eq!(e.kind, ErrorKind::Shape);
    assert_eq!(e.found, Found::Number(number("18446744073709551615")));
    assert_eq!(e.message(), "invalid value: 18446744073709551615, expected an integer");
    assert_eq!(
        from_str::<i32>("-1.5e-3").unwrap_err().message(),
        "invalid value: -0.0015, expected an integer"
    );
    assert_eq!(from_str::<i32>("1.5").unwrap_err().kind, ErrorKind::Shape);
    assert_eq!(from_str::<i32>("null").unwrap_err().found, Found::Null);
    assert_eq!(from_str::<i32>("[]").unwrap_err().found, Found::Array);
    assert_eq!(from_str::<i32>("{}").unwrap_err().found, Found::Object);
    assert_eq!(from_str::<i32>(r#""7""#).unwrap_err().found, Found::Text("7".to_owned()));
    assert_eq!(
        from_str::<i32>(r#""7""#).unwrap_err().message(),
        r#"invalid value: "7", expected an integer"#
    );
}

#[test]
fn text_and_arrays() {
    assert_eq!(from_str::<String>(r#""a b""#), Ok("a b".to_owned()));
    assert_eq!(to_string(&"a b".to_owned()), r#""a b""#);
    assert_eq!(from_str::<String>("1").unwrap_err().expected, "a string");

    assert_eq!(from_str::<Vec<i32>>("[]"), Ok(vec![]));
    assert_eq!(from_str::<Vec<i32>>("[3,1,2]"), Ok(vec![3, 1, 2]));
    assert_eq!(to_string(&vec![3, 1, 2]), "[3,1,2]");
    assert_eq!(from_str::<Vec<i32>>("3").unwrap_err().expected, "an array");

    // The first item that is not accepted is reported, with its place.
    let e = from_str::<Vec<bool>>("[0,1,2,3]").unwrap_err();
    assert_eq!(e.found, Found::Integer(2));
    assert_eq!(e.path, vec![Step::Index(2)]);
    assert_eq!(e.message(), "invalid value: 2, expected 0 or 1 at $[2]");
    let e = from_str::<Vec<Vec<bool>>>("[[],[1,0],[1,7]]").unwrap_err();
    assert_eq!(e.path, vec![Step::Index(2), Step::Index(1)]);
    assert_eq!(e.message(), "invalid value: 7, expected 0 or 1 at $[2][1]");
}

#[test]
fn members_absent_null_and_present() {
    let value: Value = serde_json::from_str(r#"{"a":1,"b":null}"#).unwrap();
    let map = value.as_object().unwrap();

    assert_eq!(get::<i32>(map, "a"), Ok(1));
    let e = get::<i32>(map, "c").unwrap_err();
    assert_eq!((e.kind, e.found.clone()), (ErrorKind::Shape, Found::Absent));
    assert_eq!(e.message(), "invalid value: nothing, expected a member of this name at $.c");
    assert_eq!(get::<i32>(map, "b").unwrap_err().found, Found::Null);

    assert_eq!(openrtb2::codec::get_option::<i32>(map, "a"), Ok(Some(1)));
    assert_eq!(openrtb2::codec::get_option::<i32>(map, "b"), Ok(None));
    assert_eq!(openrtb2::codec::get_option::<i32>(map, "c"), Ok(None));

    assert_eq!(openrtb2::codec::get_or::<i32>(map, "a", 5), Ok(1));
    assert_eq!(openrtb2::codec::get_or::<i32>(map, "c", 5), Ok(5));
    assert_eq!(openrtb2::codec::get_or::<i32>(map, "b", 5).unwrap_err().found, Found::Null);
}

#[test]
fn members_are_written_in_order() {
    let mut map = serde_json::Map::new();
    put::<i32>(&mut map, "z", &1);
    openrtb2::codec::put_some::<i32>(&mut map, "y", &None);
    openrtb2::codec::put_some::<i32>(&mut map, "x", &Some(2));
    openrtb2::codec::put_unless::<i32>(&mut map, "w", &0, true);
    openrtb2::codec::put_unless::<i32>(&mut map, "v", &3, false);
    assert_eq!(serde_json::to_string(&Value::Object(map.clone())).unwrap(), r#"{"z":1,"x":2,"v":3}"#);
    // A member of a name that is there keeps its place and takes the new value.
    put::<i32>(&mut map, "z", &9);
    assert_eq!(serde_json::to_string(&Value::Object(map)).unwrap(), r#"{"z":9,"x":2,"v":3}"#);
}

#[test]
fn amounts() {
    let value: Value =
        serde_json::from_str(r#"{"a":0,"b":0.0,"c":-0.0,"d":0.25,"e":3,"f":"1"}"#).unwrap();
    let map = value.as_object().unwrap();
    let zero = openrtb2::codec::get_amount(map, "none").unwrap();
    assert_eq!(zero.to_string(), "0.0");
    for key in ["a", "b", "c"] {
        assert_eq!(openrtb2::codec::get_amount(map, key).unwrap().to_string(), "0.0");
    }
    assert_eq!(openrtb2::codec::get_amount(map, "d").unwrap().to_string(), "0.25");
    assert_eq!(openrtb2::codec::get_amount(map, "e").unwrap().to_string(), "3");
    assert_eq!(openrtb2::codec::get_amount(map, "f").unwrap_err().expected, "a number");

    let mut out = serde_json::Map::new();
    openrtb2::codec::put_amount(&mut out, "a", &zero);
    openrtb2::codec::put_amount(&mut out, "b", &serde_json::Number::from(0));
    openrtb2::codec::put_amount(&mut out, "d", &serde_json::Number::from_f64(0.25).unwrap());
    openrtb2::codec::put_amount(&mut out, "e", &serde_json::Number::from(3));
    assert_eq!(serde_json::to_string(&Value::Object(out)).unwrap(), r#"{"d":0.25,"e":3}"#);

    // Zero is the integer 0 and the floats 0.0 and -0.0, and no other number.
    let mut out = serde_json::Map::new();
    for (key, text) in [("a", "0"), ("b", "0.0"), ("c", "-0.0"), ("d", "0e5"), ("e", "-0")] {
        openrtb2::codec::put_amount(&mut out, key, &number(text));
    }
    assert!(out.is_empty());
    let others = ["-1", "1", "18446744073709551615", "-9223372036854775808", "5e-324", "-1e-9"];
    for text in others {
        let mut out = serde_json::Map::new();
        openrtb2::codec::put_amount(&mut out, "x", &number(text));
        assert_eq!(out.len(), 1, "{}", text);
        let json = format!(r#"{{"x":{}}}"#, text);
        let value: Value = serde_json::from_str(&json).unwrap();
        let read = openrtb2::codec::get_amount(value.as_object().unwrap(), "x").unwrap();
        assert_eq!(read, number(text));
    }
}

#[test]
fn text_is_compared_letter_by_letter() {
    assert!(openrtb2::codec::text_is(&"USD".to_owned(), "USD"));
    assert!(!openrtb2::codec::text_is(&"usd".to_owned(), "USD"));
    assert!(!openrtb2::codec::text_is(&"USD ".to_owned(), "USD"));
    assert!(!openrtb2::codec::text_is(&"".to_owned(), "USD"));
}

#[test]
fn what_was_found() {
    for (json, found) in [
        ("null", Found::Null),
        ("false", Found::Bool(false)),
        ("-3", Found::Integer(-3)),
        ("9223372036854775807", Found::Integer(i64::MAX)),
        ("9223372036854775808", Found::Number(number("9223372036854775808"))),
        ("0.5", Found::Number(number("0.5"))),
        (r#""x""#, Found::Text("x".to_owned())),
        ("[1]", Found::Array),
        (r#"{"a":1}"#, Found::Object),
    ] {
        let value: Value = serde_json::from_str(json).unwrap();
        assert_eq!(Found::of(&value), found);
    }
}

#[test]
fn errors_in_words() {
    let value: Value = serde_json::from_str("[1]").unwrap();
    assert_eq!(
        Error::shape(&value, "an object").message(),
        "invalid value: an array, expected an object"
    );
    assert_eq!(Error::absent("a member").message(), "invalid value: nothing, expected a member");
    assert_eq!(Error::domain(0, "1 or 2").message(), "invalid value: 0, expected 1 or 2");
    assert_eq!(
        Error::unknown("X", "one of `M`, `F`, `O`").message(),
        "invalid value: \"X\", expected one of `M`, `F`, `O`"
    );
    let e = Error::domain(7, "0 or 1")
        .under(Step::Key("instl"))
        .under(Step::Index(12))
        .under(Step::Key("imp"));
    assert_eq!(e.path, vec![Step::Key("imp"), Step::Index(12), Step::Key("instl")]);
    assert_eq!(e.message(), "invalid value: 7, expected 0 or 1 at $.imp[12].instl");
    let kinds = [
        (Found::Null, "null"),
        (Found::Bool(true), "true"),
        (Found::Bool(false), "false"),
        (Found::Number(number("2.5")), "2.5"),
        (Found::Number(number("1e300")), "1e+300"),
        (Found::Object, "an object"),
    ];
    for (found, text) in kinds {
        let e = Error { kind: ErrorKind::Shape, found, expected: "x", path: vec![] };
        assert_eq!(e.message(), format!("invalid value: {}, expected x", text));
    }
}

#[test]
fn decimal_numerals() {
    for n in [0i64, 7, 10, 99, 100, 12345, -1, -10, i64::MAX, i64::MIN] {
        let mut text = String::from("n=");
        openrtb2::text::push_decimal(&mut text, n);
        assert_eq!(text, format!("n={}", n));
    }
    for n in [0u64, 9, 10, u64::MAX] {
        let mut text = String::new();
        openrtb2::text::push_digits(&mut text, n);
        assert_eq!(text, n.to_string());
    }
    assert_eq!(openrtb2::text::digit_text(0), "0");
    assert_eq!(openrtb2::text::digit_text(9), "9");
    assert_eq!(openrtb2::text::read_digit('7'), Some(7));
    assert_eq!(openrtb2::text::read_digit('a'), None);
}
