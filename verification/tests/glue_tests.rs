use badgen::rhai_glue::RhaiType;
use badgen::rhai_glue::parse_arg_to_dynamic;
use badgen::rhai_glue::parse_i64;

#[test]
fn type_names_map_case_insensitively() {
    assert_eq!(RhaiType::from("int"), RhaiType::Number);
    assert_eq!(RhaiType::from("Integer"), RhaiType::Number);
    assert_eq!(RhaiType::from("I64"), RhaiType::Number);
    assert_eq!(RhaiType::from("FLOAT"), RhaiType::Float);
    assert_eq!(RhaiType::from("double"), RhaiType::Float);
    assert_eq!(RhaiType::from("string"), RhaiType::String);
    assert_eq!(RhaiType::from("Str"), RhaiType::String);
    assert_eq!(RhaiType::from("boolean"), RhaiType::Bool);
    assert_eq!(RhaiType::from("any"), RhaiType::Dynamic);
    assert_eq!(RhaiType::from("letter"), RhaiType::Char);
    assert_eq!(RhaiType::from("char"), RhaiType::Char);
    assert_eq!(RhaiType::from("widget"), RhaiType::Unknown);
}

#[test]
fn integers_parse_with_sign_and_bounds() {
    assert_eq!(parse_i64("42"), Ok(42));
    assert_eq!(parse_i64("+42"), Ok(42));
    assert_eq!(parse_i64("-42"), Ok(-42));
    assert_eq!(parse_i64("0"), Ok(0));
    assert_eq!(parse_i64("9223372036854775807"), Ok(i64::MAX));
    assert_eq!(parse_i64("-9223372036854775808"), Ok(i64::MIN));
    assert!(parse_i64("9223372036854775808").is_err());
    assert!(parse_i64("-9223372036854775809").is_err());
    assert!(parse_i64("").is_err());
    assert!(parse_i64("+").is_err());
    assert!(parse_i64("4x").is_err());
    assert!(parse_i64("1.5").is_err());
}

#[test]
fn number_argument_converts_or_explains() {
    assert!(parse_arg_to_dynamic("n", "42", &RhaiType::Number).is_ok());
    let e = parse_arg_to_dynamic("n", "4x", &RhaiType::Number).unwrap_err();
    assert_eq!(
        e,
        "Invalid value for argument 'n': '4x' is not an integer. (invalid digit found in string)"
    );
    let e = parse_arg_to_dynamic("n", "", &RhaiType::Number).unwrap_err();
    assert_eq!(
        e,
        "Invalid value for argument 'n': '' is not an integer. (cannot parse integer from empty string)"
    );
    let e = parse_arg_to_dynamic("n", "9223372036854775808", &RhaiType::Number).unwrap_err();
    assert_eq!(
        e,
        "Invalid value for argument 'n': '9223372036854775808' is not an integer. (number too large to fit in target type)"
    );
}

#[test]
fn float_argument_follows_the_float_grammar() {
    assert!(parse_arg_to_dynamic("f", "3.25", &RhaiType::Float).is_ok());
    assert!(parse_arg_to_dynamic("f", "-1e9", &RhaiType::Float).is_ok());
    let e = parse_arg_to_dynamic("f", "abc", &RhaiType::Float).unwrap_err();
    assert_eq!(
        e,
        "Invalid value for argument 'f': 'abc' is not a float. (invalid float literal)"
    );
}

#[test]
fn bool_argument_accepts_true_and_false_only() {
    assert!(parse_arg_to_dynamic("b", "true", &RhaiType::Bool).is_ok());
    assert!(parse_arg_to_dynamic("b", "FALSE", &RhaiType::Bool).is_ok());
    let e = parse_arg_to_dynamic("b", "maybe", &RhaiType::Bool).unwrap_err();
    assert_eq!(
        e,
        "Invalid value for argument 'b': 'maybe' is not a boolean. (provided string was not `true` or `false`)"
    );
}

#[test]
fn char_argument_wants_exactly_one_character() {
    assert!(parse_arg_to_dynamic("c", "x", &RhaiType::Char).is_ok());
    let e = parse_arg_to_dynamic("c", "xy", &RhaiType::Char).unwrap_err();
    assert_eq!(e, "Not a chartoo many characters in string");
    let e = parse_arg_to_dynamic("c", "", &RhaiType::Char).unwrap_err();
    assert_eq!(e, "Not a charcannot parse char from empty string");
}

#[test]
fn flexible_types_accept_anything() {
    assert!(parse_arg_to_dynamic("s", "whatever", &RhaiType::String).is_ok());
    assert!(parse_arg_to_dynamic("d", "", &RhaiType::Dynamic).is_ok());
    assert!(parse_arg_to_dynamic("u", "???", &RhaiType::Unknown).is_ok());
}

#[test]
fn converted_values_reach_the_scripting_engine() {
    let d = parse_arg_to_dynamic("n", "42", &RhaiType::Number).unwrap();
    assert_eq!(d.as_int(), Ok(42));
    let d = parse_arg_to_dynamic("b", "TRUE", &RhaiType::Bool).unwrap();
    assert_eq!(d.as_bool(), Ok(true));
    let d = parse_arg_to_dynamic("c", "x", &RhaiType::Char).unwrap();
    assert_eq!(d.as_char(), Ok('x'));
    let d = parse_arg_to_dynamic("s", "hi", &RhaiType::String).unwrap();
    assert_eq!(d.into_string(), Ok(String::from("hi")));
    let d = parse_arg_to_dynamic("f", "2.5", &RhaiType::Float).unwrap();
    assert_eq!(d.as_float(), Ok(2.5));
}
