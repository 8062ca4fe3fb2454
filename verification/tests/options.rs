use angy::error::AngyError;
use angy::options::{
    option_optional, option_optional_boolean, option_optional_channel, option_optional_string,
    option_required, option_required_attachment, option_required_channel, option_required_integer,
    option_required_role, option_required_string, option_required_user, options_hashmap,
    CommandOption, OptionValue,
};

fn opt(name: &str, value: Option<OptionValue>) -> CommandOption {
    CommandOption { name: name.to_string(), resolved: value }
}

#[test]
fn unresolved_options_are_left_out() {
    let map = options_hashmap(vec![
        opt("what", Some(OptionValue::String("song".to_string()))),
        opt("ytdl", None),
    ]);
    assert_eq!(map.get("what"), Some(&OptionValue::String("song".to_string())));
    assert_eq!(map.get("ytdl"), None);
    assert_eq!(map.get("other"), None);
}

#[test]
fn later_option_of_same_name_wins() {
    let map = options_hashmap(vec![
        opt("n", Some(OptionValue::Integer(1))),
        opt("n", Some(OptionValue::Integer(2))),
        opt("n", None),
    ]);
    assert_eq!(map.get("n"), Some(&OptionValue::Integer(2)));
}

#[test]
fn empty_options_give_empty_map() {
    let map = options_hashmap(vec![]);
    assert_eq!(map.get(""), None);
    assert_eq!(option_optional(&map, "what"), None);
}

#[test]
fn required_option_missing_is_user_error() {
    let map = options_hashmap(vec![opt("a", Some(OptionValue::Boolean(true)))]);
    assert_eq!(
        option_required(&map, "b"),
        Err(AngyError::User("A required option is missing."))
    );
    assert_eq!(option_required(&map, "a"), Ok(&OptionValue::Boolean(true)));
    assert_eq!(
        option_required_string(&map, "what"),
        Err(AngyError::User("A required option is missing."))
    );
}

#[test]
fn typed_accessors_read_their_kind() {
    let map = options_hashmap(vec![
        opt("s", Some(OptionValue::String("x".to_string()))),
        opt("i", Some(OptionValue::Integer(-7))),
        opt("b", Some(OptionValue::Boolean(false))),
        opt("u", Some(OptionValue::User(11))),
        opt("c", Some(OptionValue::Channel(22))),
        opt("r", Some(OptionValue::Role(33))),
        opt("a", Some(OptionValue::Attachment(44))),
    ]);
    assert_eq!(option_required_string(&map, "s"), Ok(&"x".to_string()));
    assert_eq!(option_required_integer(&map, "i"), Ok(&-7));
    assert_eq!(option_optional_boolean(&map, "b"), Some(&false));
    assert_eq!(option_required_user(&map, "u"), Ok(&11));
    assert_eq!(option_required_channel(&map, "c"), Ok(&22));
    assert_eq!(option_optional_channel(&map, "c"), Some(&22));
    assert_eq!(option_required_role(&map, "r"), Ok(&33));
    assert_eq!(option_required_attachment(&map, "a"), Ok(&44));
    assert_eq!(option_optional_string(&map, "zzz"), None);
}

#[test]
fn optional_agrees_with_required() {
    let map = options_hashmap(vec![opt("x", Some(OptionValue::Role(5)))]);
    for name in ["x", "y"] {
        assert_eq!(option_optional(&map, name), option_required(&map, name).ok());
    }
}

#[test]
fn duplicate_keeps_value() {
    let v = OptionValue::String("abc".to_string());
    assert_eq!(v.duplicate(), v);
    let n = OptionValue::Number(1.5f64.to_bits());
    assert_eq!(n.duplicate(), n);
}

#[test]
fn order_of_distinct_options_does_not_matter() {
    let a = || opt("a", Some(OptionValue::Integer(1)));
    let b = || opt("b", Some(OptionValue::Boolean(true)));
    let c = || opt("c", None);
    let one = options_hashmap(vec![a(), b(), c()]);
    let two = options_hashmap(vec![c(), b(), a()]);
    for name in ["a", "b", "c", "d"] {
        assert_eq!(one.get(name), two.get(name));
    }
}
