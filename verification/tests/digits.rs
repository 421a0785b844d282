use tipp10w::action::Action;
use tipp10w::digits::{parse_u64, u64_to_string};

#[test]
fn test_parse_u64_digits() {
    let chars: Vec<char> = "123".chars().collect();
    assert_eq!(parse_u64(&chars), Some(123));
    let zero: Vec<char> = "0".chars().collect();
    assert_eq!(parse_u64(&zero), Some(0));
}

#[test]
fn test_parse_u64_rejects_non_digits() {
    let empty: Vec<char> = Vec::new();
    assert_eq!(parse_u64(&empty), None);
    let mixed: Vec<char> = "12a".chars().collect();
    assert_eq!(parse_u64(&mixed), None);
    let signed: Vec<char> = "-1".chars().collect();
    assert_eq!(parse_u64(&signed), None);
}

#[test]
fn test_parse_u64_rejects_overflow() {
    let max: Vec<char> = "18446744073709551615".chars().collect();
    assert_eq!(parse_u64(&max), Some(u64::MAX));
    let over: Vec<char> = "18446744073709551616".chars().collect();
    assert_eq!(parse_u64(&over), None);
}

#[test]
fn test_u64_to_string_exact() {
    assert_eq!(u64_to_string(0).as_str(), "0");
    assert_eq!(u64_to_string(980).as_str(), "980");
    assert_eq!(u64_to_string(20230101120000).as_str(), "20230101120000");
}

#[test]
fn test_action_from_letters() {
    assert_eq!(Action::from("h"), Action::Help);
    assert_eq!(Action::from("H"), Action::Help);
    assert_eq!(Action::from("p"), Action::Print);
    assert_eq!(Action::from("a"), Action::Append);
    assert_eq!(Action::from("d"), Action::Delete);
    assert_eq!(Action::from("e"), Action::Exit);
    assert_eq!(Action::from("z"), Action::Invalid);
    assert_eq!(Action::from("hh"), Action::Invalid);
}
