use ambient::args::{
    choose_profile, is_option_arg, parse_args, parse_profile, profile_argument, Setting,
    SettingValue,
};

fn words(list: &[&str]) -> Vec<String> {
    list.iter().map(|w| w.to_string()).collect()
}

fn plain(settings: &[Setting]) -> Vec<(String, Option<String>)> {
    settings
        .iter()
        .map(|s| {
            let value = match &s.value {
                SettingValue::Flag => None,
                SettingValue::Text(t) => Some(t.clone()),
            };
            (s.key.clone(), value)
        })
        .collect()
}

fn pair(key: &str, value: Option<&str>) -> (String, Option<String>) {
    (key.to_string(), value.map(|v| v.to_string()))
}

#[test]
fn option_prefix_is_two_hyphens() {
    assert!(is_option_arg("--x"));
    assert!(is_option_arg("--"));
    assert!(is_option_arg("---"));
    assert!(!is_option_arg("-x"));
    assert!(!is_option_arg("-"));
    assert!(!is_option_arg(""));
    assert!(!is_option_arg("x--"));
}

#[test]
fn key_with_value_and_flag() {
    let parsed = parse_args(&words(&["prog", "--x", "4", "--verbose"]));
    assert_eq!(plain(&parsed), vec![pair("x", Some("4")), pair("verbose", None)]);
}

#[test]
fn option_followed_by_option_is_a_flag() {
    let parsed = parse_args(&words(&["--a", "--b", "v", "--c"]));
    assert_eq!(plain(&parsed), vec![pair("a", None), pair("b", Some("v")), pair("c", None)]);
}

#[test]
fn stray_words_are_passed_over() {
    let parsed = parse_args(&words(&["prog", "stray", "--k", "v", "extra", "--f"]));
    assert_eq!(plain(&parsed), vec![pair("k", Some("v")), pair("f", None)]);
}

#[test]
fn no_arguments_give_no_settings() {
    assert!(parse_args(&Vec::new()).is_empty());
    assert!(parse_args(&words(&["prog"])).is_empty());
}

#[test]
fn bare_double_hyphen_has_an_empty_key() {
    let parsed = parse_args(&words(&["--", "v"]));
    assert_eq!(plain(&parsed), vec![pair("", Some("v"))]);
}

#[test]
fn keys_keep_text_beyond_ascii() {
    let parsed = parse_args(&words(&["--größe", "großß"]));
    assert_eq!(plain(&parsed), vec![pair("größe", Some("großß"))]);
}

#[test]
fn profile_argument_follows_the_first_flag() {
    assert_eq!(profile_argument(&words(&["prog", "--profile", "dev"])), Some("dev".to_string()));
    assert_eq!(
        profile_argument(&words(&["--profile", "a", "--profile", "b"])),
        Some("a".to_string())
    );
    assert_eq!(profile_argument(&words(&["prog", "--profile"])), None);
    assert_eq!(profile_argument(&words(&["prog", "--profiles", "dev"])), None);
    assert_eq!(profile_argument(&Vec::new()), None);
}

#[test]
fn profile_argument_stops_at_a_trailing_first_flag() {
    assert_eq!(
        profile_argument(&words(&["--profile", "--profile"])),
        Some("--profile".to_string())
    );
}

#[test]
fn profile_precedence() {
    let s = |t: &str| Some(t.to_string());
    assert_eq!(choose_profile(s("cli"), s("env"), s("cfg")), "cli");
    assert_eq!(choose_profile(None, s("env"), s("cfg")), "env");
    assert_eq!(choose_profile(None, None, s("cfg")), "cfg");
    assert_eq!(choose_profile(None, None, None), "default");
    assert_eq!(choose_profile(s("cli"), None, None), "cli");
}

#[test]
fn parse_profile_combines_arguments_and_fallbacks() {
    let s = |t: &str| Some(t.to_string());
    assert_eq!(parse_profile(&words(&["prog", "--profile", "test"]), s("env"), s("cfg")), "test");
    assert_eq!(parse_profile(&words(&["prog", "--profile"]), s("env"), s("cfg")), "env");
    assert_eq!(parse_profile(&words(&["prog"]), None, s("cfg")), "cfg");
    assert_eq!(parse_profile(&words(&["prog"]), None, None), "default");
}
