//! Command-line arguments as configuration settings, and the choice of the
//! active profile.

use vstd::prelude::*;

verus! {

/// The value that an argument gives to its key.
#[derive(Debug)]
pub enum SettingValue {
    /// The option stood alone: the key is set to boolean true.
    Flag,
    /// The option was followed by a value.
    Text(String),
}

/// One configuration override taken from the command line.
#[derive(Debug)]
pub struct Setting {
    pub key: String,
    pub value: SettingValue,
}

impl View for Setting {
    type V = (Seq<char>, Option<Seq<char>>);

    /// The key, and the text of the value or `None` for a flag.
    open spec fn view(&self) -> (Seq<char>, Option<Seq<char>>) {
        (
            self.key@,
            match self.value {
                SettingValue::Flag => None,
                SettingValue::Text(text) => Some(text@),
            },
        )
    }
}

/// The texts of a list of strings.
pub open spec fn texts(words: Seq<String>) -> Seq<Seq<char>> {
    words.map_values(|w: String| w@)
}

/// The views of a list of settings.
pub open spec fn setting_views(settings: Seq<Setting>) -> Seq<(Seq<char>, Option<Seq<char>>)> {
    settings.map_values(|s: Setting| s@)
}

/// An option is an argument that begins with two hyphens.
pub open spec fn is_option(arg: Seq<char>) -> bool {
    arg.len() >= 2 && arg[0] == '-' && arg[1] == '-'
}

/// The settings that the arguments from position `start` on give. An option
/// followed by an argument that is no option takes it as its value; any
/// other option is a flag; an argument that is neither an option nor the
/// value of one is passed over.
pub open spec fn settings_from(args: Seq<Seq<char>>, start: int) -> Seq<
    (Seq<char>, Option<Seq<char>>),
>
    decreases args.len() - start,
{
    if start < 0 || start >= args.len() {
        Seq::empty()
    } else if !is_option(args[start]) {
        settings_from(args, start + 1)
    } else if start + 1 < args.len() && !is_option(args[start + 1]) {
        seq![(args[start].skip(2), Some(args[start + 1]))] + settings_from(args, start + 2)
    } else {
        seq![(args[start].skip(2), None::<Seq<char>>)] + settings_from(args, start + 1)
    }
}

/// Whether the argument begins with two hyphens.
pub fn is_option_arg(arg: &str) -> (yes: bool)
    ensures
        yes == is_option(arg@),
{
    let n: usize = arg.unicode_len();
    if n < 2 {
        false
    } else {
        arg.get_char(0) == '-' && arg.get_char(1) == '-'
    }
}

/// Reads the settings out of the process arguments, in their order.
pub fn parse_args(args: &Vec<String>) -> (settings: Vec<Setting>)
    ensures
        setting_views(settings@) == settings_from(texts(args@), 0),
{
    let mut settings: Vec<Setting> = Vec::new();
    let mut i: usize = 0;
    while i < args.len()
        invariant
            i <= args.len(),
            setting_views(settings@) + settings_from(texts(args@), i as int) == settings_from(
                texts(args@),
                0,
            ),
        decreases args.len() - i,
    {
        let ghost before = setting_views(settings@);
        let ghost words = texts(args@);
        let arg: &str = args[i].as_str();
        assert(words[i as int] == arg@);
        if is_option_arg(arg) {
            let n: usize = arg.unicode_len();
            let key: String = arg.substring_char(2, n).to_owned();
            assert(key@ == words[i as int].skip(2));
            if i + 1 < args.len() && !is_option_arg(args[i + 1].as_str()) {
                let text: String = args[i + 1].clone();
                assert(text@ == words[i + 1]);
                let setting = Setting { key, value: SettingValue::Text(text) };
                settings.push(setting);
                assert(setting_views(settings@) =~= before.push(setting@));
                assert(before.push(setting@) + settings_from(words, i + 2) =~= before + (seq![
                    setting@,
                ] + settings_from(words, i + 2)));
                i += 2;
            } else {
                let setting = Setting { key, value: SettingValue::Flag };
                settings.push(setting);
                assert(setting_views(settings@) =~= before.push(setting@));
                assert(before.push(setting@) + settings_from(words, i + 1) =~= before + (seq![
                    setting@,
                ] + settings_from(words, i + 1)));
                i += 1;
            }
        } else {
            i += 1;
        }
    }
    assert(settings_from(texts(args@), i as int) =~= Seq::empty());
    assert(setting_views(settings@) + Seq::empty() =~= setting_views(settings@));
    settings
}

/// The position of the first argument from `start` on that equals `word`,
/// or the number of arguments if there is none.
pub open spec fn first_position(args: Seq<Seq<char>>, word: Seq<char>, start: int) -> int
    decreases args.len() - start,
{
    if start < 0 || start >= args.len() {
        args.len() as int
    } else if args[start] == word {
        start
    } else {
        first_position(args, word, start + 1)
    }
}

/// The profile named on the command line: the argument that follows the
/// first `--profile`, if both are there.
pub open spec fn profile_argument_of(args: Seq<Seq<char>>) -> Option<Seq<char>> {
    let at = first_position(args, "--profile"@, 0);
    if at + 1 < args.len() {
        Some(args[at + 1])
    } else {
        None
    }
}

/// Finds the profile named on the command line.
pub fn profile_argument(args: &Vec<String>) -> (named: Option<String>)
    ensures
        named.is_some() == profile_argument_of(texts(args@)).is_some(),
        named.is_some() ==> named.unwrap()@ == profile_argument_of(texts(args@)).unwrap(),
{
    let word: String = "--profile".to_owned();
    let ghost words = texts(args@);
    let mut i: usize = 0;
    while i < args.len()
        invariant
            i <= args.len(),
            words == texts(args@),
            word@ == "--profile"@,
            first_position(words, word@, 0) == first_position(words, word@, i as int),
        decreases args.len() - i,
    {
        assert(words[i as int] == args@[i as int]@);
        if args[i] == word {
            if i + 1 < args.len() {
                assert(words[i + 1] == args@[i + 1]@);
                return Some(args[i + 1].clone());
            } else {
                return None;
            }
        }
        i += 1;
    }
    None
}

/// The active profile by precedence: the one named on the command line,
/// else the one in the environment, else the configured one, else
/// `default`.
pub open spec fn chosen_profile(
    named: Option<Seq<char>>,
    environment: Option<Seq<char>>,
    configured: Option<Seq<char>>,
) -> Seq<char> {
    match named {
        Some(p) => p,
        None => match environment {
            Some(p) => p,
            None => match configured {
                Some(p) => p,
                None => "default"@,
            },
        },
    }
}

/// The text of an optional string.
pub open spec fn text_of(value: Option<String>) -> Option<Seq<char>> {
    match value {
        Some(s) => Some(s@),
        None => None,
    }
}

/// Picks the active profile among the three places that can name one.
pub fn choose_profile(
    named: Option<String>,
    environment: Option<String>,
    configured: Option<String>,
) -> (profile: String)
    ensures
        profile@ == chosen_profile(text_of(named), text_of(environment), text_of(configured)),
{
    match named {
        Some(p) => p,
        None => match environment {
            Some(p) => p,
            None => match configured {
                Some(p) => p,
                None => "default".to_owned(),
            },
        },
    }
}

/// The active profile of the process, given its arguments, the value of the
/// `PROFILE` environment variable and the `profile` key of the application
/// configuration.
pub fn parse_profile(
    args: &Vec<String>,
    environment: Option<String>,
    configured: Option<String>,
) -> (profile: String)
    ensures
        profile@ == chosen_profile(
            profile_argument_of(texts(args@)),
            text_of(environment),
            text_of(configured),
        ),
{
    let named = profile_argument(args);
    choose_profile(named, environment, configured)
}

} // verus!
