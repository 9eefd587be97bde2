use kanata_ime_observer::args::{
    build_layer_map, choose_subcommand, classify, config_help_str, help_str, into_text,
    layer_help_str,
    log_help_str, options_str, parse_args, parse_number, parse_port, reads_value, AppConfig,
    ArgState, ArgToken, Args, Backend, FirstArgument, LogLevel, OptionKind, Parsed, Subcommand,
};
use kanata_ime_observer::{AppError, Command};

fn words(line: &str) -> Vec<String> {
    line.split_whitespace().map(|w| w.to_string()).collect()
}

fn run(line: &str, backend: Backend) -> Args {
    match parse_args(words(line), backend) {
        Ok(Parsed::Run(args)) => args,
        Ok(Parsed::Help(text)) => panic!("help instead of arguments: {text}"),
        Err(e) => panic!("rejected: {}", e.message()),
    }
}

fn help(line: &str, backend: Backend) -> String {
    match parse_args(words(line), backend) {
        Ok(Parsed::Help(text)) => text,
        Ok(Parsed::Run(_)) => panic!("arguments instead of help"),
        Err(e) => panic!("rejected: {}", e.message()),
    }
}

fn rejected(line: &str, backend: Backend) -> String {
    match parse_args(words(line), backend) {
        Err(AppError::ArgError(text)) => text,
        Err(e) => panic!("another error: {}", e.message()),
        Ok(_) => panic!("accepted"),
    }
}

const NO_SUBCOMMAND: &str = "kanata_ime_observer has three subcommand 'kanata_ime_observer config', 'kanata_ime_observer layer' and 'kanata_ime_observer log'.";

#[test]
fn config_binds_indices_in_order() {
    let args = run("config 4567 -i mozc-jp --ime xkb:us::eng -i anthy", Backend::Ibus);
    assert_eq!(args.port, 4567);
    assert_eq!(args.log_level, LogLevel::Info);
    assert!(matches!(args.app_config, AppConfig::Ibus(_)));
    match args.command {
        Command::Config(map) => {
            assert_eq!(map.len(), 3);
            assert_eq!(map.get("mozc-jp"), Some(&0));
            assert_eq!(map.get("xkb:us::eng"), Some(&1));
            assert_eq!(map.get("anthy"), Some(&2));
            assert_eq!(map.get("other"), None);
        }
        _ => panic!("not a config binding"),
    }
}

#[test]
fn config_accepts_joined_values() {
    let args = run("config 1 -imozc-jp --ime=xkb:us::eng -i=anthy", Backend::Fcitx);
    match args.command {
        Command::Config(map) => {
            assert_eq!(map.get("mozc-jp"), Some(&0));
            assert_eq!(map.get("xkb:us::eng"), Some(&1));
            assert_eq!(map.get("anthy"), Some(&2));
        }
        _ => panic!("not a config binding"),
    }
}

#[test]
fn layer_pairs_names_by_position() {
    let args = run("layer 80 -i mozc-jp -i xkb:us::eng -l ja --layer base -d", Backend::Fcitx);
    assert_eq!(args.port, 80);
    assert_eq!(args.log_level, LogLevel::Debug);
    match args.command {
        Command::Layer(map) => {
            assert_eq!(map.len(), 2);
            assert_eq!(map.get("mozc-jp"), Some(&"ja".to_string()));
            assert_eq!(map.get("xkb:us::eng"), Some(&"base".to_string()));
        }
        _ => panic!("not a layer binding"),
    }
}

#[test]
fn layer_without_names_is_empty() {
    let args = run("layer 80", Backend::Ibus);
    match args.command {
        Command::Layer(map) => assert!(map.is_empty()),
        _ => panic!("not a layer binding"),
    }
}

#[test]
fn log_binds_nothing() {
    let args = run("log 65535 --debug", Backend::Mac);
    assert_eq!(args.port, 65535);
    assert_eq!(args.log_level, LogLevel::Debug);
    assert!(matches!(args.command, Command::Log));
    match args.app_config {
        AppConfig::Mac(c) => assert_eq!(c.delay, 50),
        _ => panic!("not the macOS settings"),
    }
}

#[test]
fn help_texts() {
    assert_eq!(help("-h", Backend::Ibus), help_str());
    assert_eq!(help("--help", Backend::Ibus), help_str());
    assert_eq!(help("config -h", Backend::Ibus), config_help_str());
    assert_eq!(help("layer --help", Backend::Ibus), layer_help_str());
    assert_eq!(help("log -h", Backend::Ibus), log_help_str());
    assert_eq!(help("config 1 -i a -h", Backend::Ibus), config_help_str());
    assert_eq!(help("layer 1 --help -i", Backend::Ibus), layer_help_str());
    assert_eq!(help("log 1 -dh", Backend::Ibus), log_help_str());
    // `config` without any status prints its help.
    assert_eq!(help("config 1", Backend::Ibus), config_help_str());
    assert_eq!(help("config 1 -d", Backend::Ibus), config_help_str());
}

#[test]
fn help_text_contents() {
    assert!(help_str().starts_with("kanata_ime_observer: monitor the IME status"));
    assert!(help_str().ends_with("        Does not any request to kanata.\n"));
    assert!(options_str().starts_with("Options:\n    -h|--help\n        Print help\n"));
    assert_eq!(
        config_help_str(),
        format!(
            "kanata_ime_observer config: monitor the IME status and request kanata to change the config file.\n\nUsage:\n    kanata_ime_observer config <PORT> [-i|--ime] <IME-NAME> [OPTIONS]\n\n{}",
            options_str()
        )
    );
    assert_eq!(
        layer_help_str(),
        format!(
            "kanata_ime_observer layer: monitor the IME status and request kanata to change the layer.\n\nUsage:\n    kanata_ime_observer layer <PORT> [-i|--ime] <IME-NAME> [-l|--layer] <LAYER-NAME> [OPTIONS]\n\n{}",
            options_str()
        )
    );
    assert_eq!(
        log_help_str(),
        format!(
            "kanata_ime_observer log: does not send any request to kanata.\n\nUsage:\n    kanata_ime_observer log <PORT> [OPTIONS]\n\n{}",
            options_str()
        )
    );
}

#[test]
fn missing_or_unknown_subcommand() {
    assert_eq!(rejected("", Backend::Ibus), NO_SUBCOMMAND);
    assert_eq!(rejected("run 1", Backend::Ibus), NO_SUBCOMMAND);
    assert_eq!(rejected("Config 1", Backend::Ibus), NO_SUBCOMMAND);
    assert_eq!(rejected("-d config 1", Backend::Ibus), NO_SUBCOMMAND);
}

#[test]
fn missing_port() {
    assert_eq!(
        rejected("config", Backend::Ibus),
        "'kanata_ime_observer config' needs one positional argument 'PORT'."
    );
    assert_eq!(
        rejected("layer", Backend::Ibus),
        "'kanata_ime_observer layer' needs one positional argument 'PORT'."
    );
    assert_eq!(
        rejected("log", Backend::Ibus),
        "'kanata_ime_observer log' needs one positional argument 'PORT'."
    );
}

#[test]
fn invalid_port() {
    for line in ["log port", "log 65536", "log -1", "log 1.5", "log 0x10", "log -d", "log 1_000"] {
        assert_eq!(rejected(line, Backend::Ibus), "Invalid port number.");
    }
    assert_eq!(run("log 0", Backend::Ibus).port, 0);
    assert_eq!(run("log +7", Backend::Ibus).port, 7);
    assert_eq!(run("log 007", Backend::Ibus).port, 7);
}

#[test]
fn duplicate_ime_name() {
    assert_eq!(rejected("config 1 -i a -i b -i a", Backend::Ibus), "Duplicate IME name.");
    assert_eq!(rejected("layer 1 -i a -l x -i a -l y", Backend::Ibus), "Duplicate IME name.");
}

#[test]
fn unpaired_layer_names() {
    let text = "'kanata_ime_observer layer' needs the same number of IME names and layer names.";
    assert_eq!(rejected("layer 1 -i a", Backend::Ibus), text);
    assert_eq!(rejected("layer 1 -l x", Backend::Ibus), text);
    assert_eq!(rejected("layer 1 -i a -i a -l x", Backend::Ibus), text);
}

#[test]
fn option_of_another_subcommand() {
    assert_eq!(rejected("log 1 -i a", Backend::Ibus), "Unexpected option.");
    assert_eq!(rejected("log 1 -l a", Backend::Ibus), "Unexpected option.");
    assert_eq!(rejected("config 1 -i a --layer x", Backend::Ibus), "Unexpected option.");
    // `--layer` is refused before its value is looked for.
    assert_eq!(rejected("config 1 -l", Backend::Ibus), "Unexpected option.");
}

#[test]
fn tokenizer_errors_are_argument_errors() {
    assert_eq!(rejected("log 1 --verbose", Backend::Ibus), "invalid option '--verbose'");
    assert_eq!(rejected("log 1 -x", Backend::Ibus), "invalid option '-x'");
    assert_eq!(rejected("log 1 extra", Backend::Ibus), "unexpected argument \"extra\"");
    assert_eq!(rejected("config 1 -i", Backend::Ibus), "missing argument for option '-i'");
    assert_eq!(
        rejected("layer 1 -i a --layer", Backend::Ibus),
        "missing argument for option '--layer'"
    );
    assert_eq!(
        rejected("log 1 --debug=yes -d", Backend::Ibus),
        "unexpected argument for option '--debug': \"yes\""
    );
}

#[test]
fn windows_options() {
    let args = run("log 1 --polling 250 --delay 10", Backend::Windows);
    match args.app_config {
        AppConfig::Windows(c) => {
            assert_eq!(c.polling_span, Some(250));
            assert_eq!(c.delay, 10);
        }
        _ => panic!("not the windows settings"),
    }
    let args = run("log 1 --without-polling", Backend::Windows);
    match args.app_config {
        AppConfig::Windows(c) => {
            assert_eq!(c.polling_span, None);
            assert_eq!(c.delay, 50);
        }
        _ => panic!("not the windows settings"),
    }
    let args = run("log 1", Backend::Windows);
    match args.app_config {
        AppConfig::Windows(c) => {
            assert_eq!(c.polling_span, Some(500));
            assert_eq!(c.delay, 50);
        }
        _ => panic!("not the windows settings"),
    }
    assert_eq!(
        rejected("log 1 --retry-number 2", Backend::Windows),
        "invalid option '--retry-number'"
    );
}

#[test]
fn windows_onoff_options() {
    let args = run(
        "log 1 --retry-number 5 --sendmessage-timeout 20 --retry-span 30 --delay 40 --polling 60",
        Backend::WindowsOnOff,
    );
    match args.app_config {
        AppConfig::WindowsOnOff(c) => {
            assert_eq!(c.retry_number, 5);
            assert_eq!(c.send_message_timeout, 20);
            assert_eq!(c.retry_span, 30);
            assert_eq!(c.delay, 40);
            assert_eq!(c.polling_span, Some(60));
        }
        _ => panic!("not the on/off settings"),
    }
    let args = run("log 1", Backend::WindowsOnOff);
    match args.app_config {
        AppConfig::WindowsOnOff(c) => {
            assert_eq!(c.retry_number, 3);
            assert_eq!(c.send_message_timeout, 100);
            assert_eq!(c.retry_span, 100);
            assert_eq!(c.delay, 50);
            assert_eq!(c.polling_span, Some(1000));
        }
        _ => panic!("not the on/off settings"),
    }
}

#[test]
fn platform_options_are_unknown_elsewhere() {
    assert_eq!(rejected("log 1 --polling 250", Backend::Ibus), "invalid option '--polling'");
    assert_eq!(rejected("log 1 --delay 1", Backend::Fcitx), "invalid option '--delay'");
    assert_eq!(rejected("log 1 --polling 250", Backend::Mac), "invalid option '--polling'");
    assert_eq!(
        rejected("log 1 --without-polling", Backend::Mac),
        "invalid option '--without-polling'"
    );
    match run("log 1 --delay 5", Backend::Mac).app_config {
        AppConfig::Mac(c) => assert_eq!(c.delay, 5),
        _ => panic!("not the macOS settings"),
    }
}

#[test]
fn numeric_values() {
    assert_eq!(
        rejected("log 1 --polling soon", Backend::Windows),
        "cannot parse argument \"soon\": invalid digit found in string"
    );
    assert_eq!(
        rejected("log 1 --delay 18446744073709551616", Backend::Windows),
        "cannot parse argument \"18446744073709551616\": number too large to fit in target type"
    );
    assert_eq!(
        rejected("log 1 --sendmessage-timeout 4294967296", Backend::WindowsOnOff),
        "cannot parse argument \"4294967296\": number too large to fit in target type"
    );
    assert_eq!(rejected("log 1 --delay", Backend::Mac), "missing argument for option '--delay'");
    match run("log 1 --delay 18446744073709551615", Backend::Windows).app_config {
        AppConfig::Windows(c) => assert_eq!(c.delay, u64::MAX),
        _ => panic!("not the windows settings"),
    }
    match run("log 1 --sendmessage-timeout 4294967295", Backend::WindowsOnOff).app_config {
        AppConfig::WindowsOnOff(c) => assert_eq!(c.send_message_timeout, u32::MAX),
        _ => panic!("not the on/off settings"),
    }
}

#[test]
fn parse_number_and_port() {
    assert_eq!(parse_number(&Some(Ok("12".to_string())), 100), Ok(12));
    assert_eq!(parse_number(&Some(Ok("+12".to_string())), 100), Ok(12));
    assert_eq!(parse_number(&Some(Ok("100".to_string())), 100), Ok(100));
    assert_eq!(
        parse_number(&Some(Ok("101".to_string())), 100),
        Err(AppError::ArgError(
            "cannot parse argument \"101\": number too large to fit in target type".to_string()
        ))
    );
    assert_eq!(
        parse_number(&Some(Ok("".to_string())), 100),
        Err(AppError::ArgError(
            "cannot parse argument \"\": cannot parse integer from empty string".to_string()
        ))
    );
    assert_eq!(
        parse_number(&Some(Err("argument is invalid unicode: \"\\xFF\"".to_string())), 100),
        Err(AppError::ArgError("argument is invalid unicode: \"\\xFF\"".to_string()))
    );
    assert_eq!(
        parse_number(&None, 100),
        Err(AppError::ArgError("missing argument".to_string()))
    );
    assert_eq!(into_text(Ok("a".to_string())), Some("a".to_string()));
    assert_eq!(into_text(Err("argument is invalid unicode".to_string())), None);
    assert_eq!(parse_port(&Some("8080".to_string())), Ok(8080));
    assert_eq!(
        parse_port(&Some("+".to_string())),
        Err(AppError::ArgError("Invalid port number.".to_string()))
    );
    assert_eq!(parse_port(&None), Err(AppError::ArgError("Invalid port number.".to_string())));
}

#[test]
fn classification() {
    assert_eq!(classify(&ArgToken::Short('i'), Backend::Ibus), OptionKind::Ime);
    assert_eq!(classify(&ArgToken::Short('l'), Backend::Ibus), OptionKind::Layer);
    assert_eq!(classify(&ArgToken::Short('h'), Backend::Ibus), OptionKind::Help);
    assert_eq!(classify(&ArgToken::Short('d'), Backend::Ibus), OptionKind::Debug);
    assert_eq!(classify(&ArgToken::Short('p'), Backend::Windows), OptionKind::Unexpected);
    assert_eq!(classify(&ArgToken::Long("ime".to_string()), Backend::Mac), OptionKind::Ime);
    assert_eq!(classify(&ArgToken::Long("i".to_string()), Backend::Mac), OptionKind::Unexpected);
    assert_eq!(
        classify(&ArgToken::Long("polling".to_string()), Backend::WindowsOnOff),
        OptionKind::Polling
    );
    assert_eq!(
        classify(&ArgToken::Long("retry-span".to_string()), Backend::WindowsOnOff),
        OptionKind::RetrySpan
    );
    assert_eq!(
        classify(&ArgToken::Long("retry-span".to_string()), Backend::Windows),
        OptionKind::Unexpected
    );
    assert_eq!(classify(&ArgToken::Value("ime".to_string()), Backend::Ibus), OptionKind::Unexpected);
    assert!(reads_value(OptionKind::Ime, Subcommand::Log));
    assert!(reads_value(OptionKind::Layer, Subcommand::Layer));
    assert!(!reads_value(OptionKind::Layer, Subcommand::Config));
    assert!(!reads_value(OptionKind::Debug, Subcommand::Config));
    assert!(reads_value(OptionKind::Delay, Subcommand::Config));
    assert_eq!(choose_subcommand(&Some("layer".to_string())), FirstArgument::Subcommand(Subcommand::Layer));
    assert_eq!(choose_subcommand(&Some("--help".to_string())), FirstArgument::Help);
    assert_eq!(choose_subcommand(&None), FirstArgument::Unknown);
}

#[test]
fn state_steps() {
    let mut state = ArgState::new(Subcommand::Config, 9, Backend::Ibus);
    assert_eq!(state.subcommand(), Subcommand::Config);
    let i = ArgToken::Short('i');
    assert_eq!(state.apply(OptionKind::Ime, Some(Ok("a".to_string())), &i), Ok(None));
    assert_eq!(
        state.apply(OptionKind::Ime, Some(Ok("a".to_string())), &i),
        Err(AppError::ArgError("Duplicate IME name.".to_string()))
    );
    assert_eq!(
        state.apply(OptionKind::Ime, Some(Err("argument is invalid unicode".to_string())), &i),
        Err(AppError::ArgError("This IME name has invalid unicode string.".to_string()))
    );
    assert_eq!(
        state.apply(OptionKind::Unexpected, None, &ArgToken::Short('x')),
        Err(AppError::ArgError("invalid option '-x'".to_string()))
    );
    assert_eq!(
        state.apply(OptionKind::Help, None, &ArgToken::Short('h')),
        Ok(Some(config_help_str()))
    );
    assert_eq!(
        state.apply(OptionKind::Unexpected, None, &ArgToken::Long("nope".to_string())),
        Err(AppError::ArgError("invalid option '--nope'".to_string()))
    );
    match state.finish() {
        Ok(Parsed::Run(args)) => match args.command {
            Command::Config(map) => assert_eq!(map.get("a"), Some(&0)),
            _ => panic!("not a config binding"),
        },
        _ => panic!("no arguments"),
    }
    let mut layers = ArgState::new(Subcommand::Layer, 9, Backend::Ibus);
    assert_eq!(
        layers.apply(
            OptionKind::Layer,
            Some(Err("argument is invalid unicode".to_string())),
            &ArgToken::Short('l')
        ),
        Err(AppError::ArgError("This layer name has invalid unicode string.".to_string()))
    );
}

#[test]
fn layer_map_construction() {
    let imes = vec!["a".to_string(), "b".to_string()];
    let layers = vec!["x".to_string(), "y".to_string()];
    let map = build_layer_map(&imes, &layers).unwrap();
    assert_eq!(map.get("a"), Some(&"x".to_string()));
    assert_eq!(map.get("b"), Some(&"y".to_string()));
    let short = vec!["x".to_string()];
    assert_eq!(
        build_layer_map(&imes, &short).unwrap_err(),
        AppError::ArgError(
            "'kanata_ime_observer layer' needs the same number of IME names and layer names."
                .to_string()
        )
    );
    let twice = vec!["a".to_string(), "a".to_string()];
    assert_eq!(
        build_layer_map(&twice, &layers).unwrap_err(),
        AppError::ArgError("Duplicate IME name.".to_string())
    );
}
