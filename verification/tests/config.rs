use clipwatch::config::{
    command_sink_of, validate, ConfigError, Configuration, Environment, Mode, Options, EXIT_DONE,
    EXIT_REFUSED,
};
use clipwatch::dispatch::CommandSink;
use clipwatch::template::Template;

fn options() -> Options {
    Options {
        quiet: false,
        primary: false,
        separator: None,
        append: false,
        output: None,
        command: String::new(),
        filter: String::new(),
        image: None,
        refresh_rate: 200,
        count: 0,
    }
}

fn terminal() -> Environment {
    Environment { stdout_is_terminal: true, primary_selection: true }
}

fn piped() -> Environment {
    Environment { stdout_is_terminal: false, primary_selection: true }
}

fn refused(options: Options, environment: Environment) -> ConfigError {
    validate(options, environment).expect_err("options that are refused")
}

fn accepted(options: Options, environment: Environment) -> Configuration {
    validate(options, environment).expect("options that are accepted")
}

#[test]
fn default_options_watch_text_to_the_console() {
    let configuration = accepted(options(), terminal());
    assert_eq!(configuration.interval_ms, 200);
    assert_eq!(configuration.count, 0);
    assert!(!configuration.primary);
    match configuration.mode {
        Mode::Text { sinks, filter } => {
            assert!(sinks.console);
            assert_eq!(sinks.output, None);
            assert!(!sinks.append);
            assert_eq!(sinks.separator, "\n");
            assert!(matches!(sinks.command, CommandSink::Disabled));
            assert!(filter.is_none());
        }
        Mode::Image { .. } => panic!("text mode expected"),
    }
}

#[test]
fn text_options_are_carried_over() {
    let configuration = accepted(
        Options {
            quiet: true,
            primary: true,
            separator: Some(",".to_string()),
            append: true,
            output: Some("out.txt".to_string()),
            command: "notify-send {text}".to_string(),
            filter: "^foo".to_string(),
            refresh_rate: 50,
            count: 3,
            ..options()
        },
        piped(),
    );
    assert_eq!(configuration.interval_ms, 50);
    assert_eq!(configuration.count, 3);
    assert!(configuration.primary);
    match configuration.mode {
        Mode::Text { sinks, filter } => {
            assert!(!sinks.console);
            assert_eq!(sinks.output, Some("out.txt".to_string()));
            assert!(sinks.append);
            assert_eq!(sinks.separator, ",");
            match sinks.command {
                CommandSink::Line(template) => assert_eq!(template.as_str(), "notify-send {text}"),
                other => panic!("a shell line expected, not {:?}", other),
            }
            assert_eq!(filter.expect("a filter").as_str(), "^foo");
        }
        Mode::Image { .. } => panic!("text mode expected"),
    }
}

#[test]
fn image_option_selects_image_mode() {
    let configuration = accepted(
        Options { image: Some("img-{i}.png".to_string()), count: 2, ..options() },
        piped(),
    );
    assert_eq!(configuration.count, 2);
    match configuration.mode {
        Mode::Image { template } => assert_eq!(template.as_str(), "img-{i}.png"),
        Mode::Text { .. } => panic!("image mode expected"),
    }
}

#[test]
fn image_mode_excludes_text_options() {
    let image = || Options { image: Some("img-{i}.png".to_string()), count: 1, ..options() };
    assert_eq!(
        refused(Options { separator: Some(",".to_string()), ..image() }, terminal()),
        ConfigError::ImageWithTextOption
    );
    assert_eq!(
        refused(Options { separator: Some("\n".to_string()), ..image() }, terminal()),
        ConfigError::ImageWithTextOption
    );
    assert_eq!(refused(Options { append: true, ..image() }, terminal()), ConfigError::ImageWithTextOption);
    assert_eq!(
        refused(Options { output: Some("out".to_string()), ..image() }, terminal()),
        ConfigError::ImageWithTextOption
    );
    assert_eq!(
        refused(Options { filter: "a".to_string(), ..image() }, terminal()),
        ConfigError::ImageWithTextOption
    );
    assert!(validate(Options { quiet: true, ..image() }, terminal()).is_ok());
    assert!(validate(Options { primary: true, ..image() }, terminal()).is_ok());
    assert!(validate(Options { command: "echo {i}".to_string(), ..image() }, terminal()).is_ok());
}

#[test]
fn unbounded_watch_needs_a_terminal() {
    assert_eq!(refused(options(), piped()), ConfigError::UnboundedWhilePiped);
    assert_eq!(
        refused(Options { image: Some("i.png".to_string()), ..options() }, piped()),
        ConfigError::UnboundedWhilePiped
    );
    assert!(validate(Options { count: 1, ..options() }, piped()).is_ok());
    assert!(validate(options(), terminal()).is_ok());
}

#[test]
fn primary_selection_needs_a_platform_that_has_one() {
    let without = Environment { stdout_is_terminal: true, primary_selection: false };
    assert_eq!(refused(Options { primary: true, ..options() }, without), ConfigError::PrimaryUnsupported);
    assert_eq!(
        refused(Options { primary: true, image: Some("i.png".to_string()), ..options() }, without),
        ConfigError::PrimaryUnsupported
    );
    assert!(validate(options(), without).is_ok());
    assert!(validate(Options { primary: true, ..options() }, terminal()).is_ok());
}

#[test]
fn filter_is_checked() {
    assert_eq!(
        refused(Options { filter: "foo(".to_string(), ..options() }, terminal()),
        ConfigError::InvalidFilter
    );
    assert!(validate(Options { filter: "foo()".to_string(), ..options() }, terminal()).is_ok());
}

#[test]
fn no_template_is_refused() {
    for source in [
        "img-{i}.png", "img-{i.png", "{%Y}.png", "shot-{%F}-{i}.png", "{", "{}", "\"", "é.png",
        "{i?}.png", "=(+ 1 1).png",
    ] {
        let configuration =
            accepted(Options { image: Some(source.to_string()), ..options() }, terminal());
        match configuration.mode {
            Mode::Image { template } => {
                assert_eq!(template.as_str(), source);
                assert_eq!(template.is_plain(), source == "img-{i}.png");
            }
            Mode::Text { .. } => panic!("image mode expected"),
        }
    }
    for source in [
        "echo $(date) {text} >> log", "echo \"{text}\"", "echo {text?}", "echo \"hi\"", "{",
        "echo {text:case(up)}", "echo é", "trailing\\",
    ] {
        let configuration = accepted(Options { command: source.to_string(), ..options() }, terminal());
        match configuration.mode {
            Mode::Text { sinks, .. } => match sinks.command {
                CommandSink::Line(template) => {
                    assert_eq!(template.as_str(), source);
                    assert!(!template.is_plain());
                }
                other => panic!("a shell line expected, not {:?}", other),
            },
            Mode::Image { .. } => panic!("text mode expected"),
        }
    }
}

#[test]
fn refusals_come_in_a_fixed_order() {
    let without = Environment { stdout_is_terminal: false, primary_selection: false };
    let all_wrong = Options {
        primary: true,
        append: true,
        image: Some("{".to_string()),
        filter: "(".to_string(),
        command: "{".to_string(),
        ..options()
    };
    assert_eq!(refused(all_wrong.clone(), without), ConfigError::ImageWithTextOption);
    let no_conflict = Options { append: false, filter: String::new(), ..all_wrong };
    assert_eq!(refused(no_conflict.clone(), without), ConfigError::UnboundedWhilePiped);
    let bounded = Options { count: 1, ..no_conflict };
    assert_eq!(refused(bounded.clone(), without), ConfigError::PrimaryUnsupported);
    assert!(validate(bounded.clone(), piped()).is_ok());
    let text = Options { image: None, filter: "(".to_string(), ..bounded };
    assert_eq!(refused(text.clone(), piped()), ConfigError::InvalidFilter);
    assert!(validate(Options { filter: String::new(), ..text }, piped()).is_ok());
}

#[test]
fn command_without_placeholder_names_a_program() {
    let sink = |source: &str| command_sink_of(Template::new(source.to_string()));
    assert!(matches!(sink(""), CommandSink::Disabled));
    match sink("notify-send") {
        CommandSink::Program(program) => assert_eq!(program, "notify-send"),
        other => panic!("a program expected, not {:?}", other),
    }
    match sink("/opt/my\\ tool\\{1\\}") {
        CommandSink::Program(program) => assert_eq!(program, "/opt/my tool{1}"),
        other => panic!("a program expected, not {:?}", other),
    }
    match sink("echo {i}: {text}") {
        CommandSink::Line(template) => assert_eq!(template.as_str(), "echo {i}: {text}"),
        other => panic!("a shell line expected, not {:?}", other),
    }
    match sink("{other}") {
        CommandSink::Line(template) => assert_eq!(template.as_str(), "{other}"),
        other => panic!("a shell line expected, not {:?}", other),
    }
    match sink("echo \"hi\"") {
        CommandSink::Line(template) => assert_eq!(template.as_str(), "echo \"hi\""),
        other => panic!("a shell line expected, not {:?}", other),
    }
}

#[test]
fn refusal_ends_the_process_with_a_failure_status() {
    assert_eq!(EXIT_DONE, 0);
    assert_ne!(EXIT_REFUSED, 0);
    for error in [
        ConfigError::ImageWithTextOption,
        ConfigError::UnboundedWhilePiped,
        ConfigError::PrimaryUnsupported,
        ConfigError::InvalidFilter,
    ] {
        assert_eq!(error.exit_status(), EXIT_REFUSED);
    }
}
