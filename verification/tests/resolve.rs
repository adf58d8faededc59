use neoterm::workflows::escape::escape_for;
use neoterm::workflows::number::is_number_text;
use neoterm::workflows::values::{check_boolean, check_email, check_url, check_value};
use neoterm::workflows::{
    ArgumentType, CommandOutput, Shell, Workflow, WorkflowArgument, WorkflowError,
    WorkflowExecutor,
};
use neoterm::time::TimeSpan;

fn arg(name: &str, arg_type: ArgumentType, required: bool) -> WorkflowArgument {
    WorkflowArgument {
        name: name.to_string(),
        description: None,
        default_value: None,
        arg_type,
        required,
        options: None,
    }
}

fn flow(command: &str, arguments: Vec<WorkflowArgument>) -> Workflow {
    Workflow {
        name: "flow".to_string(),
        command: command.to_string(),
        tags: vec![],
        description: None,
        source_url: None,
        author: None,
        author_url: None,
        shells: None,
        arguments,
        file_path: None,
        last_used: None,
        usage_count: 0,
    }
}

fn supplied(pairs: &[(&str, &str)]) -> Vec<(String, String)> {
    pairs.iter().map(|(k, v)| (k.to_string(), v.to_string())).collect()
}

fn executor(shell: Shell) -> WorkflowExecutor {
    WorkflowExecutor::new(shell, vec![])
}

fn resolve(shell: Shell, w: &Workflow, pairs: &[(&str, &str)]) -> Result<String, WorkflowError> {
    executor(shell).prepare_execution(w, supplied(pairs)).map(|e| e.resolved_command)
}

fn invalid_value(r: Result<(), WorkflowError>) -> String {
    match r {
        Err(WorkflowError::InvalidArgumentValue(message)) => message,
        other => panic!("expected an invalid value, got {:?}", other),
    }
}

#[test]
fn greet_resolves_for_bash() {
    let mut w = flow("echo {{msg}}", vec![arg("msg", ArgumentType::String, true)]);
    w.name = "greet".to_string();
    assert_eq!(resolve(Shell::Bash, &w, &[("msg", "hi there")]).unwrap(), "echo 'hi there'");
}

#[test]
fn greet_without_its_argument_is_missing_it() {
    let mut w = flow("echo {{msg}}", vec![arg("msg", ArgumentType::String, true)]);
    w.name = "greet".to_string();
    match resolve(Shell::Bash, &w, &[]) {
        Err(WorkflowError::MissingArgument(name)) => assert_eq!(name, "msg"),
        other => panic!("expected a missing argument, got {:?}", other),
    }
}

#[test]
fn resolving_twice_gives_the_same_command() {
    let w = flow(
        "cp {{from}} {{to}}",
        vec![arg("from", ArgumentType::Path, true), arg("to", ArgumentType::Path, true)],
    );
    let first = resolve(Shell::Zsh, &w, &[("to", "b c"), ("from", "a'b")]).unwrap();
    let second = resolve(Shell::Zsh, &w, &[("to", "b c"), ("from", "a'b")]).unwrap();
    assert_eq!(first, second);
    assert_eq!(first, "cp 'a'\"'\"'b' 'b c'");
}

#[test]
fn a_single_quote_cannot_end_the_quoting() {
    let w = flow("echo {{msg}}", vec![arg("msg", ArgumentType::String, true)]);
    assert_eq!(resolve(Shell::Bash, &w, &[("msg", "it's")]).unwrap(), "echo 'it'\"'\"'s'");
    assert_eq!(resolve(Shell::Zsh, &w, &[("msg", "it's")]).unwrap(), "echo 'it'\"'\"'s'");
    assert_eq!(
        resolve(Shell::Bash, &w, &[("msg", "'; rm -rf / #")]).unwrap(),
        "echo ''\"'\"'; rm -rf / #'"
    );
}

#[test]
fn posix_quoting_of_values() {
    assert_eq!(escape_for(Shell::Bash, ""), "''");
    assert_eq!(escape_for(Shell::Bash, "plain"), "'plain'");
    assert_eq!(escape_for(Shell::Zsh, "a b"), "'a b'");
    assert_eq!(escape_for(Shell::Bash, "$HOME `id` \\ \"x\""), "'$HOME `id` \\ \"x\"'");
    assert_eq!(escape_for(Shell::Bash, "''"), "''\"'\"''\"'\"''");
}

#[test]
fn fish_quotes_only_values_with_blanks() {
    assert_eq!(escape_for(Shell::Fish, "plain"), "plain");
    assert_eq!(escape_for(Shell::Fish, "it's"), "it's");
    assert_eq!(escape_for(Shell::Fish, ""), "");
    assert_eq!(escape_for(Shell::Fish, "a b"), "'a b'");
    assert_eq!(escape_for(Shell::Fish, "a\tb"), "'a\tb'");
    assert_eq!(escape_for(Shell::Fish, "a\nb"), "'a\nb'");
    assert_eq!(escape_for(Shell::Fish, "it's here"), "'it\\'s here'");
}

#[test]
fn escape_shell_value_goes_by_the_shell_of_the_executor() {
    assert_eq!(executor(Shell::Bash).escape_shell_value("x"), "'x'");
    assert_eq!(executor(Shell::Zsh).escape_shell_value("x"), "'x'");
    assert_eq!(executor(Shell::Fish).escape_shell_value("x"), "x");
    assert_eq!(executor(Shell::Fish).current_shell(), Shell::Fish);
}

#[test]
fn an_unsupported_shell_is_refused_first() {
    let mut w = flow("echo {{msg}}", vec![arg("msg", ArgumentType::String, true)]);
    w.shells = Some(vec![Shell::Bash, Shell::Zsh]);
    assert!(matches!(
        resolve(Shell::Fish, &w, &[]),
        Err(WorkflowError::UnsupportedShell(Shell::Fish))
    ));
    assert!(resolve(Shell::Zsh, &w, &[("msg", "x")]).is_ok());
}

#[test]
fn a_default_stands_in_for_a_missing_value() {
    let mut count = arg("count", ArgumentType::Number, true);
    count.default_value = Some("10".to_string());
    let w = flow("head -n {{count}}", vec![count]);
    assert_eq!(resolve(Shell::Bash, &w, &[]).unwrap(), "head -n '10'");
    assert_eq!(resolve(Shell::Bash, &w, &[("count", "3")]).unwrap(), "head -n '3'");
}

#[test]
fn an_optional_argument_without_a_value_is_empty() {
    let w = flow("ls {{dir}}", vec![arg("dir", ArgumentType::Path, false)]);
    assert_eq!(resolve(Shell::Bash, &w, &[]).unwrap(), "ls ''");
    assert_eq!(resolve(Shell::Fish, &w, &[]).unwrap(), "ls ");
    let execution = executor(Shell::Bash).prepare_execution(&w, vec![]).unwrap();
    assert_eq!(execution.arguments, supplied(&[("dir", "")]));
}

#[test]
fn an_empty_value_for_a_required_argument_is_checked() {
    let w = flow("ls {{dir}}", vec![arg("dir", ArgumentType::Path, true)]);
    assert_eq!(resolve(Shell::Bash, &w, &[("dir", "")]).unwrap(), "ls ''");
    let w = flow("head -n {{n}}", vec![arg("n", ArgumentType::Number, true)]);
    assert!(matches!(
        resolve(Shell::Bash, &w, &[("n", "")]),
        Err(WorkflowError::InvalidArgumentValue(message)) if message == "'' is not a valid number"
    ));
    assert!(matches!(
        resolve(Shell::Bash, &w, &[]),
        Err(WorkflowError::MissingArgument(name)) if name == "n"
    ));
    let mut n = arg("n", ArgumentType::Number, true);
    n.default_value = Some(String::new());
    let w = flow("head -n {{n}}", vec![n]);
    assert!(matches!(
        resolve(Shell::Bash, &w, &[]),
        Err(WorkflowError::InvalidArgumentValue(_))
    ));
}

#[test]
fn an_unexpected_argument_is_refused() {
    let w = flow("echo {{msg}}", vec![arg("msg", ArgumentType::String, false)]);
    match resolve(Shell::Bash, &w, &[("msg", "x"), ("extra", "y"), ("more", "z")]) {
        Err(WorkflowError::ArgumentError(message)) => {
            assert_eq!(message, "Unexpected arguments: [\"extra\", \"more\"]")
        }
        other => panic!("expected an argument error, got {:?}", other),
    }
}

#[test]
fn a_faulty_value_is_reported_before_an_unexpected_argument() {
    let w = flow("head -n {{count}}", vec![arg("count", ArgumentType::Number, true)]);
    assert!(matches!(
        resolve(Shell::Bash, &w, &[("count", "ten"), ("extra", "y")]),
        Err(WorkflowError::InvalidArgumentValue(_))
    ));
}

#[test]
fn the_first_faulty_argument_is_reported() {
    let w = flow(
        "{{a}} {{b}}",
        vec![arg("a", ArgumentType::Number, false), arg("b", ArgumentType::String, true)],
    );
    assert!(matches!(
        resolve(Shell::Bash, &w, &[("a", "x")]),
        Err(WorkflowError::InvalidArgumentValue(message)) if message == "'x' is not a valid number"
    ));
    assert!(matches!(
        resolve(Shell::Bash, &w, &[("a", "1")]),
        Err(WorkflowError::MissingArgument(name)) if name == "b"
    ));
}

#[test]
fn enum_values_must_be_among_the_options() {
    let mut env = arg("env", ArgumentType::Enum, true);
    env.options = Some(vec!["dev".to_string(), "prod".to_string()]);
    let w = flow("deploy {{env}}", vec![env]);
    assert_eq!(resolve(Shell::Bash, &w, &[("env", "prod")]).unwrap(), "deploy 'prod'");
    match resolve(Shell::Bash, &w, &[("env", "staging")]) {
        Err(WorkflowError::InvalidArgumentValue(message)) => assert_eq!(
            message,
            "'staging' is not one of the valid options: [\"dev\", \"prod\"]"
        ),
        other => panic!("expected an invalid value, got {:?}", other),
    }
    assert!(matches!(
        resolve(Shell::Bash, &w, &[("env", "Prod")]),
        Err(WorkflowError::InvalidArgumentValue(_))
    ));
}

#[test]
fn an_enum_without_options_takes_any_value() {
    let env = arg("env", ArgumentType::Enum, false);
    assert!(check_value(&env, "anything").is_ok());
    assert!(check_value(&env, "").is_ok());
}

#[test]
fn only_the_empty_value_of_an_optional_argument_is_not_checked() {
    for kind in [
        ArgumentType::String,
        ArgumentType::Number,
        ArgumentType::Boolean,
        ArgumentType::Path,
        ArgumentType::Url,
        ArgumentType::Email,
        ArgumentType::Enum,
    ] {
        let mut a = arg("a", kind, false);
        a.options = Some(vec!["x".to_string()]);
        assert!(check_value(&a, "").is_ok());
        let mut a = arg("a", kind, true);
        a.options = Some(vec!["x".to_string()]);
        let accepted = kind == ArgumentType::String || kind == ArgumentType::Path;
        match check_value(&a, "") {
            Ok(()) => assert!(accepted, "for {:?}", kind),
            Err(WorkflowError::InvalidArgumentValue(_)) => assert!(!accepted, "for {:?}", kind),
            other => panic!("for {:?}: {:?}", kind, other),
        }
    }
    let mut a = arg("a", ArgumentType::Enum, true);
    a.options = Some(vec!["".to_string(), "x".to_string()]);
    assert!(check_value(&a, "").is_ok());
    let a = arg("n", ArgumentType::Number, true);
    assert_eq!(invalid_value(check_value(&a, "")), "'' is not a valid number");
    let a = arg("b", ArgumentType::Boolean, true);
    assert_eq!(invalid_value(check_value(&a, "")), "'' is not a valid boolean");
    let a = arg("u", ArgumentType::Url, true);
    assert_eq!(invalid_value(check_value(&a, "")), "'' is not a valid URL");
    let a = arg("e", ArgumentType::Email, true);
    assert_eq!(invalid_value(check_value(&a, "")), "'' is not a valid email");
}

#[test]
fn strings_take_anything() {
    let a = arg("a", ArgumentType::String, true);
    assert!(check_value(&a, "\0 {{x}} ' \" \n").is_ok());
}

#[test]
fn number_texts_are_those_that_parse_as_a_float() {
    let texts = [
        "", "0", "1", "-1", "+1", "1.5", "1.", ".5", ".", "-.5", "+.", "1e5", "1E5", "1e+5",
        "1e-5", "1e", "1e+", "e5", "1.e5", ".5e3", ".e3", "1.5.2", "1e5.0", "1e5e5", "--1", "+-1",
        " 1", "1 ", "1_000", "0x10", "1f", "1,5", "inf", "-inf", "+inf", "Inf", "INF", "iNf",
        "infinity", "Infinity", "-INFINITY", "infinit", "infinityy", "nan", "NaN", "-nan", "+NAN",
        "nane", "na", "i", "1e400", "0.0000000000000000000000000000000000001e-400",
        "123456789012345678901234567890", "٣", "１", "1．5", "+", "-", "e", "E1", "1e1.", "00",
        "-0", "0e0", "1d5", "1.0f64", "ınf", "İnf",
    ];
    for text in texts {
        assert_eq!(is_number_text(text), text.parse::<f64>().is_ok(), "for {:?}", text);
    }
}

#[test]
fn number_values() {
    let a = arg("n", ArgumentType::Number, true);
    assert!(check_value(&a, "3.14").is_ok());
    assert!(check_value(&a, "-2e10").is_ok());
    assert_eq!(invalid_value(check_value(&a, "abc")), "'abc' is not a valid number");
    assert_eq!(invalid_value(check_value(&a, "1 2")), "'1 2' is not a valid number");
}

#[test]
fn boolean_values() {
    let a = arg("b", ArgumentType::Boolean, true);
    for word in ["true", "false", "1", "0", "yes", "no", "TRUE", "False", "YES", "No"] {
        assert!(check_value(&a, word).is_ok(), "for {:?}", word);
    }
    for word in ["y", "n", "on", "off", "2", "truee", " true", "yes "] {
        assert_eq!(
            invalid_value(check_value(&a, word)),
            format!("'{}' is not a valid boolean", word)
        );
    }
    assert!(check_boolean("whatever", "yes").is_ok());
    assert!(check_boolean("yes", "YES").is_err());
}

#[test]
fn path_values() {
    let a = arg("p", ArgumentType::Path, true);
    assert!(check_value(&a, "/tmp/some file").is_ok());
    assert!(check_value(&a, "..\\x").is_ok());
    assert_eq!(
        invalid_value(check_value(&a, "/tmp/\0x")),
        "Path cannot contain null characters"
    );
}

#[test]
fn url_values() {
    let a = arg("u", ArgumentType::Url, true);
    assert!(check_value(&a, "https://example.net/a?b=c").is_ok());
    assert!(check_value(&a, "mailto:someone@example.net").is_ok());
    assert_eq!(invalid_value(check_value(&a, "example.net")), "'example.net' is not a valid URL");
    assert_eq!(invalid_value(check_value(&a, "/just/a/path")), "'/just/a/path' is not a valid URL");
    assert_eq!(invalid_value(check_value(&a, "http://")), "'http://' is not a valid URL");
    assert!(check_url("x", true).is_ok());
    assert_eq!(invalid_value(check_url("x", false)), "'x' is not a valid URL");
}

#[test]
fn email_values() {
    let a = arg("e", ArgumentType::Email, true);
    assert!(check_value(&a, "someone@example.net").is_ok());
    assert!(check_value(&a, "a@b.c").is_ok());
    for text in ["someone", "someone@example", "a @b.c", "a@b@c.d", "@b.c", "a@.c", "a@b.", "a@b.c "]
    {
        assert_eq!(
            invalid_value(check_value(&a, text)),
            format!("'{}' is not a valid email", text)
        );
    }
    assert!(check_email("x", Some(true)).is_ok());
    assert_eq!(invalid_value(check_email("x", Some(false))), "'x' is not a valid email");
    assert_eq!(invalid_value(check_email("x", None)), "'x' is not a valid email");
}

#[test]
fn validate_argument_value_is_the_check_of_the_value() {
    let a = arg("n", ArgumentType::Number, true);
    let e = executor(Shell::Bash);
    assert!(e.validate_argument_value(&a, "1").is_ok());
    assert!(e.validate_argument_value(&a, "x").is_err());
}

#[test]
fn every_occurrence_of_a_placeholder_is_replaced() {
    let w = flow("echo {{x}} and {{x}}{{y}}", vec![
        arg("x", ArgumentType::String, true),
        arg("y", ArgumentType::String, true),
    ]);
    assert_eq!(
        resolve(Shell::Fish, &w, &[("x", "1"), ("y", "2")]).unwrap(),
        "echo 1 and 12"
    );
}

#[test]
fn a_value_is_never_read_for_placeholders() {
    let w = flow("{{a}}{{b}}", vec![
        arg("a", ArgumentType::String, true),
        arg("b", ArgumentType::String, true),
    ]);
    let fish = executor(Shell::Fish);
    assert_eq!(
        fish.substitute_values("{{a}} {{b}}", &supplied(&[("a", "{{b}}"), ("b", "x")])),
        "{{b}} x"
    );
    assert_eq!(
        fish.substitute_values("{{a}} {{b}}", &supplied(&[("a", "x"), ("b", "{{a}}")])),
        "x {{a}}"
    );
    let bash = executor(Shell::Bash);
    assert_eq!(
        bash.substitute_values("{{a}}{{b}}", &supplied(&[("a", "{{b}}"), ("b", "x y")])),
        "'{{b}}''x y'"
    );
    // the placeholder that a value holds is left, and so the command is refused
    for second in ["x y", "; rm -rf ~ #"] {
        assert!(matches!(
            resolve(Shell::Bash, &w, &[("a", "{{b}}"), ("b", second)]),
            Err(WorkflowError::ArgumentError(message)) if message == "Unresolved placeholder: b"
        ));
    }
    assert!(matches!(
        resolve(Shell::Fish, &w, &[("a", "x"), ("b", "{{a}}")]),
        Err(WorkflowError::ArgumentError(message)) if message == "Unresolved placeholder: a"
    ));
}

#[test]
fn the_template_is_read_once_from_left_to_right() {
    let e = executor(Shell::Fish);
    // what a value and the text behind it spell together is no placeholder
    assert_eq!(e.substitute_values("{{a}}b}}", &supplied(&[("a", "{{")])), "{{b}}");
    // of two placeholders at one place the first declared counts
    let both = supplied(&[("a}}b", "1"), ("a", "2")]);
    assert_eq!(e.substitute_values("{{a}}b}} {{a}}", &both), "1 2");
    let both = supplied(&[("a", "2"), ("a}}b", "1")]);
    assert_eq!(e.substitute_values("{{a}}b}} {{a}}", &both), "2b}} 2");
    // a placeholder may begin inside braces
    assert_eq!(e.substitute_values("{{{a}}}", &supplied(&[("a", "v")])), "{v}");
    assert_eq!(e.substitute_values("", &supplied(&[("a", "v")])), "");
    assert_eq!(e.substitute_values("{{a}}", &supplied(&[])), "{{a}}");
    assert_eq!(e.substitute_values("é{{ñ}}é", &supplied(&[("ñ", "ü")])), "éüé");
}

#[test]
fn a_placeholder_that_is_left_is_an_error() {
    let w = flow("echo {{a}} {{b}}", vec![arg("a", ArgumentType::String, true)]);
    match resolve(Shell::Bash, &w, &[("a", "x")]) {
        Err(WorkflowError::ArgumentError(message)) => {
            assert_eq!(message, "Unresolved placeholder: b")
        }
        other => panic!("expected an argument error, got {:?}", other),
    }
}

#[test]
fn a_value_that_looks_like_a_placeholder_is_an_error_too() {
    let w = flow("echo {{a}}", vec![arg("a", ArgumentType::String, true)]);
    assert!(matches!(
        resolve(Shell::Bash, &w, &[("a", "{{b}}")]),
        Err(WorkflowError::ArgumentError(message)) if message == "Unresolved placeholder: b"
    ));
    assert_eq!(resolve(Shell::Bash, &w, &[("a", "{{}}")]).unwrap(), "echo '{{}}'");
}

#[test]
fn an_execution_keeps_what_it_was_made_of() {
    let w = flow("echo {{a}} {{b}}", vec![
        arg("a", ArgumentType::String, true),
        arg("b", ArgumentType::String, false),
    ]);
    let execution =
        executor(Shell::Zsh).prepare_execution(&w, supplied(&[("b", "2"), ("a", "1")])).unwrap();
    assert_eq!(execution.workflow.name, "flow");
    assert_eq!(execution.workflow.command, "echo {{a}} {{b}}");
    assert_eq!(execution.arguments, supplied(&[("a", "1"), ("b", "2")]));
    assert_eq!(execution.resolved_command, "echo '1' '2'");
    assert_eq!(execution.shell, Shell::Zsh);
}

#[test]
fn the_first_of_two_supplied_values_counts() {
    let w = flow("echo {{a}}", vec![arg("a", ArgumentType::String, true)]);
    assert_eq!(resolve(Shell::Bash, &w, &[("a", "1"), ("a", "2")]).unwrap(), "echo '1'");
}

#[test]
fn dry_run_shows_the_commands_and_the_variables() {
    let environment = supplied(&[
        ("HOME", "/home/ann"),
        ("MY_TOKEN", "s3"),
        ("UNRELATED", "x"),
        ("PATH", "/bin"),
        ("lower", "y"),
    ]);
    let e = WorkflowExecutor::new(Shell::Bash, environment);
    let w = flow("curl -H $MY_TOKEN {{url}} > $HOME/out-$MISSING-$lower", vec![arg(
        "url",
        ArgumentType::Url,
        true,
    )]);
    let execution = e.prepare_execution(&w, supplied(&[("url", "https://example.net")])).unwrap();
    let shown = e.dry_run(&execution);
    assert_eq!(shown.workflow_name, "flow");
    assert_eq!(shown.original_command, "curl -H $MY_TOKEN {{url}} > $HOME/out-$MISSING-$lower");
    assert_eq!(
        shown.resolved_command,
        "curl -H $MY_TOKEN 'https://example.net' > $HOME/out-$MISSING-$lower"
    );
    assert_eq!(shown.arguments, supplied(&[("url", "https://example.net")]));
    assert_eq!(shown.shell, Shell::Bash);
    assert_eq!(
        shown.environment_vars,
        supplied(&[("PATH", "/bin"), ("HOME", "/home/ann"), ("MY_TOKEN", "s3")])
    );
}

#[test]
fn relevant_variables_are_the_common_and_the_named_ones() {
    let environment = supplied(&[("EDITOR", "vi"), ("A", "1"), ("B", "2"), ("TERM", "xterm")]);
    let e = WorkflowExecutor::new(Shell::Bash, environment);
    assert_eq!(
        e.get_relevant_env_vars("echo $B $A $B $TERM $C"),
        supplied(&[("TERM", "xterm"), ("EDITOR", "vi"), ("B", "2"), ("A", "1")])
    );
    assert_eq!(e.get_relevant_env_vars("echo"), supplied(&[("TERM", "xterm"), ("EDITOR", "vi")]));
    assert_eq!(
        e.relevant_variables(&vec!["A".to_string(), "NONE".to_string()]),
        supplied(&[("TERM", "xterm"), ("EDITOR", "vi"), ("A", "1")])
    );
}

#[test]
fn command_line_hands_the_command_to_the_shell() {
    let w = flow("echo {{a}}", vec![arg("a", ArgumentType::String, true)]);
    let e = executor(Shell::Fish);
    let execution = e.prepare_execution(&w, supplied(&[("a", "hi")])).unwrap();
    let (program, handed) = e.command_line(&execution);
    assert_eq!(program, "fish");
    assert_eq!(handed, vec!["-c", "echo hi"]);
}

#[test]
fn execution_result_of_a_run() {
    let w = flow("echo {{a}}", vec![arg("a", ArgumentType::String, true)]);
    let e = executor(Shell::Bash);
    let execution = e.prepare_execution(&w, supplied(&[("a", "hi")])).unwrap();
    let output =
        CommandOutput { stdout: "hi\n".to_string(), stderr: String::new(), exit_code: 0 };
    let outcome = e.execution_result(&execution, output, TimeSpan { nanos: 1_500_000 });
    assert_eq!(outcome.workflow_name, "flow");
    assert_eq!(outcome.command, "echo 'hi'");
    assert_eq!(outcome.output.stdout, "hi\n");
    assert_eq!(outcome.output.exit_code, 0);
    assert_eq!(outcome.execution_time, TimeSpan { nanos: 1_500_000 });
    assert!(outcome.success);
}
