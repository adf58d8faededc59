use neoterm::workflows::{
    ArgumentType, Shell, Workflow, WorkflowArgument, WorkflowCategory, WorkflowError,
};

fn argument(name: &str) -> WorkflowArgument {
    WorkflowArgument {
        name: name.to_string(),
        description: None,
        default_value: None,
        arg_type: ArgumentType::String,
        required: false,
        options: None,
    }
}

fn workflow(name: &str, command: &str, arguments: Vec<WorkflowArgument>) -> Workflow {
    Workflow {
        name: name.to_string(),
        command: command.to_string(),
        tags: vec![],
        description: None,
        source_url: None,
        author: None,
        author_url: None,
        shells: None,
        arguments,
        file_path: None,
        last_used: None,
        usage_count: 0,
    }
}

fn validation_message(w: &Workflow) -> String {
    match w.validate() {
        Err(WorkflowError::ValidationError(message)) => message,
        other => panic!("expected a validation error, got {:?}", other),
    }
}

#[test]
fn extract_placeholders_finds_each_occurrence_in_order() {
    let w = workflow("w", "cp {{from}} {{to}} && ls {{from}}", vec![]);
    assert_eq!(w.extract_placeholders(), vec!["from", "to", "from"]);
}

#[test]
fn extract_placeholders_of_plain_command_is_empty() {
    let w = workflow("w", "ls -la { } }} {x}", vec![]);
    assert!(w.extract_placeholders().is_empty());
}

#[test]
fn extract_placeholders_passes_over_empty_names() {
    let w = workflow("w", "a {{}} b {{x}}", vec![]);
    assert_eq!(w.extract_placeholders(), vec!["x"]);
}

#[test]
fn extract_placeholders_stops_at_an_opening_that_is_never_closed() {
    let w = workflow("w", "echo {{a}} {{b", vec![]);
    assert_eq!(w.extract_placeholders(), vec!["a"]);
    let w = workflow("w", "echo {{a} {{b}}", vec![]);
    assert_eq!(w.extract_placeholders(), vec!["a} {{b"]);
}

#[test]
fn extract_placeholders_takes_braces_inside_a_name_as_they_stand() {
    let w = workflow("w", "{{{a}}", vec![]);
    assert_eq!(w.extract_placeholders(), vec!["{a"]);
    let w = workflow("w", "{{a}b}}", vec![]);
    assert_eq!(w.extract_placeholders(), vec!["a}b"]);
    let w = workflow("w", "{{a}}}", vec![]);
    assert_eq!(w.extract_placeholders(), vec!["a"]);
}

#[test]
fn extract_placeholders_keeps_characters_beyond_ascii() {
    let w = workflow("w", "echo {{größe}} → {{名前}}", vec![]);
    assert_eq!(w.extract_placeholders(), vec!["größe", "名前"]);
}

#[test]
fn placeholders_of_a_valid_workflow_are_its_argument_names() {
    let w = workflow(
        "copy",
        "cp {{from}} {{to}} # {{from}}",
        vec![argument("to"), argument("from")],
    );
    assert!(w.validate().is_ok());
    let mut found = w.extract_placeholders();
    found.sort();
    found.dedup();
    assert_eq!(found, vec!["from", "to"]);
}

#[test]
fn a_name_that_begins_with_a_brace_can_hide_another_argument() {
    let w = workflow("odd", "{{{a}}", vec![argument("a"), argument("{a")]);
    assert!(w.validate().is_ok());
    assert_eq!(w.extract_placeholders(), vec!["{a"]);
}

#[test]
fn validate_accepts_a_workflow_without_arguments() {
    assert!(workflow("status", "git status", vec![]).validate().is_ok());
}

#[test]
fn validate_requires_a_name() {
    let w = workflow("", "ls", vec![]);
    assert_eq!(validation_message(&w), "Name is required");
}

#[test]
fn validate_requires_a_command() {
    let w = workflow("list", "", vec![]);
    assert_eq!(validation_message(&w), "Command is required");
}

#[test]
fn validate_checks_the_name_before_the_command() {
    let w = workflow("", "", vec![]);
    assert_eq!(validation_message(&w), "Name is required");
}

#[test]
fn validate_refuses_an_empty_list_of_shells() {
    let mut w = workflow("list", "ls", vec![]);
    w.shells = Some(vec![]);
    assert_eq!(validation_message(&w), "Shells array cannot be empty");
    w.shells = Some(vec![Shell::Fish]);
    assert!(w.validate().is_ok());
}

#[test]
fn validate_requires_argument_names() {
    let w = workflow("list", "ls {{}}", vec![argument("")]);
    assert_eq!(validation_message(&w), "Argument name is required");
}

#[test]
fn validate_rejects_an_argument_that_is_never_referenced() {
    let w = workflow("list", "ls {{dir}}", vec![argument("dir"), argument("depth")]);
    assert_eq!(validation_message(&w), "Argument 'depth' is not used in command");
}

#[test]
fn validate_rejects_a_placeholder_without_an_argument() {
    let w = workflow("list", "ls {{dir}} {{depth}}", vec![argument("dir")]);
    assert_eq!(validation_message(&w), "Placeholder 'depth' has no corresponding argument");
}

#[test]
fn validate_requires_options_for_an_enum() {
    let mut env = argument("env");
    env.arg_type = ArgumentType::Enum;
    let w = workflow("deploy", "deploy {{env}}", vec![env]);
    assert_eq!(validation_message(&w), "Enum argument 'env' must have options");
    let mut env = argument("env");
    env.arg_type = ArgumentType::Enum;
    env.options = Some(vec![]);
    let w = workflow("deploy", "deploy {{env}}", vec![env]);
    assert_eq!(validation_message(&w), "Enum argument 'env' must have options");
    let mut env = argument("env");
    env.options = Some(vec![]);
    assert!(workflow("deploy", "deploy {{env}}", vec![env]).validate().is_ok());
    let mut env = argument("env");
    env.arg_type = ArgumentType::Enum;
    env.options = Some(vec!["dev".to_string(), "prod".to_string()]);
    let w = workflow("deploy", "deploy {{env}}", vec![env]);
    assert!(w.validate().is_ok());
}

#[test]
fn validate_reports_the_first_argument_at_fault() {
    let mut kind = argument("kind");
    kind.arg_type = ArgumentType::Enum;
    let w = workflow("w", "run {{kind}}", vec![kind, argument("unused")]);
    assert_eq!(validation_message(&w), "Enum argument 'kind' must have options");
}

#[test]
fn validate_checks_arguments_before_placeholders() {
    let w = workflow("w", "run {{other}}", vec![argument("unused")]);
    assert_eq!(validation_message(&w), "Argument 'unused' is not used in command");
}

#[test]
fn is_compatible_with_shell_follows_the_list_of_shells() {
    let mut w = workflow("w", "ls", vec![]);
    assert!(w.is_compatible_with_shell(&Shell::Bash));
    assert!(w.is_compatible_with_shell(&Shell::Fish));
    w.shells = Some(vec![Shell::Bash, Shell::Zsh]);
    assert!(w.is_compatible_with_shell(&Shell::Bash));
    assert!(w.is_compatible_with_shell(&Shell::Zsh));
    assert!(!w.is_compatible_with_shell(&Shell::Fish));
}

#[test]
fn get_category_takes_the_first_known_tag() {
    let mut w = workflow("w", "ls", vec![]);
    assert_eq!(w.get_category(), WorkflowCategory::Other);
    w.tags = vec!["misc".to_string(), "Docker".to_string(), "git".to_string()];
    assert_eq!(w.get_category(), WorkflowCategory::Docker);
    w.tags = vec!["GIT".to_string()];
    assert_eq!(w.get_category(), WorkflowCategory::Git);
}

#[test]
fn get_category_knows_every_keyword() {
    let cases = [
        ("git", WorkflowCategory::Git),
        ("docker", WorkflowCategory::Docker),
        ("kubernetes", WorkflowCategory::Kubernetes),
        ("k8s", WorkflowCategory::Kubernetes),
        ("aws", WorkflowCategory::Aws),
        ("database", WorkflowCategory::Database),
        ("db", WorkflowCategory::Database),
        ("network", WorkflowCategory::Network),
        ("file", WorkflowCategory::FileSystem),
        ("filesystem", WorkflowCategory::FileSystem),
        ("system", WorkflowCategory::System),
        ("files", WorkflowCategory::Other),
        ("", WorkflowCategory::Other),
    ];
    for (tag, expected) in cases {
        let mut w = workflow("w", "ls", vec![]);
        w.tags = vec![tag.to_string()];
        assert_eq!(w.get_category(), expected);
    }
}

#[test]
fn category_titles() {
    assert_eq!(WorkflowCategory::Git.to_string(), "Git");
    assert_eq!(WorkflowCategory::Aws.to_string(), "AWS");
    assert_eq!(WorkflowCategory::FileSystem.to_string(), "File System");
    assert_eq!(WorkflowCategory::Other.to_string(), "Other");
}

#[test]
fn shell_names() {
    assert_eq!(Shell::Zsh.to_string(), "zsh");
    assert_eq!(Shell::Bash.to_string(), "bash");
    assert_eq!(Shell::Fish.to_string(), "fish");
}

#[test]
fn shell_parse_ignores_case() {
    assert_eq!(Shell::parse("zsh").ok(), Some(Shell::Zsh));
    assert_eq!(Shell::parse("BASH").ok(), Some(Shell::Bash));
    assert_eq!("Fish".parse::<Shell>().ok(), Some(Shell::Fish));
    assert!(matches!(Shell::parse("cmd"), Err(WorkflowError::UnsupportedShell(Shell::Bash))));
    assert!(matches!(Shell::parse(""), Err(WorkflowError::UnsupportedShell(Shell::Bash))));
}

#[test]
fn error_sentences() {
    let text = |e: WorkflowError| e.to_string();
    assert_eq!(text(WorkflowError::ParseError("x".to_string())), "Parse error: x");
    assert_eq!(text(WorkflowError::ValidationError("x".to_string())), "Validation error: x");
    assert_eq!(text(WorkflowError::IoError("x".to_string())), "IO error: x");
    assert_eq!(text(WorkflowError::ArgumentError("x".to_string())), "Argument error: x");
    assert_eq!(text(WorkflowError::UnsupportedShell(Shell::Fish)), "Shell not supported: Fish");
    assert_eq!(text(WorkflowError::MissingArgument("x".to_string())), "Missing required argument: x");
    assert_eq!(
        text(WorkflowError::InvalidArgumentValue("x".to_string())),
        "Invalid argument value: x"
    );
    assert_eq!(text(WorkflowError::WorkflowNotFound("x".to_string())), "Workflow not found: x");
}

#[test]
fn argument_type_defaults_to_string() {
    assert_eq!(ArgumentType::default(), ArgumentType::String);
}

#[test]
fn a_copy_of_a_workflow_holds_the_same() {
    let mut w = workflow("copy", "cp {{from}} {{to}}", vec![argument("from"), argument("to")]);
    w.tags = vec!["file".to_string()];
    w.shells = Some(vec![Shell::Zsh]);
    w.usage_count = 4;
    let c = w.clone();
    assert_eq!(c.name, "copy");
    assert_eq!(c.command, "cp {{from}} {{to}}");
    assert_eq!(c.tags, vec!["file"]);
    assert_eq!(c.shells, Some(vec![Shell::Zsh]));
    assert_eq!(c.arguments.len(), 2);
    assert_eq!(c.arguments[1].name, "to");
    assert_eq!(c.usage_count, 4);
}
