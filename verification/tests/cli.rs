use github_dotfiles_ollama::cli::{Cli, Commands, UsageError};

#[test]
fn test_cli_app() {
    let help = Cli::help();
    assert!(help.to_string().contains("github-dotfiles-ollama"));
    assert!(help.to_string().contains("manage Ollama models"));
}

#[test]
fn test_parse_list() {
    let cli = Cli::parse_from(&["test", "list"]);
    match cli.command {
        Commands::List => {}
        _ => panic!("Expected List"),
    }
}

#[test]
fn test_parse_pull() {
    let cli = Cli::parse_from(&["test", "pull", "llama2"]);
    match cli.command {
        Commands::Pull { model } => assert_eq!(model, "llama2"),
        _ => panic!("Expected Pull"),
    }
}

#[test]
fn help_text_is_exact() {
    let expected = "\
A tool to manage Ollama models

Usage: github-dotfiles-ollama <COMMAND>

Commands:
  list                                         List available models from Ollama library
  installed                                    List installed models
  pull <MODEL>                                 Pull a model
  run <MODEL>                                  Run a model
  remove <MODEL>                               Remove a model
  generate <MODEL> <PROMPT> [--system <TEXT>]  Generate response with custom prompt and system

Options:
  -h, --help  Print help
";
    assert_eq!(Cli::help(), expected);
}

#[test]
fn help_lists_the_subcommands() {
    let help = Cli::help();
    assert!(help.starts_with("A tool to manage Ollama models\n\nUsage: github-dotfiles-ollama <COMMAND>\n"));
    assert!(help.contains("Commands:"));
    for name in ["list", "installed", "pull", "run", "remove", "generate"] {
        assert!(help.contains(&format!("\n  {} ", name)));
    }
    assert!(help.ends_with("Options:\n  -h, --help  Print help\n"));
}

#[test]
fn parse_installed() {
    assert_eq!(
        Cli::try_parse_from(&["test", "installed"]),
        Ok(Cli { command: Commands::Installed })
    );
}

#[test]
fn parse_run_and_remove() {
    assert_eq!(
        Cli::try_parse_from(&["test", "run", "llama2"]),
        Ok(Cli { command: Commands::Run { model: "llama2".to_string() } })
    );
    assert_eq!(
        Cli::try_parse_from(&["test", "remove", "llama2"]),
        Ok(Cli { command: Commands::Remove { model: "llama2".to_string() } })
    );
}

#[test]
fn parse_generate_without_system() {
    assert_eq!(
        Cli::try_parse_from(&["test", "generate", "tinyllama:latest", "Hello"]),
        Ok(Cli {
            command: Commands::Generate {
                model: "tinyllama:latest".to_string(),
                prompt: "Hello".to_string(),
                system: None,
            }
        })
    );
}

#[test]
fn parse_generate_takes_system_anywhere_among_its_values() {
    let expected = Ok(Cli {
        command: Commands::Generate {
            model: "m".to_string(),
            prompt: "p".to_string(),
            system: Some("Be brief.".to_string()),
        },
    });
    assert_eq!(
        Cli::try_parse_from(&["test", "generate", "--system", "Be brief.", "m", "p"]),
        expected
    );
    assert_eq!(
        Cli::try_parse_from(&["test", "generate", "m", "--system", "Be brief.", "p"]),
        expected
    );
    assert_eq!(
        Cli::try_parse_from(&["test", "generate", "m", "p", "--system", "Be brief."]),
        expected
    );
}

#[test]
fn parse_generate_takes_any_word_as_the_system_text() {
    assert_eq!(
        Cli::try_parse_from(&["test", "generate", "m", "p", "--system", "--system"]),
        Ok(Cli {
            command: Commands::Generate {
                model: "m".to_string(),
                prompt: "p".to_string(),
                system: Some("--system".to_string()),
            }
        })
    );
}

#[test]
fn parse_takes_a_lone_dash_and_an_empty_word_as_values() {
    assert_eq!(
        Cli::try_parse_from(&["test", "pull", "-"]),
        Ok(Cli { command: Commands::Pull { model: "-".to_string() } })
    );
    assert_eq!(
        Cli::try_parse_from(&["test", "pull", ""]),
        Ok(Cli { command: Commands::Pull { model: String::new() } })
    );
}

#[test]
fn parse_ignores_the_program_name() {
    assert_eq!(
        Cli::try_parse_from(&["--help", "list"]),
        Ok(Cli { command: Commands::List })
    );
}

#[test]
fn usage_error_help_requested() {
    assert_eq!(Cli::try_parse_from(&["test", "--help"]), Err(UsageError::HelpRequested));
    assert_eq!(Cli::try_parse_from(&["test", "-h"]), Err(UsageError::HelpRequested));
    assert_eq!(Cli::try_parse_from(&["test", "-h", "list"]), Err(UsageError::HelpRequested));
}

#[test]
fn usage_error_missing_command() {
    assert_eq!(Cli::try_parse_from(&[]), Err(UsageError::MissingCommand));
    assert_eq!(Cli::try_parse_from(&["test"]), Err(UsageError::MissingCommand));
}

#[test]
fn usage_error_unknown_command() {
    assert_eq!(Cli::try_parse_from(&["test", "delete"]), Err(UsageError::UnknownCommand));
    assert_eq!(Cli::try_parse_from(&["test", "List"]), Err(UsageError::UnknownCommand));
    assert_eq!(Cli::try_parse_from(&["test", ""]), Err(UsageError::UnknownCommand));
    assert_eq!(Cli::try_parse_from(&["test", "-"]), Err(UsageError::UnknownCommand));
}

#[test]
fn usage_error_unknown_option() {
    assert_eq!(Cli::try_parse_from(&["test", "--verbose"]), Err(UsageError::UnknownOption));
    assert_eq!(Cli::try_parse_from(&["test", "pull", "--force"]), Err(UsageError::UnknownOption));
    assert_eq!(
        Cli::try_parse_from(&["test", "pull", "--system", "x", "m"]),
        Err(UsageError::UnknownOption)
    );
    assert_eq!(
        Cli::try_parse_from(&["test", "generate", "m", "p", "--system=x"]),
        Err(UsageError::UnknownOption)
    );
    assert_eq!(
        Cli::try_parse_from(&["test", "list", "--help"]),
        Err(UsageError::UnknownOption)
    );
}

#[test]
fn usage_error_missing_value() {
    assert_eq!(
        Cli::try_parse_from(&["test", "generate", "m", "p", "--system"]),
        Err(UsageError::MissingValue)
    );
}

#[test]
fn usage_error_repeated_option() {
    assert_eq!(
        Cli::try_parse_from(&["test", "generate", "--system", "a", "m", "p", "--system", "b"]),
        Err(UsageError::RepeatedOption)
    );
}

#[test]
fn usage_error_unexpected_argument() {
    assert_eq!(
        Cli::try_parse_from(&["test", "list", "now"]),
        Err(UsageError::UnexpectedArgument)
    );
    assert_eq!(
        Cli::try_parse_from(&["test", "pull", "a", "b"]),
        Err(UsageError::UnexpectedArgument)
    );
    assert_eq!(
        Cli::try_parse_from(&["test", "generate", "m", "p", "q"]),
        Err(UsageError::UnexpectedArgument)
    );
}

#[test]
fn usage_error_missing_argument() {
    assert_eq!(Cli::try_parse_from(&["test", "pull"]), Err(UsageError::MissingArgument));
    assert_eq!(
        Cli::try_parse_from(&["test", "generate", "m"]),
        Err(UsageError::MissingArgument)
    );
    assert_eq!(
        Cli::try_parse_from(&["test", "generate", "--system", "s", "m"]),
        Err(UsageError::MissingArgument)
    );
}

#[test]
fn usage_error_first_misfit_decides() {
    assert_eq!(
        Cli::try_parse_from(&["test", "pull", "a", "b", "--force"]),
        Err(UsageError::UnexpectedArgument)
    );
    assert_eq!(
        Cli::try_parse_from(&["test", "pull", "--force", "a", "b"]),
        Err(UsageError::UnknownOption)
    );
    assert_eq!(
        Cli::try_parse_from(&["test", "generate", "--system", "a", "--system"]),
        Err(UsageError::MissingValue)
    );
}

#[test]
fn usage_report_and_exit_code() {
    assert_eq!(UsageError::HelpRequested.report(), Cli::help());
    assert_eq!(UsageError::HelpRequested.exit_code(), 0);
    assert_eq!(
        UsageError::UnknownCommand.report(),
        "error: unrecognized subcommand\n\nFor more information, try '--help'.\n"
    );
    assert_eq!(
        UsageError::MissingValue.report(),
        "error: a value is required for '--system <TEXT>'\n\nFor more information, try '--help'.\n"
    );
    for error in [
        UsageError::MissingCommand,
        UsageError::UnknownCommand,
        UsageError::UnknownOption,
        UsageError::MissingValue,
        UsageError::RepeatedOption,
        UsageError::UnexpectedArgument,
        UsageError::MissingArgument,
    ] {
        assert_eq!(error.exit_code(), 2);
        assert!(error.report().starts_with("error: "));
    }
}
