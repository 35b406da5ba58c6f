use github_dotfiles_ollama::cli::Commands;
use github_dotfiles_ollama::dispatch::{catalog_report, conclude, dispatch, Action, Plan};
use github_dotfiles_ollama::Error;

fn words(list: &[&str]) -> Vec<String> {
    list.iter().map(|word| word.to_string()).collect()
}

#[test]
fn dispatch_list_fetches_the_catalog() {
    assert_eq!(
        dispatch(Commands::List),
        Plan {
            announce: "Fetching available models...".to_string(),
            action: Action::FetchCatalog,
            farewell: None,
        }
    );
}

#[test]
fn dispatch_installed_runs_list() {
    assert_eq!(
        dispatch(Commands::Installed),
        Plan {
            announce: "Listing installed models...".to_string(),
            action: Action::RunTool { args: words(&["list"]) },
            farewell: None,
        }
    );
}

#[test]
fn dispatch_pull_runs_pull() {
    assert_eq!(
        dispatch(Commands::Pull { model: "llama2".to_string() }),
        Plan {
            announce: "Pulling model: llama2".to_string(),
            action: Action::RunTool { args: words(&["pull", "llama2"]) },
            farewell: Some("Model llama2 pulled successfully.".to_string()),
        }
    );
}

#[test]
fn dispatch_run_runs_run() {
    assert_eq!(
        dispatch(Commands::Run { model: "llama2".to_string() }),
        Plan {
            announce: "Running model: llama2".to_string(),
            action: Action::RunTool { args: words(&["run", "llama2"]) },
            farewell: None,
        }
    );
}

#[test]
fn dispatch_remove_runs_rm() {
    assert_eq!(
        dispatch(Commands::Remove { model: "llama2".to_string() }),
        Plan {
            announce: "Removing model: llama2".to_string(),
            action: Action::RunTool { args: words(&["rm", "llama2"]) },
            farewell: Some("Model llama2 removed.".to_string()),
        }
    );
}

#[test]
fn dispatch_generate_without_system_uses_the_default() {
    assert_eq!(
        dispatch(Commands::Generate {
            model: "m".to_string(),
            prompt: "p".to_string(),
            system: None,
        }),
        Plan {
            announce: "Generating response with model: m".to_string(),
            action: Action::Generate {
                model: "m".to_string(),
                prompt: "p".to_string(),
                system: "You are an AI assistant. Respond helpfully.".to_string(),
            },
            farewell: None,
        }
    );
}

#[test]
fn dispatch_generate_with_system_uses_it_verbatim() {
    let plan = dispatch(Commands::Generate {
        model: "m".to_string(),
        prompt: "p".to_string(),
        system: Some("  Answer\tin French. ".to_string()),
    });
    assert_eq!(
        plan.action,
        Action::Generate {
            model: "m".to_string(),
            prompt: "p".to_string(),
            system: "  Answer\tin French. ".to_string(),
        }
    );
}

#[test]
fn dispatch_generate_with_empty_system_keeps_it_empty() {
    let plan = dispatch(Commands::Generate {
        model: "m".to_string(),
        prompt: "p".to_string(),
        system: Some(String::new()),
    });
    assert_eq!(
        plan.action,
        Action::Generate { model: "m".to_string(), prompt: "p".to_string(), system: String::new() }
    );
}

#[test]
fn dispatch_passes_the_model_through_unchanged() {
    let plan = dispatch(Commands::Pull { model: "org/model:7b q4".to_string() });
    assert_eq!(plan.action, Action::RunTool { args: words(&["pull", "org/model:7b q4"]) });
}

#[test]
fn catalog_report_lists_each_model() {
    assert_eq!(
        catalog_report(&words(&["llama2", "mistral"])),
        words(&["Available models:", "- llama2", "- mistral"])
    );
}

#[test]
fn catalog_report_of_an_empty_catalog_is_the_heading() {
    assert_eq!(catalog_report(&Vec::new()), words(&["Available models:"]));
}

#[test]
fn conclude_hands_a_failure_on_unchanged() {
    for failure in [
        Error::Reqwest("connection refused".to_string()),
        Error::Io("not found".to_string()),
        Error::Serde("eof".to_string()),
        Error::Command("Ollama command failed with exit code 1".to_string()),
    ] {
        let copy = match &failure {
            Error::Reqwest(detail) => Error::Reqwest(detail.clone()),
            Error::Io(detail) => Error::Io(detail.clone()),
            Error::Serde(detail) => Error::Serde(detail.clone()),
            Error::Command(detail) => Error::Command(detail.clone()),
        };
        assert_eq!(conclude(Some("Model m removed.".to_string()), Err(failure)), Err(copy));
    }
}

#[test]
fn conclude_gives_the_closing_line_after_success() {
    assert_eq!(
        conclude(Some("Model m removed.".to_string()), Ok(())),
        Ok(Some("Model m removed.".to_string()))
    );
    assert_eq!(conclude(None, Ok(())), Ok(None));
}
