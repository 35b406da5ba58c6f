//! From a command to what has to be done for it.
//!
//! A command is carried out in one step: a line that announces it, one
//! action at the boundary of the process, and on success a closing line for
//! the commands that have one. The action is the only thing that can fail,
//! and its failure is the failure of the command.

use crate::cli::{Commands, CommandsView};
use crate::error::Error;
use crate::prompts::{resolve_system, resolved_system};
use crate::text::{optional_text, texts};
use vstd::prelude::*;
use vstd::string::StringExecFns;

verus! {

/// The one thing a command does at the boundary of the process.
#[derive(Debug, PartialEq, Eq)]
pub enum Action {
    /// Fetch the names of the models the remote library offers.
    FetchCatalog,
    /// Run the external program with these arguments.
    RunTool { args: Vec<String> },
    /// Ask the daemon for one generation.
    Generate { model: String, prompt: String, system: String },
}

/// How a command is carried out.
#[derive(Debug, PartialEq, Eq)]
pub struct Plan {
    /// The line printed before the action.
    pub announce: String,
    /// The action.
    pub action: Action,
    /// The line printed after the action has succeeded, if there is one.
    pub farewell: Option<String>,
}

/// An action as plain sequences of characters.
pub enum ActionView {
    FetchCatalog,
    RunTool { args: Seq<Seq<char>> },
    Generate { model: Seq<char>, prompt: Seq<char>, system: Seq<char> },
}

/// A plan as plain sequences of characters.
pub struct PlanView {
    pub announce: Seq<char>,
    pub action: ActionView,
    pub farewell: Option<Seq<char>>,
}

impl View for Action {
    type V = ActionView;

    open spec fn view(&self) -> ActionView {
        match *self {
            Action::FetchCatalog => ActionView::FetchCatalog,
            Action::RunTool { args } => ActionView::RunTool { args: texts(args@) },
            Action::Generate { model, prompt, system } => ActionView::Generate {
                model: model@,
                prompt: prompt@,
                system: system@,
            },
        }
    }
}

impl View for Plan {
    type V = PlanView;

    open spec fn view(&self) -> PlanView {
        PlanView {
            announce: self.announce@,
            action: self.action@,
            farewell: optional_text(self.farewell),
        }
    }
}

/// The plan for each command.
pub open spec fn plan_for(command: CommandsView) -> PlanView {
    match command {
        CommandsView::List => PlanView {
            announce: "Fetching available models..."@,
            action: ActionView::FetchCatalog,
            farewell: None,
        },
        CommandsView::Installed => PlanView {
            announce: "Listing installed models..."@,
            action: ActionView::RunTool { args: seq!["list"@] },
            farewell: None,
        },
        CommandsView::Pull { model } => PlanView {
            announce: "Pulling model: "@ + model,
            action: ActionView::RunTool { args: seq!["pull"@, model] },
            farewell: Some("Model "@ + model + " pulled successfully."@),
        },
        CommandsView::Run { model } => PlanView {
            announce: "Running model: "@ + model,
            action: ActionView::RunTool { args: seq!["run"@, model] },
            farewell: None,
        },
        CommandsView::Remove { model } => PlanView {
            announce: "Removing model: "@ + model,
            action: ActionView::RunTool { args: seq!["rm"@, model] },
            farewell: Some("Model "@ + model + " removed."@),
        },
        CommandsView::Generate { model, prompt, system } => PlanView {
            announce: "Generating response with model: "@ + model,
            action: ActionView::Generate { model, prompt, system: resolved_system(system) },
            farewell: None,
        },
    }
}

fn tool_args(verb: &str, model: String) -> (args: Vec<String>)
    ensures
        texts(args@) == seq![verb@, model@],
{
    let mut args: Vec<String> = Vec::new();
    args.push(String::from_str(verb));
    args.push(model);
    args
}

/// Decides how a command is carried out.
///
/// `List` alone fetches the catalog; `Installed`, `Pull`, `Run` and
/// `Remove` run the external program; `Generate` alone asks the daemon, with
/// the system prompt the user gave or, without one, the default.
pub fn dispatch(command: Commands) -> (plan: Plan)
    ensures
        plan@ == plan_for(command@),
        plan.action is FetchCatalog <==> command is List,
        plan.action is RunTool <==> (command is Installed || command is Pull || command is Run
            || command is Remove),
        plan.action is Generate <==> command is Generate,
        command matches Commands::Generate { system: given, .. } ==> (plan.action matches Action::Generate {
            system: used,
            ..
        } && used@ == resolved_system(optional_text(given))),
{
    match command {
        Commands::List => Plan {
            announce: String::from_str("Fetching available models..."),
            action: Action::FetchCatalog,
            farewell: None,
        },
        Commands::Installed => {
            let mut args: Vec<String> = Vec::new();
            args.push(String::from_str("list"));
            assert(texts(args@) =~= seq!["list"@]);
            Plan {
                announce: String::from_str("Listing installed models..."),
                action: Action::RunTool { args },
                farewell: None,
            }
        },
        Commands::Pull { model } => Plan {
            announce: String::from_str("Pulling model: ").concat(model.as_str()),
            farewell: Some(
                String::from_str("Model ").concat(model.as_str()).concat(" pulled successfully."),
            ),
            action: Action::RunTool { args: tool_args("pull", model) },
        },
        Commands::Run { model } => Plan {
            announce: String::from_str("Running model: ").concat(model.as_str()),
            farewell: None,
            action: Action::RunTool { args: tool_args("run", model) },
        },
        Commands::Remove { model } => Plan {
            announce: String::from_str("Removing model: ").concat(model.as_str()),
            farewell: Some(String::from_str("Model ").concat(model.as_str()).concat(" removed.")),
            action: Action::RunTool { args: tool_args("rm", model) },
        },
        Commands::Generate { model, prompt, system } => Plan {
            announce: String::from_str("Generating response with model: ").concat(model.as_str()),
            farewell: None,
            action: Action::Generate { model, prompt, system: resolve_system(system) },
        },
    }
}

/// Ends a command once its action is over. A failure of the action is the
/// failure of the command, handed on as it came and with nothing more
/// printed; after a success the closing line, if the plan has one, is due.
pub fn conclude(farewell: Option<String>, outcome: Result<(), Error>) -> (end: Result<
    Option<String>,
    Error,
>)
    ensures
        match outcome {
            Ok(_) => end matches Ok(line) && line == farewell,
            Err(failure) => end matches Err(found) && found == failure,
        },
{
    match outcome {
        Ok(_) => Ok(farewell),
        Err(failure) => Err(failure),
    }
}

/// The lines of a catalog listing, as sequences of characters: a heading,
/// then one line for each model, in the order given.
pub open spec fn catalog_lines(models: Seq<Seq<char>>) -> Seq<Seq<char>> {
    seq!["Available models:"@] + models.map_values(|model: Seq<char>| "- "@ + model)
}

/// Lists the models of a fetched catalog for printing.
pub fn catalog_report(models: &Vec<String>) -> (lines: Vec<String>)
    ensures
        texts(lines@) == catalog_lines(texts(models@)),
{
    let mut lines: Vec<String> = Vec::new();
    lines.push(String::from_str("Available models:"));
    let mut at: usize = 0;
    while at < models.len()
        invariant
            at <= models@.len(),
            texts(lines@) == seq!["Available models:"@] + texts(models@).take(at as int).map_values(
                |model: Seq<char>| "- "@ + model,
            ),
        decreases models@.len() - at,
    {
        let ghost before = texts(lines@);
        let line = String::from_str("- ").concat(models[at].as_str());
        lines.push(line);
        assert(texts(lines@) =~= before.push("- "@ + models@[at as int]@));
        at = at + 1;
    }
    lines
}

} // verus!
