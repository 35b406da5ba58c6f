//! The command line: what the user can ask for, and how an argument
//! vector spells it.
//!
//! The first word of an argument vector names the program and is ignored.
//! The second names a subcommand, or is `--help` or `-h` and asks for the
//! help text. The words after a subcommand are its values, in order;
//! `generate` also takes `--system <text>` once, anywhere among its values,
//! and whatever word follows `--system` is the text. Any other word of two
//! or more characters that starts with `-` is refused rather than read as a
//! value, so that no value can pass for an option further down the line.

use crate::text::{optional_text, same_text, texts, words};
use vstd::prelude::*;
use vstd::string::StrSliceExecFns;
use vstd::string::StringExecFns;

verus! {

/// Name the program goes by in its help text.
pub const PROGRAM_NAME: &'static str = "github-dotfiles-ollama";

/// One-line description of the program.
pub const ABOUT: &'static str = "A tool to manage Ollama models";

/// The option of `generate` that sets the system prompt.
pub const SYSTEM_OPTION: &'static str = "--system";

/// The part of the help text that follows the program's name: how to call
/// it, and what each subcommand does.
pub const USAGE: &'static str =
    " <COMMAND>\n\nCommands:\n  list                                         List available models from Ollama library\n  installed                                    List installed models\n  pull <MODEL>                                 Pull a model\n  run <MODEL>                                  Run a model\n  remove <MODEL>                               Remove a model\n  generate <MODEL> <PROMPT> [--system <TEXT>]  Generate response with custom prompt and system\n\nOptions:\n  -h, --help  Print help\n";

/// The help text: what the program is, then how to call it.
pub open spec fn help_text() -> Seq<char> {
    ABOUT@ + "\n\nUsage: "@ + PROGRAM_NAME@ + USAGE@
}

/// A parsed command line.
#[derive(Debug, PartialEq, Eq)]
pub struct Cli {
    /// What the user asked for.
    pub command: Commands,
}

/// The things the user can ask for.
#[derive(Debug, PartialEq, Eq)]
pub enum Commands {
    /// List available models from Ollama library
    List,
    /// List installed models
    Installed,
    /// Pull a model
    Pull { model: String },
    /// Run a model
    Run { model: String },
    /// Remove a model
    Remove { model: String },
    /// Generate response with custom prompt and system
    Generate {
        model: String,
        prompt: String,
        /// Custom system prompt
        system: Option<String>,
    },
}

/// A command as plain sequences of characters.
pub enum CommandsView {
    List,
    Installed,
    Pull { model: Seq<char> },
    Run { model: Seq<char> },
    Remove { model: Seq<char> },
    Generate { model: Seq<char>, prompt: Seq<char>, system: Option<Seq<char>> },
}

impl View for Commands {
    type V = CommandsView;

    open spec fn view(&self) -> CommandsView {
        match *self {
            Commands::List => CommandsView::List,
            Commands::Installed => CommandsView::Installed,
            Commands::Pull { model } => CommandsView::Pull { model: model@ },
            Commands::Run { model } => CommandsView::Run { model: model@ },
            Commands::Remove { model } => CommandsView::Remove { model: model@ },
            Commands::Generate { model, prompt, system } => CommandsView::Generate {
                model: model@,
                prompt: prompt@,
                system: optional_text(system),
            },
        }
    }
}

/// Why an argument vector does not spell a command.
#[derive(Debug, Clone, Copy, PartialEq, Eq, Structural)]
pub enum UsageError {
    /// The user asked for the help text.
    HelpRequested,
    /// No subcommand was given.
    MissingCommand,
    /// The subcommand is not one of the program's.
    UnknownCommand,
    /// A word that starts with `-` is no option of the subcommand.
    UnknownOption,
    /// `--system` stands last, without its text.
    MissingValue,
    /// `--system` was given twice.
    RepeatedOption,
    /// More values were given than the subcommand takes.
    UnexpectedArgument,
    /// Fewer values were given than the subcommand takes.
    MissingArgument,
}

impl UsageError {
    /// One line that says what is wrong with the argument vector.
    pub open spec fn reason(self) -> Seq<char> {
        match self {
            UsageError::HelpRequested => "help requested"@,
            UsageError::MissingCommand => "a subcommand is required"@,
            UsageError::UnknownCommand => "unrecognized subcommand"@,
            UsageError::UnknownOption => "unexpected option"@,
            UsageError::MissingValue => "a value is required for '--system <TEXT>'"@,
            UsageError::RepeatedOption => "'--system <TEXT>' cannot be used multiple times"@,
            UsageError::UnexpectedArgument => "unexpected argument"@,
            UsageError::MissingArgument => "a required argument was not provided"@,
        }
    }

    /// What the user is shown: the help text when it was asked for, else
    /// the reason and a pointer to the help.
    pub open spec fn report_text(self) -> Seq<char> {
        if self == UsageError::HelpRequested {
            help_text()
        } else {
            "error: "@ + self.reason() + "\n\nFor more information, try '--help'.\n"@
        }
    }

    /// The status the process ends with: success after showing the help
    /// that was asked for, 2 after a mistake in the arguments.
    pub open spec fn status(self) -> int {
        if self == UsageError::HelpRequested {
            0
        } else {
            2
        }
    }

    /// Renders what the user is shown.
    pub fn report(&self) -> (text: String)
        ensures
            text@ == self.report_text(),
    {
        let reason = match self {
            UsageError::HelpRequested => {
                return Cli::help();
            },
            UsageError::MissingCommand => "a subcommand is required",
            UsageError::UnknownCommand => "unrecognized subcommand",
            UsageError::UnknownOption => "unexpected option",
            UsageError::MissingValue => "a value is required for '--system <TEXT>'",
            UsageError::RepeatedOption => "'--system <TEXT>' cannot be used multiple times",
            UsageError::UnexpectedArgument => "unexpected argument",
            UsageError::MissingArgument => "a required argument was not provided",
        };
        String::from_str("error: ").concat(reason).concat(
            "\n\nFor more information, try '--help'.\n",
        )
    }

    /// The status the process ends with.
    pub fn exit_code(&self) -> (code: i32)
        ensures
            code == self.status(),
    {
        match self {
            UsageError::HelpRequested => 0,
            _ => 2,
        }
    }
}

/// The subcommands, without their values.
#[derive(Debug, Clone, Copy, PartialEq, Eq, Structural)]
pub enum Subcommand {
    List,
    Installed,
    Pull,
    Run,
    Remove,
    Generate,
}

impl Subcommand {
    /// The word that selects the subcommand.
    pub open spec fn name(self) -> Seq<char> {
        match self {
            Subcommand::List => "list"@,
            Subcommand::Installed => "installed"@,
            Subcommand::Pull => "pull"@,
            Subcommand::Run => "run"@,
            Subcommand::Remove => "remove"@,
            Subcommand::Generate => "generate"@,
        }
    }

    /// How many values the subcommand takes.
    pub open spec fn arity(self) -> nat {
        match self {
            Subcommand::List => 0,
            Subcommand::Installed => 0,
            Subcommand::Pull => 1,
            Subcommand::Run => 1,
            Subcommand::Remove => 1,
            Subcommand::Generate => 2,
        }
    }

    /// Whether the subcommand takes `--system <text>`.
    pub open spec fn takes_system(self) -> bool {
        self == Subcommand::Generate
    }

    /// The subcommand a word selects: the first, in the order of
    /// declaration, whose name the word is.
    pub open spec fn named(word: Seq<char>) -> Option<Subcommand> {
        if word == Subcommand::List.name() {
            Some(Subcommand::List)
        } else if word == Subcommand::Installed.name() {
            Some(Subcommand::Installed)
        } else if word == Subcommand::Pull.name() {
            Some(Subcommand::Pull)
        } else if word == Subcommand::Run.name() {
            Some(Subcommand::Run)
        } else if word == Subcommand::Remove.name() {
            Some(Subcommand::Remove)
        } else if word == Subcommand::Generate.name() {
            Some(Subcommand::Generate)
        } else {
            None
        }
    }

    /// The command made of the subcommand and the values taken for it.
    pub open spec fn with(self, taken: Taken) -> CommandsView
        recommends
            taken.values.len() == self.arity(),
    {
        match self {
            Subcommand::List => CommandsView::List,
            Subcommand::Installed => CommandsView::Installed,
            Subcommand::Pull => CommandsView::Pull { model: taken.values[0] },
            Subcommand::Run => CommandsView::Run { model: taken.values[0] },
            Subcommand::Remove => CommandsView::Remove { model: taken.values[0] },
            Subcommand::Generate => CommandsView::Generate {
                model: taken.values[0],
                prompt: taken.values[1],
                system: taken.system,
            },
        }
    }

    fn count(self) -> (count: usize)
        ensures
            count == self.arity(),
    {
        match self {
            Subcommand::List => 0,
            Subcommand::Installed => 0,
            Subcommand::Pull => 1,
            Subcommand::Run => 1,
            Subcommand::Remove => 1,
            Subcommand::Generate => 2,
        }
    }

    fn select(word: &str) -> (found: Option<Subcommand>)
        ensures
            found == Subcommand::named(word@),
    {
        if same_text(word, "list") {
            Some(Subcommand::List)
        } else if same_text(word, "installed") {
            Some(Subcommand::Installed)
        } else if same_text(word, "pull") {
            Some(Subcommand::Pull)
        } else if same_text(word, "run") {
            Some(Subcommand::Run)
        } else if same_text(word, "remove") {
            Some(Subcommand::Remove)
        } else if same_text(word, "generate") {
            Some(Subcommand::Generate)
        } else {
            None
        }
    }
}

/// What has been read of a subcommand's words so far.
pub struct Taken {
    /// The values, in the order given.
    pub values: Seq<Seq<char>>,
    /// The text given with `--system`.
    pub system: Option<Seq<char>>,
}

/// Whether a word asks for the help text.
pub open spec fn is_help(word: Seq<char>) -> bool {
    word == "--help"@ || word == "-h"@
}

/// Whether a word has the form of an option: it starts with `-` and has
/// more after it.
pub open spec fn is_option(word: Seq<char>) -> bool {
    word.len() >= 2 && word[0] == '-'
}

/// Reads the words of a subcommand from position `at` on, left to right,
/// adding to what was taken before. The first word that does not fit
/// decides the error.
pub open spec fn take_words(
    words: Seq<Seq<char>>,
    at: int,
    subcommand: Subcommand,
    taken: Taken,
) -> Result<Taken, UsageError>
    decreases words.len() - at,
{
    if at >= words.len() {
        if taken.values.len() < subcommand.arity() {
            Err(UsageError::MissingArgument)
        } else {
            Ok(taken)
        }
    } else if subcommand.takes_system() && words[at] == SYSTEM_OPTION@ {
        if at + 1 >= words.len() {
            Err(UsageError::MissingValue)
        } else if taken.system is Some {
            Err(UsageError::RepeatedOption)
        } else {
            take_words(
                words,
                at + 2,
                subcommand,
                Taken { values: taken.values, system: Some(words[at + 1]) },
            )
        }
    } else if is_option(words[at]) {
        Err(UsageError::UnknownOption)
    } else if taken.values.len() >= subcommand.arity() {
        Err(UsageError::UnexpectedArgument)
    } else {
        take_words(
            words,
            at + 1,
            subcommand,
            Taken { values: taken.values.push(words[at]), system: taken.system },
        )
    }
}

/// The command that an argument vector spells, or why it spells none.
pub open spec fn parse_words(words: Seq<Seq<char>>) -> Result<CommandsView, UsageError> {
    if words.len() < 2 {
        Err(UsageError::MissingCommand)
    } else if is_help(words[1]) {
        Err(UsageError::HelpRequested)
    } else {
        match Subcommand::named(words[1]) {
            None => Err(
                if is_option(words[1]) {
                    UsageError::UnknownOption
                } else {
                    UsageError::UnknownCommand
                },
            ),
            Some(subcommand) => match take_words(
                words,
                2,
                subcommand,
                Taken { values: Seq::empty(), system: None },
            ) {
                Ok(taken) => Ok(subcommand.with(taken)),
                Err(error) => Err(error),
            },
        }
    }
}

/// Each subcommand is selected by its own name, which no other shares and
/// which is neither a request for help nor of the form of an option.
pub proof fn lemma_names_select(subcommand: Subcommand)
    ensures
        Subcommand::named(subcommand.name()) == Some(subcommand),
        !is_help(subcommand.name()),
        !is_option(subcommand.name()),
{
    reveal_strlit("list");
    reveal_strlit("installed");
    reveal_strlit("pull");
    reveal_strlit("run");
    reveal_strlit("remove");
    reveal_strlit("generate");
    reveal_strlit("--help");
    reveal_strlit("-h");
    assert("list"@[0] == 'l' && "installed"@[0] == 'i' && "pull"@[0] == 'p');
    assert("run"@.len() == 3 && "remove"@.len() == 6);
    assert("--help"@[0] == '-' && "-h"@[0] == '-');
    match subcommand {
        Subcommand::List => {},
        Subcommand::Installed => {},
        Subcommand::Pull => {},
        Subcommand::Run => {},
        Subcommand::Remove => {},
        Subcommand::Generate => {},
    }
}

/// The words of a subcommand that stand for its values alone are taken in
/// order, once there are as many as the subcommand takes.
proof fn lemma_take_values(
    words: Seq<Seq<char>>,
    at: int,
    subcommand: Subcommand,
    taken: Taken,
)
    requires
        0 <= at <= words.len(),
        taken.values.len() + (words.len() - at) == subcommand.arity(),
        forall|i: int| at <= i < words.len() ==> !is_option(#[trigger] words[i]),
    ensures
        take_words(words, at, subcommand, taken) == Ok::<Taken, UsageError>(
            Taken { values: taken.values + words.skip(at), system: taken.system },
        ),
    decreases words.len() - at,
{
    reveal_strlit("--system");
    if at >= words.len() {
    } else {
        let next = Taken { values: taken.values.push(words[at]), system: taken.system };
        lemma_take_values(words, at + 1, subcommand, next);
        assert(next.values + words.skip(at + 1) =~= taken.values + words.skip(at));
    }
}

/// Whether none of a command's values has the form of an option.
pub open spec fn plain_values(command: CommandsView) -> bool {
    match command {
        CommandsView::List => true,
        CommandsView::Installed => true,
        CommandsView::Pull { model } => !is_option(model),
        CommandsView::Run { model } => !is_option(model),
        CommandsView::Remove { model } => !is_option(model),
        CommandsView::Generate { model, prompt, system } => !is_option(model) && !is_option(
            prompt,
        ),
    }
}

/// Reading on from values of which none has the form of an option ends,
/// where it succeeds, with as many values as the subcommand takes, of which
/// again none has that form.
proof fn lemma_take_keeps_plain(
    words: Seq<Seq<char>>,
    at: int,
    subcommand: Subcommand,
    taken: Taken,
)
    requires
        0 <= at,
        taken.values.len() <= subcommand.arity(),
        forall|i: int| 0 <= i < taken.values.len() ==> !is_option(#[trigger] taken.values[i]),
    ensures
        take_words(words, at, subcommand, taken) matches Ok(all) ==> {
            &&& all.values.len() == subcommand.arity()
            &&& forall|i: int| 0 <= i < all.values.len() ==> !is_option(#[trigger] all.values[i])
        },
    decreases words.len() - at,
{
    if at >= words.len() {
    } else if subcommand.takes_system() && words[at] == SYSTEM_OPTION@ {
        if at + 1 < words.len() && taken.system is None {
            lemma_take_keeps_plain(
                words,
                at + 2,
                subcommand,
                Taken { values: taken.values, system: Some(words[at + 1]) },
            );
        }
    } else if !is_option(words[at]) && taken.values.len() < subcommand.arity() {
        lemma_take_keeps_plain(
            words,
            at + 1,
            subcommand,
            Taken { values: taken.values.push(words[at]), system: taken.system },
        );
    }
}

/// No command read from an argument vector holds a model or a prompt of
/// the form of an option: what is later handed to another program as a
/// value cannot be taken there for one of its options.
pub proof fn lemma_values_are_plain(words: Seq<Seq<char>>)
    ensures
        parse_words(words) matches Ok(command) ==> plain_values(command),
{
    if words.len() >= 2 && !is_help(words[1]) {
        match Subcommand::named(words[1]) {
            Some(subcommand) => {
                lemma_take_keeps_plain(
                    words,
                    2,
                    subcommand,
                    Taken { values: Seq::empty(), system: None },
                );
            },
            None => {},
        }
    }
}

/// Every line of the command's surface is read as the command it spells.
///
/// Whatever the program's name, and for every `model`, `prompt` and
/// `system` text of which the first two do not have the form of an
/// option: `list` and `installed` stand alone; `pull`, `run` and `remove`
/// take the model; `generate` takes the model and the prompt, with
/// `--system <text>` before, between or after them, or without it.
pub proof fn lemma_surface(
    program: Seq<char>,
    model: Seq<char>,
    prompt: Seq<char>,
    system: Seq<char>,
)
    requires
        !is_option(model),
        !is_option(prompt),
    ensures
        parse_words(seq![program, "list"@]) == Ok::<CommandsView, UsageError>(CommandsView::List),
        parse_words(seq![program, "installed"@]) == Ok::<CommandsView, UsageError>(
            CommandsView::Installed,
        ),
        parse_words(seq![program, "pull"@, model]) == Ok::<CommandsView, UsageError>(
            CommandsView::Pull { model },
        ),
        parse_words(seq![program, "run"@, model]) == Ok::<CommandsView, UsageError>(
            CommandsView::Run { model },
        ),
        parse_words(seq![program, "remove"@, model]) == Ok::<CommandsView, UsageError>(
            CommandsView::Remove { model },
        ),
        parse_words(seq![program, "generate"@, model, prompt]) == Ok::<CommandsView, UsageError>(
            CommandsView::Generate { model, prompt, system: None },
        ),
        parse_words(seq![program, "generate"@, "--system"@, system, model, prompt]) == Ok::<
            CommandsView,
            UsageError,
        >(CommandsView::Generate { model, prompt, system: Some(system) }),
        parse_words(seq![program, "generate"@, model, "--system"@, system, prompt]) == Ok::<
            CommandsView,
            UsageError,
        >(CommandsView::Generate { model, prompt, system: Some(system) }),
        parse_words(seq![program, "generate"@, model, prompt, "--system"@, system]) == Ok::<
            CommandsView,
            UsageError,
        >(CommandsView::Generate { model, prompt, system: Some(system) }),
{
    lemma_names_select(Subcommand::List);
    lemma_names_select(Subcommand::Installed);
    lemma_names_select(Subcommand::Pull);
    lemma_names_select(Subcommand::Run);
    lemma_names_select(Subcommand::Remove);
    lemma_names_select(Subcommand::Generate);
    reveal_strlit("--system");
    let generate = Subcommand::Generate;
    let none = Taken { values: Seq::empty(), system: None };
    let given = Taken { values: Seq::empty(), system: Some(system) };
    let one = Taken { values: seq![model], system: None };
    let one_given = Taken { values: seq![model], system: Some(system) };
    let two = Taken { values: seq![model, prompt], system: None };
    let two_given = Taken { values: seq![model, prompt], system: Some(system) };
    assert(none.values.push(model) =~= one.values);
    assert(one.values.push(prompt) =~= two.values);

    // Lines of values alone.
    lemma_take_values(seq![program, "list"@], 2, Subcommand::List, none);
    lemma_take_values(seq![program, "installed"@], 2, Subcommand::Installed, none);
    lemma_take_values(seq![program, "pull"@, model], 2, Subcommand::Pull, none);
    lemma_take_values(seq![program, "run"@, model], 2, Subcommand::Run, none);
    lemma_take_values(seq![program, "remove"@, model], 2, Subcommand::Remove, none);
    lemma_take_values(seq![program, "generate"@, model, prompt], 2, generate, none);

    // The option first: it is read, then the two values.
    let before = seq![program, "generate"@, "--system"@, system, model, prompt];
    assert(take_words(before, 2, generate, none) == take_words(before, 4, generate, given));
    lemma_take_values(before, 4, generate, given);

    // The option between the values.
    let between = seq![program, "generate"@, model, "--system"@, system, prompt];
    assert(take_words(between, 2, generate, none) == take_words(between, 3, generate, one));
    assert(take_words(between, 3, generate, one) == take_words(between, 5, generate, one_given));
    lemma_take_values(between, 5, generate, one_given);

    // The option last.
    let after = seq![program, "generate"@, model, prompt, "--system"@, system];
    assert(take_words(after, 2, generate, none) == take_words(after, 3, generate, one));
    assert(take_words(after, 3, generate, one) == take_words(after, 4, generate, two));
    assert(take_words(after, 4, generate, two) == take_words(after, 6, generate, two_given));
    lemma_take_values(after, 6, generate, two_given);
}

fn asks_for_help(word: &str) -> (asks: bool)
    ensures
        asks == is_help(word@),
{
    same_text(word, "--help") || same_text(word, "-h")
}

fn looks_like_option(word: &str) -> (looks: bool)
    ensures
        looks == is_option(word@),
{
    word.unicode_len() >= 2 && word.get_char(0) == '-'
}

fn take(args: &[&str], subcommand: Subcommand) -> (taken: Result<
    (Vec<String>, Option<String>),
    UsageError,
>)
    requires
        args@.len() >= 2,
    ensures
        match take_words(
            words(args@),
            2,
            subcommand,
            Taken { values: Seq::empty(), system: None },
        ) {
            Ok(expected) => taken matches Ok((values, system)) && texts(values@)
                == expected.values && optional_text(system) == expected.system
                && values@.len() == subcommand.arity(),
            Err(error) => taken matches Err(found) && found == error,
        },
{
    let ghost all = words(args@);
    let ghost goal = take_words(
        all,
        2,
        subcommand,
        Taken { values: Seq::empty(), system: None },
    );
    let arity: usize = subcommand.count();
    let mut values: Vec<String> = Vec::new();
    let mut system: Option<String> = None;
    let mut at: usize = 2;
    assert(texts(values@) =~= Seq::<Seq<char>>::empty());
    while at < args.len()
        invariant
            2 <= at <= args@.len(),
            all == words(args@),
            arity == subcommand.arity(),
            values@.len() <= arity,
            goal == take_words(
                all,
                2,
                subcommand,
                Taken { values: Seq::empty(), system: None },
            ),
            take_words(
                all,
                at as int,
                subcommand,
                Taken { values: texts(values@), system: optional_text(system) },
            ) == goal,
        decreases args@.len() - at,
    {
        let word = args[at];
        if subcommand == Subcommand::Generate && same_text(word, SYSTEM_OPTION) {
            if at + 1 >= args.len() {
                return Err(UsageError::MissingValue);
            }
            if system.is_some() {
                return Err(UsageError::RepeatedOption);
            }
            let given = args[at + 1];
            system = Some(given.to_owned());
            at = at + 2;
        } else if looks_like_option(word) {
            return Err(UsageError::UnknownOption);
        } else if values.len() >= arity {
            return Err(UsageError::UnexpectedArgument);
        } else {
            let ghost before = texts(values@);
            values.push(word.to_owned());
            assert(texts(values@) =~= before.push(word@));
            at = at + 1;
        }
    }
    if values.len() < arity {
        Err(UsageError::MissingArgument)
    } else {
        Ok((values, system))
    }
}

impl Cli {
    /// Renders the help text.
    pub fn help() -> (text: String)
        ensures
            text@ == help_text(),
    {
        String::from_str(ABOUT).concat("\n\nUsage: ").concat(PROGRAM_NAME).concat(USAGE)
    }

    /// Reads a command line from an argument vector whose first word is
    /// the program's name. Returns the command the vector spells, or the
    /// reason why it spells none.
    pub fn try_parse_from(args: &[&str]) -> (parsed: Result<Cli, UsageError>)
        ensures
            match parse_words(words(args@)) {
                Ok(command) => parsed matches Ok(cli) && cli.command@ == command,
                Err(error) => parsed matches Err(found) && found == error,
            },
    {
        if args.len() < 2 {
            return Err(UsageError::MissingCommand);
        }
        let first = args[1];
        if asks_for_help(first) {
            return Err(UsageError::HelpRequested);
        }
        let subcommand = match Subcommand::select(first) {
            Some(subcommand) => subcommand,
            None => {
                if looks_like_option(first) {
                    return Err(UsageError::UnknownOption);
                } else {
                    return Err(UsageError::UnknownCommand);
                }
            },
        };
        let (mut values, system) = match take(args, subcommand) {
            Ok(taken) => taken,
            Err(error) => {
                return Err(error);
            },
        };
        let command = match subcommand {
            Subcommand::List => Commands::List,
            Subcommand::Installed => Commands::Installed,
            Subcommand::Pull => {
                let model = values.remove(0);
                Commands::Pull { model }
            },
            Subcommand::Run => {
                let model = values.remove(0);
                Commands::Run { model }
            },
            Subcommand::Remove => {
                let model = values.remove(0);
                Commands::Remove { model }
            },
            Subcommand::Generate => {
                let prompt = values.remove(1);
                let model = values.remove(0);
                Commands::Generate { model, prompt, system }
            },
        };
        Ok(Cli { command })
    }

    /// Reads a command line from an argument vector that is known to spell
    /// a command.
    pub fn parse_from(args: &[&str]) -> (cli: Cli)
        requires
            parse_words(words(args@)) is Ok,
        ensures
            parse_words(words(args@)) == Ok::<CommandsView, UsageError>(cli.command@),
    {
        match Cli::try_parse_from(args) {
            Ok(cli) => cli,
            Err(_) => vstd::pervasive::unreached(),
        }
    }
}

} // verus!
