use papyrus::command::{CmdArgs, Command, CommandAction, Commands};
use papyrus::data::{BuildError, Colour, ReplData};
use papyrus::input::EditMode;

fn sample() -> Vec<Command> {
    vec![
        Command::new("help", CmdArgs::Text, "Show help", CommandAction::Help),
        Command::new("load", CmdArgs::Filename, "Load a file", CommandAction::External(1)),
        Command::new("eval", CmdArgs::Expr, "Evaluate", CommandAction::External(2)),
        Command::new("mut", CmdArgs::NoArgs, "Begin a mutable block of code", CommandAction::BeginMutBlock),
    ]
}

#[test]
fn new_keeps_every_field() {
    let c = Command::new("load", CmdArgs::Filename, "Load a file", CommandAction::External(7));
    assert_eq!(c.name, "load");
    assert_eq!(c.arg_type, CmdArgs::Filename);
    assert_eq!(c.help, "Load a file");
    assert_eq!(c.action, CommandAction::External(7));
}

#[test]
fn clone_is_equal_field_by_field() {
    let c = Command::new("eval", CmdArgs::Expr, "Evaluate", CommandAction::External(2));
    let d = c.clone();
    assert_eq!(d.name, "eval");
    assert_eq!(d.arg_type, CmdArgs::Expr);
    assert_eq!(d.help, "Evaluate");
    assert_eq!(d.action, CommandAction::External(2));
}

#[test]
fn find_is_exact_and_case_sensitive() {
    let cmds = vec![Command::new("help", CmdArgs::Text, "Show help", CommandAction::Help)];
    let found = cmds.find_command("help").unwrap();
    assert_eq!(found.name, "help");
    assert_eq!(found.action, CommandAction::Help);
    assert_eq!(cmds.find_command("HELP").unwrap_err(), "unrecognized command: HELP");
    assert_eq!(cmds.find_command("hel").unwrap_err(), "unrecognized command: hel");
    assert_eq!(cmds.find_command("helps").unwrap_err(), "unrecognized command: helps");
    assert_eq!(cmds.find_command("").unwrap_err(), "unrecognized command: ");
}

#[test]
fn find_returns_the_first_of_equal_names() {
    let cmds = vec![
        Command::new("a", CmdArgs::NoArgs, "first", CommandAction::External(1)),
        Command::new("a", CmdArgs::NoArgs, "second", CommandAction::External(2)),
    ];
    assert_eq!(cmds.find_command("a").unwrap().help, "first");
}

#[test]
fn find_in_an_empty_registry_fails() {
    let cmds: Vec<Command> = Vec::new();
    assert_eq!(cmds.find_command("mut").unwrap_err(), "unrecognized command: mut");
}

#[test]
fn help_lists_every_command_in_order() {
    assert_eq!(
        sample().build_help_response(None),
        "Available commands:\nhelp [text] Show help\nload <filename> Load a file\neval <expr> Evaluate\nmut Begin a mutable block of code\n"
    );
}

#[test]
fn help_of_an_empty_registry_is_the_header() {
    let cmds: Vec<Command> = Vec::new();
    assert_eq!(cmds.build_help_response(None), "Available commands:\n");
}

#[test]
fn help_of_one_command_is_its_line() {
    assert_eq!(sample().build_help_response(Some("load")), "load <filename> Load a file\n");
    assert_eq!(sample().build_help_response(Some("mut")), "mut Begin a mutable block of code\n");
    assert_eq!(sample().build_help_response(Some("help")), "help [text] Show help\n");
    assert_eq!(sample().build_help_response(Some("eval")), "eval <expr> Evaluate\n");
}

#[test]
fn help_of_an_unknown_command_is_the_error() {
    assert_eq!(sample().build_help_response(Some("Load")), "unrecognized command: Load");
}

#[test]
fn default_session_has_the_built_in_command_only() {
    let data = ReplData::default();
    assert_eq!(data.cmdtree.len(), 1);
    assert_eq!(data.cmdtree[0].name, "mut");
    assert_eq!(data.cmdtree[0].arg_type, CmdArgs::NoArgs);
    assert_eq!(data.cmdtree[0].help, "Begin a mutable block of code");
    assert_eq!(data.cmdtree[0].action, CommandAction::BeginMutBlock);
    assert_eq!(data.lib.path, "lib.rs");
    assert!(data.lib.items.is_empty());
    assert!(data.files.is_empty());
    assert_eq!(data.current_file, "lib.rs");
    assert_eq!(data.prompt_colour, Colour::Cyan);
    assert_eq!(data.out_colour, Colour::BrightGreen);
    assert_eq!(data.compilation_dir, ".papyrus");
    assert!(data.linking().external_crates.is_empty());
    assert!(data.linking().data_type.is_none());
    assert!(data.redirect_on_execution);
    assert_eq!(data.mode, EditMode::Normal);
}

#[test]
fn builder_gets_the_built_in_command_after_its_own() {
    let builder = vec![Command::new("help", CmdArgs::Text, "Show help", CommandAction::Help)];
    let data = ReplData::default().with_cmdtree_builder(builder).unwrap();
    assert_eq!(data.cmdtree.len(), 2);
    assert_eq!(data.cmdtree[0].name, "help");
    assert_eq!(data.cmdtree[1].name, "mut");
    assert_eq!(data.cmdtree[1].action, CommandAction::BeginMutBlock);
    assert_eq!(data.compilation_dir, ".papyrus");
}

#[test]
fn empty_builder_gives_the_default_registry() {
    let data = ReplData::default().with_cmdtree_builder(Vec::new()).unwrap();
    assert_eq!(data.cmdtree.len(), 1);
    assert_eq!(data.cmdtree[0].name, "mut");
}

#[test]
fn builder_with_the_reserved_name_is_refused() {
    let builder = vec![
        Command::new("a", CmdArgs::NoArgs, "", CommandAction::External(1)),
        Command::new("a", CmdArgs::NoArgs, "", CommandAction::External(2)),
        Command::new("mut", CmdArgs::NoArgs, "mine", CommandAction::External(3)),
    ];
    assert_eq!(
        ReplData::default().with_cmdtree_builder(builder).unwrap_err(),
        BuildError::ReservedName
    );
}

#[test]
fn builder_with_a_duplicate_name_is_refused() {
    let builder = vec![
        Command::new("a", CmdArgs::NoArgs, "", CommandAction::External(1)),
        Command::new("b", CmdArgs::NoArgs, "", CommandAction::External(2)),
        Command::new("a", CmdArgs::NoArgs, "", CommandAction::External(3)),
    ];
    assert_eq!(
        ReplData::default().with_cmdtree_builder(builder).unwrap_err(),
        BuildError::DuplicateName
    );
}

#[test]
fn builder_names_that_differ_in_case_are_distinct() {
    let builder = vec![
        Command::new("Mut", CmdArgs::NoArgs, "", CommandAction::External(1)),
        Command::new("MUT", CmdArgs::NoArgs, "", CommandAction::External(2)),
    ];
    let data = ReplData::default().with_cmdtree_builder(builder).unwrap();
    assert_eq!(data.cmdtree.len(), 3);
}
