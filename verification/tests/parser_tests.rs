use relay_client::parser::{
    Argument, Command, OptionalArgument, Parser, RequiredArgument, INVALID_CMD, MISSING_ARGS,
    NO_CMD,
};
use relay_client::types::{ArgTuple, Callback};
use std::cell::RefCell;
use std::rc::Rc;

fn nothing(_required: &ArgTuple, _optional: &ArgTuple) {}

fn pair(name: &str, value: &str) -> (String, String) {
    (String::from(name), String::from(value))
}

fn embedded_arguments() -> Vec<Box<dyn Argument>> {
    vec![
        Box::new(RequiredArgument::<String>::new("is_embedded")),
        Box::new(OptionalArgument::<String>::new("table")),
        Box::new(RequiredArgument::<u16>::new("port")),
    ]
}

fn embedded_parser() -> Parser<Callback> {
    let mut parser: Parser<Callback> = Parser::new();
    parser.add_command("/embedded", embedded_arguments(), nothing);
    parser.add_command("/say_hello", vec![], nothing);
    parser
}

#[test]
fn required_argument_keeps_its_name() {
    let argument = RequiredArgument::<String>::new("is_embedded");
    assert_eq!(argument.name(), "is_embedded");
    assert!(argument.is_required());
}

#[test]
fn optional_argument_keeps_its_name() {
    let argument = OptionalArgument::<u32>::new("table");
    assert_eq!(argument.name(), "table");
    assert!(!argument.is_required());
}

#[test]
fn invalid_carries_the_message() {
    assert_eq!(Command::invalid("no").message, "no");
    assert_eq!(Command::invalid(NO_CMD).message, "Command was not specified!");
}

#[test]
fn the_three_messages_are_spelled_out_and_differ() {
    assert_eq!(NO_CMD, "Command was not specified!");
    assert_eq!(INVALID_CMD, "You have entered an invalid Command!");
    assert_eq!(MISSING_ARGS, "Missing required variables.");
    assert_ne!(NO_CMD, INVALID_CMD);
    assert_ne!(NO_CMD, MISSING_ARGS);
    assert_ne!(INVALID_CMD, MISSING_ARGS);
}

#[test]
fn parse_of_an_empty_text_names_no_command() {
    let error = embedded_parser().parse(String::new()).unwrap_err();
    assert_eq!(error.message, NO_CMD);
}

#[test]
fn parse_of_a_lone_token_names_no_command() {
    let error = embedded_parser().parse(String::from("bot")).unwrap_err();
    assert_eq!(error.message, NO_CMD);
}

#[test]
fn parse_of_an_unknown_command_is_refused() {
    let error = embedded_parser().parse(String::from("bot /dance")).unwrap_err();
    assert_eq!(error.message, INVALID_CMD);
}

#[test]
fn parse_reads_the_second_token_between_spaces() {
    let error = embedded_parser().parse(String::from("bot  /say_hello")).unwrap_err();
    assert_eq!(error.message, INVALID_CMD);
}

#[test]
fn parse_refuses_more_values_than_arguments() {
    let error = embedded_parser().parse(String::from("bot /say_hello now")).unwrap_err();
    assert_eq!(error.message, MISSING_ARGS);
    let error = embedded_parser().parse(String::from("bot /embedded a b c d")).unwrap_err();
    assert_eq!(error.message, MISSING_ARGS);
}

#[test]
fn parse_without_values_binds_nothing() {
    let command = embedded_parser().parse(String::from("bot /embedded")).unwrap();
    assert_eq!(command.command, "/embedded");
    assert_eq!(command.required_arguments, Vec::<(String, String)>::new());
    assert_eq!(command.optional_arguments, Vec::<(String, String)>::new());
}

#[test]
fn parse_binds_the_values_after_the_command_to_the_declared_arguments() {
    let command = embedded_parser().parse(String::from("bot /embedded true 4")).unwrap();
    assert_eq!(command.command, "/embedded");
    assert_eq!(command.required_arguments, vec![pair("is_embedded", "true")]);
    assert_eq!(command.optional_arguments, vec![pair("table", "4")]);
}

#[test]
fn parse_binds_one_required_argument_to_the_one_value() {
    let mut parser: Parser<Callback> = Parser::new();
    parser.add_command(
        "/embedded",
        vec![Box::new(RequiredArgument::<String>::new("is_embedded"))],
        nothing,
    );
    let command = parser.parse(String::from("bot /embedded true")).unwrap();
    assert_eq!(command.command, "/embedded");
    assert_eq!(command.required_arguments, vec![pair("is_embedded", "true")]);
    assert_eq!(command.optional_arguments, Vec::<(String, String)>::new());
}

#[test]
fn parse_leaves_an_argument_without_value_unbound() {
    let mut parser: Parser<Callback> = Parser::new();
    let declared: Vec<Box<dyn Argument>> = vec![
        Box::new(RequiredArgument::<String>::new("x")),
        Box::new(OptionalArgument::<String>::new("y")),
    ];
    parser.add_command("/cmd", declared, nothing);
    let command = parser.parse(String::from("bot /cmd a")).unwrap();
    assert_eq!(command.required_arguments, vec![pair("x", "a")]);
    assert_eq!(command.optional_arguments, Vec::<(String, String)>::new());
    let command = parser.parse(String::from("bot /cmd a b")).unwrap();
    assert_eq!(command.command, "/cmd");
    assert_eq!(command.required_arguments, vec![pair("x", "a")]);
    assert_eq!(command.optional_arguments, vec![pair("y", "b")]);
}

#[test]
fn parse_sorts_required_and_optional_arguments_in_declaration_order() {
    let command = embedded_parser().parse(String::from("bot /embedded true 4 8080")).unwrap();
    assert_eq!(
        command.required_arguments,
        vec![pair("is_embedded", "true"), pair("port", "8080")]
    );
    assert_eq!(command.optional_arguments, vec![pair("table", "4")]);
}

#[test]
fn parse_counts_an_empty_token_as_a_value() {
    let command = embedded_parser().parse(String::from("bot /embedded ")).unwrap();
    assert_eq!(command.required_arguments, vec![pair("is_embedded", "")]);
    assert_eq!(command.optional_arguments, Vec::<(String, String)>::new());
}

#[test]
fn parse_runs_the_handler_once_on_what_it_bound() {
    let seen: Rc<RefCell<Vec<(ArgTuple, ArgTuple)>>> = Rc::new(RefCell::new(Vec::new()));
    let log = seen.clone();
    let handler = move |required: &ArgTuple, optional: &ArgTuple| {
        log.borrow_mut().push((required.clone(), optional.clone()));
    };
    let mut parser = Parser::new();
    parser.add_command("/embedded", embedded_arguments(), handler);
    let command = parser.parse(String::from("bot /embedded true 4")).unwrap();
    let calls = seen.borrow();
    assert_eq!(calls.len(), 1);
    assert_eq!(calls[0].0, command.required_arguments);
    assert_eq!(calls[0].1, command.optional_arguments);
}

#[test]
fn parse_runs_no_handler_on_an_error() {
    let seen: Rc<RefCell<usize>> = Rc::new(RefCell::new(0));
    let log = seen.clone();
    let handler = move |_required: &ArgTuple, _optional: &ArgTuple| {
        *log.borrow_mut() += 1;
    };
    let mut parser = Parser::new();
    parser.add_command("/say_hello", vec![], handler);
    assert!(parser.parse(String::from("bot /say_hello now")).is_err());
    assert!(parser.parse(String::from("bot /other")).is_err());
    assert!(parser.parse(String::from("bot")).is_err());
    assert_eq!(*seen.borrow(), 0);
    assert!(parser.parse(String::from("bot /say_hello")).is_ok());
    assert_eq!(*seen.borrow(), 1);
}

#[test]
fn add_command_replaces_a_command_of_the_same_name() {
    let mut parser = embedded_parser();
    assert_eq!(parser.get_command_arguments("/embedded").len(), 3);
    parser.add_command(
        "/embedded",
        vec![Box::new(OptionalArgument::<String>::new("mode"))],
        nothing,
    );
    let arguments = parser.get_command_arguments("/embedded");
    assert_eq!(arguments.len(), 1);
    assert_eq!(arguments[0].name(), "mode");
    assert!(!arguments[0].is_required());
    assert_eq!(parser.get_command_arguments("/say_hello").len(), 0);
    let command = parser.parse(String::from("bot /embedded x")).unwrap();
    assert_eq!(command.optional_arguments, vec![pair("mode", "x")]);
    assert!(parser.parse(String::from("bot /embedded x y")).is_err());
}

#[test]
fn get_command_arguments_gives_the_declaration() {
    let parser = embedded_parser();
    let arguments = parser.get_command_arguments("/embedded");
    let names: Vec<&str> = arguments.iter().map(|a| a.name()).collect();
    let required: Vec<bool> = arguments.iter().map(|a| a.is_required()).collect();
    assert_eq!(names, vec!["is_embedded", "table", "port"]);
    assert_eq!(required, vec![true, false, true]);
}

#[test]
fn a_new_parser_knows_no_command() {
    let parser: Parser<Callback> = Parser::new();
    let error = parser.parse(String::from("bot /say_hello")).unwrap_err();
    assert_eq!(error.message, INVALID_CMD);
}

struct Flag;

impl Argument for Flag {
    fn name(&self) -> &str {
        "flag"
    }

    fn is_required(&self) -> bool {
        false
    }
}

#[test]
fn an_argument_of_the_callers_own_kind_is_bound_like_any_other() {
    let mut parser: Parser<Callback> = Parser::new();
    parser.add_command("/set", vec![Box::new(Flag)], nothing);
    let command = parser.parse(String::from("bot /set on")).unwrap();
    assert_eq!(command.optional_arguments, vec![pair("flag", "on")]);
    assert_eq!(command.required_arguments, Vec::<(String, String)>::new());
}

#[test]
fn every_supplied_value_is_bound_once() {
    for (message, supplied) in [("bot /embedded", 0), ("bot /embedded a", 1), ("bot /embedded a b", 2), ("bot /embedded a b c", 3)] {
        let command = embedded_parser().parse(String::from(message)).unwrap();
        assert_eq!(command.required_arguments.len() + command.optional_arguments.len(), supplied);
    }
}
