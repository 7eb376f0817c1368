//! Plain-text command parsing: a message is cut at its spaces, the first
//! token addresses the bot, the second names the command, and the tokens
//! after it are the values of the command's declared arguments, in the order
//! of the declaration.

use crate::text::{split, split_text};
use crate::types::ArgTuple;
use vstd::prelude::*;

verus! {

/// One declared argument of a command, as contracts see it.
pub struct ArgumentModel {
    pub name: Seq<char>,
    pub required: bool,
}

/// A declared argument of a command.
///
/// An argument answers for its name and for whether it is required, and it
/// answers the same each time it is asked: `spec_name` and `spec_is_required`
/// stand for the two answers in contracts. A type that gives them no
/// definition of its own leaves them unnamed values.
pub trait Argument {
    /// The name under which the argument's value is handed to the handler.
    open spec fn spec_name(&self) -> Seq<char> {
        arbitrary()
    }

    /// Whether a command cannot do without the argument.
    open spec fn spec_is_required(&self) -> bool {
        arbitrary()
    }

    /// The name under which the argument's value is handed to the handler.
    fn name(&self) -> (r: &str)
        ensures
            r@ == self.spec_name(),
    ;

    /// Whether a command cannot do without the argument.
    fn is_required(&self) -> (r: bool)
        ensures
            r == self.spec_is_required(),
    ;
}

/// The model of one declared argument.
pub open spec fn model_of<A: Argument + ?Sized>(argument: &A) -> ArgumentModel {
    ArgumentModel { name: argument.spec_name(), required: argument.spec_is_required() }
}

/// The models of a command's declared arguments, in declaration order.
pub open spec fn models_of(arguments: Seq<Box<dyn Argument>>) -> Seq<ArgumentModel> {
    Seq::new(arguments.len(), |i: int| model_of(&*arguments[i]))
}

/// An argument that a command cannot do without. `T` records the type that
/// the handler reads the value as.
pub struct RequiredArgument<T> {
    name: String,
    _phantom: std::marker::PhantomData<T>,
}

impl<T> RequiredArgument<T> {
    /// A required argument of this name.
    pub fn new(name: &str) -> (r: Self)
        ensures
            r.spec_name() == name@,
            r.spec_is_required(),
    {
        RequiredArgument { name: name.to_owned(), _phantom: std::marker::PhantomData }
    }
}

impl<T> Argument for RequiredArgument<T> {
    closed spec fn spec_name(&self) -> Seq<char> {
        self.name@
    }

    open spec fn spec_is_required(&self) -> bool {
        true
    }

    fn name(&self) -> (r: &str) {
        self.name.as_str()
    }

    fn is_required(&self) -> (r: bool) {
        true
    }
}

/// An argument that a command may be given. `T` records the type that the
/// handler reads the value as.
pub struct OptionalArgument<T> {
    name: String,
    _phantom: std::marker::PhantomData<T>,
}

impl<T> OptionalArgument<T> {
    /// An optional argument of this name.
    pub fn new(name: &str) -> (r: Self)
        ensures
            r.spec_name() == name@,
            !r.spec_is_required(),
    {
        OptionalArgument { name: name.to_owned(), _phantom: std::marker::PhantomData }
    }
}

impl<T> Argument for OptionalArgument<T> {
    closed spec fn spec_name(&self) -> Seq<char> {
        self.name@
    }

    open spec fn spec_is_required(&self) -> bool {
        false
    }

    fn name(&self) -> (r: &str) {
        self.name.as_str()
    }

    fn is_required(&self) -> (r: bool) {
        false
    }
}

/// Why a message is no command. The message says it all: every such error is
/// one of invalid data.
#[derive(Clone, Debug, PartialEq, Eq)]
pub struct InvalidCommand {
    pub message: String,
}

impl View for InvalidCommand {
    type V = Seq<char>;

    open spec fn view(&self) -> Seq<char> {
        self.message@
    }
}

/// A parsed command: its name and the values bound to its arguments.
#[derive(Clone, Debug, PartialEq, Eq)]
pub struct Command {
    pub command: String,
    pub required_arguments: ArgTuple,
    pub optional_arguments: ArgTuple,
}

/// A parsed command as contracts see it.
pub struct CommandView {
    pub command: Seq<char>,
    pub required_arguments: Seq<(Seq<char>, Seq<char>)>,
    pub optional_arguments: Seq<(Seq<char>, Seq<char>)>,
}

impl View for Command {
    type V = CommandView;

    open spec fn view(&self) -> CommandView {
        CommandView {
            command: self.command@,
            required_arguments: self.required_arguments.deep_view(),
            optional_arguments: self.optional_arguments.deep_view(),
        }
    }
}

/// The message of the error for a text that holds no command name.
pub const NO_CMD: &'static str = "Command was not specified!";

/// The message of the error for a command name that was never added.
pub const INVALID_CMD: &'static str = "You have entered an invalid Command!";

/// The message of the error for a text with more values than the command
/// declares arguments.
pub const MISSING_ARGS: &'static str = "Missing required variables.";

/// The three messages differ from one another: an error tells its cause.
pub proof fn lemma_messages_differ()
    ensures
        NO_CMD@ != INVALID_CMD@,
        NO_CMD@ != MISSING_ARGS@,
        INVALID_CMD@ != MISSING_ARGS@,
{
    reveal_strlit("Command was not specified!");
    reveal_strlit("You have entered an invalid Command!");
    reveal_strlit("Missing required variables.");
    assert(NO_CMD@.len() == 26);
    assert(INVALID_CMD@.len() == 36);
    assert(MISSING_ARGS@.len() == 27);
}

impl Command {
    /// The error that carries `error` as its message.
    pub fn invalid(error: &str) -> (e: InvalidCommand)
        ensures
            e@ == error@,
    {
        InvalidCommand { message: error.to_owned() }
    }
}

/// The first `count` declared arguments of the wanted kind, each paired with
/// its value: the value of declared argument `i` is token `i + 2` of the
/// message, the tokens 0 and 1 being the bot's name and the command's.
pub open spec fn bound_arguments(
    declared: Seq<ArgumentModel>,
    tokens: Seq<Seq<char>>,
    count: int,
    required: bool,
) -> Seq<(Seq<char>, Seq<char>)>
    decreases count,
{
    if count <= 0 {
        Seq::empty()
    } else {
        let earlier = bound_arguments(declared, tokens, count - 1, required);
        if declared[count - 1].required == required {
            earlier.push((declared[count - 1].name, tokens[count + 1]))
        } else {
            earlier
        }
    }
}

/// How many of the first `i` declared arguments are of the wanted kind.
pub open spec fn earlier_of_kind(declared: Seq<ArgumentModel>, i: int, required: bool) -> int
    decreases i,
{
    if i <= 0 {
        0
    } else {
        earlier_of_kind(declared, i - 1, required) + if declared[i - 1].required == required {
            1int
        } else {
            0int
        }
    }
}

/// Every supplied value is bound once: to a required argument or to an
/// optional one.
pub proof fn lemma_every_value_is_bound(
    declared: Seq<ArgumentModel>,
    tokens: Seq<Seq<char>>,
    count: int,
)
    requires
        0 <= count,
    ensures
        bound_arguments(declared, tokens, count, true).len() == earlier_of_kind(
            declared,
            count,
            true,
        ),
        bound_arguments(declared, tokens, count, false).len() == earlier_of_kind(
            declared,
            count,
            false,
        ),
        bound_arguments(declared, tokens, count, true).len() + bound_arguments(
            declared,
            tokens,
            count,
            false,
        ).len() == count,
    decreases count,
{
    if count > 0 {
        lemma_every_value_is_bound(declared, tokens, count - 1);
    }
}

/// Each supplied value stands with its own argument, and the order of the
/// declaration is kept: of `count` supplied values, the one for declared
/// argument `i` is token `i + 2` of the message, and it stands in the list
/// of the argument's kind behind the values of all earlier arguments of that
/// kind.
pub proof fn lemma_each_value_stands_with_its_argument(
    declared: Seq<ArgumentModel>,
    tokens: Seq<Seq<char>>,
    count: int,
    i: int,
)
    requires
        0 <= i < count,
    ensures
        0 <= earlier_of_kind(declared, i, declared[i].required) < bound_arguments(
            declared,
            tokens,
            count,
            declared[i].required,
        ).len(),
        bound_arguments(declared, tokens, count, declared[i].required)[earlier_of_kind(
            declared,
            i,
            declared[i].required,
        )] == (declared[i].name, tokens[i + 2]),
    decreases count,
{
    lemma_every_value_is_bound(declared, tokens, count - 1);
    lemma_every_value_is_bound(declared, tokens, i);
    if i < count - 1 {
        lemma_each_value_stands_with_its_argument(declared, tokens, count - 1, i);
    }
}

/// What parsing `message` gives where `known` maps each command name to its
/// declared arguments: the command, or the message of the error.
pub open spec fn parse_outcome(
    known: Map<Seq<char>, Seq<ArgumentModel>>,
    message: Seq<char>,
) -> Result<CommandView, Seq<char>> {
    let tokens = split(message, ' ');
    if tokens.len() <= 1 {
        Err(NO_CMD@)
    } else if !known.dom().contains(tokens[1]) {
        Err(INVALID_CMD@)
    } else {
        let declared = known[tokens[1]];
        let supplied = tokens.len() - 2;
        if declared.len() < supplied {
            Err(MISSING_ARGS@)
        } else {
            Ok(
                CommandView {
                    command: tokens[1],
                    required_arguments: bound_arguments(declared, tokens, supplied, true),
                    optional_arguments: bound_arguments(declared, tokens, supplied, false),
                },
            )
        }
    }
}

/// Whether a handler may be called with whatever arguments a message binds.
pub open spec fn takes_any_arguments<F: Fn(&ArgTuple, &ArgTuple)>(handler: F) -> bool {
    forall|required: &ArgTuple, optional: &ArgTuple|
        call_requires(handler, (required, optional))
}

/// A command as the parser keeps it.
struct Registered<F> {
    name: String,
    callback: F,
    arguments: Vec<Box<dyn Argument>>,
}

/// Whether the command at position `i` goes by `name`.
spec fn named_at<F>(commands: Seq<Registered<F>>, name: Seq<char>, i: int) -> bool {
    0 <= i < commands.len() && commands[i].name@ == name
}

/// Whether no two commands go by one name.
spec fn names_differ<F>(commands: Seq<Registered<F>>) -> bool {
    forall|i: int, j: int|
        0 <= i < j < commands.len() ==> #[trigger] commands[i].name@ != #[trigger] commands[j].name@
}

/// The position of the command that goes by `name`.
spec fn position_of<F>(commands: Seq<Registered<F>>, name: Seq<char>) -> int {
    choose|i: int| named_at(commands, name, i)
}

/// Where no two commands go by one name, the command that goes by `name` is
/// at one position only.
proof fn lemma_position<F>(commands: Seq<Registered<F>>, name: Seq<char>, i: int)
    requires
        names_differ(commands),
        named_at(commands, name, i),
    ensures
        position_of(commands, name) == i,
{
    let chosen = position_of(commands, name);
    assert(named_at(commands, name, chosen));
    if chosen < i {
        assert(commands[chosen].name@ != commands[i].name@);
    } else if i < chosen {
        assert(commands[i].name@ != commands[chosen].name@);
    }
}

/// The commands that can be parsed, each with its declared arguments and the
/// handler that is run on a successful parse. No name is kept twice.
pub struct Parser<F: Fn(&ArgTuple, &ArgTuple)> {
    commands: Vec<Registered<F>>,
}

impl<F: Fn(&ArgTuple, &ArgTuple)> Parser<F> {
    /// No two commands go by one name, and every handler may be called with
    /// whatever arguments a message binds.
    #[verifier::type_invariant]
    spec fn well_formed(&self) -> bool {
        &&& names_differ(self.commands@)
        &&& forall|i: int|
            0 <= i < self.commands.len() ==> takes_any_arguments(
                #[trigger] self.commands[i].callback,
            )
    }

    /// Whether a command goes by `name`.
    spec fn knows(&self, name: Seq<char>) -> bool {
        exists|i: int| named_at(self.commands@, name, i)
    }

    /// The declared arguments of the command that goes by `name`.
    spec fn arguments(&self, name: Seq<char>) -> Seq<ArgumentModel> {
        models_of(self.commands[position_of(self.commands@, name)].arguments@)
    }

    /// The handler of the command of this name.
    pub closed spec fn handler(&self, name: Seq<char>) -> F {
        self.commands[position_of(self.commands@, name)].callback
    }

    /// The known command names, each with its declared arguments.
    pub closed spec fn view(&self) -> Map<Seq<char>, Seq<ArgumentModel>> {
        Map::new(|name: Seq<char>| self.knows(name), |name: Seq<char>| self.arguments(name))
    }

    /// A parser that knows no command.
    pub fn new() -> (parser: Self)
        ensures
            parser@ == Map::<Seq<char>, Seq<ArgumentModel>>::empty(),
    {
        let parser = Parser { commands: Vec::new() };
        assert(parser@ =~= Map::<Seq<char>, Seq<ArgumentModel>>::empty());
        parser
    }

    /// The position of the command that goes by `name`, if there is one.
    fn find(&self, name: &String) -> (found: Option<usize>)
        ensures
            match found {
                Some(i) => named_at(self.commands@, name@, i as int) && position_of(
                    self.commands@,
                    name@,
                ) == i,
                None => !self.knows(name@),
            },
    {
        proof {
            use_type_invariant(self);
        }
        let mut i: usize = 0;
        while i < self.commands.len()
            invariant
                i <= self.commands.len(),
                names_differ(self.commands@),
                forall|j: int| 0 <= j < i ==> !named_at(self.commands@, name@, j),
            decreases self.commands.len() - i,
        {
            if self.commands[i].name == *name {
                proof {
                    lemma_position(self.commands@, name@, i as int);
                }
                return Some(i);
            }
            i = i + 1;
        }
        None
    }

    /// Adds the command `name`, or replaces the one added under that name
    /// before.
    pub fn add_command(&mut self, name: &str, args: Vec<Box<dyn Argument>>, callback: F)
        requires
            takes_any_arguments(callback),
        ensures
            final(self)@ == old(self)@.insert(name@, models_of(args@)),
            final(self).handler(name@) == callback,
            forall|other: Seq<char>|
                other != name@ && old(self)@.dom().contains(other) ==> final(self).handler(other)
                    == old(self).handler(other),
    {
        proof {
            use_type_invariant(&*self);
        }
        let key = name.to_owned();
        let found = self.find(&key);
        let entry = Registered { name: key, callback, arguments: args };
        let mut commands: Vec<Registered<F>> = Vec::new();
        std::mem::swap(&mut self.commands, &mut commands);
        let ghost before = commands@;
        let ghost place = match found {
            Some(i) => i as int,
            None => before.len() as int,
        };
        match found {
            Some(i) => {
                commands[i] = entry;
            },
            None => {
                commands.push(entry);
            },
        }
        let ghost after = commands@;
        proof {
            assert(named_at(after, name@, place));
            assert forall|other: Seq<char>, i: int| other != name@ implies (named_at(
                before,
                other,
                i,
            ) <==> named_at(after, other, i)) by {}
            assert(names_differ(after)) by {
                assert forall|i: int, j: int| 0 <= i < j < after.len() implies after[i].name@
                    != after[j].name@ by {
                    if i == place {
                        assert(!named_at(after, name@, j)) by {
                            if named_at(after, name@, j) {
                                if found is Some {
                                    assert(named_at(before, name@, j));
                                    assert(before[place].name@ != before[j].name@);
                                }
                            }
                        }
                    } else if j == place {
                        assert(!named_at(after, name@, i)) by {
                            if named_at(after, name@, i) {
                                assert(named_at(before, name@, i));
                                if found is Some {
                                    assert(before[i].name@ != before[place].name@);
                                }
                            }
                        }
                    } else {
                        assert(before[i].name@ != before[j].name@);
                    }
                }
            }
            lemma_position(after, name@, place);
        }
        self.commands = commands;
        proof {
            assert forall|other: Seq<char>| other != name@ && old(self).knows(other) implies self.knows(
                other,
            ) && position_of(after, other) == position_of(before, other) by {
                let i = position_of(before, other);
                assert(named_at(before, other, i));
                assert(named_at(after, other, i));
                lemma_position(after, other, i);
            }
            assert forall|other: Seq<char>| other != name@ && self.knows(other) implies old(
                self,
            ).knows(other) by {
                let i = position_of(after, other);
                assert(named_at(after, other, i));
                assert(named_at(before, other, i));
            }
            assert(self@ =~= old(self)@.insert(name@, models_of(args@)));
        }
    }

    /// Parses `plain_string_message` and runs the handler of the command that
    /// it names on the arguments bound.
    ///
    /// The message is cut at each space. The second token names the command.
    /// Every token after it is one supplied value, and the command must
    /// declare at least that many arguments. The values are bound to the
    /// declared arguments in order: the first value to the first argument,
    /// and so on. An argument for which no value is left is not bound.
    pub fn parse(&self, plain_string_message: String) -> (parsed: Result<Command, InvalidCommand>)
        ensures
            match parsed {
                Ok(command) => {
                    &&& parse_outcome(self@, plain_string_message@) == Ok::<
                        CommandView,
                        Seq<char>,
                    >(command@)
                    &&& call_ensures(
                        self.handler(command@.command),
                        (&command.required_arguments, &command.optional_arguments),
                        (),
                    )
                },
                Err(error) => parse_outcome(self@, plain_string_message@) == Err::<
                    CommandView,
                    Seq<char>,
                >(error@),
            },
    {
        proof {
            use_type_invariant(self);
        }
        let parts = split_text(plain_string_message.as_str(), ' ');
        let ghost tokens = split(plain_string_message@, ' ');
        let num_parts = parts.len();
        if num_parts <= 1 {
            return Err(Command::invalid(NO_CMD));
        }
        assert(parts[1]@ == tokens[1]);
        let i = match self.find(&parts[1]) {
            Some(i) => i,
            None => {
                return Err(Command::invalid(INVALID_CMD));
            },
        };
        assert(self.knows(tokens[1]));
        let command_structure = &self.commands[i];
        let ghost declared = models_of(command_structure.arguments@);
        let supplied = num_parts - 2;
        if command_structure.arguments.len() < supplied {
            return Err(Command::invalid(MISSING_ARGS));
        }
        let mut required_arguments: ArgTuple = Vec::new();
        let mut optional_arguments: ArgTuple = Vec::new();
        let mut index: usize = 0;
        while index < supplied
            invariant
                index <= supplied <= command_structure.arguments.len(),
                supplied + 2 == parts.len(),
                parts.deep_view() == tokens,
                declared == models_of(command_structure.arguments@),
                required_arguments.deep_view() == bound_arguments(
                    declared,
                    tokens,
                    index as int,
                    true,
                ),
                optional_arguments.deep_view() == bound_arguments(
                    declared,
                    tokens,
                    index as int,
                    false,
                ),
            decreases supplied - index,
        {
            let argument = &command_structure.arguments[index];
            let value = parts[index + 2].clone();
            let name = argument.name().to_owned();
            if argument.is_required() {
                let ghost earlier = required_arguments.deep_view();
                required_arguments.push((name, value));
                assert(required_arguments.deep_view() =~= earlier.push((name@, value@)));
            } else {
                let ghost earlier = optional_arguments.deep_view();
                optional_arguments.push((name, value));
                assert(optional_arguments.deep_view() =~= earlier.push((name@, value@)));
            }
            index = index + 1;
        }
        (command_structure.callback)(&required_arguments, &optional_arguments);
        Ok(Command { command: parts[1].clone(), optional_arguments, required_arguments })
    }

    /// The declared arguments of the command `name`, in declaration order.
    /// The command must have been added.
    pub fn get_command_arguments(&self, name: &str) -> (arguments: &Vec<Box<dyn Argument>>)
        requires
            self@.dom().contains(name@),
        ensures
            models_of(arguments@) == self@[name@],
    {
        let key = name.to_owned();
        let found = self.find(&key);
        &self.commands[found.unwrap()].arguments
    }
}

} // verus!
