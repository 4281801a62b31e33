//! The command bar: splitting a typed command into arguments and deciding what it asks for.

use vstd::prelude::*;

use crate::text::{
    chars_eq_str, chars_of, is_whitespace, spec_is_whitespace, spec_trim, string_from_chars,
    to_lowercase, trim, unicode_lowercase,
};

verus! {

/// Where splitting a command line stands after some of its characters.
pub struct SplitState {
    /// Arguments completed so far
    pub args: Seq<Seq<char>>,
    /// The argument being read
    pub current: Seq<char>,
    /// The quote character of the literal being read, if inside one
    pub literal: Option<char>,
}

/// The arguments completed so far, with the current one appended when it is not empty.
pub open spec fn flush(st: SplitState) -> Seq<Seq<char>> {
    if st.current.len() > 0 {
        st.args.push(st.current)
    } else {
        st.args
    }
}

/// One character of a command line: inside a literal every character but the closing quote
/// belongs to the argument, and the closing quote ends it (even when empty); outside,
/// whitespace ends a non-empty argument, a quote (`'` or `"`) ends a non-empty argument and
/// opens a literal, and any other character extends the argument.
pub open spec fn split_step(st: SplitState, c: char) -> SplitState {
    match st.literal {
        Some(q) => if c != q {
            SplitState { current: st.current.push(c), ..st }
        } else {
            SplitState { args: st.args.push(st.current), current: Seq::empty(), literal: None }
        },
        None => if spec_is_whitespace(c) {
            SplitState { args: flush(st), current: Seq::empty(), literal: None }
        } else if c == '\'' || c == '"' {
            SplitState { args: flush(st), current: Seq::empty(), literal: Some(c) }
        } else {
            SplitState { current: st.current.push(c), ..st }
        },
    }
}

/// The state after the first `n` characters of `s`.
pub open spec fn split_prefix(s: Seq<char>, n: nat) -> SplitState
    decreases n,
{
    if n == 0 {
        SplitState { args: Seq::empty(), current: Seq::empty(), literal: None }
    } else {
        split_step(split_prefix(s, (n - 1) as nat), s[n - 1])
    }
}

/// The arguments of a command line: the trimmed line split as [split_step] says, with a
/// final non-empty argument kept even where its literal is never closed.
pub open spec fn spec_command_arguments(line: Seq<char>) -> Seq<Seq<char>> {
    let t = spec_trim(line);
    flush(split_prefix(t, t.len()))
}

/// The views of some strings.
pub open spec fn string_views(v: Seq<String>) -> Seq<Seq<char>> {
    v.map_values(|s: String| s@)
}

/// Splits a command line into arguments, separated by whitespace; `'` and `"` quote
/// arguments that hold whitespace.
pub fn parse_command_arguments(command_buffer: &str) -> (args: Vec<String>)
    ensures
        string_views(args@) == spec_command_arguments(command_buffer@),
{
    let all = chars_of(command_buffer);
    let line = trim(&all);
    let mut args: Vec<String> = Vec::new();
    let mut current: Vec<char> = Vec::new();
    let mut literal: Option<char> = None;
    let mut i: usize = 0;
    assert(string_views(args@) =~= Seq::<Seq<char>>::empty());
    assert(current@ =~= Seq::<char>::empty());
    while i < line.len()
        invariant
            i <= line@.len(),
            split_prefix(line@, i as nat) == (SplitState {
                args: string_views(args@),
                current: current@,
                literal,
            }),
        decreases line@.len() - i,
    {
        let c = line[i];
        let ghost st = split_prefix(line@, i as nat);
        let ghost old_args = args@;
        match literal {
            Some(q) => {
                if c != q {
                    current.push(c);
                } else {
                    args.push(string_from_chars(&current));
                    current = Vec::new();
                    literal = None;
                }
            },
            None => {
                if is_whitespace(c) {
                    if current.len() > 0 {
                        args.push(string_from_chars(&current));
                        current = Vec::new();
                    }
                } else if c == '\'' || c == '"' {
                    if current.len() > 0 {
                        args.push(string_from_chars(&current));
                        current = Vec::new();
                    }
                    literal = Some(c);
                } else {
                    current.push(c);
                }
            },
        }
        assert(string_views(args@) =~= split_step(st, c).args);
        assert(current@ =~= split_step(st, c).current);
        i += 1;
    }
    if current.len() > 0 {
        args.push(string_from_chars(&current));
    }
    assert(string_views(args@) =~= spec_command_arguments(command_buffer@));
    args
}

/// What a command asks for
#[derive(Debug, Clone, PartialEq, Eq)]
pub enum CommandAction {
    /// Quit the application
    Quit,
    /// Show a popup with this text
    ShowToast(String),
    /// Initialize the opmode of this name
    InitOpMode(String),
    /// Start the opmode of this name
    StartOpMode(String),
    /// Stop the running opmode
    StopOpMode,
}

/// The mathematical value of a [CommandAction].
pub enum CommandActionView {
    Quit,
    ShowToast(Seq<char>),
    InitOpMode(Seq<char>),
    StartOpMode(Seq<char>),
    StopOpMode,
}

impl View for CommandAction {
    type V = CommandActionView;

    open spec fn view(&self) -> CommandActionView {
        match self {
            CommandAction::Quit => CommandActionView::Quit,
            CommandAction::ShowToast(s) => CommandActionView::ShowToast(s@),
            CommandAction::InitOpMode(s) => CommandActionView::InitOpMode(s@),
            CommandAction::StartOpMode(s) => CommandActionView::StartOpMode(s@),
            CommandAction::StopOpMode => CommandActionView::StopOpMode,
        }
    }
}

/// Each argument followed by a space.
pub open spec fn join_with_spaces(args: Seq<Seq<char>>) -> Seq<char>
    decreases args.len(),
{
    if args.len() == 0 {
        Seq::empty()
    } else {
        join_with_spaces(args.drop_last()) + args.last().push(' ')
    }
}

/// What the arguments of a command ask for. The command name (the first argument) is
/// matched after lowercasing: `quit`, `q`, `q!`, `wq` and `wqa` quit; `showtoast` and
/// `echo` show the other arguments, each followed by a space; `initopmode` and
/// `startopmode` act on the opmode named by the second argument; `stopopmode` and `stop`
/// stop the running opmode. Anything else, or a missing opmode name, is reported in a toast.
pub open spec fn spec_command_action(args: Seq<Seq<char>>) -> CommandActionView {
    spec_named_command_action(unicode_lowercase(args[0]), args)
}

/// What the arguments of a command ask for, given its lowercased name (see
/// [spec_command_action]).
pub open spec fn spec_named_command_action(name: Seq<char>, args: Seq<Seq<char>>) -> CommandActionView {
    if name == "quit"@ || name == "q"@ || name == "q!"@ || name == "wq"@ || name == "wqa"@ {
        CommandActionView::Quit
    } else if name == "showtoast"@ || name == "echo"@ {
        CommandActionView::ShowToast(join_with_spaces(args.skip(1)))
    } else if name == "initopmode"@ {
        if args.len() < 2 {
            CommandActionView::ShowToast("Expected name of opmode to initialize"@)
        } else {
            CommandActionView::InitOpMode(args[1])
        }
    } else if name == "startopmode"@ {
        if args.len() < 2 {
            CommandActionView::ShowToast("Expected name of opmode to start"@)
        } else {
            CommandActionView::StartOpMode(args[1])
        }
    } else if name == "stopopmode"@ || name == "stop"@ {
        CommandActionView::StopOpMode
    } else {
        CommandActionView::ShowToast("Invalid or incomplete command "@ + name)
    }
}

/// Decides what a split command line asks for.
pub fn command_action(args: &Vec<String>) -> (action: CommandAction)
    requires
        args@.len() > 0,
    ensures
        action@ == spec_command_action(string_views(args@)),
{
    let lowered = to_lowercase(args[0].as_str());
    named_command_action(lowered.as_str(), args)
}

/// Decides what a split command line asks for, given the lowercased command name.
pub fn named_command_action(lowered: &str, args: &Vec<String>) -> (action: CommandAction)
    requires
        args@.len() > 0,
    ensures
        action@ == spec_named_command_action(lowered@, string_views(args@)),
{
    let ghost views = string_views(args@);
    let name = chars_of(lowered);
    if chars_eq_str(&name, "quit") || chars_eq_str(&name, "q") || chars_eq_str(&name, "q!")
        || chars_eq_str(&name, "wq") || chars_eq_str(&name, "wqa") {
        CommandAction::Quit
    } else if chars_eq_str(&name, "showtoast") || chars_eq_str(&name, "echo") {
        let mut text: Vec<char> = Vec::new();
        let mut i: usize = 1;
        while i < args.len()
            invariant
                1 <= i <= args@.len(),
                views == string_views(args@),
                text@ == join_with_spaces(views.skip(1).take(i - 1)),
            decreases args@.len() - i,
        {
            let arg = chars_of(args[i].as_str());
            let mut j: usize = 0;
            let ghost before = text@;
            while j < arg.len()
                invariant
                    j <= arg@.len(),
                    text@ == before + arg@.take(j as int),
                decreases arg@.len() - j,
            {
                text.push(arg[j]);
                j += 1;
                assert(arg@.take(j as int) =~= arg@.take(j - 1).push(arg@[j - 1]));
            }
            text.push(' ');
            assert(views.skip(1).take(i as int).drop_last() =~= views.skip(1).take(i - 1));
            assert(arg@.take(j as int) =~= views[i as int]);
            assert(text@ =~= join_with_spaces(views.skip(1).take(i as int)));
            i += 1;
        }
        assert(views.skip(1).take(i - 1) =~= views.skip(1));
        CommandAction::ShowToast(string_from_chars(&text))
    } else if chars_eq_str(&name, "initopmode") {
        if args.len() < 2 {
            CommandAction::ShowToast(String::from_str("Expected name of opmode to initialize"))
        } else {
            CommandAction::InitOpMode(args[1].clone())
        }
    } else if chars_eq_str(&name, "startopmode") {
        if args.len() < 2 {
            CommandAction::ShowToast(String::from_str("Expected name of opmode to start"))
        } else {
            CommandAction::StartOpMode(args[1].clone())
        }
    } else if chars_eq_str(&name, "stopopmode") || chars_eq_str(&name, "stop") {
        CommandAction::StopOpMode
    } else {
        let mut text = chars_of("Invalid or incomplete command ");
        let ghost prefix = text@;
        let mut j: usize = 0;
        while j < name.len()
            invariant
                j <= name@.len(),
                text@ == prefix + name@.take(j as int),
            decreases name@.len() - j,
        {
            text.push(name[j]);
            j += 1;
            assert(name@.take(j as int) =~= name@.take(j - 1).push(name@[j - 1]));
        }
        assert(name@.take(j as int) =~= name@);
        CommandAction::ShowToast(string_from_chars(&text))
    }
}

} // verus!
