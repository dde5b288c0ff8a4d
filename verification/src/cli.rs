use vstd::prelude::*;
use vstd::string::StrSliceExecFns;

use crate::ipc::IPCCommand;
use crate::ui::visibility_after;

verus! {

/// What one start of the program does.
#[derive(Debug, Clone, Copy, PartialEq, Eq, Structural)]
pub enum Invocation {
    /// Send this command to the bridge that is already running, then exit.
    Send(IPCCommand),
    /// Run the bridge itself: the window, the IPC server and the OSC link.
    RunBridge,
}

/// The command that a command-line argument names, if any.
pub open spec fn command_named(arg: Seq<char>) -> Option<IPCCommand> {
    if arg == "toggle"@ {
        Some(IPCCommand::Toggle)
    } else if arg == "show"@ {
        Some(IPCCommand::Show)
    } else if arg == "hide"@ {
        Some(IPCCommand::Hide)
    } else {
        None
    }
}

/// What the program does when started with `args` (the program name first): the first
/// argument after it decides; any other argument, or none, runs the bridge.
pub open spec fn invocation_for(args: Seq<Seq<char>>) -> Invocation {
    if args.len() > 1 {
        match command_named(args[1]) {
            Some(cmd) => Invocation::Send(cmd),
            None => Invocation::RunBridge,
        }
    } else {
        Invocation::RunBridge
    }
}

/// Whether two texts hold the same characters.
fn same_text(a: &str, b: &str) -> (r: bool)
    ensures
        r == (a@ == b@),
{
    let n = a.unicode_len();
    if n != b.unicode_len() {
        return false;
    }
    let mut i: usize = 0;
    while i < n
        invariant
            n == a@.len(),
            n == b@.len(),
            i <= n,
            forall|k: int| 0 <= k < i ==> a@[k] == b@[k],
        decreases n - i,
    {
        if a.get_char(i) != b.get_char(i) {
            return false;
        }
        i = i + 1;
    }
    assert(a@ =~= b@);
    true
}

/// The command that `arg` names: `toggle`, `show` or `hide`, spelled exactly so.
pub fn command_for_argument(arg: &str) -> (r: Option<IPCCommand>)
    ensures
        r == command_named(arg@),
{
    if same_text(arg, "toggle") {
        Some(IPCCommand::Toggle)
    } else if same_text(arg, "show") {
        Some(IPCCommand::Show)
    } else if same_text(arg, "hide") {
        Some(IPCCommand::Hide)
    } else {
        None
    }
}

/// Decides what this start of the program does from its arguments.
pub fn parse_invocation(args: &Vec<String>) -> (r: Invocation)
    ensures
        r == invocation_for(args@.map_values(|a: String| a@)),
        args@.len() <= 1 ==> r == Invocation::RunBridge,
        args@.len() > 1 ==> ((r == Invocation::Send(IPCCommand::Toggle)) <==> args@[1]@
            == "toggle"@),
        args@.len() > 1 ==> ((r == Invocation::Send(IPCCommand::Show)) <==> args@[1]@
            == "show"@),
        args@.len() > 1 ==> ((r == Invocation::Send(IPCCommand::Hide)) <==> args@[1]@
            == "hide"@),
{
    proof {
        lemma_command_names_distinct();
    }
    let ghost views = args@.map_values(|a: String| a@);
    if args.len() > 1 {
        assert(views[1] == args@[1]@);
        match command_for_argument(args[1].as_str()) {
            Some(cmd) => Invocation::Send(cmd),
            None => Invocation::RunBridge,
        }
    } else {
        Invocation::RunBridge
    }
}

/// The arguments do what the usage table promises once the running bridge applies the
/// command they name: `show` leaves the window shown, `hide` leaves it hidden, and
/// `toggle` turns it to the opposite of what it was.
pub proof fn lemma_arguments_act_as_documented(visible: bool)
    ensures
        command_named("show"@) == Some(IPCCommand::Show),
        command_named("hide"@) == Some(IPCCommand::Hide),
        command_named("toggle"@) == Some(IPCCommand::Toggle),
        visibility_after(visible, command_named("show"@)->0),
        !visibility_after(visible, command_named("hide"@)->0),
        visibility_after(visible, command_named("toggle"@)->0) == !visible,
{
    reveal_strlit("show");
    reveal_strlit("hide");
    reveal_strlit("toggle");
    assert("show"@ != "toggle"@) by {
        assert("show"@.len() != "toggle"@.len());
    }
    assert("hide"@ != "toggle"@) by {
        assert("hide"@.len() != "toggle"@.len());
    }
    assert("hide"@ != "show"@) by {
        assert("hide"@[0] != "show"@[0]);
    }
}

/// The three command names are different texts.
proof fn lemma_command_names_distinct()
    ensures
        "show"@ != "toggle"@,
        "hide"@ != "toggle"@,
        "hide"@ != "show"@,
{
    reveal_strlit("show");
    reveal_strlit("hide");
    reveal_strlit("toggle");
    assert("show"@.len() != "toggle"@.len());
    assert("hide"@.len() != "toggle"@.len());
    assert("hide"@[0] != "show"@[0]);
}

/// Only the first argument after the program name decides: with no such argument the
/// bridge runs; otherwise the program sends `toggle`, `show` or `hide` exactly when that
/// argument is that word, and runs the bridge for any other argument.
pub proof fn lemma_first_argument_decides(args: Seq<Seq<char>>)
    ensures
        args.len() <= 1 ==> invocation_for(args) == Invocation::RunBridge,
        args.len() > 1 ==> ((invocation_for(args) == Invocation::Send(IPCCommand::Toggle))
            <==> args[1] == "toggle"@),
        args.len() > 1 ==> ((invocation_for(args) == Invocation::Send(IPCCommand::Show))
            <==> args[1] == "show"@),
        args.len() > 1 ==> ((invocation_for(args) == Invocation::Send(IPCCommand::Hide))
            <==> args[1] == "hide"@),
        args.len() > 1 ==> ((invocation_for(args) == Invocation::RunBridge) <==> (args[1]
            != "toggle"@ && args[1] != "show"@ && args[1] != "hide"@)),
{
    lemma_command_names_distinct();
}

/// The program's own name never matters: two argument lists that differ only in their
/// first entry (the path the program was started by) lead to the same invocation.
pub proof fn lemma_program_name_irrelevant(a: Seq<Seq<char>>, b: Seq<Seq<char>>)
    requires
        a.len() > 0,
        b.len() > 0,
        a.drop_first() == b.drop_first(),
    ensures
        invocation_for(a) == invocation_for(b),
{
    assert(a.len() == a.drop_first().len() + 1);
    assert(b.len() == b.drop_first().len() + 1);
    assert(a.len() == b.len());
    if a.len() > 1 {
        assert(a[1] == a.drop_first()[0]);
        assert(b[1] == b.drop_first()[0]);
    }
    lemma_first_argument_decides(a);
    lemma_first_argument_decides(b);
}

} // verus!
