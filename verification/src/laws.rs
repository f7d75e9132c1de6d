//! What holds of every script that a fresh generator reads: how modules
//! are numbered, which names a batched test calls and where it stands in
//! the output, and that the units of trap assertions stay out of it.
use vstd::prelude::*;
use crate::calls::{cleared, nothing_pending};
use crate::emit::{
    banner_text, batch_test_text, command_name_text, factory_text, lemma_names_differ_by_number,
    line_comment_text, start_hook_text, start_name_text,
};
use crate::generator::{
    after_command, after_commands, consumed, emitted, flushed, flushed_through, initial_state,
    noted, GeneratorState,
};
use crate::script::{Action, Command, CommandKind};
use crate::text::nat_text;

verus! {

/// How many of the commands define a module.
pub open spec fn module_count(commands: Seq<Command>) -> nat
    decreases commands.len(),
{
    if commands.len() == 0 {
        0
    } else if commands.last().kind is Module {
        module_count(commands.drop_last()) + 1
    } else {
        module_count(commands.drop_last())
    }
}

/// Names are pending for the current module at most: every index has its
/// list of names, and the list of every index but the current one is empty.
/// Once a module is defined, the first name pending for it is its start hook.
pub open spec fn pending_only_current(s: GeneratorState) -> bool {
    &&& forall|module: u64| #[trigger] s.pending.dom().contains(module)
    &&& forall|module: u64| module != s.last_module ==> (#[trigger] s.pending[module]).len() == 0
    &&& s.last_module > 0 ==> s.pending[s.last_module].len() > 0 && s.pending[s.last_module][0]
        == start_name_text(s.last_module)
}

/// Visiting a command neither counts it nor moves the line, and only a
/// `Module` command changes the module index, by one.
pub proof fn lemma_command_counters(s: GeneratorState, kind: CommandKind)
    requires
        s.last_module < u64::MAX,
    ensures
        after_command(s, kind).command_no == s.command_no,
        after_command(s, kind).last_line == s.last_line,
        after_command(s, kind).last_module == if kind is Module {
            s.last_module + 1
        } else {
            s.last_module as int
        },
{
}

/// Reading commands counts each of them once, and raises the module index
/// once for each `Module` command among them and never otherwise.
pub proof fn lemma_commands_counted(s: GeneratorState, commands: Seq<Command>)
    requires
        s.last_module + commands.len() <= u64::MAX,
        s.command_no + commands.len() <= u64::MAX,
    ensures
        after_commands(s, commands).command_no == s.command_no + commands.len(),
        after_commands(s, commands).last_module == s.last_module + module_count(commands),
        module_count(commands) <= commands.len(),
    decreases commands.len(),
{
    if commands.len() > 0 {
        lemma_commands_counted(s, commands.drop_last());
        let before = after_commands(s, commands.drop_last());
        let visiting = noted(before, commands.last());
        lemma_command_counters(visiting, commands.last().kind);
    }
}

/// Module numbering. In a script read by a fresh generator, the command at
/// position `k`, if it defines a module, writes the factory and the start
/// hook whose index is one more than the number of `Module` commands before
/// it: the modules are numbered 1, 2, 3 and so on in the order of the
/// script, and no index is skipped or used twice. What the command writes
/// before them is the line comment and the batched test of the module
/// before, if names were pending for it.
pub proof fn lemma_module_numbering(commands: Seq<Command>, k: int)
    requires
        commands.len() <= u64::MAX,
        0 <= k < commands.len(),
        commands[k].kind is Module,
    ensures
        ({
            let start = emitted(initial_state(), banner_text());
            let before = after_commands(start, commands.take(k));
            let after = after_commands(start, commands.take(k + 1));
            let index = (module_count(commands.take(k)) + 1) as u64;
            let commented = emitted(before, line_comment_text(commands[k].line));
            &&& before.last_module == module_count(commands.take(k))
            &&& after.last_module == index
            &&& index == module_count(commands.take(k + 1))
            &&& after.output == flushed(commented, before.last_module).output + factory_text(
                index,
                commands[k].kind->Module_text@,
            ) + start_hook_text(start_name_text(index))
            &&& after.pending[index] == seq![start_name_text(index)]
        }),
{
    let start = emitted(initial_state(), banner_text());
    lemma_commands_counted(start, commands.take(k));
    lemma_commands_counted(start, commands.take(k + 1));
    lemma_only_current_pending(commands.take(k));
    assert(commands.take(k + 1).drop_last() =~= commands.take(k));
    assert(commands.take(k + 1).last() == commands[k]);
    let before = after_commands(start, commands.take(k));
    let after = after_commands(start, commands.take(k + 1));
    let index = (module_count(commands.take(k)) + 1) as u64;
    assert(before.pending[index].len() == 0);
    assert(after.pending[index] =~= seq![start_name_text(index)]);
}

/// Flush ordering at a module boundary. When a fresh generator reads a
/// script and the command at position `k` defines a module, that command
/// writes the batched test of the module before it (unless no name is
/// pending for that module) after everything that the commands before it
/// wrote, and before the factory of the new module. The batched test calls
/// exactly the names that were pending, in their order: those that
/// `batch_names` gives for the commands before.
pub proof fn lemma_batch_follows_units(commands: Seq<Command>, k: int)
    requires
        commands.len() <= u64::MAX,
        0 <= k < commands.len(),
        commands[k].kind is Module,
    ensures
        ({
            let start = emitted(initial_state(), banner_text());
            let before = after_commands(start, commands.take(k));
            let after = after_commands(start, commands.take(k + 1));
            let module = before.last_module;
            let batch = if before.pending[module].len() > 0 {
                batch_test_text(module, before.pending[module])
            } else {
                Seq::empty()
            };
            &&& after.output == before.output + line_comment_text(commands[k].line) + batch
                + factory_text(after.last_module, commands[k].kind->Module_text@)
                + start_hook_text(start_name_text(after.last_module))
            &&& before.pending[module] == batch_names(commands.take(k))
            &&& after.pending[module].len() == 0
        }),
{
    let start = emitted(initial_state(), banner_text());
    lemma_module_numbering(commands, k);
    lemma_pending_names(commands.take(k));
    lemma_commands_counted(start, commands.take(k));
    assert(commands.take(k + 1).drop_last() =~= commands.take(k));
    let before = after_commands(start, commands.take(k));
    let after = after_commands(start, commands.take(k + 1));
    let module = before.last_module;
    if before.pending[module].len() == 0 {
        assert(before.output + line_comment_text(commands[k].line) + Seq::<char>::empty()
            =~= before.output + line_comment_text(commands[k].line));
    }
}

/// The name of the unit that a command puts on the pending list, where it
/// is command number `command_no` of its script: the unit of an invocation
/// whose result is compared, that is only performed, or that must give a
/// NaN. Every other command, a trap assertion too, puts none there.
pub open spec fn unit_name(command_no: u64, command: Command) -> Option<Seq<char>> {
    let stem = command_name_text(command_no, command.line);
    match command.kind {
        CommandKind::AssertReturn { action, expected } => if action is Invoke {
            Some(stem + "_action_invoke"@)
        } else {
            None
        },
        CommandKind::PerformAction(action) => if action is Invoke {
            Some(stem + "_action_invoke"@)
        } else {
            None
        },
        CommandKind::AssertReturnCanonicalNan { action } => if action is Invoke {
            Some(stem + "_assert_return_canonical_nan"@)
        } else {
            None
        },
        CommandKind::AssertReturnArithmeticNan { action } => if action is Invoke {
            Some(stem + "_assert_return_arithmetic_nan"@)
        } else {
            None
        },
        _ => None,
    }
}

/// The names that wait for the batched test of the current module when a
/// fresh generator has read the commands: the start hook of the module
/// defined last, then the units of the commands after it, in the order of
/// the script. Before the first module these are the units of all commands.
pub open spec fn batch_names(commands: Seq<Command>) -> Seq<Seq<char>>
    decreases commands.len(),
{
    if commands.len() == 0 {
        Seq::empty()
    } else if commands.last().kind is Module {
        seq![start_name_text(module_count(commands) as u64)]
    } else {
        match unit_name(commands.len() as u64, commands.last()) {
            Some(name) => batch_names(commands.drop_last()).push(name),
            None => batch_names(commands.drop_last()),
        }
    }
}

/// The names pending for the current module are those of `batch_names`:
/// a batched test calls the start hook of its module and then, in the
/// order of the script, the units of the commands that follow the module's
/// definition, and nothing else.
pub proof fn lemma_pending_names(commands: Seq<Command>)
    requires
        commands.len() <= u64::MAX,
    ensures
        ({
            let read = after_commands(emitted(initial_state(), banner_text()), commands);
            read.pending[read.last_module] == batch_names(commands)
        }),
    decreases commands.len(),
{
    let start = emitted(initial_state(), banner_text());
    if commands.len() == 0 {
        assert(start.pending[0] =~= batch_names(commands));
    } else {
        let rest = commands.drop_last();
        lemma_pending_names(rest);
        lemma_only_current_pending(rest);
        lemma_commands_counted(start, rest);
        lemma_commands_counted(start, commands);
        let before = after_commands(start, rest);
        let visiting = noted(before, commands.last());
        let read = after_commands(start, commands);
        assert(read.pending == after_command(visiting, commands.last().kind).pending);
        assert(visiting.command_no == commands.len());
        if commands.last().kind is Module {
            let index = (before.last_module + 1) as u64;
            assert(before.pending[index].len() == 0);
            assert(read.pending[index] =~= seq![start_name_text(index)]);
        } else {
            assert(read.pending[read.last_module] =~= batch_names(commands));
        }
    }
}

/// A name that begins with the stem of command number `k`, which registers
/// no unit, is not among the names that wait for a batched test.
proof fn lemma_not_batched(commands: Seq<Command>, k: u64, tail: Seq<char>)
    requires
        commands.len() <= u64::MAX,
        1 <= k <= commands.len() ==> unit_name(k, commands[k - 1]) is None,
    ensures
        !batch_names(commands).contains("c"@ + nat_text(k as nat) + "_"@ + tail),
    decreases commands.len(),
{
    let target = "c"@ + nat_text(k as nat) + "_"@ + tail;
    let names = batch_names(commands);
    if commands.len() > 0 {
        let rest = commands.drop_last();
        lemma_not_batched(rest, k, tail);
        let last = commands.len() as u64;
        if commands.last().kind is Module {
            reveal_strlit("c");
            reveal_strlit("start_module_");
            let hook = start_name_text(module_count(commands) as u64);
            assert(hook[0] == 's');
            assert(target[0] == 'c');
            if names.contains(target) {
                let i = choose|i: int| 0 <= i < names.len() && names[i] == target;
                assert(names[i] == hook);
            }
        } else {
            match unit_name(last, commands.last()) {
                Some(name) => {
                    if names.contains(target) {
                        let i = choose|i: int| 0 <= i < names.len() && names[i] == target;
                        if i < names.len() - 1 {
                            assert(batch_names(rest)[i] == target);
                        } else {
                            assert(name == target);
                            lemma_unit_name_shape(last, commands.last());
                            let own_tail = choose|own_tail: Seq<char>|
                                name == "c"@ + nat_text(last as nat) + "_"@ + own_tail;
                            lemma_names_differ_by_number(last, own_tail, k, tail);
                        }
                    }
                },
                None => {},
            }
        }
    }
}

/// The name of a unit begins with the letter c, the number of its command
/// and an underscore.
proof fn lemma_unit_name_shape(command_no: u64, command: Command)
    requires
        unit_name(command_no, command) is Some,
    ensures
        exists|tail: Seq<char>|
            unit_name(command_no, command)->0 == "c"@ + nat_text(command_no as nat) + "_"@ + tail,
{
    reveal_strlit("_l");
    reveal_strlit("_");
    reveal_strlit("l");
    let name = unit_name(command_no, command)->0;
    let stem = command_name_text(command_no, command.line);
    let suffix = name.skip(stem.len() as int);
    let tail = "l"@ + nat_text(command.line as nat) + suffix;
    assert("_l"@ =~= "_"@ + "l"@);
    assert(name =~= "c"@ + nat_text(command_no as nat) + "_"@ + tail);
}

/// Trap units stay out of the batch. When a fresh generator reads a script
/// whose command at position `k`, which has the number `k + 1`, asserts a
/// trap, neither the unit of that command's action nor its standalone test
/// is among the names that wait for a batched test, however many of the
/// commands have been read: no batched test calls them.
pub proof fn lemma_trap_unit_not_batched(commands: Seq<Command>, k: int, n: int)
    requires
        commands.len() <= u64::MAX,
        0 <= k < commands.len(),
        0 <= n <= commands.len(),
        commands[k].kind is AssertTrap,
    ensures
        ({
            let read = after_commands(emitted(initial_state(), banner_text()), commands.take(n));
            let stem = command_name_text((k + 1) as u64, commands[k].line);
            &&& !read.pending[read.last_module].contains(stem + "_action_invoke"@)
            &&& !read.pending[read.last_module].contains(stem + "_assert_trap"@)
        }),
{
    reveal_strlit("_l");
    reveal_strlit("_");
    reveal_strlit("l");
    let read = commands.take(n);
    lemma_pending_names(read);
    let number = (k + 1) as u64;
    let stem = command_name_text(number, commands[k].line);
    let line = "l"@ + nat_text(commands[k].line as nat);
    assert("_l"@ =~= "_"@ + "l"@);
    assert(stem + "_action_invoke"@ =~= "c"@ + nat_text(number as nat) + "_"@ + (line
        + "_action_invoke"@));
    assert(stem + "_assert_trap"@ =~= "c"@ + nat_text(number as nat) + "_"@ + (line
        + "_assert_trap"@));
    if k < n {
        assert(read[k] == commands[k]);
    }
    lemma_not_batched(read, number, line + "_action_invoke"@);
    lemma_not_batched(read, number, line + "_assert_trap"@);
}

/// A command that asserts a trap leaves the pending names as they are: the
/// unit of its action is called by no batched test.
pub proof fn lemma_trap_registers_nothing(s: GeneratorState, action: Action, message: String)
    ensures
        after_command(s, CommandKind::AssertTrap { action, message }).pending == s.pending,
{
}

/// Visiting a command only appends to the output.
pub proof fn lemma_command_appends(s: GeneratorState, kind: CommandKind)
    ensures
        s.output.is_prefix_of(after_command(s, kind).output),
{
    match kind {
        CommandKind::Module { text, name } => {
            let before = flushed(s, s.last_module);
            assert(s.output.is_prefix_of(before.output));
        },
        _ => {},
    }
}

/// Reading commands only appends to the output: what was written stays
/// where it is, and whatever a later command or flush writes comes after it.
pub proof fn lemma_commands_append(s: GeneratorState, commands: Seq<Command>)
    ensures
        s.output.is_prefix_of(after_commands(s, commands).output),
    decreases commands.len(),
{
    if commands.len() > 0 {
        lemma_commands_append(s, commands.drop_last());
        let before = after_commands(s, commands.drop_last());
        let visiting = noted(before, commands.last());
        lemma_command_appends(visiting, commands.last().kind);
    }
}

/// While a fresh generator reads a script, names are pending for the
/// current module at most: the names of every earlier module were flushed
/// when the next module was defined. The names of the current module begin
/// with its start hook.
pub proof fn lemma_only_current_pending(commands: Seq<Command>)
    requires
        commands.len() <= u64::MAX,
    ensures
        pending_only_current(after_commands(emitted(initial_state(), banner_text()), commands)),
    decreases commands.len(),
{
    let start = emitted(initial_state(), banner_text());
    if commands.len() > 0 {
        lemma_only_current_pending(commands.drop_last());
        lemma_commands_counted(start, commands.drop_last());
        let before = after_commands(start, commands.drop_last());
        let visiting = noted(before, commands.last());
        assert(pending_only_current(visiting));
        lemma_command_keeps_only_current(visiting, commands.last().kind);
    }
}

/// A command keeps it so that names are pending for the current module at
/// most, the start hook first.
pub proof fn lemma_command_keeps_only_current(s: GeneratorState, kind: CommandKind)
    requires
        s.last_module < u64::MAX,
        pending_only_current(s),
    ensures
        pending_only_current(after_command(s, kind)),
{
}

/// Flushing modules for which no name is pending writes nothing.
pub proof fn lemma_flush_of_nothing(s: GeneratorState, through: nat)
    requires
        through <= u64::MAX,
        forall|module: u64| #[trigger] s.pending.dom().contains(module),
        forall|module: u64| 1 <= module <= through ==> (#[trigger] s.pending[module]).len() == 0,
    ensures
        flushed_through(s, through) == s,
    decreases through,
{
    if through > 0 {
        lemma_flush_of_nothing(s, (through - 1) as nat);
        assert(s.pending[through as u64].len() == 0);
        assert(s.pending[through as u64] =~= Seq::empty());
        assert(cleared(s.pending, through as u64) =~= s.pending);
    }
}

/// Flush ordering at the end of a script. When a fresh generator has read
/// a script, the only batched test still owed is that of the module defined
/// last. It is written after everything else, it calls the names pending
/// for that module in the order of their registration, the start hook
/// first, and then no name is pending for any module from 1 on. A script
/// without a module gets no batched test.
pub proof fn lemma_consumed_output(commands: Seq<Command>)
    requires
        commands.len() <= u64::MAX,
    ensures
        ({
            let read = after_commands(emitted(initial_state(), banner_text()), commands);
            let done = consumed(initial_state(), commands);
            &&& read.last_module == 0 ==> done == read
            &&& read.last_module > 0 ==> done == flushed(read, read.last_module)
            &&& read.last_module > 0 ==> done.output == read.output + batch_test_text(
                read.last_module,
                read.pending[read.last_module],
            )
            &&& read.last_module > 0 ==> read.pending[read.last_module].len() > 0
                && read.pending[read.last_module][0] == start_name_text(read.last_module)
            &&& read.pending[read.last_module] == batch_names(commands)
            &&& read.last_module > 0 ==> done.pending == nothing_pending()
            &&& read.output.is_prefix_of(done.output)
            &&& done.command_no == commands.len()
            &&& done.last_module == module_count(commands)
        }),
{
    let start = emitted(initial_state(), banner_text());
    let read = after_commands(start, commands);
    lemma_only_current_pending(commands);
    lemma_commands_counted(start, commands);
    lemma_pending_names(commands);
    if read.last_module > 0 {
        lemma_flush_of_nothing(read, (read.last_module - 1) as nat);
        let done = flushed(read, read.last_module);
        assert forall|module: u64| #[trigger] done.pending[module] == Seq::<Seq<char>>::empty() by {
            assert(done.pending[module] =~= Seq::empty());
        }
        assert(done.pending =~= nothing_pending());
    }
}

} // verus!
