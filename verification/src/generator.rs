//! The pass over the commands of one script: what every command adds to the
//! output, which unit names wait for a module's batched test, and when that
//! test is written.
use vstd::prelude::*;
use vstd::string::*;
use crate::calls::{cleared, nothing_pending, registered, ModuleCalls};
use crate::emit::{
    action_unit, action_unit_text, banner, banner_text, batch_test, batch_test_text, command_name,
    command_name_text, expected_values, factory, factory_text, invalid_test, invalid_test_text,
    line_comment, line_comment_text, malformed_test, malformed_test_text, nan_unit, nan_unit_text,
    start_hook, start_hook_text, start_name, start_name_text, trap_test, trap_test_text,
};
use crate::script::{Action, Command, CommandKind};
use crate::value::Value;

verus! {

/// The largest number of commands that a script may have to be part of a
/// bundle. A script with more is fat: its tests would cost too much to
/// compile.
pub const FAT_THRESHOLD: u64 = 200;

/// What a generator holds, as contracts speak of it.
pub struct GeneratorState {
    /// Index of the module defined last; 0 before the first.
    pub last_module: u64,
    /// Line of the command read last.
    pub last_line: u64,
    /// Number of commands read so far, the one that is being visited included.
    pub command_no: u64,
    /// Unit names that wait for the batched test of each module index.
    pub pending: Map<u64, Seq<Seq<char>>>,
    /// Everything written so far.
    pub output: Seq<char>,
}

/// The state of a fresh generator.
pub open spec fn initial_state() -> GeneratorState {
    GeneratorState {
        last_module: 0,
        last_line: 0,
        command_no: 0,
        pending: nothing_pending(),
        output: Seq::empty(),
    }
}

/// The state after `text` was written.
pub open spec fn emitted(s: GeneratorState, text: Seq<char>) -> GeneratorState {
    GeneratorState { output: s.output + text, ..s }
}

/// The state after `name` was put on the pending list of the current module.
pub open spec fn with_pending(s: GeneratorState, name: Seq<char>) -> GeneratorState {
    GeneratorState { pending: registered(s.pending, s.last_module, name), ..s }
}

/// The state after the pending names of `module` were flushed: its batched
/// test is written unless no name was pending, and none is pending any more.
pub open spec fn flushed(s: GeneratorState, module: u64) -> GeneratorState {
    GeneratorState {
        pending: cleared(s.pending, module),
        output: if s.pending[module].len() > 0 {
            s.output + batch_test_text(module, s.pending[module])
        } else {
            s.output
        },
        ..s
    }
}

/// The state after the modules 1 to `through` were flushed, in ascending order.
pub open spec fn flushed_through(s: GeneratorState, through: nat) -> GeneratorState
    decreases through,
{
    if through == 0 {
        s
    } else {
        flushed(flushed_through(s, (through - 1) as nat), through as u64)
    }
}

/// The state after a module was defined: the previous module is flushed,
/// the index goes up by one, factory and start hook of the new module are
/// written, and the start hook is the first name pending for it.
pub open spec fn after_module(s: GeneratorState, text: Seq<char>) -> GeneratorState {
    let before = flushed(s, s.last_module);
    let index = (s.last_module + 1) as u64;
    let hook = start_name_text(index);
    GeneratorState {
        last_module: index,
        pending: registered(before.pending, index, hook),
        output: before.output + factory_text(index, text) + start_hook_text(hook),
        ..before
    }
}

/// The stem of the unit names of the command that is being read.
pub open spec fn current_name(s: GeneratorState) -> Seq<char> {
    command_name_text(s.command_no, s.last_line)
}

/// The name of the unit that performs the action of the current command.
pub open spec fn action_name(s: GeneratorState) -> Seq<char> {
    current_name(s) + "_action_invoke"@
}

/// The state after the unit of an action was written. Only an invocation has one.
pub open spec fn after_action(
    s: GeneratorState,
    action: Action,
    expected: Option<Seq<Value>>,
) -> GeneratorState {
    match action {
        Action::Invoke { module, field, args } => emitted(
            s,
            action_unit_text(action_name(s), field@, args@, expected),
        ),
        Action::Get { .. } => s,
    }
}

/// The state after an action was written and its unit put on the pending list.
pub open spec fn after_pending_action(
    s: GeneratorState,
    action: Action,
    expected: Option<Seq<Value>>,
) -> GeneratorState {
    match action {
        Action::Invoke { .. } => with_pending(after_action(s, action, expected), action_name(s)),
        Action::Get { .. } => s,
    }
}

/// The state after an action that must trap: its unit is written, then a
/// standalone test that calls it on a fresh instance. Nothing is put on the
/// pending list.
pub open spec fn after_assert_trap(s: GeneratorState, action: Action) -> GeneratorState {
    match action {
        Action::Invoke { .. } => emitted(
            after_action(s, action, None),
            trap_test_text(current_name(s) + "_assert_trap"@, s.last_module, action_name(s)),
        ),
        Action::Get { .. } => s,
    }
}

/// The state after a unit that asserts a quiet NaN was written under the
/// command's stem and `suffix`, and put on the pending list.
pub open spec fn after_nan_assertion(
    s: GeneratorState,
    action: Action,
    suffix: Seq<char>,
) -> GeneratorState {
    match action {
        Action::Invoke { module, field, args } => {
            let name = current_name(s) + suffix;
            with_pending(emitted(s, nan_unit_text(name, field@, args@)), name)
        },
        Action::Get { .. } => s,
    }
}

/// The state after the command was visited.
pub open spec fn after_command(s: GeneratorState, kind: CommandKind) -> GeneratorState {
    match kind {
        CommandKind::Module { text, name } => after_module(s, text@),
        CommandKind::AssertReturn { action, expected } => after_pending_action(
            s,
            action,
            Some(expected@),
        ),
        CommandKind::AssertReturnCanonicalNan { action } => after_nan_assertion(
            s,
            action,
            "_assert_return_canonical_nan"@,
        ),
        CommandKind::AssertReturnArithmeticNan { action } => after_nan_assertion(
            s,
            action,
            "_assert_return_arithmetic_nan"@,
        ),
        CommandKind::AssertTrap { action, message } => after_assert_trap(s, action),
        CommandKind::AssertInvalid { module, message } => emitted(
            s,
            invalid_test_text(current_name(s), module@),
        ),
        CommandKind::AssertMalformed { module, message } => emitted(
            s,
            malformed_test_text(current_name(s), module@),
        ),
        CommandKind::AssertUninstantiable { .. } => s,
        CommandKind::AssertExhaustion { .. } => s,
        CommandKind::AssertUnlinkable { .. } => s,
        CommandKind::Register { .. } => s,
        CommandKind::PerformAction(action) => after_pending_action(s, action, None),
    }
}

/// The state in which a command is visited: its line is noted and written
/// as a comment, and the command count has gone up by one, so that the
/// first command of a script has the number 1.
pub open spec fn noted(s: GeneratorState, command: Command) -> GeneratorState {
    GeneratorState {
        last_line: command.line,
        command_no: (s.command_no + 1) as u64,
        output: s.output + line_comment_text(command.line),
        ..s
    }
}

/// The state after one command of the script was read: its line is noted,
/// it is counted, and then it is visited.
pub open spec fn after_step(s: GeneratorState, command: Command) -> GeneratorState {
    after_command(noted(s, command), command.kind)
}

/// The state after the commands were read, in order.
pub open spec fn after_commands(s: GeneratorState, commands: Seq<Command>) -> GeneratorState
    decreases commands.len(),
{
    if commands.len() == 0 {
        s
    } else {
        after_step(after_commands(s, commands.drop_last()), commands.last())
    }
}

/// The state after a whole script was consumed: the banner, then every
/// command, then a flush of every module index from 1 to the last.
pub open spec fn consumed(s: GeneratorState, commands: Seq<Command>) -> GeneratorState {
    let read = after_commands(emitted(s, banner_text()), commands);
    flushed_through(read, read.last_module as nat)
}

/// Turns the commands of one script into the text of its tests.
pub struct WastTestGenerator {
    last_module: u64,
    last_line: u64,
    command_no: u64,
    module_calls: ModuleCalls,
    buffer: String,
}

impl View for WastTestGenerator {
    type V = GeneratorState;

    closed spec fn view(&self) -> GeneratorState {
        GeneratorState {
            last_module: self.last_module,
            last_line: self.last_line,
            command_no: self.command_no,
            pending: self.module_calls.pending(),
            output: self.buffer@,
        }
    }
}

impl WastTestGenerator {
    /// A generator that has read nothing and written nothing.
    pub fn new() -> (r: Self)
        ensures
            r@ == initial_state(),
    {
        WastTestGenerator {
            last_module: 0,
            last_line: 0,
            command_no: 0,
            module_calls: ModuleCalls::new(),
            buffer: String::new(),
        }
    }

    /// Index of the module defined last; 0 before the first.
    pub fn last_module(&self) -> (r: u64)
        ensures
            r == self@.last_module,
    {
        self.last_module
    }

    /// Line of the command read last.
    pub fn last_line(&self) -> (r: u64)
        ensures
            r == self@.last_line,
    {
        self.last_line
    }

    /// Number of commands read so far.
    pub fn command_no(&self) -> (r: u64)
        ensures
            r == self@.command_no,
    {
        self.command_no
    }

    /// Whether the script had more commands than a bundle takes.
    pub fn is_fat_test(&self) -> (r: bool)
        ensures
            r == (self@.command_no > FAT_THRESHOLD),
    {
        self.command_no > FAT_THRESHOLD
    }

    /// Reads the commands in order and then flushes every module.
    pub fn consume(&mut self, commands: &Vec<Command>)
        requires
            old(self)@.last_module + commands.len() <= u64::MAX,
            old(self)@.command_no + commands.len() <= u64::MAX,
        ensures
            final(self)@ == consumed(old(self)@, commands@),
    {
        let ghost start = emitted(self@, banner_text());
        self.buffer.append(banner());
        let mut i: usize = 0;
        while i < commands.len()
            invariant
                i <= commands.len(),
                start.last_module + commands.len() <= u64::MAX,
                start.command_no + commands.len() <= u64::MAX,
                self@ == after_commands(start, commands@.take(i as int)),
                self@.last_module <= start.last_module + i,
                self@.command_no == start.command_no + i,
            decreases commands.len() - i,
        {
            let ghost before = self@;
            let command = &commands[i];
            self.last_line = command.line;
            let comment = line_comment(command.line);
            self.buffer.append(comment.as_str());
            self.command_no = self.command_no + 1;
            self.visit_command(&command.kind);
            proof {
                assert(commands@.take(i + 1).drop_last() =~= commands@.take(i as int));
                assert(commands@.take(i + 1).last() == commands@[i as int]);
                assert(self@ == after_step(before, commands@[i as int]));
            }
            i = i + 1;
        }
        assert(commands@.take(i as int) =~= commands@);
        let ghost read = self@;
        let last = self.last_module;
        let mut n: u64 = 0;
        while n < last
            invariant
                n <= last,
                last == read.last_module,
                self@ == flushed_through(read, n as nat),
            decreases last - n,
        {
            n = n + 1;
            self.flush_module_calls(n);
        }
    }

    /// The stem of the unit names of the command that is being read.
    pub fn command_name(&self) -> (s: String)
        ensures
            s@ == current_name(self@),
    {
        command_name(self.command_no, self.last_line)
    }

    /// Writes the batched test of `module`, unless no unit is pending for
    /// it, and leaves none pending.
    pub fn flush_module_calls(&mut self, module: u64)
        ensures
            final(self)@ == flushed(old(self)@, module),
    {
        let names = self.module_calls.take(module);
        if names.len() > 0 {
            let test = batch_test(module, &names);
            self.buffer.append(test.as_str());
        }
    }

    /// Defines the next module: flushes the previous one, writes the new
    /// module's factory and start hook, and registers the start hook.
    pub fn visit_module(&mut self, text: &String, _name: &Option<String>)
        requires
            old(self)@.last_module < u64::MAX,
        ensures
            final(self)@ == after_module(old(self)@, text@),
    {
        let last_module = self.last_module;
        self.flush_module_calls(last_module);
        self.last_module = self.last_module + 1;
        let create = factory(self.last_module, text.as_str());
        self.buffer.append(create.as_str());
        let start_module_call = start_name(self.last_module);
        let hook = start_hook(start_module_call.as_str());
        self.buffer.append(hook.as_str());
        self.module_calls.register(self.last_module, start_module_call);
    }

    /// Writes the standalone test of a module that must not validate.
    pub fn visit_assert_invalid(&mut self, module: &Vec<u8>)
        ensures
            final(self)@ == emitted(old(self)@, invalid_test_text(current_name(old(self)@), module@)),
    {
        let command_name = self.command_name();
        let test = invalid_test(command_name.as_str(), module);
        self.buffer.append(test.as_str());
    }

    /// Writes the unit that asserts an arithmetic NaN and registers it.
    pub fn visit_assert_return_arithmetic_nan(&mut self, action: &Action)
        ensures
            final(self)@ == after_nan_assertion(
                old(self)@,
                *action,
                "_assert_return_arithmetic_nan"@,
            ),
    {
        match action {
            Action::Invoke { module: _, field, args } => {
                let mut func_name = self.command_name();
                func_name.append("_assert_return_arithmetic_nan");
                let unit = nan_unit(func_name.as_str(), field.as_str(), args);
                self.buffer.append(unit.as_str());
                self.module_calls.register(self.last_module, func_name);
            },
            _ => {},
        }
    }

    /// Writes the unit that asserts a canonical NaN and registers it.
    pub fn visit_assert_return_canonical_nan(&mut self, action: &Action)
        ensures
            final(self)@ == after_nan_assertion(
                old(self)@,
                *action,
                "_assert_return_canonical_nan"@,
            ),
    {
        match action {
            Action::Invoke { module: _, field, args } => {
                let mut func_name = self.command_name();
                func_name.append("_assert_return_canonical_nan");
                let unit = nan_unit(func_name.as_str(), field.as_str(), args);
                self.buffer.append(unit.as_str());
                self.module_calls.register(self.last_module, func_name);
            },
            _ => {},
        }
    }

    /// Writes the standalone test of a module that must not decode.
    pub fn visit_assert_malformed(&mut self, module: &Vec<u8>)
        ensures
            final(self)@ == emitted(
                old(self)@,
                malformed_test_text(current_name(old(self)@), module@),
            ),
    {
        let command_name = self.command_name();
        let test = malformed_test(command_name.as_str(), module);
        self.buffer.append(test.as_str());
    }

    /// Writes the unit of an action and returns its name; for an action
    /// that is no invocation it writes nothing and returns `None`.
    pub fn visit_action(&mut self, action: &Action, expected: Option<&Vec<Value>>) -> (name: Option<
        String,
    >)
        ensures
            final(self)@ == after_action(old(self)@, *action, expected_values(expected)),
            match name {
                Some(name) => *action is Invoke && name@ == action_name(old(self)@),
                None => *action is Get,
            },
    {
        match action {
            Action::Invoke { module: _, field, args } => {
                let mut func_name = self.command_name();
                func_name.append("_action_invoke");
                let unit = action_unit(func_name.as_str(), field.as_str(), args, expected);
                self.buffer.append(unit.as_str());
                Some(func_name)
            },
            _ => None,
        }
    }

    /// Writes the unit that performs the action and compares its result
    /// with `expected`, and registers it.
    pub fn visit_assert_return(&mut self, action: &Action, expected: &Vec<Value>)
        ensures
            final(self)@ == after_pending_action(old(self)@, *action, Some(expected@)),
    {
        let action_fn_name = self.visit_action(action, Some(expected));
        match action_fn_name {
            Some(name) => {
                self.module_calls.register(self.last_module, name);
            },
            None => {},
        }
    }

    /// Writes the unit that performs the action and registers it.
    pub fn visit_perform_action(&mut self, action: &Action)
        ensures
            final(self)@ == after_pending_action(old(self)@, *action, None),
    {
        let action_fn_name = self.visit_action(action, None);
        match action_fn_name {
            Some(name) => {
                self.module_calls.register(self.last_module, name);
            },
            None => {},
        }
    }

    /// Writes the unit of the action and a standalone test that expects the
    /// unit to fail. The unit is not registered: after a trap the instance
    /// is not fit for further calls.
    pub fn visit_assert_trap(&mut self, action: &Action)
        ensures
            final(self)@ == after_assert_trap(old(self)@, *action),
    {
        let action_fn_name = self.visit_action(action, None);
        match action_fn_name {
            Some(name) => {
                let mut trap_func_name = self.command_name();
                trap_func_name.append("_assert_trap");
                let test = trap_test(trap_func_name.as_str(), self.last_module, name.as_str());
                self.buffer.append(test.as_str());
            },
            None => {},
        }
    }

    /// Visits one command.
    pub fn visit_command(&mut self, cmd: &CommandKind)
        requires
            old(self)@.last_module < u64::MAX,
        ensures
            final(self)@ == after_command(old(self)@, *cmd),
    {
        match cmd {
            CommandKind::Module { text, name } => {
                self.visit_module(text, name);
            },
            CommandKind::AssertReturn { action, expected } => {
                self.visit_assert_return(action, expected);
            },
            CommandKind::AssertReturnCanonicalNan { action } => {
                self.visit_assert_return_canonical_nan(action);
            },
            CommandKind::AssertReturnArithmeticNan { action } => {
                self.visit_assert_return_arithmetic_nan(action);
            },
            CommandKind::AssertTrap { action, message: _ } => {
                self.visit_assert_trap(action);
            },
            CommandKind::AssertInvalid { module, message: _ } => {
                self.visit_assert_invalid(module);
            },
            CommandKind::AssertMalformed { module, message: _ } => {
                self.visit_assert_malformed(module);
            },
            CommandKind::AssertUninstantiable { module: _, message: _ } => {
                // Nothing is written for it.
            },
            CommandKind::AssertExhaustion { action: _ } => {
                // Nothing is written for it.
            },
            CommandKind::AssertUnlinkable { module: _, message: _ } => {
                // Nothing is written for it.
            },
            CommandKind::Register { name: _, as_name: _ } => {
                // Nothing is written for it.
            },
            CommandKind::PerformAction(action) => {
                self.visit_perform_action(action);
            },
        }
    }

    /// Everything written so far.
    pub fn finalize(&self) -> (text: &String)
        ensures
            text@ == self@.output,
    {
        &self.buffer
    }
}

} // verus!
