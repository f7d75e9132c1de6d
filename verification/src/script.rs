//! The commands of a script, as the generator reads them.
use vstd::prelude::*;
use crate::value::Value;

verus! {

/// Something a script does to a module.
#[derive(Clone, Debug, PartialEq)]
pub enum Action {
    /// Calls the exported function `field` with `args`. Without a `module`
    /// name the call goes to the module defined last.
    Invoke { module: Option<String>, field: String, args: Vec<Value> },
    /// Reads the exported global `field`. No test unit is written for it.
    Get { module: Option<String>, field: String },
}

/// What a command of a script asks for.
#[derive(Clone, Debug, PartialEq)]
pub enum CommandKind {
    /// Defines a module, given in its text form, under an optional name.
    Module { text: String, name: Option<String> },
    /// The action returns the expected values.
    AssertReturn { action: Action, expected: Vec<Value> },
    /// The action returns a canonical NaN.
    AssertReturnCanonicalNan { action: Action },
    /// The action returns an arithmetic NaN.
    AssertReturnArithmeticNan { action: Action },
    /// The action traps.
    AssertTrap { action: Action, message: String },
    /// The binary module does not validate.
    AssertInvalid { module: Vec<u8>, message: String },
    /// The binary module cannot be decoded.
    AssertMalformed { module: Vec<u8>, message: String },
    /// The binary module cannot be instantiated. Skipped by the generator.
    AssertUninstantiable { module: Vec<u8>, message: String },
    /// The action exhausts a resource. Skipped by the generator.
    AssertExhaustion { action: Action },
    /// The binary module does not link. Skipped by the generator.
    AssertUnlinkable { module: Vec<u8>, message: String },
    /// Registers a module under another name. Skipped by the generator.
    Register { name: Option<String>, as_name: String },
    /// Performs the action and expects nothing of its result.
    PerformAction(Action),
}

/// One entry of a script: the line it stands on and what it asks for.
#[derive(Clone, Debug, PartialEq)]
pub struct Command {
    pub line: u64,
    pub kind: CommandKind,
}

} // verus!
