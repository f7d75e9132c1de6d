//! Turns scripts of WebAssembly test commands into the text of Rust tests.
//!
//! A script is a list of commands: modules to define, functions to call on
//! them, and what the calls must return or how they must fail. For every
//! script the generator writes a factory per module, a unit per action, a
//! standalone test where a failure is expected, and one batched test per
//! module that calls the module's units on a single instance. Numbers are
//! written so that they read back bit for bit; a float is kept as its bit
//! pattern throughout.
//!
//! - [`float_bits`] classifies floats by their bit patterns.
//! - [`text`] writes decimal numbers and joins and replaces text.
//! - [`value`] holds the script values and writes their literals, and
//!   [`literal`] says which scalar a written literal stands for.
//! - [`script`] holds the commands of a script.
//! - [`emit`] writes the fragments of an emitted file.
//! - [`calls`] keeps the unit names that wait for a module's batched test.
//! - [`generator`] reads the commands of one script, and [`laws`] states
//!   what holds of its output for every script.
//! - [`bundle`] puts the tests of all scripts behind a shared preamble.
//! - [`wasi`] holds the options for running a module under WASI.
pub mod bundle;
pub mod calls;
pub mod emit;
pub mod float_bits;
pub mod generator;
pub mod laws;
pub mod literal;
pub mod script;
pub mod text;
pub mod value;
pub mod wasi;

pub use bundle::{build, generate_spectest, Bundle, Script};
pub use generator::WastTestGenerator;
pub use script::{Action, Command, CommandKind};
pub use value::{Float32, Float64, Value};
pub use wasi::Wasi;
