//! The bundle of all scripts: a shared preamble, then one block per script
//! that is not too large.
use vstd::prelude::*;
use vstd::string::*;
use crate::generator::{consumed, initial_state, WastTestGenerator, FAT_THRESHOLD};
use crate::laws::lemma_consumed_output;
use crate::script::Command;
use crate::text::{push_char, texts};

verus! {

/// The imports of an emitted file.
pub open spec fn imports_text() -> Seq<char> {
    "
use std::{{f32, f64}};
use wabt::wat2wasm;
use wasmer_clif_backend::CraneliftCompiler;
use wasmer_runtime_core::import::ImportObject;
use wasmer_runtime_core::types::Value;
use wasmer_runtime_core::{{Instance, module::Module}};
use wasmer_runtime_core::error::Result;

"@
}

/// The import environment that every emitted module is instantiated against:
/// two functions to print, a table, a memory and a global, exported by a
/// module that is registered under the name `spectest`.
pub open spec fn environment_text() -> Seq<char> {
    "static IMPORT_MODULE: &str = r#\"
(module
  (type $t0 (func (param i32)))
  (type $t1 (func))
  (func $print_i32 (export \"print_i32\") (type $t0) (param $lhs i32))
  (func $print (export \"print\") (type $t1))
  (table $table (export \"table\") 10 20 anyfunc)
  (memory $memory (export \"memory\") 1 2)
  (global $global_i32 (export \"global_i32\") i32 (i32.const 666)))
\"#;

pub fn generate_imports() -> ImportObject {
    let wasm_binary = wat2wasm(IMPORT_MODULE.as_bytes()).expect(\"WAST not valid or malformed\");
    let module = wasmer_runtime_core::compile_with(&wasm_binary[..], &CraneliftCompiler::new())
        .expect(\"WASM can't be compiled\");
    let instance = module
        .instantiate(&ImportObject::new())
        .expect(\"WASM can't be instantiated\");
    let mut imports = ImportObject::new();
    imports.register(\"spectest\", instance);
    imports
}

"@
}

/// The helpers that emitted assertions use to classify a NaN result.
pub open spec fn nan_helpers_text() -> Seq<char> {
    "/// Bit pattern of an f32 value:
///     1-bit sign + 8-bit mantissa + 23-bit exponent = 32 bits
///
/// Bit pattern of an f64 value:
///     1-bit sign + 11-bit mantissa + 52-bit exponent = 64 bits
///
/// NOTE: On some old platforms (PA-RISC, some MIPS) quiet NaNs (qNaN) have
/// their mantissa MSB unset and set for signaling NaNs (sNaN).
///
/// Links:
///     * https://en.wikipedia.org/wiki/Floating-point_arithmetic
///     * https://github.com/WebAssembly/spec/issues/286
///     * https://en.wikipedia.org/wiki/NaN
///
pub trait NaNCheck {
    fn is_quiet_nan(&self) -> bool;
    fn is_canonical_nan(&self) -> bool;
}

impl NaNCheck for f32 {
    /// The MSB of the mantissa must be set for a NaN to be a quiet NaN.
    fn is_quiet_nan(&self) -> bool {
        let bit_mask = 0b1 << 22; // Used to check if 23rd bit is set, which is MSB of the mantissa
        self.is_nan() && (self.to_bits() & bit_mask) == bit_mask
    }

    /// For a NaN to be canonical, its mantissa bits must all be unset
    fn is_canonical_nan(&self) -> bool {
        let bit_mask: u32 = 0b1____0000_0000____011_1111_1111_1111_1111_1111;
        let masked_value = self.to_bits() ^ bit_mask;
        masked_value == 0xFFFF_FFFF || masked_value == 0x7FFF_FFFF
    }
}

impl NaNCheck for f64 {
    /// The MSB of the mantissa must be set for a NaN to be a quiet NaN.
    fn is_quiet_nan(&self) -> bool {
        let bit_mask = 0b1 << 51; // Used to check if 52st bit is set, which is MSB of the mantissa
        self.is_nan() && (self.to_bits() & bit_mask) == bit_mask
    }

    /// For a NaN to be canonical, its mantissa bits must all be unset
    fn is_canonical_nan(&self) -> bool {
        let bit_mask: u64 =
            0b1____000_0000_0000____0111_1111_1111_1111_1111_1111_1111_1111_1111_1111_1111_1111_1111;
        let masked_value = self.to_bits() ^ bit_mask;
        masked_value == 0x7FFF_FFFF_FFFF_FFFF || masked_value == 0xFFFF_FFFF_FFFF_FFFF
    }
}
"@
}

/// The preamble that an emitted file starts with, once for all scripts.
pub open spec fn common_text() -> Seq<char> {
    imports_text() + environment_text() + nan_helpers_text()
}

/// The preamble that an emitted file starts with, once for all scripts.
pub fn common() -> (s: String)
    ensures
        s@ == common_text(),
{
    let mut s = String::from_str("
use std::{{f32, f64}};
use wabt::wat2wasm;
use wasmer_clif_backend::CraneliftCompiler;
use wasmer_runtime_core::import::ImportObject;
use wasmer_runtime_core::types::Value;
use wasmer_runtime_core::{{Instance, module::Module}};
use wasmer_runtime_core::error::Result;

");
    s.append("static IMPORT_MODULE: &str = r#\"
(module
  (type $t0 (func (param i32)))
  (type $t1 (func))
  (func $print_i32 (export \"print_i32\") (type $t0) (param $lhs i32))
  (func $print (export \"print\") (type $t1))
  (table $table (export \"table\") 10 20 anyfunc)
  (memory $memory (export \"memory\") 1 2)
  (global $global_i32 (export \"global_i32\") i32 (i32.const 666)))
\"#;

pub fn generate_imports() -> ImportObject {
    let wasm_binary = wat2wasm(IMPORT_MODULE.as_bytes()).expect(\"WAST not valid or malformed\");
    let module = wasmer_runtime_core::compile_with(&wasm_binary[..], &CraneliftCompiler::new())
        .expect(\"WASM can't be compiled\");
    let instance = module
        .instantiate(&ImportObject::new())
        .expect(\"WASM can't be instantiated\");
    let mut imports = ImportObject::new();
    imports.register(\"spectest\", instance);
    imports
}

");
    s.append("/// Bit pattern of an f32 value:
///     1-bit sign + 8-bit mantissa + 23-bit exponent = 32 bits
///
/// Bit pattern of an f64 value:
///     1-bit sign + 11-bit mantissa + 52-bit exponent = 64 bits
///
/// NOTE: On some old platforms (PA-RISC, some MIPS) quiet NaNs (qNaN) have
/// their mantissa MSB unset and set for signaling NaNs (sNaN).
///
/// Links:
///     * https://en.wikipedia.org/wiki/Floating-point_arithmetic
///     * https://github.com/WebAssembly/spec/issues/286
///     * https://en.wikipedia.org/wiki/NaN
///
pub trait NaNCheck {
    fn is_quiet_nan(&self) -> bool;
    fn is_canonical_nan(&self) -> bool;
}

impl NaNCheck for f32 {
    /// The MSB of the mantissa must be set for a NaN to be a quiet NaN.
    fn is_quiet_nan(&self) -> bool {
        let bit_mask = 0b1 << 22; // Used to check if 23rd bit is set, which is MSB of the mantissa
        self.is_nan() && (self.to_bits() & bit_mask) == bit_mask
    }

    /// For a NaN to be canonical, its mantissa bits must all be unset
    fn is_canonical_nan(&self) -> bool {
        let bit_mask: u32 = 0b1____0000_0000____011_1111_1111_1111_1111_1111;
        let masked_value = self.to_bits() ^ bit_mask;
        masked_value == 0xFFFF_FFFF || masked_value == 0x7FFF_FFFF
    }
}

impl NaNCheck for f64 {
    /// The MSB of the mantissa must be set for a NaN to be a quiet NaN.
    fn is_quiet_nan(&self) -> bool {
        let bit_mask = 0b1 << 51; // Used to check if 52st bit is set, which is MSB of the mantissa
        self.is_nan() && (self.to_bits() & bit_mask) == bit_mask
    }

    /// For a NaN to be canonical, its mantissa bits must all be unset
    fn is_canonical_nan(&self) -> bool {
        let bit_mask: u64 =
            0b1____000_0000_0000____0111_1111_1111_1111_1111_1111_1111_1111_1111_1111_1111_1111_1111;
        let masked_value = self.to_bits() ^ bit_mask;
        masked_value == 0x7FFF_FFFF_FFFF_FFFF || masked_value == 0xFFFF_FFFF_FFFF_FFFF
    }
}
");
    s
}

/// One script: the path it was read from and its commands, in order.
#[derive(Clone, Debug, PartialEq)]
pub struct Script {
    pub path: String,
    pub commands: Vec<Command>,
}

/// What follows the last `c` in `s`; all of `s` where `c` does not occur.
pub open spec fn after_last(s: Seq<char>, c: char) -> Seq<char>
    decreases s.len(),
{
    if s.len() == 0 {
        Seq::empty()
    } else if s.last() == c {
        Seq::empty()
    } else {
        after_last(s.drop_last(), c).push(s.last())
    }
}

/// Whether `k` is the position of the first `c` in `s`, or the length of
/// `s` where `c` does not occur.
pub open spec fn first_stop(s: Seq<char>, c: char, k: int) -> bool {
    &&& 0 <= k <= s.len()
    &&& forall|j: int| 0 <= j < k ==> s[j] != c
    &&& k == s.len() || s[k] == c
}

/// What precedes the first `c` in `s`; all of `s` where `c` does not occur.
pub open spec fn before_first(s: Seq<char>, c: char) -> Seq<char> {
    s.take(choose|k: int| first_stop(s, c, k))
}

/// The name of a script's tests: the last segment of its path, up to the first dot.
pub open spec fn test_name_text(path: Seq<char>) -> Seq<char> {
    before_first(after_last(path, '/'), '.')
}

/// What follows the last `c` in `s`.
pub fn suffix_after_last(s: &str, c: char) -> (out: String)
    ensures
        out@ == after_last(s@, c),
{
    let mut out = String::new();
    for x in it: s.chars()
        invariant
            it.seq() == s@,
            out@ == after_last(s@.take(it.index() as int), c),
    {
        if x == c {
            out = String::new();
        } else {
            push_char(&mut out, x);
        }
        proof {
            let n = it.index() as int;
            assert(s@.take(n + 1).drop_last() =~= s@.take(n));
            assert(s@.take(n + 1).last() == x);
        }
    }
    assert(s@.take(s@.len() as int) =~= s@);
    out
}

/// What precedes the first `c` in `s`.
pub fn prefix_before_first(s: &str, c: char) -> (out: String)
    ensures
        out@ == before_first(s@, c),
{
    let mut out = String::new();
    let mut stopped = false;
    let ghost mut stop: int = 0;
    for x in it: s.chars()
        invariant
            it.seq() == s@,
            !stopped ==> out@ == s@.take(it.index() as int) && forall|j: int|
                0 <= j < it.index() ==> s@[j] != c,
            stopped ==> stop < it.index() && first_stop(s@, c, stop) && out@ == s@.take(stop),
    {
        if !stopped {
            if x == c {
                stopped = true;
                proof {
                    stop = it.index() as int;
                }
            } else {
                push_char(&mut out, x);
                assert(s@.take(it.index() + 1) =~= s@.take(it.index() as int).push(x));
            }
        }
    }
    proof {
        if !stopped {
            stop = s@.len() as int;
        }
        assert(first_stop(s@, c, stop));
        let chosen = choose|k: int| first_stop(s@, c, k);
        assert(first_stop(s@, c, chosen));
        if chosen < stop {
            assert(s@[chosen] != c);
        }
        if stop < chosen {
            assert(s@[stop] != c);
        }
        assert(chosen == stop);
    }
    out
}

/// The name of a script's tests: the last segment of its path, up to the first dot.
pub fn test_name(path: &str) -> (name: String)
    ensures
        name@ == test_name_text(path@),
{
    let file = suffix_after_last(path, '/');
    prefix_before_first(file.as_str(), '.')
}

/// Everything that the tests of one script consist of.
pub open spec fn script_text(commands: Seq<Command>) -> Seq<char> {
    consumed(initial_state(), commands).output
}

/// The block of one script: its tests inside a module of their own.
pub open spec fn block_text(test_name: Seq<char>, script: Seq<char>) -> Seq<char> {
    "mod test_"@ + test_name + " {\nuse super::*;\n"@ + script + "\n}\n"@
}

/// What one script adds to the bundle: its block, or nothing where the
/// script has more commands than the threshold.
pub open spec fn contribution_text(test_name: Seq<char>, commands: Seq<Command>) -> Seq<char> {
    if commands.len() > FAT_THRESHOLD {
        Seq::empty()
    } else {
        block_text(test_name, script_text(commands))
    }
}

/// What the scripts add to the bundle, in order.
pub open spec fn contributions_text(scripts: Seq<Script>) -> Seq<char>
    decreases scripts.len(),
{
    if scripts.len() == 0 {
        Seq::empty()
    } else {
        contributions_text(scripts.drop_last()) + contribution_text(
            test_name_text(scripts.last().path@),
            scripts.last().commands@,
        )
    }
}

/// The whole bundle: the preamble, then what each script adds.
pub open spec fn bundle_text(scripts: Seq<Script>) -> Seq<char> {
    common_text() + contributions_text(scripts)
}

/// The names of the scripts that are left out of the bundle, in order.
pub open spec fn skipped_names(scripts: Seq<Script>) -> Seq<Seq<char>>
    decreases scripts.len(),
{
    if scripts.len() == 0 {
        Seq::empty()
    } else if scripts.last().commands@.len() > FAT_THRESHOLD {
        skipped_names(scripts.drop_last()).push(test_name_text(scripts.last().path@))
    } else {
        skipped_names(scripts.drop_last())
    }
}

/// A bundle of tests, and the names of the scripts that it leaves out
/// because they have too many commands.
#[derive(Clone, Debug, PartialEq)]
pub struct Bundle {
    pub text: String,
    pub skipped: Vec<String>,
}

/// Writes the tests of one script to `out`, inside a module named after
/// `test_name`, and says whether it did. A script of more than 200 commands
/// adds nothing at all; any other adds its whole block.
pub fn generate_spectest(out: &mut String, test_name: &str, commands: &Vec<Command>) -> (written:
    bool)
    ensures
        written == (commands@.len() <= FAT_THRESHOLD),
        !written ==> final(out)@ == old(out)@,
        written ==> final(out)@ == old(out)@ + block_text(test_name@, script_text(commands@)),
        final(out)@ == old(out)@ + contribution_text(test_name@, commands@),
{
    let mut generator = WastTestGenerator::new();
    generator.consume(commands);
    proof {
        assert(commands@.len() == commands.len());
        lemma_consumed_output(commands@);
    }
    let generated_script = generator.finalize();
    if !generator.is_fat_test() {
        let mut block = String::from_str("mod test_");
        block.append(test_name);
        block.append(" {\nuse super::*;\n");
        block.append(generated_script.as_str());
        block.append("\n}\n");
        out.append(block.as_str());
        true
    } else {
        assert(out@ =~= old(out)@ + Seq::<char>::empty());
        false
    }
}

/// The bundle of the scripts: the preamble, then the block of every script
/// that is not too large, in the order given. The scripts that are too
/// large are named beside it.
pub fn build(scripts: &Vec<Script>) -> (bundle: Bundle)
    ensures
        bundle.text@ == bundle_text(scripts@),
        texts(bundle.skipped@) == skipped_names(scripts@),
{
    let mut out = common();
    let mut skipped: Vec<String> = Vec::new();
    assert(out@ =~= common_text() + contributions_text(scripts@.take(0)));
    assert(texts(skipped@) =~= skipped_names(scripts@.take(0)));
    let mut i: usize = 0;
    while i < scripts.len()
        invariant
            i <= scripts.len(),
            out@ == common_text() + contributions_text(scripts@.take(i as int)),
            texts(skipped@) == skipped_names(scripts@.take(i as int)),
        decreases scripts.len() - i,
    {
        let script = &scripts[i];
        let name = test_name(script.path.as_str());
        let written = generate_spectest(&mut out, name.as_str(), &script.commands);
        let ghost before = skipped@;
        if !written {
            skipped.push(name);
            assert(texts(skipped@) =~= texts(before).push(name@));
        }
        proof {
            assert(scripts@.take(i + 1).drop_last() =~= scripts@.take(i as int));
            assert(scripts@.take(i + 1).last() == scripts@[i as int]);
            assert(out@ =~= common_text() + contributions_text(scripts@.take(i + 1)));
        }
        i = i + 1;
    }
    assert(scripts@.take(i as int) =~= scripts@);
    Bundle { text: out, skipped }
}

} // verus!
