//! The fragments of an emitted test file: what each of them holds, and the
//! functions that write them.
use vstd::prelude::*;
use vstd::string::*;
use crate::literal::{digit_of, lemma_nat_text_digits, lemma_number_round_trip};
use crate::text::{join, join_strings, nat_text, push_u64, replace_char, replaced, texts};
use crate::value::{
    bare_text, destructure_text, type_text, value_is_nan, value_literals, value_texts, is_nan,
    wabt2rust_type, wabt2rust_type_destructure, wabt2rust_value_bare, Value,
};

verus! {

/// The comment that heads every emitted script.
pub open spec fn banner_text() -> Seq<char> {
    "// Rust test file autogenerated with cargo build (build/spectests.rs).\n// Please do NOT modify it by hand, as it will be reset on next build.\n"@
}

/// The comment that heads every emitted script.
pub fn banner() -> (s: &'static str)
    ensures
        s@ == banner_text(),
{
    "// Rust test file autogenerated with cargo build (build/spectests.rs).\n// Please do NOT modify it by hand, as it will be reset on next build.\n"
}

/// The stem of the names of the units of one command: its number in the
/// script and the line it stands on.
pub open spec fn command_name_text(command_no: u64, line: u64) -> Seq<char> {
    "c"@ + nat_text(command_no as nat) + "_l"@ + nat_text(line as nat)
}

/// The stem of the names of the units of one command.
pub fn command_name(command_no: u64, line: u64) -> (s: String)
    ensures
        s@ == command_name_text(command_no, line),
{
    let mut s = String::from_str("c");
    push_u64(&mut s, command_no);
    s.append("_l");
    push_u64(&mut s, line);
    s
}

/// A number in decimal ends where the first underscore stands: two texts
/// that begin with a number and an underscore are equal only if the
/// numbers are equal, and what follows the underscore too.
proof fn lemma_number_before_underscore(
    first: nat,
    first_rest: Seq<char>,
    second: nat,
    second_rest: Seq<char>,
)
    requires
        nat_text(first) + "_"@ + first_rest == nat_text(second) + "_"@ + second_rest,
    ensures
        first == second,
        first_rest == second_rest,
{
    reveal_strlit("_");
    let a = nat_text(first);
    let b = nat_text(second);
    let text = a + "_"@ + first_rest;
    lemma_nat_text_digits(first);
    lemma_nat_text_digits(second);
    lemma_number_round_trip(first);
    lemma_number_round_trip(second);
    assert(text == b + "_"@ + second_rest);
    let n = a.len() as int;
    let k = b.len() as int;
    assert(text[n] == '_');
    assert(text[k] == '_');
    if n < k {
        assert(text[n] == b[n]);
        assert(digit_of(b[n]) >= 0);
    }
    if k < n {
        assert(text[k] == a[k]);
        assert(digit_of(a[k]) >= 0);
    }
    assert(a =~= text.take(n));
    assert(b =~= text.take(k));
    assert(first_rest =~= text.skip(n + 1));
    assert(second_rest =~= text.skip(k + 1));
}

/// Names that begin with the stems of two commands are different where the
/// commands have different numbers, whatever follows the number.
pub proof fn lemma_names_differ_by_number(
    first: u64,
    first_tail: Seq<char>,
    second: u64,
    second_tail: Seq<char>,
)
    requires
        "c"@ + nat_text(first as nat) + "_"@ + first_tail == "c"@ + nat_text(second as nat) + "_"@
            + second_tail,
    ensures
        first == second,
        first_tail == second_tail,
{
    reveal_strlit("c");
    let text = "c"@ + nat_text(first as nat) + "_"@ + first_tail;
    assert(text.skip(1) =~= nat_text(first as nat) + "_"@ + first_tail);
    assert(text.skip(1) =~= nat_text(second as nat) + "_"@ + second_tail);
    lemma_number_before_underscore(first as nat, first_tail, second as nat, second_tail);
}

/// Two commands have the same stem only if they have the same number and
/// stand on the same line: within a script, where every command has a
/// number of its own, no two commands share a unit name.
pub proof fn lemma_command_names_distinct(first: u64, first_line: u64, second: u64, second_line: u64)
    requires
        command_name_text(first, first_line) == command_name_text(second, second_line),
    ensures
        first == second,
        first_line == second_line,
{
    reveal_strlit("_l");
    reveal_strlit("_");
    reveal_strlit("l");
    assert("_l"@ =~= "_"@ + "l"@);
    let p = "l"@ + nat_text(first_line as nat);
    let q = "l"@ + nat_text(second_line as nat);
    assert(command_name_text(first, first_line) =~= "c"@ + nat_text(first as nat) + "_"@ + p);
    assert(command_name_text(second, second_line) =~= "c"@ + nat_text(second as nat) + "_"@ + q);
    lemma_names_differ_by_number(first, p, second, q);
    assert(p.skip(1) =~= nat_text(first_line as nat));
    assert(q.skip(1) =~= nat_text(second_line as nat));
    lemma_number_round_trip(first_line as nat);
    lemma_number_round_trip(second_line as nat);
}

/// The comment that precedes what a command on `line` emits.
pub open spec fn line_comment_text(line: u64) -> Seq<char> {
    "\n// Line "@
        + nat_text(line as nat)
        + "\n"@
}

/// The comment that precedes what a command on `line` emits.
pub fn line_comment(line: u64) -> (s: String)
    ensures
        s@ == line_comment_text(line),
{
    let mut s = String::from_str("\n// Line ");
    push_u64(&mut s, line);
    s.append("\n");
    s
}

/// The statements that call each named unit on the shared instance.
pub open spec fn call_statements(names: Seq<Seq<char>>) -> Seq<Seq<char>> {
    names.map_values(|name: Seq<char>| name + "(&mut instance);"@)
}

/// The statements that call each named unit on the shared instance.
pub fn call_statement_list(names: &Vec<String>) -> (out: Vec<String>)
    ensures
        texts(out@) == call_statements(texts(names@)),
{
    let mut out: Vec<String> = Vec::new();
    let mut i: usize = 0;
    while i < names.len()
        invariant
            i <= names.len(),
            out@.len() == i,
            forall|k: int| 0 <= k < i ==> (#[trigger] out@[k])@ == names@[k]@ + "(&mut instance);"@,
        decreases names.len() - i,
    {
        let mut call = names[i].clone();
        call.append("(&mut instance);");
        out.push(call);
        i = i + 1;
    }
    assert(texts(out@) =~= call_statements(texts(names@)));
    out
}

/// The batched test of module `module`: it instantiates the module once and
/// calls the named units on that instance, in the given order.
pub open spec fn batch_test_text(module: u64, names: Seq<Seq<char>>) -> Seq<char> {
    "\n#[test]\nfn test_module_"@
        + nat_text(module as nat)
        + "() {\n    let mut instance = create_module_"@
        + nat_text(module as nat)
        + "();\n    // We group the calls together\n    "@
        + join(call_statements(names), "\n    "@)
        + "\n}\n"@
}

/// The batched test of module `module`: it instantiates the module once and
/// calls the named units on that instance, in the given order.
pub fn batch_test(module: u64, names: &Vec<String>) -> (s: String)
    ensures
        s@ == batch_test_text(module, texts(names@)),
{
    let mut s = String::from_str("\n#[test]\nfn test_module_");
    push_u64(&mut s, module);
    s.append("() {\n    let mut instance = create_module_");
    push_u64(&mut s, module);
    s.append("();\n    // We group the calls together\n    ");
    let calls = call_statement_list(names);
    let joined = join_strings(&calls, "\n    ");
    s.append(joined.as_str());
    s.append("\n}\n");
    s
}

/// Module text as it stands inside a string literal of the factory: every
/// line break is followed by four spaces, and backslashes and double quotes
/// are escaped.
pub open spec fn embedded_text(text: Seq<char>) -> Seq<char> {
    replaced(replaced(replaced(text, '\n', "\n    "@), '\\', "\\\\"@), '"', "\\\""@)
}

/// Module text as it stands inside a string literal of the factory.
pub fn embed_text(text: &str) -> (s: String)
    ensures
        s@ == embedded_text(text@),
{
    let indented = replace_char(text, '\n', "\n    ");
    let slashed = replace_char(indented.as_str(), '\\', "\\\\");
    replace_char(slashed.as_str(), '"', "\\\"")
}

/// The factory of module `module`: it compiles the embedded module text and
/// instantiates it against the shared imports.
pub open spec fn factory_text(module: u64, text: Seq<char>) -> Seq<char> {
    "fn create_module_"@
        + nat_text(module as nat)
        + "() -> Instance {\n    let module_str = \""@
        + embedded_text(text)
        + "\";\n    println!(\"{}\", module_str);\n    let wasm_binary = wat2wasm(module_str.as_bytes()).expect(\"WAST not valid or malformed\");\n    let module = wasmer_runtime_core::compile_with(&wasm_binary[..], &CraneliftCompiler::new()).expect(\"WASM can't be compiled\");\n    module.instantiate(&generate_imports()).expect(\"WASM can't be instantiated\")\n}\n"@
}

/// The factory of module `module`: it compiles the embedded module text and
/// instantiates it against the shared imports.
pub fn factory(module: u64, text: &str) -> (s: String)
    ensures
        s@ == factory_text(module, text@),
{
    let mut s = String::from_str("fn create_module_");
    push_u64(&mut s, module);
    s.append("() -> Instance {\n    let module_str = \"");
    let embedded = embed_text(text);
    s.append(embedded.as_str());
    s.append("\";\n    println!(\"{}\", module_str);\n    let wasm_binary = wat2wasm(module_str.as_bytes()).expect(\"WAST not valid or malformed\");\n    let module = wasmer_runtime_core::compile_with(&wasm_binary[..], &CraneliftCompiler::new()).expect(\"WASM can't be compiled\");\n    module.instantiate(&generate_imports()).expect(\"WASM can't be instantiated\")\n}\n");
    s
}

/// The name of the start hook of module `module`.
pub open spec fn start_name_text(module: u64) -> Seq<char> {
    "start_module_"@ + nat_text(module as nat)
}

/// The name of the start hook of module `module`.
pub fn start_name(module: u64) -> (s: String)
    ensures
        s@ == start_name_text(module),
{
    let mut s = String::from_str("start_module_");
    push_u64(&mut s, module);
    s
}

/// The start hook `name`: a unit that does nothing, since instantiation
/// has already run the start function.
pub open spec fn start_hook_text(name: Seq<char>) -> Seq<char> {
    "\nfn "@
        + name
        + "(vmctx: &mut Ctx) {\n    // TODO Review is explicit start needed? Start now called in runtime::Instance::new()\n    //instance.start();\n}\n"@
}

/// The start hook `name`: a unit that does nothing, since instantiation
/// has already run the start function.
pub fn start_hook(name: &str) -> (s: String)
    ensures
        s@ == start_hook_text(name@),
{
    let mut s = String::from_str("\nfn ");
    s.append(name);
    s.append("(vmctx: &mut Ctx) {\n    // TODO Review is explicit start needed? Start now called in runtime::Instance::new()\n    //instance.start();\n}\n");
    s
}

/// The decimal texts of the bytes, in order.
pub open spec fn byte_texts(bytes: Seq<u8>) -> Seq<Seq<char>> {
    bytes.map_values(|b: u8| nat_text(b as nat))
}

/// A byte array literal: the bytes in decimal, separated by a comma and a space.
pub open spec fn byte_list_text(bytes: Seq<u8>) -> Seq<char> {
    "["@ + join(byte_texts(bytes), ", "@) + "]"@
}

/// A byte array literal of the given bytes.
pub fn byte_list(bytes: &Vec<u8>) -> (s: String)
    ensures
        s@ == byte_list_text(bytes@),
{
    let mut items: Vec<String> = Vec::new();
    let mut i: usize = 0;
    while i < bytes.len()
        invariant
            i <= bytes.len(),
            items@.len() == i,
            forall|k: int| 0 <= k < i ==> (#[trigger] items@[k])@ == nat_text(bytes@[k] as nat),
        decreases bytes.len() - i,
    {
        let mut item = String::new();
        push_u64(&mut item, bytes[i] as u64);
        assert(item@ =~= nat_text(bytes@[i as int] as nat));
        items.push(item);
        i = i + 1;
    }
    assert(texts(items@) =~= byte_texts(bytes@));
    let mut s = String::from_str("[");
    let joined = join_strings(&items, ", ");
    s.append(joined.as_str());
    s.append("]");
    s
}

/// The standalone test of a module that must not validate: compiling the
/// bytes has to fail.
pub open spec fn invalid_test_text(command_name: Seq<char>, binary: Seq<u8>) -> Seq<char> {
    "#[test]\nfn "@
        + command_name
        + "_assert_invalid() {\n    let wasm_binary = "@
        + byte_list_text(binary)
        + ";\n    let module = wasmer_runtime_core::compile_with(&wasm_binary, &CraneliftCompiler::new());\n    assert!(module.is_err(), \"WASM should not compile as is invalid\");\n}\n"@
}

/// The standalone test of a module that must not validate: compiling the
/// bytes has to fail.
pub fn invalid_test(command_name: &str, binary: &Vec<u8>) -> (s: String)
    ensures
        s@ == invalid_test_text(command_name@, binary@),
{
    let mut s = String::from_str("#[test]\nfn ");
    s.append(command_name);
    s.append("_assert_invalid() {\n    let wasm_binary = ");
    let bytes = byte_list(binary);
    s.append(bytes.as_str());
    s.append(";\n    let module = wasmer_runtime_core::compile_with(&wasm_binary, &CraneliftCompiler::new());\n    assert!(module.is_err(), \"WASM should not compile as is invalid\");\n}\n");
    s
}

/// The standalone test of a module that must not decode: compiling the
/// bytes has to fail.
pub open spec fn malformed_test_text(command_name: Seq<char>, binary: Seq<u8>) -> Seq<char> {
    "#[test]\nfn "@
        + command_name
        + "_assert_malformed() {\n    let wasm_binary = "@
        + byte_list_text(binary)
        + ";\n    let compilation = wasmer_runtime_core::compile_with(&wasm_binary, &CraneliftCompiler::new());\n    assert!(compilation.is_err(), \"WASM should not compile as is malformed\");\n}\n"@
}

/// The standalone test of a module that must not decode: compiling the
/// bytes has to fail.
pub fn malformed_test(command_name: &str, binary: &Vec<u8>) -> (s: String)
    ensures
        s@ == malformed_test_text(command_name@, binary@),
{
    let mut s = String::from_str("#[test]\nfn ");
    s.append(command_name);
    s.append("_assert_malformed() {\n    let wasm_binary = ");
    let bytes = byte_list(binary);
    s.append(bytes.as_str());
    s.append(";\n    let compilation = wasmer_runtime_core::compile_with(&wasm_binary, &CraneliftCompiler::new());\n    assert!(compilation.is_err(), \"WASM should not compile as is malformed\");\n}\n");
    s
}

/// The assertion that a result is a quiet NaN, of either float width.
pub open spec fn quiet_nan_assertion_text() -> Seq<char> {
    "assert!(match result {\n        Value::F32(fp) => fp.is_quiet_nan(),\n        Value::F64(fp) => fp.is_quiet_nan(),\n        _ => unimplemented!()\n    })"@
}

/// The literals of the arguments of a call, separated by a comma and a space.
pub open spec fn arguments_text(args: Seq<Value>) -> Seq<char> {
    join(value_texts(args), ", "@)
}

/// The literals of the arguments of a call, separated by a comma and a space.
pub fn arguments(args: &Vec<Value>) -> (s: String)
    ensures
        s@ == arguments_text(args@),
{
    let literals = value_literals(args);
    join_strings(&literals, ", ")
}

/// The unit `func_name`: it calls `field` with `args`, takes the first
/// result and asserts that it is a quiet NaN.
pub open spec fn nan_unit_text(func_name: Seq<char>, field: Seq<char>, args: Seq<Value>) -> Seq<char> {
    "fn "@
        + func_name
        + "(vmctx: &mut Ctx) {\n    println!(\"Executing function {}\", \""@
        + func_name
        + "\");\n    let result = instance.call(\""@
        + field
        + "\", &["@
        + arguments_text(args)
        + "]).unwrap().first().expect(\"Missing result in "@
        + func_name
        + "\").clone();\n    "@
        + quiet_nan_assertion_text()
        + "\n}\n"@
}

/// The unit `func_name`: it calls `field` with `args`, takes the first
/// result and asserts that it is a quiet NaN.
pub fn nan_unit(func_name: &str, field: &str, args: &Vec<Value>) -> (s: String)
    ensures
        s@ == nan_unit_text(func_name@, field@, args@),
{
    let mut s = String::from_str("fn ");
    s.append(func_name);
    s.append("(vmctx: &mut Ctx) {\n    println!(\"Executing function {}\", \"");
    s.append(func_name);
    s.append("\");\n    let result = instance.call(\"");
    s.append(field);
    s.append("\", &[");
    let values = arguments(args);
    s.append(values.as_str());
    s.append("]).unwrap().first().expect(\"Missing result in ");
    s.append(func_name);
    s.append("\").clone();\n    ");
    s.append("assert!(match result {\n        Value::F32(fp) => fp.is_quiet_nan(),\n        Value::F64(fp) => fp.is_quiet_nan(),\n        _ => unimplemented!()\n    })");
    s.append("\n}\n");
    s
}

/// The assertion for an expected NaN: the result is a float of the same
/// width, it is a NaN, and its sign is that of `expected`. The payload is
/// not compared.
pub open spec fn nan_expectation_text(expected: Value) -> Seq<char> {
    "let expected = "@
        + bare_text(expected)
        + ";\n                                if let "@
        + destructure_text(expected, "result"@)
        + " = result.clone().unwrap().first().unwrap() {\n                                assert!((*result as "@
        + type_text(expected)
        + ").is_nan());\n            assert_eq!((*result as "@
        + type_text(expected)
        + ").is_sign_positive(), (expected as "@
        + type_text(expected)
        + ").is_sign_positive());\n            } else {\n              panic!(\"Unexpected result type {:?}\", result);\n            }"@
}

/// The assertion for an expected NaN: the result is a float of the same
/// width, it is a NaN, and its sign is that of `expected`. The payload is
/// not compared.
pub fn nan_expectation(expected: &Value) -> (s: String)
    ensures
        s@ == nan_expectation_text(*expected),
{
    let mut s = String::from_str("let expected = ");
    let bare = wabt2rust_value_bare(expected);
    s.append(bare.as_str());
    s.append(";\n                                if let ");
    let pattern = wabt2rust_type_destructure(expected, "result");
    s.append(pattern.as_str());
    s.append(" = result.clone().unwrap().first().unwrap() {\n                                assert!((*result as ");
    let ty = wabt2rust_type(expected);
    s.append(ty.as_str());
    s.append(").is_nan());\n            assert_eq!((*result as ");
    s.append(ty.as_str());
    s.append(").is_sign_positive(), (expected as ");
    s.append(ty.as_str());
    s.append(").is_sign_positive());\n            } else {\n              panic!(\"Unexpected result type {:?}\", result);\n            }");
    s
}

/// The assertion for results that must equal `expected`, value by value.
pub open spec fn equality_assertion_text(expected: Seq<Value>) -> Seq<char> {
    "assert_eq!(result, Ok(vec!["@ + arguments_text(expected) + "]));"@
}

/// What a unit asserts of the result of its call: nothing where nothing is
/// expected; NaN and sign where the first expected value is a NaN; equality
/// with the expected values otherwise.
pub open spec fn assertion_text(expected: Option<Seq<Value>>) -> Seq<char> {
    match expected {
        None => Seq::empty(),
        Some(values) => if values.len() > 0 && value_is_nan(values[0]) {
            nan_expectation_text(values[0])
        } else {
            equality_assertion_text(values)
        },
    }
}

/// The expected values as contracts speak of them.
pub open spec fn expected_values(expected: Option<&Vec<Value>>) -> Option<Seq<Value>> {
    match expected {
        None => None,
        Some(values) => Some(values@),
    }
}

/// What a unit asserts of the result of its call.
pub fn assertion(expected: Option<&Vec<Value>>) -> (s: String)
    ensures
        s@ == assertion_text(expected_values(expected)),
{
    match expected {
        None => String::new(),
        Some(values) => {
            if values.len() > 0 && is_nan(&values[0]) {
                nan_expectation(&values[0])
            } else {
                let mut s = String::from_str("assert_eq!(result, Ok(vec![");
                let literals = arguments(values);
                s.append(literals.as_str());
                s.append("]));");
                s
            }
        },
    }
}

/// The unit `func_name`: it calls `field` with `args`, asserts what is
/// expected of the result and hands on the failure of the call itself.
pub open spec fn action_unit_text(func_name: Seq<char>, field: Seq<char>, args: Seq<Value>, expected: Option<Seq<Value>>) -> Seq<char> {
    "fn "@
        + func_name
        + "(vmctx: &mut Ctx) -> Result<()> {\n    println!(\"Executing function {}\", \""@
        + func_name
        + "\");\n    let result = instance.call(\""@
        + field
        + "\", &["@
        + arguments_text(args)
        + "]);\n    "@
        + assertion_text(expected)
        + "\n    result?;\n    Ok(())\n}\n"@
}

/// The unit `func_name`: it calls `field` with `args`, asserts what is
/// expected of the result and hands on the failure of the call itself.
pub fn action_unit(func_name: &str, field: &str, args: &Vec<Value>, expected: Option<&Vec<Value>>) -> (s: String)
    ensures
        s@ == action_unit_text(func_name@, field@, args@, expected_values(expected)),
{
    let mut s = String::from_str("fn ");
    s.append(func_name);
    s.append("(vmctx: &mut Ctx) -> Result<()> {\n    println!(\"Executing function {}\", \"");
    s.append(func_name);
    s.append("\");\n    let result = instance.call(\"");
    s.append(field);
    s.append("\", &[");
    let values = arguments(args);
    s.append(values.as_str());
    s.append("]);\n    ");
    let check = assertion(expected);
    s.append(check.as_str());
    s.append("\n    result?;\n    Ok(())\n}\n");
    s
}

/// The standalone test `trap_name`: on a fresh instance of module `module`
/// it calls the unit `action_name` and asserts that the call fails.
pub open spec fn trap_test_text(trap_name: Seq<char>, module: u64, action_name: Seq<char>) -> Seq<char> {
    "\n#[test]\nfn "@
        + trap_name
        + "() {\n    let mut instance = create_module_"@
        + nat_text(module as nat)
        + "();\n    let result = "@
        + action_name
        + "(&mut instance);\n    assert!(result.is_err());\n}\n"@
}

/// The standalone test `trap_name`: on a fresh instance of module `module`
/// it calls the unit `action_name` and asserts that the call fails.
pub fn trap_test(trap_name: &str, module: u64, action_name: &str) -> (s: String)
    ensures
        s@ == trap_test_text(trap_name@, module, action_name@),
{
    let mut s = String::from_str("\n#[test]\nfn ");
    s.append(trap_name);
    s.append("() {\n    let mut instance = create_module_");
    push_u64(&mut s, module);
    s.append("();\n    let result = ");
    s.append(action_name);
    s.append("(&mut instance);\n    assert!(result.is_err());\n}\n");
    s
}

} // verus!
