use wast_testgen::bundle::{build, common, generate_spectest, test_name, Script};
use wast_testgen::emit::{
    action_unit, banner, batch_test, factory, invalid_test, line_comment, malformed_test, nan_unit,
    start_hook, trap_test,
};
use wast_testgen::generator::WastTestGenerator;
use wast_testgen::script::{Action, Command, CommandKind};
use wast_testgen::value::{Float32, Float64, Value};

const ADD_MODULE: &str = "(module\n  (func (export \"add\") (param i32 i32) (result i32)\n    local.get 0\n    local.get 1\n    i32.add))\n";

fn module(line: u64, text: &str) -> Command {
    Command { line, kind: CommandKind::Module { text: String::from(text), name: None } }
}

fn invoke(field: &str, args: Vec<Value>) -> Action {
    Action::Invoke { module: None, field: String::from(field), args }
}

fn assert_return(line: u64, field: &str, args: Vec<Value>, expected: Vec<Value>) -> Command {
    Command { line, kind: CommandKind::AssertReturn { action: invoke(field, args), expected } }
}

fn assert_trap(line: u64, field: &str, args: Vec<Value>) -> Command {
    Command {
        line,
        kind: CommandKind::AssertTrap {
            action: invoke(field, args),
            message: String::from("integer divide by zero"),
        },
    }
}

fn register(line: u64) -> Command {
    Command { line, kind: CommandKind::Register { name: None, as_name: String::from("M") } }
}

fn consume(commands: &Vec<Command>) -> String {
    let mut generator = WastTestGenerator::new();
    generator.consume(commands);
    generator.finalize().clone()
}

fn count(text: &str, part: &str) -> usize {
    text.matches(part).count()
}

#[test]
fn fresh_generator_has_written_nothing() {
    let generator = WastTestGenerator::new();
    assert_eq!(generator.finalize().as_str(), "");
    assert_eq!(generator.command_name(), "c0_l0");
    assert!(!generator.is_fat_test());
}

#[test]
fn empty_script_is_the_banner_alone() {
    assert_eq!(consume(&Vec::new()), banner());
}

#[test]
fn one_module_and_one_assert_return() {
    let commands = vec![
        module(1, ADD_MODULE),
        assert_return(7, "add", vec![Value::I32(2), Value::I32(3)], vec![Value::I32(5)]),
    ];
    let output = consume(&commands);
    let expected = "// Rust test file autogenerated with cargo build (build/spectests.rs).
// Please do NOT modify it by hand, as it will be reset on next build.

// Line 1
fn create_module_1() -> Instance {
    let module_str = \"(module
      (func (export \\\"add\\\") (param i32 i32) (result i32)
        local.get 0
        local.get 1
        i32.add))
    \";
    println!(\"{}\", module_str);
    let wasm_binary = wat2wasm(module_str.as_bytes()).expect(\"WAST not valid or malformed\");
    let module = wasmer_runtime_core::compile_with(&wasm_binary[..], &CraneliftCompiler::new()).expect(\"WASM can't be compiled\");
    module.instantiate(&generate_imports()).expect(\"WASM can't be instantiated\")
}

fn start_module_1(vmctx: &mut Ctx) {
    // TODO Review is explicit start needed? Start now called in runtime::Instance::new()
    //instance.start();
}

// Line 7
fn c2_l7_action_invoke(vmctx: &mut Ctx) -> Result<()> {
    println!(\"Executing function {}\", \"c2_l7_action_invoke\");
    let result = instance.call(\"add\", &[Value::I32(2 as i32), Value::I32(3 as i32)]);
    assert_eq!(result, Ok(vec![Value::I32(5 as i32)]));
    result?;
    Ok(())
}

#[test]
fn test_module_1() {
    let mut instance = create_module_1();
    // We group the calls together
    start_module_1(&mut instance);
    c2_l7_action_invoke(&mut instance);
}
";
    assert_eq!(output, expected);
    assert_eq!(count(&output, "fn create_module_"), 1);
    assert_eq!(count(&output, "fn test_module_"), 1);
    assert_eq!(count(&output, "_action_invoke(vmctx"), 1);
}

#[test]
fn arithmetic_nan_unit_joins_the_batch() {
    let nan = Value::F32(Float32 { bits: 0x7FC0_0000, decimal: String::from("NaN") });
    let commands = vec![
        module(1, "(module)"),
        Command {
            line: 4,
            kind: CommandKind::AssertReturnArithmeticNan { action: invoke("nan_add", vec![nan]) },
        },
    ];
    let output = consume(&commands);
    let nan = Value::F32(Float32 { bits: 0x7FC0_0000, decimal: String::from("NaN") });
    let unit = nan_unit("c2_l4_assert_return_arithmetic_nan", "nan_add", &vec![nan]);
    assert!(unit.contains("instance.call(\"nan_add\", &[Value::F32(f32::from_bits(2143289344))])"));
    assert!(unit.contains("Value::F32(fp) => fp.is_quiet_nan(),"));
    let names =
        vec![String::from("start_module_1"), String::from("c2_l4_assert_return_arithmetic_nan")];
    let expected = format!(
        "{}{}{}{}{}{}{}",
        banner(),
        line_comment(1),
        factory(1, "(module)"),
        start_hook("start_module_1"),
        line_comment(4),
        unit,
        batch_test(1, &names)
    );
    assert_eq!(output, expected);
    assert!(output.ends_with(
        "    start_module_1(&mut instance);\n    c2_l4_assert_return_arithmetic_nan(&mut instance);\n}\n"
    ));
}

#[test]
fn canonical_nan_unit_joins_the_batch() {
    let commands = vec![
        module(1, "(module)"),
        Command {
            line: 9,
            kind: CommandKind::AssertReturnCanonicalNan {
                action: invoke("f64.promote_f32", Vec::new()),
            },
        },
    ];
    let output = consume(&commands);
    let unit = nan_unit("c2_l9_assert_return_canonical_nan", "f64.promote_f32", &Vec::new());
    assert!(output.contains(unit.as_str()));
    assert!(output.ends_with(
        "    start_module_1(&mut instance);\n    c2_l9_assert_return_canonical_nan(&mut instance);\n}\n"
    ));
}

#[test]
fn commands_are_numbered_from_one() {
    let commands = vec![
        module(1, "(module)"),
        Command { line: 2, kind: CommandKind::PerformAction(invoke("f", Vec::new())) },
    ];
    let mut generator = WastTestGenerator::new();
    generator.consume(&commands);
    let output = generator.finalize();
    assert!(output.contains("fn c2_l2_action_invoke(vmctx: &mut Ctx) -> Result<()> {"));
    assert!(!output.contains("c1_l2_action_invoke"));
    assert!(output.ends_with(
        "    start_module_1(&mut instance);\n    c2_l2_action_invoke(&mut instance);\n}\n"
    ));
    assert_eq!(generator.command_no(), 2);
    assert_eq!(generator.command_name(), "c2_l2");
}

#[test]
fn trap_gets_a_test_of_its_own() {
    let commands = vec![
        module(1, "(module)"),
        assert_trap(5, "div", vec![Value::I32(1), Value::I32(0)]),
    ];
    let output = consume(&commands);
    let names = vec![String::from("start_module_1")];
    let expected = format!(
        "{}{}{}{}{}{}{}{}",
        banner(),
        line_comment(1),
        factory(1, "(module)"),
        start_hook("start_module_1"),
        line_comment(5),
        action_unit("c2_l5_action_invoke", "div", &vec![Value::I32(1), Value::I32(0)], None),
        trap_test("c2_l5_assert_trap", 1, "c2_l5_action_invoke"),
        batch_test(1, &names)
    );
    assert_eq!(output, expected);
    assert!(output.contains(
        "\n#[test]\nfn c2_l5_assert_trap() {\n    let mut instance = create_module_1();\n    let result = c2_l5_action_invoke(&mut instance);\n    assert!(result.is_err());\n}\n"
    ));
    let batch = &output[output.find("fn test_module_1()").unwrap()..];
    assert!(!batch.contains("c2_l5_action_invoke"));
    assert!(!batch.contains("c2_l5_assert_trap"));
    assert_eq!(count(&output, "c2_l5_action_invoke(&mut instance);"), 1);
}

#[test]
fn modules_are_numbered_in_script_order() {
    let commands = vec![
        module(1, "(module $a)"),
        assert_return(2, "f", Vec::new(), Vec::new()),
        module(3, "(module $b)"),
        register(4),
        module(5, "(module $c)"),
        assert_return(6, "g", Vec::new(), vec![Value::I64(1)]),
    ];
    let output = consume(&commands);
    let mut generator = WastTestGenerator::new();
    assert_eq!((generator.last_module(), generator.command_no(), generator.last_line()), (0, 0, 0));
    generator.consume(&commands);
    assert_eq!((generator.last_module(), generator.command_no(), generator.last_line()), (3, 6, 6));
    assert_eq!(count(&output, "fn create_module_"), 3);
    let first = output.find("fn create_module_1() -> Instance {\n    let module_str = \"(module $a)\";").unwrap();
    let second = output.find("fn create_module_2() -> Instance {\n    let module_str = \"(module $b)\";").unwrap();
    let third = output.find("fn create_module_3() -> Instance {\n    let module_str = \"(module $c)\";").unwrap();
    assert!(first < second && second < third);
    let hooks: Vec<usize> = (1..=3)
        .map(|n| output.find(format!("\nfn start_module_{}(vmctx: &mut Ctx) {{", n).as_str()).unwrap())
        .collect();
    assert!(first < hooks[0] && hooks[0] < second);
    assert!(second < hooks[1] && hooks[1] < third);
    assert!(third < hooks[2]);
    assert!(!output.contains("create_module_0()"));
    assert!(!output.contains("fn create_module_4()"));
}

#[test]
fn batched_test_follows_the_units_of_its_module() {
    let commands = vec![
        module(1, "(module $a)"),
        assert_return(2, "f", Vec::new(), Vec::new()),
        Command { line: 3, kind: CommandKind::PerformAction(invoke("g", vec![Value::I32(1)])) },
        assert_trap(4, "h", Vec::new()),
        module(5, "(module $b)"),
        assert_return(6, "k", Vec::new(), Vec::new()),
    ];
    let output = consume(&commands);
    let first_names = vec![
        String::from("start_module_1"),
        String::from("c2_l2_action_invoke"),
        String::from("c3_l3_action_invoke"),
    ];
    let second_names = vec![String::from("start_module_2"), String::from("c6_l6_action_invoke")];
    let expected = format!(
        "{}{}{}{}{}{}{}{}{}{}{}{}{}{}{}{}{}{}",
        banner(),
        line_comment(1),
        factory(1, "(module $a)"),
        start_hook("start_module_1"),
        line_comment(2),
        action_unit("c2_l2_action_invoke", "f", &Vec::new(), Some(&Vec::new())),
        line_comment(3),
        action_unit("c3_l3_action_invoke", "g", &vec![Value::I32(1)], None),
        line_comment(4),
        action_unit("c4_l4_action_invoke", "h", &Vec::new(), None),
        trap_test("c4_l4_assert_trap", 1, "c4_l4_action_invoke"),
        line_comment(5),
        batch_test(1, &first_names),
        factory(2, "(module $b)"),
        start_hook("start_module_2"),
        line_comment(6),
        action_unit("c6_l6_action_invoke", "k", &Vec::new(), Some(&Vec::new())),
        batch_test(2, &second_names)
    );
    assert_eq!(output, expected);
    let batch_one = output.find("fn test_module_1()").unwrap();
    let batch_two = output.find("fn test_module_2()").unwrap();
    for unit in ["fn c2_l2_action_invoke(", "fn c3_l3_action_invoke(", "fn c4_l4_action_invoke("] {
        assert!(output.find(unit).unwrap() < batch_one);
    }
    assert!(batch_one < output.find("fn create_module_2()").unwrap());
    assert!(output.find("fn c6_l6_action_invoke(").unwrap() < batch_two);
    assert_eq!(count(&output, "fn test_module_1()"), 1);
    assert_eq!(count(&output, "fn test_module_2()"), 1);
}

#[test]
fn invalid_and_malformed_modules_stand_alone() {
    let commands = vec![
        Command {
            line: 2,
            kind: CommandKind::AssertInvalid { module: vec![0, 97, 115, 109], message: String::from("type mismatch") },
        },
        module(3, "(module)"),
        Command {
            line: 8,
            kind: CommandKind::AssertMalformed { module: vec![1, 2], message: String::from("unexpected end") },
        },
    ];
    let output = consume(&commands);
    let expected = format!(
        "{}{}{}{}{}{}{}{}{}",
        banner(),
        line_comment(2),
        invalid_test("c1_l2", &vec![0, 97, 115, 109]),
        line_comment(3),
        factory(1, "(module)"),
        start_hook("start_module_1"),
        line_comment(8),
        malformed_test("c3_l8", &vec![1, 2]),
        batch_test(1, &vec![String::from("start_module_1")])
    );
    assert_eq!(output, expected);
    assert!(output.contains("fn c1_l2_assert_invalid() {\n    let wasm_binary = [0, 97, 115, 109];"));
    assert!(output.contains("fn c3_l8_assert_malformed() {\n    let wasm_binary = [1, 2];"));
    assert!(!output.contains("c1_l2_assert_invalid(&mut instance)"));
    assert!(!output.contains("c3_l8_assert_malformed(&mut instance)"));
}

#[test]
fn skipped_commands_write_their_line_only() {
    let commands = vec![
        register(1),
        Command {
            line: 2,
            kind: CommandKind::AssertExhaustion { action: invoke("runaway", Vec::new()) },
        },
        Command {
            line: 3,
            kind: CommandKind::AssertUnlinkable { module: vec![0], message: String::from("unknown import") },
        },
        Command {
            line: 4,
            kind: CommandKind::AssertUninstantiable { module: vec![0], message: String::from("unreachable") },
        },
    ];
    let mut generator = WastTestGenerator::new();
    generator.consume(&commands);
    assert_eq!(
        generator.finalize().as_str(),
        format!("{}\n// Line 1\n\n// Line 2\n\n// Line 3\n\n// Line 4\n", banner())
    );
    assert_eq!(generator.command_name(), "c4_l4");
}

#[test]
fn reading_a_global_writes_no_unit() {
    let get = || Action::Get { module: None, field: String::from("g") };
    let commands = vec![
        module(1, "(module)"),
        Command { line: 2, kind: CommandKind::AssertReturn { action: get(), expected: vec![Value::I32(1)] } },
        Command { line: 3, kind: CommandKind::PerformAction(get()) },
        Command { line: 4, kind: CommandKind::AssertTrap { action: get(), message: String::new() } },
        Command { line: 5, kind: CommandKind::AssertReturnCanonicalNan { action: get() } },
        Command { line: 6, kind: CommandKind::AssertReturnArithmeticNan { action: get() } },
    ];
    let output = consume(&commands);
    let expected = format!(
        "{}{}{}{}{}{}{}{}{}{}",
        banner(),
        line_comment(1),
        factory(1, "(module)"),
        start_hook("start_module_1"),
        line_comment(2),
        line_comment(3),
        line_comment(4),
        line_comment(5),
        line_comment(6),
        batch_test(1, &vec![String::from("start_module_1")])
    );
    assert_eq!(output, expected);
    let mut generator = WastTestGenerator::new();
    assert!(generator.visit_action(&get(), None).is_none());
    assert_eq!(generator.finalize().as_str(), "");
}

#[test]
fn units_before_the_first_module_are_flushed_by_it() {
    let commands = vec![assert_return(1, "f", Vec::new(), Vec::new()), module(2, "(module)")];
    let output = consume(&commands);
    let expected = format!(
        "{}{}{}{}{}{}{}{}",
        banner(),
        line_comment(1),
        action_unit("c1_l1_action_invoke", "f", &Vec::new(), Some(&Vec::new())),
        line_comment(2),
        batch_test(0, &vec![String::from("c1_l1_action_invoke")]),
        factory(1, "(module)"),
        start_hook("start_module_1"),
        batch_test(1, &vec![String::from("start_module_1")])
    );
    assert_eq!(output, expected);
}

#[test]
fn units_without_any_module_are_never_batched() {
    let commands = vec![assert_return(1, "f", Vec::new(), Vec::new())];
    let output = consume(&commands);
    let expected = format!(
        "{}{}{}",
        banner(),
        line_comment(1),
        action_unit("c1_l1_action_invoke", "f", &Vec::new(), Some(&Vec::new()))
    );
    assert_eq!(output, expected);
}

#[test]
fn an_expected_nan_is_checked_by_kind_and_sign() {
    let nan = || Value::F64(Float64 { bits: 0xFFF8_0000_0000_0000, decimal: String::from("NaN") });
    let commands = vec![module(1, "(module)"), assert_return(3, "neg", vec![nan()], vec![nan()])];
    let output = consume(&commands);
    assert!(output.contains(
        "    let result = instance.call(\"neg\", &[Value::F64(f64::from_bits(18444492273895866368))]);\n    let expected = f64::from_bits(18444492273895866368);\n"
    ));
    assert!(output.contains("assert!((*result as f64).is_nan());"));
    assert!(output.contains(
        "assert_eq!((*result as f64).is_sign_positive(), (expected as f64).is_sign_positive());"
    ));
    assert!(!output.contains("assert_eq!(result, Ok("));
}

#[test]
fn visiting_step_by_step() {
    let mut generator = WastTestGenerator::new();
    generator.visit_module(&String::from("(module)"), &None);
    assert_eq!(
        generator.finalize().as_str(),
        format!("{}{}", factory(1, "(module)"), start_hook("start_module_1"))
    );
    let before = generator.finalize().clone();
    let name = generator.visit_action(&invoke("f", Vec::new()), None);
    assert_eq!(name, Some(String::from("c0_l0_action_invoke")));
    generator.visit_assert_return(&invoke("g", Vec::new()), &vec![Value::I32(1)]);
    generator.visit_perform_action(&invoke("h", Vec::new()));
    generator.visit_assert_trap(&invoke("t", Vec::new()));
    generator.visit_assert_return_canonical_nan(&invoke("c", Vec::new()));
    generator.visit_assert_return_arithmetic_nan(&invoke("a", Vec::new()));
    generator.visit_assert_invalid(&vec![1]);
    generator.visit_assert_malformed(&vec![2]);
    generator.visit_command(&CommandKind::Register { name: None, as_name: String::from("M") });
    assert!(generator.finalize().starts_with(before.as_str()));
    let written = generator.finalize().len();
    generator.flush_module_calls(7);
    assert_eq!(generator.finalize().len(), written);
    generator.flush_module_calls(1);
    let names = vec![
        String::from("start_module_1"),
        String::from("c0_l0_action_invoke"),
        String::from("c0_l0_action_invoke"),
        String::from("c0_l0_assert_return_canonical_nan"),
        String::from("c0_l0_assert_return_arithmetic_nan"),
    ];
    assert!(generator.finalize().ends_with(batch_test(1, &names).as_str()));
    let flushed = generator.finalize().len();
    generator.flush_module_calls(1);
    assert_eq!(generator.finalize().len(), flushed);
}

#[test]
fn two_hundred_commands_are_not_fat() {
    let commands: Vec<Command> = (0..200).map(|n| register(n + 1)).collect();
    let mut generator = WastTestGenerator::new();
    generator.consume(&commands);
    assert!(!generator.is_fat_test());
    let mut out = String::from("before");
    assert!(generate_spectest(&mut out, "names", &commands));
    assert_eq!(
        out,
        format!("beforemod test_names {{\nuse super::*;\n{}\n}}\n", generator.finalize())
    );
}

#[test]
fn two_hundred_and_one_commands_add_nothing() {
    let mut commands: Vec<Command> = vec![module(1, ADD_MODULE)];
    for n in 0..200 {
        commands.push(assert_return(n + 2, "add", vec![Value::I32(1), Value::I32(1)], vec![Value::I32(2)]));
    }
    assert_eq!(commands.len(), 201);
    let mut generator = WastTestGenerator::new();
    generator.consume(&commands);
    assert!(generator.is_fat_test());
    let mut out = String::from("before");
    assert!(!generate_spectest(&mut out, "fat", &commands));
    assert_eq!(out, "before");
    let mut empty = String::new();
    assert!(!generate_spectest(&mut empty, "fat", &commands));
    assert_eq!(empty, "");
}

#[test]
fn a_script_becomes_a_module_of_its_own() {
    let commands = vec![module(1, "(module)")];
    let mut out = String::new();
    assert!(generate_spectest(&mut out, "address", &commands));
    assert_eq!(out, format!("mod test_address {{\nuse super::*;\n{}\n}}\n", consume(&commands)));
}

#[test]
fn test_names_come_from_the_file_name() {
    assert_eq!(test_name("spectests/address.wast"), "address");
    assert_eq!(test_name("spectests/const_.wast"), "const_");
    assert_eq!(test_name("spectests/f32_bitwise.wast"), "f32_bitwise");
    assert_eq!(test_name("a/b/c.d.e"), "c");
    assert_eq!(test_name("plain"), "plain");
    assert_eq!(test_name("dir/"), "");
    assert_eq!(test_name(".hidden"), "");
    assert_eq!(test_name(""), "");
    for path in ["spectests/br_if.wast", "x.y/z", "/abs/p.q.r", "no_dot", "a.b/"] {
        assert_eq!(test_name(path), path.split("/").last().unwrap().split(".").next().unwrap());
    }
}

#[test]
fn bundle_is_the_preamble_and_the_blocks() {
    let fat: Vec<Command> = (0..201).map(|n| register(n + 1)).collect();
    let scripts = vec![
        Script { path: String::from("spectests/address.wast"), commands: vec![module(1, "(module)")] },
        Script { path: String::from("spectests/names.wast"), commands: fat },
        Script { path: String::from("spectests/nop.wast"), commands: Vec::new() },
    ];
    let bundle = build(&scripts);
    let output = bundle.text;
    assert_eq!(bundle.skipped, vec!["names"]);
    let mut expected = common();
    generate_spectest(&mut expected, "address", &scripts[0].commands);
    generate_spectest(&mut expected, "nop", &scripts[2].commands);
    assert_eq!(output, expected);
    assert!(output.starts_with("\nuse std::{{f32, f64}};\nuse wabt::wat2wasm;\n"));
    assert_eq!(count(&output, "mod test_"), 2);
    assert!(!output.contains("mod test_names"));
    assert!(output.find("mod test_address {").unwrap() < output.find("mod test_nop {").unwrap());
    assert!(output.ends_with(format!("mod test_nop {{\nuse super::*;\n{}\n}}\n", banner()).as_str()));
    let empty = build(&Vec::new());
    assert_eq!(empty.text, common());
    assert!(empty.skipped.is_empty());
}

#[test]
fn preamble_holds_imports_and_nan_helpers() {
    let text = common();
    assert_eq!(text.len(), 3085);
    assert!(text.contains("imports.register(\"spectest\", instance);"));
    assert!(text.contains("(global $global_i32 (export \"global_i32\") i32 (i32.const 666)))"));
    assert!(text.contains("pub trait NaNCheck {\n    fn is_quiet_nan(&self) -> bool;\n    fn is_canonical_nan(&self) -> bool;\n}"));
    assert!(text.contains("let bit_mask = 0b1 << 22;"));
    assert!(text.contains("let bit_mask = 0b1 << 51;"));
    assert!(text.contains("masked_value == 0xFFFF_FFFF || masked_value == 0x7FFF_FFFF\n"));
    assert!(text.contains(
        "masked_value == 0x7FFF_FFFF_FFFF_FFFF || masked_value == 0xFFFF_FFFF_FFFF_FFFF\n"
    ));
    assert!(text.ends_with("    }\n}\n"));
}
