use ts_transpiler::config::{EmitterConfig, ParserOptions};
use ts_transpiler::diagnostics::Severity;
use ts_transpiler::errors::Error;
use ts_transpiler::transpiler::{transpile_module, transpile_with};

fn squeeze(code: &str) -> String {
    code.split_whitespace().collect::<Vec<&str>>().join(" ")
}

fn js(source: &str) -> String {
    transpile_module("module.ts".to_string(), source.to_string()).unwrap()
}

#[test]
fn typed_parameter_is_erased() {
    let out = js("function foo(test: number) { return test + 5 }");
    assert_eq!(out, "function foo(test) {\n    return test + 5;\n}\n");
    assert_eq!(squeeze(&out), "function foo(test) { return test + 5; }");
}

#[test]
fn interface_alone_gives_an_empty_module() {
    assert_eq!(js("interface Point { x: number; y: number }"), "");
}

#[test]
fn type_alias_is_deleted() {
    assert_eq!(js("type A = number; let x: A = 1;"), "let x = 1;\n");
}

#[test]
fn enum_is_kept_as_a_runtime_construct() {
    let out = js("enum Color { Red, Green }");
    assert!(out.contains("Color"));
    assert!(out.contains("Red"));
    assert!(out.contains("Green"));
    assert_eq!(
        out,
        "var Color = /*#__PURE__*/ function(Color) {\n    Color[Color[\"Red\"] = 0] = \"Red\";\n    Color[Color[\"Green\"] = 1] = \"Green\";\n    return Color;\n}(Color || {});\n"
    );
}

#[test]
fn unterminated_string_is_a_parse_error_at_its_offset() {
    let source = "let s = \"abc";
    let out = transpile_with(
        "bad.ts".to_string(),
        source.to_string(),
        &ParserOptions::default(),
        &EmitterConfig::default(),
    );
    assert_eq!(out.output, Err(Error::Parse));
    assert_eq!(out.diagnostics.len(), 1);
    assert_eq!(out.diagnostics[0].severity, Severity::Error);
    assert_eq!(out.diagnostics[0].start, 8);
    assert_eq!(out.diagnostics[0].end, 12);
    assert_eq!(out.diagnostics[0].message, "Unterminated string constant");
    assert_eq!(transpile_module("bad.ts".to_string(), source.to_string()), Err(Error::Parse));
}

#[test]
fn colliding_bindings_are_renamed() {
    let out = js("namespace Foo { const Foo = 1; export const x = Foo; }");
    assert_eq!(
        out,
        "(function(Foo) {\n    const Foo1 = 1;\n    Foo.x = Foo1;\n})(Foo || (Foo = {}));\nvar Foo;\n"
    );
    assert_eq!(js(&out), out);
    assert_eq!(js("namespace Foo { const Foo = 1; export const x = Foo; }"), out);
}

#[test]
fn sibling_blocks_keep_their_names() {
    assert_eq!(
        js("{ let a = 1; } { let a = 2; }"),
        "{\n    let a = 1;\n}{\n    let a = 2;\n}"
    );
}

#[test]
fn assertions_are_replaced_by_their_operand() {
    let out = js("function id<T>(x: T): T { return x as T; }\nlet y = id<number>(1)!;");
    assert_eq!(out, "function id(x) {\n    return x;\n}\nlet y = id(1);\n");
}

#[test]
fn type_only_imports_are_stripped() {
    let out = js(
        "import type { A } from './a'; import { b, type C } from './b'; export type { A }; console.log(b);",
    );
    assert_eq!(out, "import { b } from './b';\nconsole.log(b);\n");
}

#[test]
fn ambient_declarations_are_deleted_and_parentheses_kept() {
    assert_eq!(js("declare const z: number; let w = (1 + 2) * 3;"), "let w = (1 + 2) * 3;\n");
}

#[test]
fn comments_stay_with_their_statements() {
    assert_eq!(
        js("// leading\nlet a: number = 1; /* trailing */\n"),
        "// leading\nlet a = 1; /* trailing */ \n"
    );
}

#[test]
fn empty_source_gives_empty_output() {
    let out = transpile_with(
        "empty.ts".to_string(),
        String::new(),
        &ParserOptions::default(),
        &EmitterConfig::default(),
    );
    let output = out.output.unwrap();
    assert_eq!(output.code, "");
    assert!(output.mappings.is_empty());
    assert!(out.diagnostics.is_empty());
}

#[test]
fn characters_outside_ascii_are_kept() {
    assert_eq!(js("let é = 'ü';"), "let é = 'ü';\n");
}

#[test]
fn erasure_is_idempotent() {
    let sources = [
        "function foo(test: number) { return test + 5 }",
        "enum Color { Red, Green }",
        "namespace Foo { const Foo = 1; export const x = Foo; }",
        "class P<T> { private x: T; constructor(public y: number) {} }",
        "import { b, type C } from './b'; console.log(b);",
        "interface Point { x: number; y: number }",
    ];
    for source in sources {
        let once = js(source);
        let twice = js(&once);
        assert_eq!(squeeze(&twice), squeeze(&once), "for {}", source);
    }
}

#[test]
fn output_parses_again_to_the_same_output() {
    let once = js("let w = (1 + 2) * 3; if (w) { w = -(-w); } else w = 2 ** (w ** 2);");
    let twice = js(&once);
    assert_eq!(twice, once);
}

#[test]
fn repeated_requests_give_identical_results() {
    let sources = ["namespace Foo { const Foo = 1; export const x = Foo; }", "let s = \"abc", ""];
    for source in sources {
        let first = transpile_with(
            "same.ts".to_string(),
            source.to_string(),
            &ParserOptions::default(),
            &EmitterConfig::default(),
        );
        let second = transpile_with(
            "same.ts".to_string(),
            source.to_string(),
            &ParserOptions::default(),
            &EmitterConfig::default(),
        );
        assert_eq!(first, second);
    }
}

#[test]
fn fixer_keeps_a_statement_from_being_read_as_a_block() {
    let once = js("(<any>{ a: 1 }).a;");
    assert_eq!(once, "({\n    a: 1\n}).a;\n");
    assert_eq!(js(&once), once);
}

#[test]
fn parentheses_that_only_held_an_assertion_are_dropped() {
    assert_eq!(js("let a = (b as number) * 2;"), "let a = b * 2;\n");
    assert_eq!(js("let c = ((1 + 2) as number) * 3;"), "let c = (1 + 2) * 3;\n");
}

#[test]
fn parameter_properties_become_assignments() {
    assert_eq!(
        js("class A { constructor(private readonly x: number) {} }\nfunction f(this: A) {}"),
        "class A {\n    x;\n    constructor(x){\n        this.x = x;\n    }\n}\nfunction f() {}\n"
    );
}

#[test]
fn missing_terminators_are_written() {
    assert_eq!(js("let z: number = 1\nlet w = z"), "let z = 1;\nlet w = z;\n");
}

#[test]
fn syntax_errors_are_placed() {
    let cases = [
        ("label: label: while (true) {}", 7, 12, "Label label is already declared"),
        (
            "function g() { 'use strict'; var public = 1; }",
            33,
            39,
            "`public` cannot be used as an identifier in strict mode",
        ),
        ("class B { get a(b) { return 1 } }", 10, 13, "A `get` accessor cannot have parameters"),
        ("const enum D {\n d = 10\n g = 2\n}", 24, 25, "Expected ',', got 'ident'"),
    ];
    for (source, start, end, message) in cases {
        let out = transpile_with(
            "bad.ts".to_string(),
            source.to_string(),
            &ParserOptions::default(),
            &EmitterConfig::default(),
        );
        assert_eq!(out.output, Err(Error::Parse), "for {}", source);
        assert_eq!(out.diagnostics.len(), 1);
        assert_eq!(out.diagnostics[0].severity, Severity::Error);
        assert_eq!(out.diagnostics[0].start, start);
        assert_eq!(out.diagnostics[0].end, end);
        assert_eq!(out.diagnostics[0].message, message);
        assert!(out.diagnostics[0].end as usize <= source.len());
    }
}
