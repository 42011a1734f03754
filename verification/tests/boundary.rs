use ts_transpiler::config::{Edition, EmitterConfig, ParserOptions};
use ts_transpiler::diagnostics::{reached_error, Diagnostic, Mapping, Severity};
use ts_transpiler::errors::{status, Error, STATUS_OK};
use ts_transpiler::text::{decode, decode_slice};
use ts_transpiler::transpiler::{
    decode_output, parse_verdict, source_fits, transpile_with, Output, Transpiled,
};
use ts_transpiler::{transpile_bytes, transpile_module};

fn diagnostic(severity: Severity) -> Diagnostic {
    Diagnostic { severity, message: "m".to_string(), start: 0, end: 0 }
}

#[test]
fn status_codes_are_stable() {
    assert_eq!(Error::Parse.code(), 1);
    assert_eq!(Error::Emission.code(), 2);
    assert_eq!(Error::InvalidString.code(), 3);
    assert_eq!(Error::UTF8InvalidSlice.code(), 4);
    assert_eq!(i8::from(Error::Parse), 1);
    assert_eq!(i8::from(Error::Emission), 2);
    assert_eq!(i8::from(Error::InvalidString), 3);
    assert_eq!(i8::from(Error::UTF8InvalidSlice), 4);
    let code: i8 = Error::Emission.into();
    assert_eq!(code, 2);
}

#[test]
fn codes_are_found_again() {
    for error in [Error::Parse, Error::Emission, Error::InvalidString, Error::UTF8InvalidSlice] {
        assert_eq!(Error::from_code(error.code()), Some(error));
        assert_ne!(error.code(), STATUS_OK);
    }
    assert_eq!(Error::from_code(0), None);
    assert_eq!(Error::from_code(5), None);
    assert_eq!(Error::from_code(-1), None);
    assert_eq!(Error::from_code(i8::MAX), None);
    assert_eq!(Error::from_code(i8::MIN), None);
}

#[test]
fn failures_are_classified() {
    assert!(!Error::Parse.is_invalid_input());
    assert!(!Error::Emission.is_invalid_input());
    assert!(Error::InvalidString.is_invalid_input());
    assert!(Error::UTF8InvalidSlice.is_invalid_input());
    assert_eq!(Error::Parse.message(), "syntax error");
    assert_eq!(Error::Emission.message(), "the output could not be written");
    assert_eq!(Error::InvalidString.message(), "the module name is not valid UTF-8");
    assert_eq!(Error::UTF8InvalidSlice.message(), "the source text is not valid UTF-8");
}

#[test]
fn status_of_an_outcome() {
    assert_eq!(status(&Ok::<String, Error>("x".to_string())), 0);
    assert_eq!(status(&Ok::<(), Error>(())), 0);
    assert_eq!(status(&Err::<String, Error>(Error::Parse)), 1);
    assert_eq!(status(&Err::<String, Error>(Error::UTF8InvalidSlice)), 4);
}

#[test]
fn bytes_are_read_as_text() {
    assert_eq!(decode(vec![]), Some(String::new()));
    assert_eq!(decode(b"let x".to_vec()), Some("let x".to_string()));
    assert_eq!(decode(vec![0xC3, 0xA9]), Some("é".to_string()));
    assert_eq!(decode(vec![0xF0, 0x9F, 0x98, 0x80]), Some("😀".to_string()));
    assert_eq!(decode(vec![0xFF]), None);
    assert_eq!(decode(vec![0xC3]), None);
    assert_eq!(decode(vec![0xC0, 0x80]), None);
    assert_eq!(decode(vec![0xED, 0xA0, 0x80]), None);
    assert_eq!(decode_slice(b"abc"), Some("abc".to_string()));
    assert_eq!(decode_slice(&[b'a', 0x80]), None);
}

#[test]
fn emitted_bytes_that_are_no_text_are_an_emission_failure() {
    assert_eq!(decode_output(b"let x = 1;\n".to_vec()), Ok("let x = 1;\n".to_string()));
    assert_eq!(decode_output(Vec::new()), Ok(String::new()));
    assert_eq!(decode_output(vec![b'a', 0xFF]), Err(Error::Emission));
}

#[test]
fn an_error_among_the_diagnostics_fails_the_parse() {
    assert_eq!(parse_verdict(true, &vec![]), Ok(()));
    assert_eq!(parse_verdict(false, &vec![]), Err(Error::Parse));
    assert_eq!(parse_verdict(true, &vec![diagnostic(Severity::Warning)]), Ok(()));
    assert_eq!(parse_verdict(true, &vec![diagnostic(Severity::Error)]), Err(Error::Parse));
    assert_eq!(
        parse_verdict(true, &vec![diagnostic(Severity::Warning), diagnostic(Severity::Error)]),
        Err(Error::Parse)
    );
    assert_eq!(parse_verdict(false, &vec![diagnostic(Severity::Warning)]), Err(Error::Parse));
    assert!(!reached_error(&vec![]));
    assert!(!reached_error(&vec![diagnostic(Severity::Warning), diagnostic(Severity::Warning)]));
    assert!(reached_error(&vec![diagnostic(Severity::Warning), diagnostic(Severity::Error)]));
    assert!(reached_error(&vec![diagnostic(Severity::Error), diagnostic(Severity::Warning)]));
}

#[test]
fn ordinary_sources_fit() {
    assert!(source_fits(""));
    assert!(source_fits("let x = 1;"));
}

#[test]
fn request_in_bytes_succeeds_with_status_zero() {
    let source = b"function foo(test: number) { return test + 5 }";
    assert_eq!(transpile_module(b"test.ts", source), 0);
    let out = transpile_bytes(b"test.ts", source);
    assert_eq!(out.output.unwrap().code, "function foo(test) {\n    return test + 5;\n}\n");
    assert!(out.diagnostics.is_empty());
}

#[test]
fn request_in_bytes_with_a_syntax_error_has_status_one() {
    assert_eq!(transpile_module(b"bad.ts", b"let s = \"abc"), 1);
    let out = transpile_bytes(b"bad.ts", b"let s = \"abc");
    assert_eq!(out.output, Err(Error::Parse));
    assert_eq!(out.diagnostics.len(), 1);
}

#[test]
fn malformed_source_text_is_refused_before_parsing() {
    let out = transpile_bytes(b"test.ts", &[b'l', b'e', b't', 0xFF]);
    assert_eq!(out, Transpiled { output: Err(Error::UTF8InvalidSlice), diagnostics: vec![] });
    assert!(Error::UTF8InvalidSlice.is_invalid_input());
    assert_eq!(transpile_module(b"test.ts", &[b'l', b'e', b't', 0xFF]), 4);
    assert_eq!(transpile_module(b"test.ts", &[0xC3]), 4);
}

#[test]
fn malformed_module_name_is_refused_first() {
    let out = transpile_bytes(&[0xFF, b'.', b't', b's'], b"let x: number = 1;");
    assert_eq!(out, Transpiled { output: Err(Error::InvalidString), diagnostics: vec![] });
    assert_eq!(transpile_module(&[0xFF], b"let x: number = 1;"), 3);
    assert_eq!(transpile_module(&[0xFF], &[0xFF]), 3);
    assert_eq!(transpile_module(&[0xFF], b"let s = \"abc"), 3);
}

#[test]
fn module_name_does_not_change_the_output() {
    let a = transpile_bytes(b"a.ts", b"let x: number = 1;");
    let b = transpile_bytes(b"some/other/name.tsx", b"let x: number = 1;");
    assert_eq!(a, b);
    assert_eq!(transpile_module(b"", b"let x: number = 1;"), 0);
}

#[test]
fn standard_configuration() {
    assert_eq!(
        ParserOptions::default(),
        ParserOptions { target: Edition::Es2022 }
    );
    assert_eq!(
        EmitterConfig::default(),
        EmitterConfig {
            target: Edition::Es2022,
            ascii_only: false,
            minify: false,
            omit_last_semi: false,
        }
    );
}

fn emit_with(source: &str, config: EmitterConfig) -> String {
    transpile_with("m.ts".to_string(), source.to_string(), &ParserOptions::default(), &config)
        .output
        .unwrap()
        .code
}

#[test]
fn emitter_switches_reach_the_emitter() {
    let source = "let a: number = 1; let s = 'ü';";
    let standard = EmitterConfig::default();
    assert_eq!(emit_with(source, standard), "let a = 1;\nlet s = 'ü';\n");
    assert_eq!(
        emit_with(source, EmitterConfig { minify: true, ..standard }),
        "let a=1;let s=\"ü\";"
    );
    assert_eq!(
        emit_with(source, EmitterConfig { ascii_only: true, ..standard }),
        "let a = 1;\nlet s = \"\\xfc\";\n"
    );
    assert_eq!(
        emit_with(source, EmitterConfig { minify: true, omit_last_semi: true, ..standard }),
        "let a=1;let s=\"ü\""
    );
}

#[test]
fn the_dialect_is_plain_typescript() {
    let run = |source: &str, target: Edition| {
        transpile_with(
            "m.tsx".to_string(),
            source.to_string(),
            &ParserOptions { target },
            &EmitterConfig::default(),
        )
    };
    assert_eq!(run("let a = <div></div>;", Edition::Es2022).output, Err(Error::Parse));
    assert_eq!(run("@sealed class A {}", Edition::EsNext).output, Err(Error::Parse));
    let cast = run("let a = <number>b;", Edition::EsNext);
    assert_eq!(cast.output.unwrap().code, "let a = b;\n");
}

#[test]
fn invalid_assignment_targets_are_refused() {
    for source in ["(foo() as any) = 1;", "(1 as any) = 2;", "foo()! += 1;"] {
        let out = transpile_with(
            "m.ts".to_string(),
            source.to_string(),
            &ParserOptions::default(),
            &EmitterConfig::default(),
        );
        assert_eq!(out.output, Err(Error::Parse), "{source}");
        assert!(!out.diagnostics.is_empty(), "{source}");
    }
}

#[test]
fn byte_order_mark_is_not_counted() {
    let plain = transpile_with(
        "m.ts".to_string(),
        "let s = \"abc".to_string(),
        &ParserOptions::default(),
        &EmitterConfig::default(),
    );
    let marked = transpile_with(
        "m.ts".to_string(),
        "\u{feff}let s = \"abc".to_string(),
        &ParserOptions::default(),
        &EmitterConfig::default(),
    );
    assert_eq!(plain.diagnostics[0].start, 8);
    assert_eq!(marked.diagnostics[0].start, 8);
    assert_eq!(marked.diagnostics[0].end, 12);
    let out = transpile_with(
        "m.ts".to_string(),
        "\u{feff}let q: string = 'x';".to_string(),
        &ParserOptions::default(),
        &EmitterConfig::default(),
    );
    assert_eq!(out.output.unwrap().code, "let q = 'x';\n");
}

#[test]
fn mappings_lead_back_into_the_source() {
    let source = "let x: number = 1;";
    let out = transpile_with(
        "m.ts".to_string(),
        source.to_string(),
        &ParserOptions::default(),
        &EmitterConfig::default(),
    );
    let Output { code, mappings } = out.output.unwrap();
    assert_eq!(code, "let x = 1;\n");
    assert_eq!(
        mappings,
        vec![
            Mapping { source: Some(0), line: 0, column: 0 },
            Mapping { source: Some(4), line: 0, column: 4 },
            Mapping { source: Some(16), line: 0, column: 8 },
        ]
    );
    for mapping in &mappings {
        assert!(mapping.source.unwrap() as usize <= source.len());
    }
}

#[test]
fn target_reaches_the_emitter() {
    let source = "let s = '😀';";
    let standard = EmitterConfig::default();
    assert_eq!(
        emit_with(source, EmitterConfig { ascii_only: true, target: Edition::Es5, ..standard }),
        "let s = \"\\uD83D\\uDE00\";\n"
    );
    assert_eq!(
        emit_with(source, EmitterConfig { ascii_only: true, target: Edition::Es2015, ..standard }),
        "let s = \"\\u{1F600}\";\n"
    );
    assert_eq!(
        emit_with(source, EmitterConfig { ascii_only: true, ..standard }),
        "let s = \"\\u{1F600}\";\n"
    );
}

#[test]
fn last_terminator_is_left_out_only_where_white_space_is() {
    let source = "function f() { return 1; }\nlet a = 1;";
    let standard = EmitterConfig::default();
    assert_eq!(
        emit_with(source, EmitterConfig { omit_last_semi: true, ..standard }),
        "function f() {\n    return 1;\n}\nlet a = 1;\n"
    );
    assert_eq!(
        emit_with(source, EmitterConfig { minify: true, ..standard }),
        "function f(){return 1;}let a=1;"
    );
    assert_eq!(
        emit_with(source, EmitterConfig { minify: true, omit_last_semi: true, ..standard }),
        "function f(){return 1}let a=1"
    );
}
