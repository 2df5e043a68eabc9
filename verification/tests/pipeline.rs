use rsx::compile::{fixed_parse_config, markup_parser_input, stylesheet_parser_input};
use rsx::compile::{QuirksSetting, ResolvedText, StyleOrigin};
use rsx::error::{CompileError, FileOp};
use rsx::resolve::{resolve_source, SourceResolution};

fn bytes_of(s: &str) -> Vec<u8> {
    s.as_bytes().to_vec()
}

#[test]
fn test_quoted_literal_resolves_to_file_reference() {
    let raw = bytes_of("\"tests/fixtures/test_1.css\"");
    match resolve_source(&raw) {
        SourceResolution::FileReference { path } => {
            assert_eq!(path, bytes_of("tests/fixtures/test_1.css"));
        },
        SourceResolution::Inline { .. } => panic!("quoted literal must resolve to a file"),
    }
}

#[test]
fn test_unquoted_literal_resolves_inline() {
    let raw = bytes_of(".foo { padding: 10px; }");
    match resolve_source(&raw) {
        SourceResolution::Inline { text } => assert_eq!(text, raw),
        SourceResolution::FileReference { .. } => panic!("inline literal must stay inline"),
    }
}

#[test]
fn test_file_contents_bypass_token_repair() {
    // file-sourced text is used verbatim even where it holds the exact
    // patterns the repair passes would otherwise rewrite
    let contents = bytes_of(". foo { margin - left : 0 ; }");
    let out = stylesheet_parser_input(&ResolvedText::FileContents { text: contents.clone() });
    assert_eq!(out, contents);
}

#[test]
fn test_inline_text_is_repaired() {
    let raw = bytes_of(". foo { margin - left : 0 ; }");
    let out = stylesheet_parser_input(&ResolvedText::Inline { raw });
    assert_eq!(out, bytes_of(".foo { margin-left : 0 ; }"));
}

#[test]
fn test_markup_text_passes_through_unchanged() {
    let raw = bytes_of("<view attr={x}> Hello world! </view>");
    assert_eq!(markup_parser_input(&raw), raw);
}

#[test]
fn test_fixed_parser_configuration() {
    let c = fixed_parse_config();
    assert!(matches!(c.origin, StyleOrigin::UserAgent));
    assert!(matches!(c.quirks, QuirksSetting::NoQuirks));
    assert!(c.media_queries.is_empty());
    assert_eq!(c.base_url, bytes_of("about::inline"));
}

#[test]
fn test_open_failure_message_names_operation_and_path() {
    let err = CompileError::SourceIo { op: FileOp::Open, path: bytes_of("/work/missing.css") };
    assert_eq!(err.message(), bytes_of("Couldn't open file /work/missing.css"));
}

#[test]
fn test_read_failure_message_names_operation_and_path() {
    let err = CompileError::SourceIo { op: FileOp::Read, path: bytes_of("/work/broken.css") };
    assert_eq!(err.message(), bytes_of("Couldn't read file /work/broken.css"));
}

#[test]
fn test_parser_diagnostic_kept_verbatim() {
    let diag = bytes_of("unexpected token at 3:7");
    let err = CompileError::GrammarParse { diagnostic: diag.clone() };
    assert_eq!(err.message(), diag);
}

#[test]
fn test_embedding_failure_names_type() {
    let descriptor = bytes_of("UnsupportedThing");
    let err = CompileError::Embedding { type_descriptor: descriptor.clone() };
    assert_eq!(err.message(), descriptor);
}
