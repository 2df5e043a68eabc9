//! Orchestration of the two literal-compilation pipelines.
//!
//! The stylesheet path resolves its source, repairs inline text, and hands
//! the result to the external CSS grammar parser under a fixed configuration;
//! the parser's structural result is then converted into the canonical rule
//! list and embedded. The markup path hands its raw text to the external
//! markup parser unchanged. Obtaining file contents, invoking the external
//! parsers and splicing the produced constant are the surrounding build's
//! side of the boundary; everything on this side is a pure function of the
//! text it is given.

use vstd::prelude::*;

verus! {

/// Resolved stylesheet text together with its provenance, which decides
/// whether token repair applies.
pub enum ResolvedText {
    /// Inline literal text, still carrying the tokenizer's artifacts.
    Inline { raw: Vec<u8> },
    /// The verbatim contents of a referenced stylesheet file.
    FileContents { text: Vec<u8> },
}

/// The text handed to the external CSS grammar parser: inline text after
/// both token-repair passes; file contents verbatim, never repaired.
pub fn stylesheet_parser_input(src: &ResolvedText) -> (out: Vec<u8>)
    ensures
        src matches ResolvedText::Inline { raw } ==> out@ == crate::normalize::token_repaired(
            raw@,
        ),
        src matches ResolvedText::FileContents { text } ==> out@ == text@,
{
    match src {
        ResolvedText::Inline { raw } => crate::normalize::repair_tokens(raw),
        ResolvedText::FileContents { text } => crate::bytes::copy_bytes(text),
    }
}

/// The text handed to the external markup parser: the raw literal text
/// unchanged. The markup literal grammar is syntactically stable under the
/// host's tokenization, so no repair pass runs on it.
pub fn markup_parser_input(raw: &Vec<u8>) -> (out: Vec<u8>)
    ensures
        out@ == raw@,
{
    crate::bytes::copy_bytes(raw)
}

/// The origin level a stylesheet is parsed at.
pub enum StyleOrigin {
    UserAgent,
    User,
    Author,
}

/// The quirks handling a stylesheet is parsed under.
pub enum QuirksSetting {
    NoQuirks,
    LimitedQuirks,
    Quirks,
}

/// The configuration the external CSS grammar parser is invoked with.
pub struct CssParseConfig {
    pub origin: StyleOrigin,
    pub quirks: QuirksSetting,
    pub media_queries: Vec<Vec<u8>>,
    pub base_url: Vec<u8>,
}

/// The fixed placeholder base URL, `about::inline`, used only for relative
/// reference resolution inside the parser.
pub open spec fn inline_base_url() -> Seq<u8> {
    seq![97u8, 98, 111, 117, 116, 58, 58, 105, 110, 108, 105, 110, 101]
}

/// The fixed, context-appropriate parser configuration: user-agent origin,
/// quirks disabled, an unconditional (empty) media context, and the
/// placeholder base URL.
pub fn fixed_parse_config() -> (c: CssParseConfig)
    ensures
        c.origin is UserAgent,
        c.quirks is NoQuirks,
        c.media_queries@.len() == 0,
        c.base_url@ == inline_base_url(),
{
    let mut url: Vec<u8> = Vec::new();
    url.push(97);
    url.push(98);
    url.push(111);
    url.push(117);
    url.push(116);
    url.push(58);
    url.push(58);
    url.push(105);
    url.push(110);
    url.push(108);
    url.push(105);
    url.push(110);
    url.push(101);
    proof {
        assert(url@ =~= inline_base_url());
    }
    CssParseConfig {
        origin: StyleOrigin::UserAgent,
        quirks: QuirksSetting::NoQuirks,
        media_queries: Vec::new(),
        base_url: url,
    }
}

} // verus!
