//! The canonical, order-preserving rule list.
//!
//! The external CSS grammar parser reports rules as selector groups paired
//! with declaration blocks. This module models that report with plain values
//! and converts it into the canonical rule list that is embedded as constant
//! data: source order of rules, and of declarations within a rule, is kept
//! exactly; nothing is reordered or dropped. The strongly-typed property
//! model and the specificity engine stay external: a selector carries the
//! specificity the engine computed, a declaration its property and value
//! text.

use vstd::prelude::*;

verus! {

/// One selector of a rule's selector group, with the specificity the
/// external engine computed for it.
pub struct StyleSelector {
    pub css_string: Vec<u8>,
    pub specificity: u32,
}

/// One resolved declaration: property name and value text.
pub struct StyleDeclaration {
    pub property: Vec<u8>,
    pub value: Vec<u8>,
}

/// One declaration as the external parser reports it. The importance flag is
/// resolved by the external cascade and is not part of the canonical data.
pub struct ParsedDeclaration {
    pub property: Vec<u8>,
    pub value: Vec<u8>,
    pub important: bool,
}

/// One rule as the external parser reports it.
pub struct ParsedRule {
    pub selectors: Vec<StyleSelector>,
    pub declarations: Vec<ParsedDeclaration>,
}

/// The external parser's whole structural result, rules in source order.
pub struct ParsedStylesheet {
    pub rules: Vec<ParsedRule>,
}

/// One canonical style rule: a selector group and its declarations, both in
/// source order.
pub struct StyleRule {
    pub selectors: Vec<StyleSelector>,
    pub declarations: Vec<StyleDeclaration>,
}

/// The canonical rule list, in source order.
pub struct Stylesheet {
    pub rules: Vec<StyleRule>,
}

/// The canonical rule keeps the parsed rule's selector group and declaration
/// block exactly, position by position.
pub open spec fn rule_canonicalized(p: ParsedRule, c: StyleRule) -> bool {
    &&& c.selectors@.len() == p.selectors@.len()
    &&& forall|j: int|
        0 <= j < p.selectors@.len() ==> (#[trigger] c.selectors@[j]).css_string@
            == p.selectors@[j].css_string@ && c.selectors@[j].specificity
            == p.selectors@[j].specificity
    &&& c.declarations@.len() == p.declarations@.len()
    &&& forall|j: int|
        0 <= j < p.declarations@.len() ==> (#[trigger] c.declarations@[j]).property@
            == p.declarations@[j].property@ && c.declarations@[j].value@
            == p.declarations@[j].value@
}

/// Copies one selector.
fn copy_selector(s: &StyleSelector) -> (out: StyleSelector)
    ensures
        out.css_string@ == s.css_string@,
        out.specificity == s.specificity,
{
    StyleSelector { css_string: crate::bytes::copy_bytes(&s.css_string), specificity: s.specificity }
}

/// Converts one parsed rule into its canonical form, keeping the source
/// order of selectors and declarations.
pub fn canonical_rule(p: &ParsedRule) -> (c: StyleRule)
    ensures
        rule_canonicalized(*p, c),
{
    let mut selectors: Vec<StyleSelector> = Vec::new();
    let mut i: usize = 0;
    while i < p.selectors.len()
        invariant
            i <= p.selectors@.len(),
            selectors@.len() == i,
            forall|j: int|
                0 <= j < i ==> (#[trigger] selectors@[j]).css_string@
                    == p.selectors@[j].css_string@ && selectors@[j].specificity
                    == p.selectors@[j].specificity,
        decreases p.selectors@.len() - i,
    {
        selectors.push(copy_selector(&p.selectors[i]));
        i = i + 1;
    }
    let mut declarations: Vec<StyleDeclaration> = Vec::new();
    let mut k: usize = 0;
    while k < p.declarations.len()
        invariant
            k <= p.declarations@.len(),
            declarations@.len() == k,
            forall|j: int|
                0 <= j < k ==> (#[trigger] declarations@[j]).property@
                    == p.declarations@[j].property@ && declarations@[j].value@
                    == p.declarations@[j].value@,
        decreases p.declarations@.len() - k,
    {
        declarations.push(
            StyleDeclaration {
                property: crate::bytes::copy_bytes(&p.declarations[k].property),
                value: crate::bytes::copy_bytes(&p.declarations[k].value),
            },
        );
        k = k + 1;
    }
    StyleRule { selectors, declarations }
}

/// Converts the parsed result into the canonical rule list. Source order of
/// rules, and of declarations within a rule, is preserved position by
/// position; no rule or declaration is reordered or dropped.
pub fn canonical_rule_list(parsed: &ParsedStylesheet) -> (sheet: Stylesheet)
    ensures
        sheet.rules@.len() == parsed.rules@.len(),
        forall|i: int|
            0 <= i < parsed.rules@.len() ==> rule_canonicalized(
                parsed.rules@[i],
                #[trigger] sheet.rules@[i],
            ),
{
    let mut rules: Vec<StyleRule> = Vec::new();
    let mut i: usize = 0;
    while i < parsed.rules.len()
        invariant
            i <= parsed.rules@.len(),
            rules@.len() == i,
            forall|j: int|
                0 <= j < i ==> rule_canonicalized(parsed.rules@[j], #[trigger] rules@[j]),
        decreases parsed.rules@.len() - i,
    {
        rules.push(canonical_rule(&parsed.rules[i]));
        i = i + 1;
    }
    Stylesheet { rules }
}

impl Stylesheet {
    /// Acknowledges, as an explicit no-op, any parser-level bookkeeping of
    /// unused rules: the rule list is returned unchanged.
    pub fn ignore_unused(self) -> (out: Stylesheet)
        ensures
            out == self,
    {
        self
    }
}

} // verus!
