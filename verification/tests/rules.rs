use rsx::stylesheet::{
    canonical_rule_list, ParsedDeclaration, ParsedRule, ParsedStylesheet, StyleSelector,
};

fn bytes_of(s: &str) -> Vec<u8> {
    s.as_bytes().to_vec()
}

fn selector(css: &str) -> StyleSelector {
    StyleSelector { css_string: bytes_of(css), specificity: 1024 }
}

fn declaration(property: &str, value: &str) -> ParsedDeclaration {
    ParsedDeclaration { property: bytes_of(property), value: bytes_of(value), important: false }
}

fn rule(css: &str, declarations: Vec<ParsedDeclaration>) -> ParsedRule {
    ParsedRule { selectors: vec![selector(css)], declarations }
}

#[test]
fn test_rule_and_declaration_order_preserved() {
    // three rules with 7, 4 and 5 declarations, as in the golden stylesheet
    let parsed = ParsedStylesheet {
        rules: vec![
            rule(
                ".root",
                vec![
                    declaration("background-color", "red"),
                    declaration("width", "500px"),
                    declaration("height", "120px"),
                    declaration("flex-direction", "row"),
                    declaration("padding-top", "20px"),
                    declaration("padding-right", "20px"),
                    declaration("padding-bottom", "20px"),
                ],
            ),
            rule(
                ".image",
                vec![
                    declaration("background-color", "green"),
                    declaration("opacity", "0.5"),
                    declaration("width", "80px"),
                    declaration("margin-right", "20px"),
                ],
            ),
            rule(
                ".text",
                vec![
                    declaration("background-color", "blue"),
                    declaration("color", "yellow"),
                    declaration("height", "25px"),
                    declaration("align-self", "center"),
                    declaration("flex-grow", "1"),
                ],
            ),
        ],
    };
    let sheet = canonical_rule_list(&parsed);
    assert_eq!(sheet.rules.len(), 3);
    let counts: Vec<usize> = sheet.rules.iter().map(|r| r.declarations.len()).collect();
    assert_eq!(counts, vec![7, 4, 5]);
    let selectors: Vec<Vec<u8>> =
        sheet.rules.iter().map(|r| r.selectors[0].css_string.clone()).collect();
    assert_eq!(selectors, vec![bytes_of(".root"), bytes_of(".image"), bytes_of(".text")]);
    for (parsed_rule, canonical) in parsed.rules.iter().zip(sheet.rules.iter()) {
        for (p, c) in parsed_rule.declarations.iter().zip(canonical.declarations.iter()) {
            assert_eq!(p.property, c.property);
            assert_eq!(p.value, c.value);
        }
    }
}

#[test]
fn test_selector_group_order_preserved() {
    let parsed = ParsedStylesheet {
        rules: vec![ParsedRule {
            selectors: vec![selector(".foo"), selector(".bar-baz")],
            declarations: vec![
                declaration("flex-wrap", "nowrap"),
                declaration("flex-direction", "row-reverse"),
            ],
        }],
    };
    let sheet = canonical_rule_list(&parsed);
    assert_eq!(sheet.rules.len(), 1);
    assert_eq!(sheet.rules[0].selectors.len(), 2);
    assert_eq!(sheet.rules[0].selectors[0].css_string, bytes_of(".foo"));
    assert_eq!(sheet.rules[0].selectors[0].specificity, 1024);
    assert_eq!(sheet.rules[0].selectors[1].css_string, bytes_of(".bar-baz"));
    assert_eq!(sheet.rules[0].declarations[0].property, bytes_of("flex-wrap"));
    assert_eq!(sheet.rules[0].declarations[1].property, bytes_of("flex-direction"));
}

#[test]
fn test_margin_shorthand_expansion_kept_in_order() {
    // the external parser expands `margin: 0 auto;` to four declarations for
    // top, right, bottom, left in that order; conversion must keep them
    let parsed = ParsedStylesheet {
        rules: vec![rule(
            ".foo",
            vec![
                declaration("margin-top", "0pt"),
                declaration("margin-right", "auto"),
                declaration("margin-bottom", "0pt"),
                declaration("margin-left", "auto"),
            ],
        )],
    };
    let sheet = canonical_rule_list(&parsed);
    let decls = &sheet.rules[0].declarations;
    assert_eq!(decls.len(), 4);
    let properties: Vec<Vec<u8>> = decls.iter().map(|d| d.property.clone()).collect();
    assert_eq!(
        properties,
        vec![
            bytes_of("margin-top"),
            bytes_of("margin-right"),
            bytes_of("margin-bottom"),
            bytes_of("margin-left"),
        ]
    );
    let values: Vec<Vec<u8>> = decls.iter().map(|d| d.value.clone()).collect();
    assert_eq!(values, vec![bytes_of("0pt"), bytes_of("auto"), bytes_of("0pt"), bytes_of("auto")]);
}

#[test]
fn test_ignore_unused_keeps_rule_list() {
    let parsed = ParsedStylesheet {
        rules: vec![rule(".foo", vec![declaration("padding-top", "10px")])],
    };
    let sheet = canonical_rule_list(&parsed).ignore_unused();
    assert_eq!(sheet.rules.len(), 1);
    assert_eq!(sheet.rules[0].selectors[0].css_string, bytes_of(".foo"));
    assert_eq!(sheet.rules[0].declarations[0].property, bytes_of("padding-top"));
    assert_eq!(sheet.rules[0].declarations[0].value, bytes_of("10px"));
}
