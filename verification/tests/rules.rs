use fields_valid::number::Double;
use fields_valid::predicate::{Check, Coercion, Predicate, RegexRegistration};
use fields_valid::schema::{Attribute, Lit, Meta, NestedMeta};
use fields_valid::validate::{CompileError, ValidateMeta, ValidateRule, DEFAULT_MESSAGE};

fn num(x: f64) -> Double {
    Double::from_bits(x.to_bits()).unwrap()
}

fn integer(text: &str) -> NestedMeta {
    let value = text.parse::<f64>().ok().and_then(|x| Double::from_bits(x.to_bits()));
    NestedMeta::Lit(Lit::Int { text: text.to_string(), value })
}

fn floating(x: f64) -> NestedMeta {
    NestedMeta::Lit(Lit::Float { value: Double::from_bits(x.to_bits()) })
}

fn string(s: &str) -> NestedMeta {
    NestedMeta::Lit(Lit::Str(s.to_string()))
}

fn list(name: &str, nested: Vec<NestedMeta>) -> Meta {
    Meta::List { path: vec![name.to_string()], nested }
}

fn bare(name: &str) -> Meta {
    Meta::Path(vec![name.to_string()])
}

fn rule(name: &str, nested: Vec<NestedMeta>) -> NestedMeta {
    NestedMeta::Meta(list(name, nested))
}

fn valid(items: Vec<NestedMeta>) -> Attribute {
    Attribute::Parsed(list("valid", items))
}

fn group(rules: Vec<ValidateRule>) -> ValidateMeta {
    ValidateMeta { validates: rules, err_msg: "bad".to_string(), struct_ident: "User".to_string() }
}

#[test]
fn len_with_one_bound_has_it_as_both_bounds() {
    assert_eq!(ValidateRule::from_meta(&list("len", vec![integer("5")])), Ok(ValidateRule::Len { min: 5, max: 5 }));
}

#[test]
fn len_with_two_bounds_orders_them() {
    assert_eq!(ValidateRule::from_meta(&list("len", vec![integer("2"), integer("8")])), Ok(ValidateRule::Len { min: 2, max: 8 }));
    assert_eq!(ValidateRule::from_meta(&list("len", vec![integer("8"), integer("2")])), Ok(ValidateRule::Len { min: 2, max: 8 }));
}

#[test]
fn len_takes_its_first_and_last_argument() {
    assert_eq!(
        ValidateRule::from_len(&vec![integer("3"), string("between"), integer("1")]),
        Ok(ValidateRule::Len { min: 1, max: 3 })
    );
}

#[test]
fn len_without_arguments_is_a_structural_error() {
    assert_eq!(ValidateRule::from_meta(&list("len", vec![])), Err(CompileError::StructuralError));
    assert_eq!(ValidateRule::from_len(&vec![]), Err(CompileError::StructuralError));
}

#[test]
fn len_refuses_what_is_no_count() {
    assert_eq!(ValidateRule::from_len(&vec![string("5")]), Err(CompileError::InvalidLiteral));
    assert_eq!(ValidateRule::from_len(&vec![floating(5.0)]), Err(CompileError::InvalidLiteral));
    assert_eq!(ValidateRule::from_len(&vec![integer("-5")]), Err(CompileError::InvalidLiteral));
    assert_eq!(ValidateRule::from_len(&vec![integer("5u8")]), Err(CompileError::InvalidLiteral));
    assert_eq!(ValidateRule::from_len(&vec![integer("5"), string("x")]), Err(CompileError::InvalidLiteral));
    assert_eq!(ValidateRule::from_len(&vec![integer("5"), rule("len", vec![])]), Err(CompileError::InvalidLiteral));
    assert_eq!(ValidateRule::from_len(&vec![NestedMeta::Lit(Lit::Other)]), Err(CompileError::InvalidLiteral));
}

#[test]
fn range_takes_integers_and_floats_in_either_order() {
    assert_eq!(
        ValidateRule::from_meta(&list("range", vec![integer("1"), integer("10")])),
        Ok(ValidateRule::Range { min: num(1.0), max: num(10.0) })
    );
    assert_eq!(
        ValidateRule::from_meta(&list("range", vec![floating(10.5), integer("1")])),
        Ok(ValidateRule::Range { min: num(1.0), max: num(10.5) })
    );
    assert_eq!(
        ValidateRule::from_range(&vec![floating(-2.5), floating(-7.25)]),
        Ok(ValidateRule::Range { min: num(-7.25), max: num(-2.5) })
    );
}

#[test]
fn range_with_one_bound_has_it_as_both_bounds() {
    assert_eq!(ValidateRule::from_range(&vec![floating(3.5)]), Ok(ValidateRule::Range { min: num(3.5), max: num(3.5) }));
}

#[test]
fn range_refuses_what_is_no_number() {
    assert_eq!(ValidateRule::from_range(&vec![]), Err(CompileError::StructuralError));
    assert_eq!(ValidateRule::from_range(&vec![string("1")]), Err(CompileError::InvalidLiteral));
    assert_eq!(ValidateRule::from_range(&vec![integer("1"), string("2")]), Err(CompileError::InvalidLiteral));
    assert_eq!(
        ValidateRule::from_range(&vec![NestedMeta::Lit(Lit::Float { value: None })]),
        Err(CompileError::InvalidLiteral)
    );
    assert_eq!(
        ValidateRule::from_range(&vec![NestedMeta::Lit(Lit::Int { text: "1".to_string(), value: None })]),
        Err(CompileError::InvalidLiteral)
    );
}

#[test]
fn regex_takes_a_string_literal_first() {
    assert_eq!(ValidateRule::from_meta(&list("regex", vec![string("^a+$")])), Ok(ValidateRule::Regex("^a+$".to_string())));
    assert_eq!(ValidateRule::from_regex(&vec![string("a"), integer("1")]), Ok(ValidateRule::Regex("a".to_string())));
    assert_eq!(ValidateRule::from_regex(&vec![integer("1"), string("a")]), Err(CompileError::InvalidLiteral));
    assert_eq!(ValidateRule::from_regex(&vec![]), Err(CompileError::StructuralError));
}

#[test]
fn eq_takes_a_string_literal_first() {
    assert_eq!(ValidateRule::from_meta(&list("eq", vec![string("yes")])), Ok(ValidateRule::Eq("yes".to_string())));
    assert_eq!(ValidateRule::from_eq(&vec![string("#password")]), Ok(ValidateRule::Eq("#password".to_string())));
    assert_eq!(ValidateRule::from_eq(&vec![floating(1.0)]), Err(CompileError::InvalidLiteral));
    assert_eq!(ValidateRule::from_eq(&vec![]), Err(CompileError::StructuralError));
}

#[test]
fn email_is_a_bare_marker() {
    assert_eq!(ValidateRule::from_meta(&bare("email")), Ok(ValidateRule::Email));
    assert_eq!(ValidateRule::from_meta(&list("email", vec![])), Err(CompileError::UnknownRule));
}

#[test]
fn other_keywords_are_unknown() {
    assert_eq!(ValidateRule::from_meta(&list("length", vec![integer("1")])), Err(CompileError::UnknownRule));
    assert_eq!(ValidateRule::from_meta(&bare("len")), Err(CompileError::UnknownRule));
    assert_eq!(ValidateRule::from_meta(&bare("required")), Err(CompileError::UnknownRule));
    assert_eq!(ValidateRule::from_meta(&Meta::Path(vec![])), Err(CompileError::UnknownRule));
    assert_eq!(ValidateRule::from_meta(&Meta::List { path: vec![], nested: vec![] }), Err(CompileError::UnknownRule));
}

#[test]
fn the_first_segment_of_a_path_is_the_keyword() {
    let meta = Meta::List { path: vec!["len".to_string(), "extra".to_string()], nested: vec![integer("1")] };
    assert_eq!(ValidateRule::from_meta(&meta), Ok(ValidateRule::Len { min: 1, max: 1 }));
    let meta = Meta::List { path: vec!["extra".to_string(), "len".to_string()], nested: vec![integer("1")] };
    assert_eq!(ValidateRule::from_meta(&meta), Err(CompileError::UnknownRule));
}

#[test]
fn a_rule_with_a_value_is_a_structural_error() {
    assert_eq!(ValidateRule::from_meta(&Meta::NameValue), Err(CompileError::StructuralError));
}

#[test]
fn a_group_keeps_its_rules_in_order() {
    let attr = valid(vec![
        rule("len", vec![integer("1"), integer("5")]),
        NestedMeta::Meta(bare("email")),
        rule("eq", vec![string("#other")]),
        string("not good"),
    ]);
    let meta = ValidateMeta::from_valid_attr(&attr, "User").unwrap();
    assert_eq!(
        meta.validates,
        vec![ValidateRule::Len { min: 1, max: 5 }, ValidateRule::Email, ValidateRule::Eq("#other".to_string())]
    );
    assert_eq!(meta.err_msg, "not good");
    assert_eq!(meta.struct_ident, "User");
}

#[test]
fn a_group_without_a_message_has_the_default_one() {
    let meta = ValidateMeta::from_valid_attr(&valid(vec![NestedMeta::Meta(bare("email"))]), "User").unwrap();
    assert_eq!(meta.err_msg, DEFAULT_MESSAGE);
    assert_eq!(meta.err_msg, "参数错误！");
}

#[test]
fn the_last_string_literal_is_the_message() {
    let attr = valid(vec![string("first"), NestedMeta::Meta(bare("email")), string("second"), integer("3")]);
    let meta = ValidateMeta::from_valid_attr(&attr, "User").unwrap();
    assert_eq!(meta.err_msg, "second");
    assert_eq!(meta.validates, vec![ValidateRule::Email]);
}

#[test]
fn a_group_without_rules_is_empty() {
    let meta = ValidateMeta::from_valid_attr(&valid(vec![string("only a message")]), "User").unwrap();
    assert_eq!(meta.validates, vec![]);
    assert_eq!(meta.err_msg, "only a message");
}

#[test]
fn the_first_bad_rule_fails_the_group() {
    let attr = valid(vec![
        NestedMeta::Meta(bare("email")),
        rule("len", vec![string("x")]),
        rule("nothing", vec![]),
    ]);
    assert_eq!(ValidateMeta::from_valid_attr(&attr, "User"), Err(CompileError::InvalidLiteral));
    let attr = valid(vec![rule("nothing", vec![]), rule("len", vec![string("x")])]);
    assert_eq!(ValidateMeta::from_valid_attr(&attr, "User"), Err(CompileError::UnknownRule));
}

#[test]
fn an_annotation_that_is_no_rule_list_is_a_structural_error() {
    assert_eq!(ValidateMeta::from_valid_attr(&Attribute::Malformed, "User"), Err(CompileError::StructuralError));
    assert_eq!(
        ValidateMeta::from_valid_attr(&Attribute::Parsed(bare("valid")), "User"),
        Err(CompileError::StructuralError)
    );
    assert_eq!(
        ValidateMeta::from_valid_attr(&Attribute::Parsed(Meta::NameValue), "User"),
        Err(CompileError::StructuralError)
    );
    assert_eq!(
        ValidateMeta::from_valid_attr(&Attribute::Parsed(list("serde", vec![])), "User"),
        Err(CompileError::StructuralError)
    );
}

#[test]
fn rules_compile_to_checks_in_order() {
    let meta = group(vec![
        ValidateRule::Len { min: 1, max: 5 },
        ValidateRule::Email,
        ValidateRule::Range { min: num(1.0), max: num(10.0) },
        ValidateRule::Eq("yes".to_string()),
        ValidateRule::Eq("#other".to_string()),
    ]);
    let mut registry: Vec<RegexRegistration> = Vec::new();
    let predicate = meta.validate_token("name", false, "String", &mut registry);
    assert_eq!(
        predicate,
        Predicate {
            field: "name".to_string(),
            optional: false,
            checks: vec![
                Check::LenOutside { min: 1, max: 5 },
                Check::NotEmail,
                Check::RangeOutside { min: num(1.0), max: num(10.0), coercion: Coercion::Primitive },
                Check::NotLiteral("yes".to_string()),
                Check::NotField("other".to_string()),
            ],
        }
    );
    assert_eq!(registry, vec![]);
}

#[test]
fn a_regex_rule_registers_its_pattern_under_the_generated_name() {
    let meta = group(vec![ValidateRule::Regex("^a+$".to_string())]);
    let mut registry: Vec<RegexRegistration> = Vec::new();
    let predicate = meta.validate_token("nick_name", true, "String", &mut registry);
    assert_eq!(predicate.checks, vec![Check::NoMatch { slot: 0 }]);
    assert!(predicate.optional);
    assert_eq!(
        registry,
        vec![RegexRegistration { name: "USER_NICK_NAME_REGEX".to_string(), pattern: "^a+$".to_string() }]
    );
}

#[test]
fn regex_rules_take_the_next_free_slots() {
    let meta = group(vec![
        ValidateRule::Regex("a".to_string()),
        ValidateRule::Email,
        ValidateRule::Regex("b".to_string()),
    ]);
    let mut registry: Vec<RegexRegistration> =
        vec![RegexRegistration { name: "USER_ID_REGEX".to_string(), pattern: "x".to_string() }];
    let predicate = meta.validate_token("name", false, "String", &mut registry);
    assert_eq!(predicate.checks, vec![Check::NoMatch { slot: 1 }, Check::NotEmail, Check::NoMatch { slot: 2 }]);
    assert_eq!(
        registry,
        vec![
            RegexRegistration { name: "USER_ID_REGEX".to_string(), pattern: "x".to_string() },
            RegexRegistration { name: "USER_NAME_REGEX".to_string(), pattern: "a".to_string() },
            RegexRegistration { name: "USER_NAME_REGEX".to_string(), pattern: "b".to_string() },
        ]
    );
}

#[test]
fn a_range_on_the_decimal_type_converts() {
    let meta = group(vec![ValidateRule::Range { min: num(0.0), max: num(1.0) }]);
    let mut registry: Vec<RegexRegistration> = Vec::new();
    let predicate = meta.validate_token("price", false, "BigDecimal", &mut registry);
    assert_eq!(
        predicate.checks,
        vec![Check::RangeOutside { min: num(0.0), max: num(1.0), coercion: Coercion::Decimal }]
    );
    let predicate = meta.validate_token("price", false, "", &mut registry);
    assert_eq!(
        predicate.checks,
        vec![Check::RangeOutside { min: num(0.0), max: num(1.0), coercion: Coercion::Primitive }]
    );
}

#[test]
fn an_eq_target_of_the_sentinel_alone_names_the_empty_field() {
    let meta = group(vec![ValidateRule::Eq("#".to_string()), ValidateRule::Eq("".to_string())]);
    let mut registry: Vec<RegexRegistration> = Vec::new();
    let predicate = meta.validate_token("name", false, "String", &mut registry);
    assert_eq!(predicate.checks, vec![Check::NotField("".to_string()), Check::NotLiteral("".to_string())]);
}
