use pywrap_macros::module::{
    assemble, create_pymodule, FunctionNames, ModuleParseError, ModuleToken,
};

fn lit(s: &str) -> ModuleToken {
    ModuleToken::Str(s.to_string())
}

fn ident(s: &str) -> ModuleToken {
    ModuleToken::Ident(s.to_string())
}

#[test]
fn mymod_registers_two_wrappers_in_order() {
    let toks = vec![lit("mymod"), ModuleToken::Comma, ident("add_one"), ModuleToken::Comma, ident("scale")];
    let plan = create_pymodule(&toks).unwrap();
    assert_eq!(plan.module_name, "mymod");
    assert_eq!(
        plan.registrations,
        vec!["__internal_add_one_wrapper".to_string(), "__internal_scale_wrapper".to_string()]
    );
}

#[test]
fn trailing_comma_and_duplicates_are_accepted() {
    let toks = vec![
        lit("m"),
        ModuleToken::Comma,
        ident("f"),
        ModuleToken::Comma,
        ident("f"),
        ModuleToken::Comma,
    ];
    let names = FunctionNames::parse(&toks).unwrap();
    assert_eq!(names.module_name, "m");
    assert_eq!(names.functions, vec!["f".to_string(), "f".to_string()]);
}

#[test]
fn empty_function_list_registers_nothing() {
    let toks = vec![lit("m"), ModuleToken::Comma];
    let plan = create_pymodule(&toks).unwrap();
    assert!(plan.registrations.is_empty());
    let trace = plan.run_init(&vec![]);
    assert!(trace.succeeded);
    assert!(trace.attempted.is_empty());
}

#[test]
fn missing_module_name_is_an_error() {
    assert_eq!(create_pymodule(&vec![]).err(), Some(ModuleParseError::ExpectedModuleName { at: 0 }));
    let toks = vec![ident("m"), ModuleToken::Comma];
    assert_eq!(create_pymodule(&toks).err(), Some(ModuleParseError::ExpectedModuleName { at: 0 }));
}

#[test]
fn missing_comma_is_an_error() {
    assert_eq!(create_pymodule(&vec![lit("m")]).err(), Some(ModuleParseError::ExpectedComma { at: 1 }));
    let toks = vec![lit("m"), ident("f")];
    assert_eq!(create_pymodule(&toks).err(), Some(ModuleParseError::ExpectedComma { at: 1 }));
    let toks = vec![lit("m"), ModuleToken::Comma, ident("f"), ident("g")];
    assert_eq!(create_pymodule(&toks).err(), Some(ModuleParseError::ExpectedComma { at: 3 }));
}

#[test]
fn non_identifier_entry_is_an_error() {
    let toks = vec![lit("m"), ModuleToken::Comma, ident("f"), ModuleToken::Comma, lit("g")];
    assert_eq!(create_pymodule(&toks).err(), Some(ModuleParseError::ExpectedIdent { at: 4 }));
    let toks = vec![lit("m"), ModuleToken::Comma, ModuleToken::Comma];
    assert_eq!(create_pymodule(&toks).err(), Some(ModuleParseError::ExpectedIdent { at: 2 }));
}

#[test]
fn init_stops_at_first_failure() {
    let toks = vec![
        lit("m"),
        ModuleToken::Comma,
        ident("f"),
        ModuleToken::Comma,
        ident("g"),
        ModuleToken::Comma,
        ident("h"),
    ];
    let plan = create_pymodule(&toks).unwrap();
    let trace = plan.run_init(&vec![true, false, true]);
    assert!(!trace.succeeded);
    assert_eq!(
        trace.attempted,
        vec!["__internal_f_wrapper".to_string(), "__internal_g_wrapper".to_string()]
    );
    let trace = plan.run_init(&vec![true, true, true]);
    assert!(trace.succeeded);
    assert_eq!(trace.attempted, plan.registrations);
}

#[test]
fn assemble_uses_the_naming_rule() {
    let names = FunctionNames { module_name: "m".to_string(), functions: vec!["g2".to_string()] };
    let plan = assemble(&names);
    assert_eq!(plan.module_name, "m");
    assert_eq!(plan.registrations, vec!["__internal_g2_wrapper".to_string()]);
}

#[test]
fn module_registers_raw_names_by_bare_wrapper() {
    let toks = vec![lit("m"), ModuleToken::Comma, ident("r#type")];
    let plan = create_pymodule(&toks).unwrap();
    assert_eq!(plan.registrations, vec!["__internal_type_wrapper".to_string()]);
}
