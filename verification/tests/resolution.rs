use scaffold_core::cli::{choose_mode, InputMode};
use scaffold_core::decls::{plan_for, PromptPlan, VarDecl};
use scaffold_core::errors::{BadValueKind, ResolveError, Warning};
use scaffold_core::json::{doc_of_values, JsonShape};
use scaffold_core::json_run::JsonRun;
use scaffold_core::parse::parse_input;
use scaffold_core::prompt_run::PromptRun;
use scaffold_core::values::Value;

fn decl(name: &str) -> VarDecl {
    VarDecl {
        name: name.to_string(),
        prompt: format!("{}?", name),
        choices: None,
        validation: None,
    }
}

fn scenario_decls() -> Vec<VarDecl> {
    // name: string (default "demo"); use_docker: boolean (default false);
    // port: integer (default 8080, only_if use_docker == true)
    vec![decl("name"), decl("use_docker"), decl("port")]
}

fn entry(run_values: &[(String, Value)], name: &str) -> Option<Value> {
    run_values
        .iter()
        .rev()
        .find(|(n, _)| n == name)
        .map(|(_, v)| v.clone())
}

#[test]
fn missing_required_variable_is_fatal() {
    let doc = parse_input(r#"{"name":"x"}"#).unwrap();
    let mut run = JsonRun::new(scenario_decls(), doc);
    assert!(run.step(true).is_ok()); // name, applicable and supplied
    let err = run.step(true).unwrap_err(); // use_docker, applicable, absent
    assert_eq!(err, ResolveError::MissingVariable("use_docker".to_string()));
}

#[test]
fn inapplicable_supplied_value_is_discarded_with_warning() {
    let doc = parse_input(r#"{"name":"x","use_docker":false,"port":9000}"#).unwrap();
    let mut run = JsonRun::new(scenario_decls(), doc);
    assert!(run.warnings.is_empty());
    assert!(run.step(true).is_ok()); // name
    assert!(run.step(true).is_ok()); // use_docker
    assert!(run.step(false).is_ok()); // port: only_if use_docker==true fails
    assert!(run.done());
    assert_eq!(
        run.warnings,
        vec![Warning::InapplicableSupplied("port".to_string())]
    );
    let vals = &run.values.entries;
    assert_eq!(vals.len(), 2);
    assert_eq!(entry(vals, "name"), Some(Value::Str("x".to_string())));
    assert_eq!(entry(vals, "use_docker"), Some(Value::Bool(false)));
    assert_eq!(entry(vals, "port"), None);
}

#[test]
fn top_level_array_is_input_shape_error() {
    assert_eq!(parse_input("[1, 2]"), Err(ResolveError::NotAnObject));
}

#[test]
fn top_level_scalar_is_input_shape_error() {
    assert_eq!(parse_input("42"), Err(ResolveError::NotAnObject));
}

#[test]
fn invalid_json_is_fatal() {
    match parse_input("{ not json") {
        Err(ResolveError::InvalidJson(_)) => {}
        other => panic!("expected invalid-JSON error, got {:?}", other),
    }
}

#[test]
fn parsed_object_keeps_keys_and_shapes() {
    let doc = parse_input(r#"{"a": 1, "b": "two", "c": true}"#).unwrap();
    let mut entries = doc.entries.clone();
    entries.sort_by(|x, y| x.0.cmp(&y.0));
    assert_eq!(
        entries,
        vec![
            ("a".to_string(), JsonShape::Int(1)),
            ("b".to_string(), JsonShape::Str("two".to_string())),
            ("c".to_string(), JsonShape::Bool(true)),
        ]
    );
}

#[test]
fn fractional_number_is_rejected_by_kind() {
    let doc = parse_input(r#"{"a": 1.5}"#).unwrap();
    let mut run = JsonRun::new(vec![decl("a")], doc);
    let err = run.step(true).unwrap_err();
    assert_eq!(
        err,
        ResolveError::InvalidValue { name: "a".to_string(), kind: BadValueKind::FracNumber }
    );
}

#[test]
fn null_is_rejected_by_kind() {
    let doc = parse_input(r#"{"a": null}"#).unwrap();
    let mut run = JsonRun::new(vec![decl("a")], doc);
    let err = run.step(true).unwrap_err();
    assert_eq!(
        err,
        ResolveError::InvalidValue { name: "a".to_string(), kind: BadValueKind::Null }
    );
}

#[test]
fn nested_values_are_rejected_by_kind() {
    for text in [r#"{"a": [1]}"#, r#"{"a": {"b": 1}}"#] {
        let doc = parse_input(text).unwrap();
        let mut run = JsonRun::new(vec![decl("a")], doc);
        let err = run.step(true).unwrap_err();
        assert_eq!(
            err,
            ResolveError::InvalidValue { name: "a".to_string(), kind: BadValueKind::Nested }
        );
    }
}

#[test]
fn unknown_keys_warn_and_processing_continues() {
    let doc = parse_input(r#"{"name":"x","stray":"y"}"#).unwrap();
    let mut run = JsonRun::new(vec![decl("name")], doc);
    assert_eq!(run.warnings, vec![Warning::UnknownVariable("stray".to_string())]);
    assert!(run.step(true).is_ok());
    assert!(run.done());
    assert_eq!(entry(&run.values.entries, "name"), Some(Value::Str("x".to_string())));
}

#[test]
fn json_string_bypasses_choice_membership() {
    // Deliberate asymmetry with the interactive choice prompt: a
    // JSON-supplied string is trusted even when it is not in the choice set.
    let mut d = decl("db");
    d.choices = Some(vec!["mysql".to_string(), "postgres".to_string()]);
    let doc = parse_input(r#"{"db":"sqlite"}"#).unwrap();
    let mut run = JsonRun::new(vec![d], doc);
    assert!(run.step(true).is_ok());
    assert_eq!(entry(&run.values.entries, "db"), Some(Value::Str("sqlite".to_string())));
}

#[test]
fn prompt_run_resolves_exactly_the_applicable_declarations() {
    // Declaration order is respected and skipped declarations leave no entry.
    let mut run = PromptRun::new(scenario_decls());
    let name_default = Value::Str("demo".to_string());
    run.accept(&name_default, Value::Str("demo".to_string()));
    let docker_default = Value::Bool(false);
    run.accept(&docker_default, Value::Bool(false));
    run.skip(); // port: inapplicable since use_docker is false
    assert!(run.done());
    let vals = &run.values.entries;
    assert_eq!(vals.len(), 2);
    assert_eq!(entry(vals, "name"), Some(Value::Str("demo".to_string())));
    assert_eq!(entry(vals, "use_docker"), Some(Value::Bool(false)));
    assert_eq!(entry(vals, "port"), None);
}

#[test]
fn automatic_mode_is_idempotent_for_equal_evaluator_answers() {
    let run_once = || {
        let mut run = PromptRun::new(scenario_decls());
        let d1 = Value::Str("demo".to_string());
        run.accept(&d1, d1.clone());
        let d2 = Value::Bool(true);
        run.accept(&d2, d2.clone());
        let d3 = Value::Int(8080);
        run.accept(&d3, d3.clone());
        run.values
    };
    assert_eq!(run_once(), run_once());
}

#[test]
fn json_round_trip_preserves_the_mapping() {
    // Resolve with defaults, serialize the mapping back to the JSON shape,
    // re-feed it through the adapter under the same applicability answers: same mapping,
    // no warnings.
    let mut run = PromptRun::new(scenario_decls());
    let d1 = Value::Str("demo".to_string());
    run.accept(&d1, d1.clone());
    let d2 = Value::Bool(true);
    run.accept(&d2, d2.clone());
    let d3 = Value::Int(8080);
    run.accept(&d3, d3.clone());
    let doc = doc_of_values(&run.values);
    let mut rerun = JsonRun::new(scenario_decls(), doc);
    assert!(rerun.warnings.is_empty());
    assert!(rerun.step(true).is_ok());
    assert!(rerun.step(true).is_ok());
    assert!(rerun.step(true).is_ok());
    assert!(rerun.done());
    assert!(rerun.warnings.is_empty());
    assert_eq!(rerun.values, run.values);
}

#[test]
fn round_trip_skips_stay_skipped() {
    let mut run = PromptRun::new(scenario_decls());
    let d1 = Value::Str("demo".to_string());
    run.accept(&d1, d1.clone());
    let d2 = Value::Bool(false);
    run.accept(&d2, d2.clone());
    run.skip();
    let doc = doc_of_values(&run.values);
    let mut rerun = JsonRun::new(scenario_decls(), doc);
    assert!(rerun.step(true).is_ok());
    assert!(rerun.step(true).is_ok());
    assert!(rerun.step(false).is_ok());
    assert!(rerun.warnings.is_empty());
    assert_eq!(rerun.values, run.values);
}

#[test]
fn plan_uses_choice_prompt_for_string_default_with_choices() {
    let mut d = decl("db");
    d.choices = Some(vec!["mysql".to_string(), "postgres".to_string()]);
    let plan = plan_for(&d, &Value::Str("mysql".to_string()));
    assert_eq!(
        plan,
        PromptPlan::Choice {
            prompt: "db?".to_string(),
            default: "mysql".to_string(),
            choices: vec!["mysql".to_string(), "postgres".to_string()],
        }
    );
}

#[test]
fn plan_uses_free_text_with_validation_for_plain_string_default() {
    let mut d = decl("project");
    d.validation = Some("^[a-z]+$".to_string());
    let plan = plan_for(&d, &Value::Str("demo".to_string()));
    assert_eq!(
        plan,
        PromptPlan::FreeText {
            prompt: "project?".to_string(),
            default: "demo".to_string(),
            validation: Some("^[a-z]+$".to_string()),
        }
    );
}

#[test]
fn plan_matches_boolean_and_integer_defaults() {
    let d = decl("flag");
    assert_eq!(
        plan_for(&d, &Value::Bool(true)),
        PromptPlan::Toggle { prompt: "flag?".to_string(), default: true }
    );
    let d2 = decl("port");
    assert_eq!(
        plan_for(&d2, &Value::Int(8080)),
        PromptPlan::Number { prompt: "port?".to_string(), default: 8080 }
    );
}

#[test]
fn input_file_and_no_input_conflict() {
    let res = choose_mode(&Some("values.json".to_string()), true);
    assert_eq!(res, Err(ResolveError::ConflictingModes));
}

#[test]
fn mode_selection_picks_exactly_one_source() {
    assert_eq!(
        choose_mode(&Some("values.json".to_string()), false),
        Ok(InputMode::FromFile("values.json".to_string()))
    );
    assert_eq!(choose_mode(&None, true), Ok(InputMode::Automatic));
    assert_eq!(choose_mode(&None, false), Ok(InputMode::Interactive));
}

#[test]
fn choice_replies_stay_in_the_choice_set() {
    // The interactive choice prompt only ever returns a member of the set,
    // and automatic mode uses the default; either way the resolved value is
    // a member whenever the acquired value is.
    let mut d = decl("db");
    d.choices = Some(vec!["mysql".to_string(), "postgres".to_string()]);
    let choices = d.choices.clone().unwrap();
    let default = Value::Str("mysql".to_string());
    let mut run = PromptRun::new(vec![d]);
    run.accept(&default, Value::Str("postgres".to_string()));
    match entry(&run.values.entries, "db") {
        Some(Value::Str(s)) => assert!(choices.contains(&s)),
        other => panic!("expected a string value, got {:?}", other),
    }
}

#[test]
fn error_messages_name_the_variable() {
    let e = ResolveError::MissingVariable("use_docker".to_string());
    assert_eq!(e.message(), "Required variable `use_docker` missing from input file");
    let h = ResolveError::HookFailed("first.sh".to_string());
    assert_eq!(h.message(), "Hook `first.sh` exited with a non 0 code");
    let c = ResolveError::ConflictingModes;
    assert_eq!(c.message(), "--input-file and --no-input cannot be used together");
}
