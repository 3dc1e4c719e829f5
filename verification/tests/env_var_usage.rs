use catalyst::engine::variables::Variables;
use catalyst::utils::string::replace_variables;

#[test]
fn test_env_var_resolution() {
    let mut env = Variables::new();
    env.insert("CATALYST_ENV_VAR_TEST".to_string(), "test_value".to_string());

    let input = "${{CATALYST_ENV_VAR_TEST}}";
    let result = replace_variables(input, &env, &Variables::new());
    assert_eq!(result, "test_value");

    let input = "${{NON_EXISTENT_VAR}}";
    let result = replace_variables(input, &env, &Variables::new());
    assert_eq!(result, "${{NON_EXISTENT_VAR}}");

    let input = "normal_string";
    let result = replace_variables(input, &env, &Variables::new());
    assert_eq!(result, "normal_string");
}

#[test]
fn substitution_is_the_identity_without_markers() {
    let mut env = Variables::new();
    env.insert("A".to_string(), "1".to_string());
    let mut vars = Variables::new();
    vars.insert("a".to_string(), "2".to_string());
    for text in ["", "plain", "{a}", "{{}}", "{{a}", "${a}", "$ {{ a } }", "}}{{", "{{}a}}", "é{ {a}}"] {
        assert_eq!(replace_variables(text, &env, &vars), text, "{:?}", text);
    }
}

#[test]
fn unbound_markers_stay_as_they_are() {
    let mut env = Variables::new();
    env.insert("HOME".to_string(), "/root".to_string());
    let mut vars = Variables::new();
    vars.insert("known".to_string(), "K".to_string());
    assert_eq!(replace_variables("{{k}}", &env, &vars), "{{k}}");
    assert_eq!(replace_variables("{{ known }}", &env, &vars), "{{ known }}");
    assert_eq!(replace_variables("{{Known}}", &env, &vars), "{{Known}}");
    assert_eq!(replace_variables("${{home}}", &env, &vars), "${{home}}");
    assert_eq!(replace_variables("a{{x}}b{{known}}c{{y}}", &env, &vars), "a{{x}}bKc{{y}}");
    // An environment marker inside the name is resolved by the first pass.
    assert_eq!(replace_variables("{{a${{HOME}}", &env, &vars), "{{a/root");
}

#[test]
fn substitution_makes_one_pass_per_marker_kind() {
    let mut env = Variables::new();
    env.insert("E".to_string(), "{{v}}".to_string());
    env.insert("F".to_string(), "${{E}}".to_string());
    let mut vars = Variables::new();
    vars.insert("v".to_string(), "{{w}}".to_string());
    vars.insert("w".to_string(), "W".to_string());
    vars.insert("E".to_string(), "var-E".to_string());
    // What the environment pass puts in is read by the store pass, not by itself.
    assert_eq!(replace_variables("${{E}}", &env, &vars), "{{w}}");
    assert_eq!(replace_variables("${{F}}", &env, &vars), "$var-E");
    // What the store pass puts in is not read again.
    assert_eq!(replace_variables("{{v}}", &env, &vars), "{{w}}");
    // An environment marker that stays is read by the store pass.
    assert_eq!(replace_variables("${{w}}", &env, &vars), "$W");
    assert_eq!(replace_variables("{{{w}}", &env, &vars), "{{{w}}");
    assert_eq!(replace_variables("{{w}}}", &env, &vars), "W}");
    assert_eq!(replace_variables("{{a{{w}}", &env, &vars), "{{a{{w}}");
}
