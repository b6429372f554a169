use nix_sandbox::config::Config;
use nix_sandbox::environment::Environment;
use nix_sandbox::error::SandboxError;
use nix_sandbox::json::{variables_from_json, JsonValue};
use nix_sandbox::parse::{parse_env_line, parse_key_value_lines};
use nix_sandbox::sandbox::Sandbox;
use nix_sandbox::session::Session;
use nix_sandbox::vars::EnvVars;

fn sandbox() -> Sandbox {
    let config = Config { sessions_dir: "/s".to_string(), cache_dir: "/c".to_string() };
    let session = Session::new_in_place("/w/p", None).unwrap();
    let env = Environment::detect("/w/p", true, false, Some("/nix/store/n-nix/bin/nix".to_string()), None)
        .unwrap();
    Sandbox::new(&config, &session, &env).unwrap()
}

fn parse_environment_output(out: &str) -> Result<EnvVars, SandboxError> {
    sandbox().parse_environment_output(out)
}

fn extract_nix_store_paths(vars: &EnvVars) -> Vec<String> {
    sandbox().extract_nix_store_paths(vars)
}

fn obj(members: Vec<(&str, JsonValue)>) -> JsonValue {
    JsonValue::Object(members.into_iter().map(|(k, v)| (k.to_string(), v)).collect())
}

fn sorted(v: &EnvVars) -> Vec<(String, String)> {
    let mut e = v.entries().clone();
    e.sort();
    e
}

#[test]
fn parses_json_output() {
    let vars = parse_environment_output(r#"{"variables":{"FOO":{"value":"bar"}}}"#).unwrap();
    assert_eq!(sorted(&vars), vec![("FOO".to_string(), "bar".to_string())]);
}

#[test]
fn parses_plain_output() {
    let vars = parse_environment_output("FOO=bar\nBAZ=qux\n").unwrap();
    assert_eq!(vars.len(), 2);
    assert_eq!(vars.get("FOO").unwrap(), "bar");
    assert_eq!(vars.get("BAZ").unwrap(), "qux");
}

#[test]
fn json_document_model() {
    let doc = obj(vec![(
        "variables",
        obj(vec![
            ("FOO", obj(vec![("value", JsonValue::Str("bar".to_string()))])),
            ("ARR", obj(vec![("value", JsonValue::Array(vec![]))])),
            ("NUM", obj(vec![("type", JsonValue::Str("var".to_string()))])),
        ]),
    )]);
    let vars = variables_from_json(&doc);
    assert_eq!(sorted(&vars), vec![("FOO".to_string(), "bar".to_string())]);
    assert_eq!(variables_from_json(&JsonValue::Null).len(), 0);
}

#[test]
fn json_output_with_leading_whitespace_and_other_members() {
    let out = "\n  {\"bashFunctions\":{},\"variables\":{\"A\":{\"type\":\"exported\",\"value\":\"1\"},\"B\":{\"type\":\"array\",\"value\":[\"x\"]}}}";
    let vars = parse_environment_output(out).unwrap();
    assert_eq!(sorted(&vars), vec![("A".to_string(), "1".to_string())]);
}

#[test]
fn invalid_json_is_an_error() {
    assert!(parse_environment_output("{not json").is_err());
}

#[test]
fn plain_lines_strip_prefixes_and_quotes() {
    let out = "# comment\n\n   \nexport A=\"x y\"\ndeclare -x B='z'\nC=a=b\nNOEQ\nD=\"unbalanced\r\nE=\n";
    let vars = parse_key_value_lines(out);
    assert_eq!(vars.get("A").unwrap(), "x y");
    assert_eq!(vars.get("B").unwrap(), "z");
    assert_eq!(vars.get("C").unwrap(), "a=b");
    assert_eq!(vars.get("D").unwrap(), "\"unbalanced");
    assert_eq!(vars.get("E").unwrap(), "");
    assert!(vars.get("NOEQ").is_none());
    assert_eq!(vars.len(), 5);
}

#[test]
fn later_lines_win() {
    let vars = parse_key_value_lines("A=1\nA=2");
    assert_eq!(vars.len(), 1);
    assert_eq!(vars.get("A").unwrap(), "2");
}

#[test]
fn single_line_parse() {
    let l: Vec<char> = "export K=V".chars().collect();
    assert_eq!(parse_env_line(&l), Some(("K".to_string(), "V".to_string())));
    let c: Vec<char> = "  # K=V".chars().collect();
    assert_eq!(parse_env_line(&c), None);
}

#[test]
fn store_paths_from_search_paths() {
    let mut vars = EnvVars::new();
    vars.insert(
        "PATH".to_string(),
        "/nix/store/aaa-git/bin:/usr/bin:/nix/store/bbb-bash/bin:/nix/store/aaa-git/libexec".to_string(),
    );
    vars.insert("LD_LIBRARY_PATH".to_string(), "/nix/store/ccc-zlib/lib".to_string());
    vars.insert("PKG_CONFIG_PATH".to_string(), "/nix/store/noslash".to_string());
    vars.insert("CMAKE_PREFIX_PATH".to_string(), "::/nix/store/ddd-cmake/".to_string());
    vars.insert("OTHER".to_string(), "/nix/store/eee-x/bin".to_string());
    let mut paths = extract_nix_store_paths(&vars);
    paths.sort();
    assert_eq!(
        paths,
        vec![
            "/nix/store/aaa-git".to_string(),
            "/nix/store/bbb-bash".to_string(),
            "/nix/store/ccc-zlib".to_string(),
            "/nix/store/ddd-cmake".to_string(),
        ]
    );
}

#[test]
fn no_search_paths_no_locations() {
    assert!(extract_nix_store_paths(&EnvVars::new()).is_empty());
}
