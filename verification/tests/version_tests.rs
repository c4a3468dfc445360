use hobby::config::{check_config, render_app_config, update_version_and_config, AppConfig, EnvConfig};
use hobby::text::{bump_version, char_index_of, is_safe_name, parse_version};

fn plain_config(version: &str) -> AppConfig {
    AppConfig {
        name: "api".to_string(),
        server: "10.0.0.7".to_string(),
        url: "app.example.org".to_string(),
        port: 8080,
        env: None,
        volumes: None,
        version: version.to_string(),
    }
}

#[test]
fn parse_version_accepts_well_formed_tags() {
    assert_eq!(parse_version("V0"), Some(0));
    assert_eq!(parse_version("V7"), Some(7));
    assert_eq!(parse_version("V123"), Some(123));
    assert_eq!(parse_version("V007"), Some(7));
}

#[test]
fn parse_version_rejects_malformed_tags() {
    assert_eq!(parse_version(""), None);
    assert_eq!(parse_version("V"), None);
    assert_eq!(parse_version("7"), None);
    assert_eq!(parse_version("v7"), None);
    assert_eq!(parse_version("V7a"), None);
    assert_eq!(parse_version("V-1"), None);
    assert_eq!(parse_version("V99999999999999999999999999"), None);
}

#[test]
fn bump_version_increments_by_exactly_one() {
    assert_eq!(bump_version("V7").as_deref(), Some("V8"));
    assert_eq!(bump_version("V0").as_deref(), Some("V1"));
    assert_eq!(bump_version("V9").as_deref(), Some("V10"));
    assert_eq!(bump_version("V99").as_deref(), Some("V100"));
    assert_eq!(bump_version("junk"), None);
}

#[test]
fn update_version_bumps_and_renders() {
    let mut c = plain_config("V7");
    let rendered = update_version_and_config(&mut c).expect("well-formed version must bump");
    assert_eq!(c.version, "V8");
    assert!(rendered.contains("version: \"V8\""));
    assert_eq!(rendered, render_app_config(&c));
}

#[test]
fn update_version_rejects_malformed_tag() {
    let mut c = plain_config("eight");
    assert!(update_version_and_config(&mut c).is_none());
    assert_eq!(c.version, "eight");
}

#[test]
fn render_app_config_exact_text() {
    let c = AppConfig {
        name: "api".to_string(),
        server: "10.0.0.7".to_string(),
        url: "app.example.org".to_string(),
        port: 8080,
        env: Some(EnvConfig { file: ".env".to_string(), hash: "abc123".to_string() }),
        volumes: Some(vec!["data:/app/data".to_string()]),
        version: "V3".to_string(),
    };
    let expected = "name: \"api\"\nserver: \"10.0.0.7\"\nurl: \"app.example.org\"\nport: 8080\n\
env:\n  file: \".env\"\n  hash: \"abc123\"\nvolumes:\n- \"data:/app/data\"\nversion: \"V3\"\n";
    assert_eq!(render_app_config(&c), expected);
}

#[test]
fn check_config_accepts_safe_descriptor() {
    assert!(check_config(&plain_config("V1")));
}

#[test]
fn check_config_rejects_unsafe_name_or_version() {
    let mut c = plain_config("V1");
    c.name = "api; rm -rf /".to_string();
    assert!(!check_config(&c));
    let mut c = plain_config("V1");
    c.server = "".to_string();
    assert!(!check_config(&c));
    assert!(!check_config(&plain_config("seven")));
}

#[test]
fn is_safe_name_classifies_characters() {
    assert!(is_safe_name("my-app_1.2"));
    assert!(!is_safe_name(""));
    assert!(!is_safe_name("a b"));
    assert!(!is_safe_name("a;b"));
    assert!(!is_safe_name("a/b"));
}

#[test]
fn char_index_of_finds_first_occurrence() {
    assert_eq!(char_index_of("a:b:c", ':', 0), 1);
    assert_eq!(char_index_of("a:b:c", ':', 2), 3);
    assert_eq!(char_index_of("abc", ':', 0), 3);
}
