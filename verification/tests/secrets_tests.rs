use hobby::secrets::{create_age_keys_if_not_exist, get_env_file_hash};
use hobby::setup::setup;

#[test]
fn fingerprint_matches_the_digest_exact_values() {
    // known digests: the wrapper must hash, not hand its input back
    assert_eq!(get_env_file_hash(""), "d41d8cd98f00b204e9800998ecf8427e");
    assert_eq!(get_env_file_hash("hello"), "5d41402abc4b2a76b9719d911017c592");
}

#[test]
fn fingerprint_detects_change_and_is_stable() {
    let a = get_env_file_hash("SECRET=1\n");
    let b = get_env_file_hash("SECRET=2\n");
    assert_ne!(a, b);
    assert_eq!(a, get_env_file_hash("SECRET=1\n"));
    assert_eq!(a.len(), 32);
}

#[test]
fn existing_keys_are_never_overwritten() {
    assert!(create_age_keys_if_not_exist(true).is_none());
}

#[test]
fn fresh_keys_are_generated_when_missing() {
    let (public_key, secret_key) = create_age_keys_if_not_exist(false).unwrap();
    assert!(!public_key.is_empty());
    assert!(!secret_key.is_empty());
    assert_ne!(public_key, secret_key);
}

#[test]
fn setup_plan_has_the_fixed_batches_and_default_descriptor() {
    let plan = setup("203.0.113.5".to_string());
    assert_eq!(plan.root_commands.len(), 6);
    assert_eq!(plan.basic_system_commands.len(), 9);
    assert_eq!(plan.docker_commands.len(), 8);
    assert_eq!(plan.caddy_commands.len(), 4);
    assert_eq!(plan.root_commands[0], "id hobby || useradd -m -s /bin/bash -G sudo hobby");
    assert_eq!(plan.caddy_commands[0], "mkdir caddy");
    assert_eq!(plan.default_config.name, "myapp");
    assert_eq!(plan.default_config.version, "V0");
    assert_eq!(plan.default_config.port, 8080);
    assert_eq!(plan.default_config.server, "203.0.113.5");
    assert_eq!(plan.default_config.url, "my-app.203.0.113.5.sslip.io");
    assert!(plan.default_config_text.contains("name: \"myapp\""));
    assert!(plan.default_config_text.contains("version: \"V0\""));
}
