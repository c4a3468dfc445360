use hobby::config::{AppConfig, EnvConfig};
use hobby::docker::{build_compose_config, check_volume, create_docker_env, render_compose};

fn volume_config() -> AppConfig {
    AppConfig {
        name: "api".to_string(),
        server: "10.0.0.7".to_string(),
        url: "app.example.org".to_string(),
        port: 8080,
        env: None,
        volumes: Some(vec!["data:/app/data".to_string(), "onlyonepart".to_string()]),
        version: "V7".to_string(),
    }
}

#[test]
fn manifest_is_deterministic_byte_identical() {
    let c1 = volume_config();
    let c2 = volume_config();
    let m1 = render_compose(&build_compose_config(&c1, None));
    let m2 = render_compose(&build_compose_config(&c2, None));
    assert_eq!(m1, m2);
}

#[test]
fn valid_volume_yields_one_mount_and_one_named_volume() {
    let compose = build_compose_config(&volume_config(), None);
    let (name, service) = &compose.services[0];
    assert_eq!(name, "api");
    assert_eq!(service.volumes.as_ref().unwrap(), &vec!["data:/app/data".to_string()]);
    let volumes = compose.volumes.as_ref().unwrap();
    assert_eq!(volumes.len(), 1);
    assert_eq!(volumes[0].0, "data");
}

#[test]
fn malformed_volume_entry_is_dropped_without_error() {
    let mut c = volume_config();
    c.volumes = Some(vec!["onlyonepart".to_string(), "a:b:c".to_string()]);
    let compose = build_compose_config(&c, None);
    assert_eq!(compose.services[0].1.volumes.as_ref().unwrap().len(), 0);
    assert_eq!(compose.volumes.as_ref().unwrap().len(), 0);
}

#[test]
fn check_volume_requires_exactly_two_parts() {
    assert!(check_volume("data:/app/data"));
    assert!(!check_volume("onlyonepart"));
    assert!(!check_volume("a:b:c"));
    assert!(check_volume(":"));
}

#[test]
fn duplicate_volume_sources_are_collected_once() {
    let mut c = volume_config();
    c.volumes = Some(vec!["data:/a".to_string(), "data:/b".to_string()]);
    let compose = build_compose_config(&c, None);
    assert_eq!(compose.volumes.as_ref().unwrap().len(), 1);
    assert_eq!(compose.services[0].1.volumes.as_ref().unwrap().len(), 2);
}

#[test]
fn rendered_manifest_exact_text() {
    let compose = build_compose_config(&volume_config(), None);
    let expected = "services:\n  api:\n    image: \"api\"\n    restart: \"unless-stopped\"\n    labels:\n      caddy: \"app.example.org\"\n      caddy.reverse_proxy: \"{{upstreams 8080}}\"\n    volumes:\n    - \"data:/app/data\"\n    networks:\n    - \"caddy\"\nnetworks:\n  caddy:\n    external: true\nvolumes:\n  data: {}\n";
    assert_eq!(render_compose(&compose), expected);
}

#[test]
fn manifest_without_volumes_has_empty_volumes_section() {
    let mut c = volume_config();
    c.volumes = None;
    let rendered = render_compose(&build_compose_config(&c, None));
    assert!(rendered.ends_with("volumes: {}\n"));
    assert!(!rendered.contains("    volumes:"));
}

#[test]
fn env_mapping_keys_every_declared_variable() {
    let pairs = create_docker_env("FOO=1\n#comment\n\nBAR=baz=2\nNOEQ\n");
    assert_eq!(
        pairs,
        vec![
            ("FOO".to_string(), "${FOO}".to_string()),
            ("BAR".to_string(), "${BAR}".to_string()),
            ("NOEQ".to_string(), "${NOEQ}".to_string()),
        ]
    );
}

#[test]
fn env_mapping_drops_duplicate_names() {
    let pairs = create_docker_env("FOO=1\nFOO=2\n");
    assert_eq!(pairs, vec![("FOO".to_string(), "${FOO}".to_string())]);
}

#[test]
fn env_mapping_of_empty_text_is_empty() {
    assert_eq!(create_docker_env(""), vec![]);
}

#[test]
fn secret_config_attaches_environment_to_service() {
    let mut c = volume_config();
    c.env = Some(EnvConfig { file: ".env".to_string(), hash: "".to_string() });
    let content = "DB_URL=x\nTOKEN=y\n".to_string();
    let compose = build_compose_config(&c, Some(&content));
    let env = compose.services[0].1.environment.as_ref().unwrap();
    assert_eq!(env.len(), 2);
    assert_eq!(env[0], ("DB_URL".to_string(), "${DB_URL}".to_string()));
    assert_eq!(env[1], ("TOKEN".to_string(), "${TOKEN}".to_string()));
    let rendered = render_compose(&compose);
    assert!(rendered.contains("    environment:\n      DB_URL: \"${DB_URL}\"\n      TOKEN: \"${TOKEN}\"\n"));
}
