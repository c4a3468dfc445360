use hobby::commands::{
    cmd_docker_build, cmd_docker_save, cmd_encrypt, cmd_transfer_image, cmd_transfer_manifest,
    cmd_upload_secret, deploy_application, CommandBatch, RemoteCommandResult,
};
use hobby::config::{AppConfig, EnvConfig};

fn result(exit_code: i32, stdout: &str, stderr: &str) -> RemoteCommandResult {
    RemoteCommandResult {
        stdout: stdout.to_string(),
        stderr: stderr.to_string(),
        exit_code,
    }
}

#[test]
fn batch_stops_at_first_nonzero_exit() {
    // exit codes 0, 1, 0: only the first two commands run, the failure is
    // reported on the second, the third never runs.
    let mut batch = CommandBatch::new(vec![
        "true".to_string(),
        "false".to_string(),
        "true".to_string(),
    ]);
    let mut executed: Vec<String> = Vec::new();

    let c1 = batch.next_command().expect("first command is owed");
    executed.push(c1.clone());
    assert_eq!(c1, "true");
    batch.record(result(0, "", ""));

    let c2 = batch.next_command().expect("second command is owed");
    executed.push(c2.clone());
    assert_eq!(c2, "false");
    batch.record(result(1, "out", "err"));

    assert!(batch.next_command().is_none());
    assert!(!batch.succeeded());
    assert_eq!(executed, vec!["true".to_string(), "false".to_string()]);

    let failure = batch.into_failure().expect("the batch failed");
    assert_eq!(failure.command, "false");
    assert_eq!(failure.exit_code, 1);
    assert_eq!(failure.stdout, "out");
    assert_eq!(failure.stderr, "err");
}

#[test]
fn batch_of_all_zero_exits_succeeds() {
    let mut batch = CommandBatch::new(vec!["a".to_string(), "b".to_string()]);
    while let Some(_cmd) = batch.next_command() {
        batch.record(result(0, "", ""));
    }
    assert!(batch.succeeded());
    assert!(batch.into_failure().is_none());
}

#[test]
fn empty_batch_succeeds_immediately() {
    let batch = CommandBatch::new(vec![]);
    assert!(batch.next_command().is_none());
    assert!(batch.succeeded());
}

fn api_config(env: Option<EnvConfig>) -> AppConfig {
    AppConfig {
        name: "api".to_string(),
        server: "10.0.0.7".to_string(),
        url: "app.example.org".to_string(),
        port: 8080,
        env,
        volumes: None,
        version: "V1".to_string(),
    }
}

#[test]
fn command_builders_produce_exact_strings() {
    let name = "api".to_string();
    let server = "10.0.0.7".to_string();
    assert_eq!(
        cmd_docker_build(&name),
        "docker build --tag api --platform=linux/arm64 ."
    );
    assert_eq!(cmd_docker_save(&name), "docker save -o api-latest.tar api");
    assert_eq!(
        cmd_transfer_image(&name, &server),
        "scp -C api-latest.tar hobby@10.0.0.7:./api/"
    );
    assert_eq!(
        cmd_transfer_manifest(&name, &server),
        "scp -C docker-compose.yaml hobby@10.0.0.7:./api/"
    );
    assert_eq!(
        cmd_encrypt(&"age1xyz".to_string(), &".env".to_string()),
        "sops encrypt --age age1xyz ./.env > encrypted.env"
    );
    assert_eq!(
        cmd_upload_secret(&name, &server),
        "rsync -v encrypted.env hobby@10.0.0.7:./api"
    );
}

#[test]
fn activation_batch_without_secret_starts_stack_directly() {
    let commands = deploy_application(&api_config(None), None);
    assert_eq!(
        commands,
        vec![
            "cd api && docker load -i api-latest.tar".to_string(),
            "cd api && docker compose -p hobby up -d".to_string(),
            "cd api && rm api-latest.tar".to_string(),
        ]
    );
}

#[test]
fn activation_batch_with_secret_wraps_start_in_injection_tool() {
    let config = api_config(Some(EnvConfig { file: ".env".to_string(), hash: "h".to_string() }));
    let key = "AGE-SECRET-KEY-TEST".to_string();
    let commands = deploy_application(&config, Some(&key));
    assert_eq!(commands.len(), 3);
    assert_eq!(
        commands[1],
        "cd api && export SOPS_AGE_KEY=AGE-SECRET-KEY-TEST && sops exec-env encrypted.env 'docker compose -p hobby up -d'"
    );
}
