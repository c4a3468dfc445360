use hobby::commands::RemoteCommandResult;
use hobby::config::{AppConfig, EnvConfig};
use hobby::deploy::{deploy, DeployError, DeployPipeline, PipelineAction, PipelineEvent, Stage};
use hobby::secrets::get_env_file_hash;

fn exit(code: i32) -> PipelineEvent {
    PipelineEvent::LocalExit(RemoteCommandResult {
        stdout: String::new(),
        stderr: String::new(),
        exit_code: code,
    })
}

fn descriptor(version: &str, env: Option<EnvConfig>) -> AppConfig {
    AppConfig {
        name: "api".to_string(),
        server: "10.0.0.7".to_string(),
        url: "app.example.org".to_string(),
        port: 8080,
        env,
        volumes: None,
        version: version.to_string(),
    }
}

/// Drive a pipeline through validation and load.
fn loaded(config: AppConfig) -> DeployPipeline {
    let mut p = deploy();
    assert!(matches!(p.next_action(), PipelineAction::CheckFiles { .. }));
    p.deploy_step(PipelineEvent::EnvChecked { dockerfile: true, config_file: true });
    assert!(matches!(p.next_action(), PipelineAction::LoadConfig));
    p.deploy_step(PipelineEvent::ConfigLoaded(Some(config)));
    p
}

#[test]
fn unchanged_fingerprint_skips_encryption_and_upload() {
    let content = "SECRET=x\n";
    let hash = get_env_file_hash(content);
    let mut p = loaded(descriptor(
        "V7",
        Some(EnvConfig { file: ".env".to_string(), hash }),
    ));

    match p.next_action() {
        PipelineAction::ReadFile { path } => assert_eq!(path, "./.env"),
        other => panic!("expected the secret read, got {:?}", action_name(&other)),
    }
    p.deploy_step(PipelineEvent::SecretRead(Some(content.to_string())));
    assert!(!p.changed, "equal fingerprints must not mark the secret changed");

    assert!(matches!(p.next_action(), PipelineAction::WriteFile { .. }));
    p.deploy_step(PipelineEvent::FileWritten(true));
    p.deploy_step(exit(0)); // manifest transfer

    // straight to the image build: no recipient key, no encryption, no upload
    match p.next_action() {
        PipelineAction::RunLocal { command } => {
            assert_eq!(command, "docker build --tag api --platform=linux/arm64 .");
        },
        other => panic!("expected the image build, got {:?}", action_name(&other)),
    }
}

#[test]
fn changed_fingerprint_encrypts_uploads_once_and_updates_hash() {
    let content = "SECRET=x\n";
    let expected_hash = get_env_file_hash(content);
    let mut p = loaded(descriptor(
        "V7",
        Some(EnvConfig { file: ".env".to_string(), hash: String::new() }),
    ));

    p.deploy_step(PipelineEvent::SecretRead(Some(content.to_string())));
    assert!(p.changed);
    p.deploy_step(PipelineEvent::FileWritten(true));
    p.deploy_step(exit(0)); // manifest transfer

    assert!(matches!(p.next_action(), PipelineAction::LoadRecipientKey));
    p.deploy_step(PipelineEvent::KeyLoaded(Some("age1recipient".to_string())));

    match p.next_action() {
        PipelineAction::RunLocal { command } => {
            assert_eq!(command, "sops encrypt --age age1recipient ./.env > encrypted.env");
        },
        other => panic!("expected the encryption, got {:?}", action_name(&other)),
    }
    p.deploy_step(exit(0)); // encryption

    match p.next_action() {
        PipelineAction::RunLocal { command } => {
            assert_eq!(command, "rsync -v encrypted.env hobby@10.0.0.7:./api");
        },
        other => panic!("expected the upload, got {:?}", action_name(&other)),
    }
    p.deploy_step(exit(0)); // upload

    // the staging ciphertext is always removed
    match p.next_action() {
        PipelineAction::RemoveFile { path } => assert_eq!(path, "encrypted.env"),
        other => panic!("expected the staging removal, got {:?}", action_name(&other)),
    }
    assert_eq!(p.config.env.as_ref().unwrap().hash, "", "not yet synced");
    p.deploy_step(PipelineEvent::FileRemoved(true));
    assert_eq!(
        p.config.env.as_ref().unwrap().hash,
        expected_hash,
        "a fully successful sync stores the new fingerprint"
    );

    // encryption is never issued again: next is the image build
    match p.next_action() {
        PipelineAction::RunLocal { command } => {
            assert!(command.starts_with("docker build"));
        },
        other => panic!("expected the image build, got {:?}", action_name(&other)),
    }
}

#[test]
fn upload_failure_leaves_fingerprint_unchanged() {
    let content = "SECRET=x\n";
    let mut p = loaded(descriptor(
        "V7",
        Some(EnvConfig { file: ".env".to_string(), hash: "oldhash".to_string() }),
    ));

    p.deploy_step(PipelineEvent::SecretRead(Some(content.to_string())));
    assert!(p.changed);
    p.deploy_step(PipelineEvent::FileWritten(true));
    p.deploy_step(exit(0)); // manifest transfer
    p.deploy_step(PipelineEvent::KeyLoaded(Some("age1recipient".to_string())));
    p.deploy_step(exit(0)); // encryption
    p.deploy_step(exit(23)); // the upload fails

    // the ciphertext is still removed, then the run fails
    assert!(matches!(p.next_action(), PipelineAction::RemoveFile { .. }));
    p.deploy_step(PipelineEvent::FileRemoved(true));
    assert_eq!(p.stage, Stage::Failed);
    assert_eq!(p.config.env.as_ref().unwrap().hash, "oldhash");
    assert_eq!(p.config.version, "V7");
    match p.into_failure() {
        Some(DeployError::Transfer(e)) => {
            assert_eq!(e.command, "rsync -v encrypted.env hobby@10.0.0.7:./api");
            assert_eq!(e.exit_code, 23);
        },
        _ => panic!("expected a transfer failure"),
    }
}

#[test]
fn successful_run_persists_version_plus_one() {
    let mut p = loaded(descriptor("V7", None));
    p.deploy_step(PipelineEvent::FileWritten(true));
    p.deploy_step(exit(0)); // manifest transfer
    p.deploy_step(exit(0)); // build
    p.deploy_step(exit(0)); // save
    p.deploy_step(exit(0)); // image transfer
    p.deploy_step(PipelineEvent::FileRemoved(true)); // archive removal
    assert_eq!(p.stage, Stage::Activate);
    p.deploy_step(PipelineEvent::RemoteDone(None));

    match p.next_action() {
        PipelineAction::PersistConfig { content } => {
            assert!(content.contains("version: \"V8\""));
            assert!(!content.contains("version: \"V7\""));
        },
        other => panic!("expected the persist, got {:?}", action_name(&other)),
    }
    p.deploy_step(PipelineEvent::Persisted(true));
    assert_eq!(p.stage, Stage::Done);
    assert!(matches!(p.next_action(), PipelineAction::Report { ok: true }));
}

#[test]
fn failing_stage_aborts_without_persisting() {
    let mut p = loaded(descriptor("V7", None));
    p.deploy_step(PipelineEvent::FileWritten(true));
    p.deploy_step(exit(0)); // manifest transfer
    p.deploy_step(exit(1)); // the image build fails
    assert_eq!(p.stage, Stage::Failed);
    assert!(matches!(p.next_action(), PipelineAction::Report { ok: false }));
    assert_eq!(p.config.version, "V7");
    match p.into_failure() {
        Some(DeployError::Build(e)) => {
            assert_eq!(e.command, "docker build --tag api --platform=linux/arm64 .");
        },
        _ => panic!("expected a build failure"),
    }
}

#[test]
fn remote_activation_uses_injection_tool_only_with_secret() {
    let content = "SECRET=x\n";
    let hash = get_env_file_hash(content);
    let mut p = loaded(descriptor(
        "V2",
        Some(EnvConfig { file: ".env".to_string(), hash }),
    ));
    p.deploy_step(PipelineEvent::SecretRead(Some(content.to_string())));
    p.deploy_step(PipelineEvent::FileWritten(true));
    p.deploy_step(exit(0)); // manifest transfer
    p.deploy_step(exit(0)); // build
    p.deploy_step(exit(0)); // save
    p.deploy_step(exit(0)); // image transfer
    p.deploy_step(PipelineEvent::FileRemoved(true));
    assert!(matches!(p.next_action(), PipelineAction::LoadSecretKey));
    p.deploy_step(PipelineEvent::KeyLoaded(Some("AGE-SECRET-KEY-TEST".to_string())));
    match p.next_action() {
        PipelineAction::RunRemote { user, host, commands } => {
            assert_eq!(user, "hobby");
            assert_eq!(host, "10.0.0.7");
            assert_eq!(commands.len(), 3);
            assert_eq!(commands[0], "cd api && docker load -i api-latest.tar");
            assert!(commands[1].contains("export SOPS_AGE_KEY=AGE-SECRET-KEY-TEST"));
            assert!(commands[1].contains("sops exec-env encrypted.env"));
            assert_eq!(commands[2], "cd api && rm api-latest.tar");
        },
        other => panic!("expected the activation, got {:?}", action_name(&other)),
    }
}

#[test]
fn end_to_end_first_deploy_stores_hash_env_mapping_and_version_one() {
    // descriptor {name: api, version: V0, env: {file: .env, hash: ""}} with a
    // non-empty secret file: the run stores a non-empty fingerprint, the
    // manifest keys every variable of the file, and version V1 is persisted.
    let content = "DB_URL=a\nTOKEN=b\n";
    let mut p = loaded(descriptor(
        "V0",
        Some(EnvConfig { file: ".env".to_string(), hash: String::new() }),
    ));
    p.deploy_step(PipelineEvent::SecretRead(Some(content.to_string())));

    match p.next_action() {
        PipelineAction::WriteFile { path, content } => {
            assert_eq!(path, "docker-compose.yaml");
            assert!(content.contains("  api:\n"));
            assert!(content.contains("      DB_URL: \"${DB_URL}\"\n"));
            assert!(content.contains("      TOKEN: \"${TOKEN}\"\n"));
        },
        other => panic!("expected the manifest write, got {:?}", action_name(&other)),
    }
    p.deploy_step(PipelineEvent::FileWritten(true));
    p.deploy_step(exit(0)); // manifest transfer
    p.deploy_step(PipelineEvent::KeyLoaded(Some("age1recipient".to_string())));
    p.deploy_step(exit(0)); // encryption
    p.deploy_step(exit(0)); // upload
    p.deploy_step(PipelineEvent::FileRemoved(true));

    let stored = p.config.env.as_ref().unwrap().hash.clone();
    assert!(!stored.is_empty());
    assert_eq!(stored, get_env_file_hash(content));

    p.deploy_step(exit(0)); // build
    p.deploy_step(exit(0)); // save
    p.deploy_step(exit(0)); // image transfer
    p.deploy_step(PipelineEvent::FileRemoved(true));
    p.deploy_step(PipelineEvent::KeyLoaded(Some("AGE-SECRET-KEY-TEST".to_string())));
    p.deploy_step(PipelineEvent::RemoteDone(None));

    match p.next_action() {
        PipelineAction::PersistConfig { content } => {
            assert!(content.contains("version: \"V1\""));
            assert!(content.contains(&format!("hash: \"{}\"", stored)));
        },
        other => panic!("expected the persist, got {:?}", action_name(&other)),
    }
    p.deploy_step(PipelineEvent::Persisted(true));
    assert_eq!(p.stage, Stage::Done);
}

#[test]
fn missing_dockerfile_is_a_config_error() {
    let mut p = deploy();
    p.deploy_step(PipelineEvent::EnvChecked { dockerfile: false, config_file: true });
    assert_eq!(p.stage, Stage::Failed);
    assert!(matches!(p.into_failure(), Some(DeployError::Config(_))));
}

#[test]
fn malformed_descriptor_is_a_config_error() {
    let mut p = deploy();
    p.deploy_step(PipelineEvent::EnvChecked { dockerfile: true, config_file: true });
    p.deploy_step(PipelineEvent::ConfigLoaded(None));
    assert!(matches!(p.into_failure(), Some(DeployError::Config(_))));

    let mut p = deploy();
    p.deploy_step(PipelineEvent::EnvChecked { dockerfile: true, config_file: true });
    p.deploy_step(PipelineEvent::ConfigLoaded(Some(descriptor("seven", None))));
    assert!(matches!(p.into_failure(), Some(DeployError::Config(_))));
}

#[test]
fn unreadable_secret_file_is_an_io_error() {
    let mut p = loaded(descriptor(
        "V1",
        Some(EnvConfig { file: ".env".to_string(), hash: String::new() }),
    ));
    p.deploy_step(PipelineEvent::SecretRead(None));
    assert!(matches!(p.into_failure(), Some(DeployError::Io(_))));
}

#[test]
fn manifest_transfer_failure_is_a_transfer_error() {
    let mut p = loaded(descriptor("V1", None));
    p.deploy_step(PipelineEvent::FileWritten(true));
    p.deploy_step(exit(7));
    match p.into_failure() {
        Some(DeployError::Transfer(e)) => {
            assert_eq!(e.command, "scp -C docker-compose.yaml hobby@10.0.0.7:./api/");
            assert_eq!(e.exit_code, 7);
        },
        _ => panic!("expected a transfer failure"),
    }
}

#[test]
fn encryption_failure_is_an_encryption_error() {
    let mut p = loaded(descriptor(
        "V1",
        Some(EnvConfig { file: ".env".to_string(), hash: String::new() }),
    ));
    p.deploy_step(PipelineEvent::SecretRead(Some("A=1\n".to_string())));
    p.deploy_step(PipelineEvent::FileWritten(true));
    p.deploy_step(exit(0));
    p.deploy_step(PipelineEvent::KeyLoaded(Some("age1recipient".to_string())));
    p.deploy_step(exit(5));
    assert!(matches!(p.into_failure(), Some(DeployError::Encryption(_))));
}

#[test]
fn remote_command_failure_is_a_command_error() {
    let mut p = loaded(descriptor("V1", None));
    p.deploy_step(PipelineEvent::FileWritten(true));
    p.deploy_step(exit(0));
    p.deploy_step(exit(0));
    p.deploy_step(exit(0));
    p.deploy_step(exit(0));
    p.deploy_step(PipelineEvent::FileRemoved(true));
    p.deploy_step(PipelineEvent::RemoteDone(Some(hobby::commands::CommandError {
        command: "cd api && docker load -i api-latest.tar".to_string(),
        exit_code: 1,
        stdout: String::new(),
        stderr: "no such file".to_string(),
    })));
    match p.into_failure() {
        Some(DeployError::Command(e)) => assert_eq!(e.stderr, "no such file"),
        _ => panic!("expected a command failure"),
    }
}

#[test]
fn connection_failure_is_a_connection_error() {
    let mut p = loaded(descriptor("V1", None));
    p.deploy_step(PipelineEvent::FileWritten(true));
    p.deploy_step(exit(0));
    p.deploy_step(exit(0));
    p.deploy_step(exit(0));
    p.deploy_step(exit(0));
    p.deploy_step(PipelineEvent::FileRemoved(true));
    p.deploy_step(PipelineEvent::ConnectFailed("connection refused".to_string()));
    assert!(matches!(p.into_failure(), Some(DeployError::Connection(_))));
}

#[test]
fn persist_failure_is_an_io_error() {
    let mut p = loaded(descriptor("V1", None));
    p.deploy_step(PipelineEvent::FileWritten(true));
    p.deploy_step(exit(0));
    p.deploy_step(exit(0));
    p.deploy_step(exit(0));
    p.deploy_step(exit(0));
    p.deploy_step(PipelineEvent::FileRemoved(true));
    p.deploy_step(PipelineEvent::RemoteDone(None));
    p.deploy_step(PipelineEvent::Persisted(false));
    assert!(matches!(p.into_failure(), Some(DeployError::Io(_))));
}

#[test]
fn archive_removal_failure_does_not_void_the_run() {
    let mut p = loaded(descriptor("V1", None));
    p.deploy_step(PipelineEvent::FileWritten(true));
    p.deploy_step(exit(0));
    p.deploy_step(exit(0));
    p.deploy_step(exit(0));
    p.deploy_step(exit(0));
    p.deploy_step(PipelineEvent::FileRemoved(false)); // removal fails
    assert_eq!(p.stage, Stage::Activate);
}

fn action_name(a: &PipelineAction) -> &'static str {
    match a {
        PipelineAction::CheckFiles { .. } => "CheckFiles",
        PipelineAction::LoadConfig => "LoadConfig",
        PipelineAction::ReadFile { .. } => "ReadFile",
        PipelineAction::WriteFile { .. } => "WriteFile",
        PipelineAction::RunLocal { .. } => "RunLocal",
        PipelineAction::RemoveFile { .. } => "RemoveFile",
        PipelineAction::LoadRecipientKey => "LoadRecipientKey",
        PipelineAction::LoadSecretKey => "LoadSecretKey",
        PipelineAction::RunRemote { .. } => "RunRemote",
        PipelineAction::PersistConfig { .. } => "PersistConfig",
        PipelineAction::Report { .. } => "Report",
    }
}
