//! The deploy pipeline: a state machine with a single forward path.
//!
//! `ValidateEnv -> LoadConfig -> SyncSecret -> GenerateManifest ->
//! WriteManifestLocal -> TransferManifest -> EncryptUploadSecret (if the
//! fingerprint changed) -> BuildAndTransferImage -> RemoteActivate ->
//! PersistConfig (version + 1)`.
//!
//! The machine owns every decision; it performs no I/O.  A driver asks
//! [`DeployPipeline::next_action`] what to do, does it, and reports what
//! happened through [`DeployPipeline::deploy_step`].  Every transition is
//! the spec function [`step_model`], so the ordering guarantees — nothing
//! encrypted or uploaded while the fingerprint is unchanged, the fingerprint
//! updated only after a fully successful sync, the descriptor persisted,
//! with its version grown by one, only after every stage has succeeded —
//! are theorems about the machine, proved below.

use vstd::prelude::*;
use crate::commands::{
    CommandError, CommandErrorV, RemoteCommandResult, RemoteCommandResultV, uses_secret,
    spec_cmd_docker_build, spec_cmd_docker_save, spec_cmd_transfer_image,
    spec_cmd_transfer_manifest, spec_cmd_encrypt, spec_cmd_upload_secret,
    spec_activation_commands, cmd_docker_build, cmd_docker_save, cmd_transfer_image,
    cmd_transfer_manifest, cmd_encrypt, cmd_upload_secret, deploy_application,
};
use crate::config::{
    AppConfig, AppConfigV, EnvConfigV, config_valid, check_config, bumped_config, clone_app_config,
    spec_render_config, update_version_and_config,
};
use crate::docker::{spec_compose, spec_render_compose, build_compose_config, render_compose};
use crate::secrets::{md5_hex_of, get_env_file_hash};
use crate::text::{spec_bump_version, spec_parse_version, self_str};

verus! {

/// Why a run stopped.  Every failure is fatal: nothing is retried, and the
/// stored descriptor is not overwritten.
pub enum DeployError {
    /// Missing or malformed descriptor, or a missing prerequisite file.
    Config(String),
    /// The secure-shell session could not be established.
    Connection(String),
    /// A remote command exited with a nonzero status.
    Command(CommandError),
    /// A local image build or save step failed.
    Build(CommandError),
    /// A local transfer step failed.
    Transfer(CommandError),
    /// The secret-encryption tool failed; the fingerprint is left unchanged.
    Encryption(CommandError),
    /// A local read, write or remove failed.
    Io(String),
}

#[verifier::ext_equal]
pub enum DeployErrorV {
    Config(Seq<char>),
    Connection(Seq<char>),
    Command(CommandErrorV),
    Build(CommandErrorV),
    Transfer(CommandErrorV),
    Encryption(CommandErrorV),
    Io(Seq<char>),
}

impl View for DeployError {
    type V = DeployErrorV;

    open spec fn view(&self) -> DeployErrorV {
        match self {
            DeployError::Config(m) => DeployErrorV::Config(m@),
            DeployError::Connection(m) => DeployErrorV::Connection(m@),
            DeployError::Command(e) => DeployErrorV::Command(e@),
            DeployError::Build(e) => DeployErrorV::Build(e@),
            DeployError::Transfer(e) => DeployErrorV::Transfer(e@),
            DeployError::Encryption(e) => DeployErrorV::Encryption(e@),
            DeployError::Io(m) => DeployErrorV::Io(m@),
        }
    }
}

/// The stage the pipeline is waiting in.  Each stage awaits the outcome of
/// exactly one action; the order is fixed, with the secret stages skipped
/// when no secret is configured or the fingerprint is unchanged.
#[derive(Clone, Copy, PartialEq, Eq, Structural, Debug)]
pub enum Stage {
    /// Await the existence check of the build and descriptor files.
    CheckEnv,
    /// Await the parsed descriptor.
    Load,
    /// Await the text of the secret file.
    ReadSecret,
    /// Await the local write of the rendered manifest.
    WriteManifest,
    /// Await the copy of the manifest to the remote host.
    TransferManifest,
    /// Await the recipient public key from the credential store.
    LoadRecipient,
    /// Await the encryption of the secret file to the staging ciphertext.
    Encrypt,
    /// Await the upload of the staging ciphertext.
    Upload,
    /// Await the removal of the staging ciphertext (always removed, after a
    /// failed upload too).
    RemoveStaging,
    /// Await the local image build.
    BuildImage,
    /// Await the save of the image to the local archive.
    SaveImage,
    /// Await the copy of the archive to the remote host.
    TransferImage,
    /// Await the removal of the local archive (failure does not void the
    /// transfer).
    RemoveArchive,
    /// Await the decryption key from the credential store.
    LoadKey,
    /// Await the remote activation batch.
    Activate,
    /// Await the write-back of the descriptor.
    Persist,
    /// The run succeeded; the descriptor was persisted with version + 1.
    Done,
    /// The run failed; nothing more happens and nothing is persisted.
    Failed,
}

/// What the driver reports back to the machine.
pub enum PipelineEvent {
    /// Which of the two prerequisite files exist.
    EnvChecked { dockerfile: bool, config_file: bool },
    /// The parsed descriptor, or `None` when missing or malformed.
    ConfigLoaded(Option<AppConfig>),
    /// The text of the secret file, or `None` when it could not be read.
    SecretRead(Option<String>),
    /// Whether the manifest write succeeded.
    FileWritten(bool),
    /// Exit status and captured output of a local command.
    LocalExit(RemoteCommandResult),
    /// Whether a local file removal succeeded.
    FileRemoved(bool),
    /// A key read from the credential store, or `None` when missing.
    KeyLoaded(Option<String>),
    /// The secure-shell session could not be established.
    ConnectFailed(String),
    /// The remote batch ran to completion (`None`) or stopped on a failing
    /// command.
    RemoteDone(Option<CommandError>),
    /// Whether the descriptor write-back succeeded.
    Persisted(bool),
}

#[verifier::ext_equal]
pub enum PipelineEventV {
    EnvChecked { dockerfile: bool, config_file: bool },
    ConfigLoaded(Option<AppConfigV>),
    SecretRead(Option<Seq<char>>),
    FileWritten(bool),
    LocalExit(RemoteCommandResultV),
    FileRemoved(bool),
    KeyLoaded(Option<Seq<char>>),
    ConnectFailed(Seq<char>),
    RemoteDone(Option<CommandErrorV>),
    Persisted(bool),
}

impl View for PipelineEvent {
    type V = PipelineEventV;

    open spec fn view(&self) -> PipelineEventV {
        match self {
            PipelineEvent::EnvChecked { dockerfile, config_file } => PipelineEventV::EnvChecked {
                dockerfile: *dockerfile,
                config_file: *config_file,
            },
            PipelineEvent::ConfigLoaded(o) => PipelineEventV::ConfigLoaded(
                match o {
                    Some(c) => Some(c@),
                    None => None,
                },
            ),
            PipelineEvent::SecretRead(o) => PipelineEventV::SecretRead(
                match o {
                    Some(s) => Some(s@),
                    None => None,
                },
            ),
            PipelineEvent::FileWritten(ok) => PipelineEventV::FileWritten(*ok),
            PipelineEvent::LocalExit(r) => PipelineEventV::LocalExit(r@),
            PipelineEvent::FileRemoved(ok) => PipelineEventV::FileRemoved(*ok),
            PipelineEvent::KeyLoaded(o) => PipelineEventV::KeyLoaded(
                match o {
                    Some(s) => Some(s@),
                    None => None,
                },
            ),
            PipelineEvent::ConnectFailed(m) => PipelineEventV::ConnectFailed(m@),
            PipelineEvent::RemoteDone(o) => PipelineEventV::RemoteDone(
                match o {
                    Some(e) => Some(e@),
                    None => None,
                },
            ),
            PipelineEvent::Persisted(ok) => PipelineEventV::Persisted(*ok),
        }
    }
}

/// What the driver must do next.  Each action is pure data: a path, a
/// command string, or a batch of command strings.
pub enum PipelineAction {
    /// Check that both files exist.
    CheckFiles { dockerfile: String, config_file: String },
    /// Load and parse the descriptor file.
    LoadConfig,
    /// Read the text of the file at `path`.
    ReadFile { path: String },
    /// Write `content` to the file at `path`.
    WriteFile { path: String, content: String },
    /// Run a local shell command, capturing exit status and output.
    RunLocal { command: String },
    /// Remove the local file at `path`.
    RemoveFile { path: String },
    /// Read the recipient public key from the credential store.
    LoadRecipientKey,
    /// Read the decryption key from the credential store.
    LoadSecretKey,
    /// Run the batch over one secure-shell session as `user@host`,
    /// strictly in order, stopping at the first nonzero exit.
    RunRemote { user: String, host: String, commands: Vec<String> },
    /// Atomically overwrite the descriptor file with `content`.
    PersistConfig { content: String },
    /// The run is over: succeeded, or failed with the stored failure.
    Report { ok: bool },
}

#[verifier::ext_equal]
pub enum PipelineActionV {
    CheckFiles { dockerfile: Seq<char>, config_file: Seq<char> },
    LoadConfig,
    ReadFile { path: Seq<char> },
    WriteFile { path: Seq<char>, content: Seq<char> },
    RunLocal { command: Seq<char> },
    RemoveFile { path: Seq<char> },
    LoadRecipientKey,
    LoadSecretKey,
    RunRemote { user: Seq<char>, host: Seq<char>, commands: Seq<Seq<char>> },
    PersistConfig { content: Seq<char> },
    Report { ok: bool },
}

impl View for PipelineAction {
    type V = PipelineActionV;

    open spec fn view(&self) -> PipelineActionV {
        match self {
            PipelineAction::CheckFiles { dockerfile, config_file } => PipelineActionV::CheckFiles {
                dockerfile: dockerfile@,
                config_file: config_file@,
            },
            PipelineAction::LoadConfig => PipelineActionV::LoadConfig,
            PipelineAction::ReadFile { path } => PipelineActionV::ReadFile { path: path@ },
            PipelineAction::WriteFile { path, content } => PipelineActionV::WriteFile {
                path: path@,
                content: content@,
            },
            PipelineAction::RunLocal { command } => PipelineActionV::RunLocal { command: command@ },
            PipelineAction::RemoveFile { path } => PipelineActionV::RemoveFile { path: path@ },
            PipelineAction::LoadRecipientKey => PipelineActionV::LoadRecipientKey,
            PipelineAction::LoadSecretKey => PipelineActionV::LoadSecretKey,
            PipelineAction::RunRemote { user, host, commands } => PipelineActionV::RunRemote {
                user: user@,
                host: host@,
                commands: commands.deep_view(),
            },
            PipelineAction::PersistConfig { content } => PipelineActionV::PersistConfig {
                content: content@,
            },
            PipelineAction::Report { ok } => PipelineActionV::Report { ok: *ok },
        }
    }
}

/// The machine's state.
pub struct DeployPipeline {
    pub stage: Stage,
    /// The descriptor, once loaded; updated in place only by a fully
    /// successful secret sync (the fingerprint) — the version tag is bumped
    /// only in the persisted rendering.
    pub config: AppConfig,
    /// Text of the secret file read this run (empty when none).
    pub env_content: String,
    /// Fingerprint of `env_content` (empty when none).
    pub new_hash: String,
    /// Whether the fingerprint differs from the stored one.
    pub changed: bool,
    /// Recipient public key, once loaded.
    pub recipient: String,
    /// Decryption key for activation, once loaded.
    pub secret_key: String,
    /// A failure recorded while the staging ciphertext still had to be
    /// removed; delivered once the removal has been attempted.
    pub pending: Option<DeployError>,
    /// The failure that ended the run.
    pub failure: Option<DeployError>,
}

#[verifier::ext_equal]
pub struct PipelineV {
    pub stage: Stage,
    pub config: AppConfigV,
    pub env_content: Seq<char>,
    pub new_hash: Seq<char>,
    pub changed: bool,
    pub recipient: Seq<char>,
    pub secret_key: Seq<char>,
    pub pending: Option<DeployErrorV>,
    pub failure: Option<DeployErrorV>,
}

impl View for DeployPipeline {
    type V = PipelineV;

    open spec fn view(&self) -> PipelineV {
        PipelineV {
            stage: self.stage,
            config: self.config@,
            env_content: self.env_content@,
            new_hash: self.new_hash@,
            changed: self.changed,
            recipient: self.recipient@,
            secret_key: self.secret_key@,
            pending: match self.pending {
                Some(ref e) => Some(e@),
                None => None,
            },
            failure: match self.failure {
                Some(ref e) => Some(e@),
                None => None,
            },
        }
    }
}

/// The stored fingerprint of the descriptor's secret entry.
pub open spec fn stored_hash(c: AppConfigV) -> Seq<char> {
    match c.env {
        Some(e) => e.hash,
        None => Seq::<char>::empty(),
    }
}

/// The configured secret file path.
pub open spec fn env_file(c: AppConfigV) -> Seq<char> {
    match c.env {
        Some(e) => e.file,
        None => Seq::<char>::empty(),
    }
}

/// The descriptor with its stored fingerprint replaced.
pub open spec fn set_hash(c: AppConfigV, h: Seq<char>) -> AppConfigV {
    AppConfigV {
        env: match c.env {
            Some(e) => Some(EnvConfigV { hash: h, ..e }),
            None => None,
        },
        ..c
    }
}

pub open spec fn cmd_err(c: Seq<char>, r: RemoteCommandResultV) -> CommandErrorV {
    CommandErrorV { command: c, exit_code: r.exit_code, stdout: r.stdout, stderr: r.stderr }
}

/// Stop the run with a failure; the state is otherwise kept.
pub open spec fn fail(s: PipelineV, e: DeployErrorV) -> PipelineV {
    PipelineV { stage: Stage::Failed, failure: Some(e), ..s }
}

/// The secret-file text handed to the manifest generator.
pub open spec fn secret_text(s: PipelineV) -> Option<Seq<char>> {
    if uses_secret(s.config) {
        Some(s.env_content)
    } else {
        None
    }
}

/// The rendered manifest of the current state.
pub open spec fn manifest_text(s: PipelineV) -> Seq<char> {
    spec_render_compose(spec_compose(s.config, secret_text(s)))
}

/// The action owed in a state: a pure function of the state.
pub open spec fn action_model(s: PipelineV) -> PipelineActionV {
    match s.stage {
        Stage::CheckEnv => PipelineActionV::CheckFiles {
            dockerfile: "./Dockerfile"@,
            config_file: "./hobby.yml"@,
        },
        Stage::Load => PipelineActionV::LoadConfig,
        Stage::ReadSecret => match s.config.env {
            Some(e) => PipelineActionV::ReadFile { path: "./"@ + e.file },
            None => PipelineActionV::Report { ok: false },
        },
        Stage::WriteManifest => PipelineActionV::WriteFile {
            path: "docker-compose.yaml"@,
            content: manifest_text(s),
        },
        Stage::TransferManifest => PipelineActionV::RunLocal {
            command: spec_cmd_transfer_manifest(s.config.name, s.config.server),
        },
        Stage::LoadRecipient => PipelineActionV::LoadRecipientKey,
        Stage::Encrypt => PipelineActionV::RunLocal {
            command: spec_cmd_encrypt(s.recipient, env_file(s.config)),
        },
        Stage::Upload => PipelineActionV::RunLocal {
            command: spec_cmd_upload_secret(s.config.name, s.config.server),
        },
        Stage::RemoveStaging => PipelineActionV::RemoveFile { path: "encrypted.env"@ },
        Stage::BuildImage => PipelineActionV::RunLocal {
            command: spec_cmd_docker_build(s.config.name),
        },
        Stage::SaveImage => PipelineActionV::RunLocal {
            command: spec_cmd_docker_save(s.config.name),
        },
        Stage::TransferImage => PipelineActionV::RunLocal {
            command: spec_cmd_transfer_image(s.config.name, s.config.server),
        },
        Stage::RemoveArchive => PipelineActionV::RemoveFile {
            path: s.config.name + "-latest.tar"@,
        },
        Stage::LoadKey => PipelineActionV::LoadSecretKey,
        Stage::Activate => PipelineActionV::RunRemote {
            user: "hobby"@,
            host: s.config.server,
            commands: spec_activation_commands(
                s.config,
                if uses_secret(s.config) {
                    Some(s.secret_key)
                } else {
                    None
                },
            ),
        },
        Stage::Persist => if spec_bump_version(s.config.version) is Some {
            PipelineActionV::PersistConfig {
                content: spec_render_config(bumped_config(s.config)),
            }
        } else {
            PipelineActionV::Report { ok: false }
        },
        Stage::Done => PipelineActionV::Report { ok: true },
        Stage::Failed => PipelineActionV::Report { ok: false },
    }
}

/// The transition relation: total, deterministic, single forward path.
/// An event that does not belong to the waiting stage leaves the state
/// untouched; `Done` and `Failed` absorb every event.
pub open spec fn step_model(s: PipelineV, e: PipelineEventV) -> PipelineV {
    match s.stage {
        Stage::CheckEnv => match e {
            PipelineEventV::EnvChecked { dockerfile, config_file } => if !dockerfile {
                fail(s, DeployErrorV::Config("No Dockerfile found in current directory"@))
            } else if !config_file {
                fail(s, DeployErrorV::Config("hobby config is missing - run 'init' command first"@))
            } else {
                PipelineV { stage: Stage::Load, ..s }
            },
            _ => s,
        },
        Stage::Load => match e {
            PipelineEventV::ConfigLoaded(o) => match o {
                None => fail(s, DeployErrorV::Config("missing or malformed descriptor"@)),
                Some(c) => if !config_valid(c) {
                    fail(
                        s,
                        DeployErrorV::Config(
                            "descriptor rejected: unsafe name or malformed version"@,
                        ),
                    )
                } else if uses_secret(c) {
                    PipelineV { stage: Stage::ReadSecret, config: c, ..s }
                } else {
                    PipelineV { stage: Stage::WriteManifest, config: c, changed: false, ..s }
                },
            },
            _ => s,
        },
        Stage::ReadSecret => match e {
            PipelineEventV::SecretRead(o) => match o {
                None => fail(s, DeployErrorV::Io("could not read secret file"@)),
                Some(content) => PipelineV {
                    stage: Stage::WriteManifest,
                    env_content: content,
                    new_hash: md5_hex_of(content),
                    changed: md5_hex_of(content) != stored_hash(s.config),
                    ..s
                },
            },
            _ => s,
        },
        Stage::WriteManifest => match e {
            PipelineEventV::FileWritten(ok) => if ok {
                PipelineV { stage: Stage::TransferManifest, ..s }
            } else {
                fail(s, DeployErrorV::Io("could not write manifest"@))
            },
            _ => s,
        },
        Stage::TransferManifest => match e {
            PipelineEventV::LocalExit(r) => if r.exit_code == 0 {
                if s.changed {
                    PipelineV { stage: Stage::LoadRecipient, ..s }
                } else {
                    PipelineV { stage: Stage::BuildImage, ..s }
                }
            } else {
                fail(
                    s,
                    DeployErrorV::Transfer(
                        cmd_err(spec_cmd_transfer_manifest(s.config.name, s.config.server), r),
                    ),
                )
            },
            _ => s,
        },
        Stage::LoadRecipient => match e {
            PipelineEventV::KeyLoaded(o) => match o {
                Some(k) => PipelineV { stage: Stage::Encrypt, recipient: k, ..s },
                None => fail(s, DeployErrorV::Config("missing recipient key"@)),
            },
            _ => s,
        },
        Stage::Encrypt => match e {
            PipelineEventV::LocalExit(r) => if r.exit_code == 0 {
                PipelineV { stage: Stage::Upload, ..s }
            } else {
                fail(
                    s,
                    DeployErrorV::Encryption(
                        cmd_err(spec_cmd_encrypt(s.recipient, env_file(s.config)), r),
                    ),
                )
            },
            _ => s,
        },
        Stage::Upload => match e {
            PipelineEventV::LocalExit(r) => if r.exit_code == 0 {
                PipelineV { stage: Stage::RemoveStaging, pending: None, ..s }
            } else {
                PipelineV {
                    stage: Stage::RemoveStaging,
                    pending: Some(
                        DeployErrorV::Transfer(
                            cmd_err(spec_cmd_upload_secret(s.config.name, s.config.server), r),
                        ),
                    ),
                    ..s
                }
            },
            _ => s,
        },
        Stage::RemoveStaging => match e {
            PipelineEventV::FileRemoved(ok) => match s.pending {
                Some(err) => PipelineV { stage: Stage::Failed, pending: None, failure: Some(err), ..s },
                None => if ok {
                    PipelineV {
                        stage: Stage::BuildImage,
                        config: set_hash(s.config, s.new_hash),
                        ..s
                    }
                } else {
                    fail(s, DeployErrorV::Io("could not remove staged ciphertext"@))
                },
            },
            _ => s,
        },
        Stage::BuildImage => match e {
            PipelineEventV::LocalExit(r) => if r.exit_code == 0 {
                PipelineV { stage: Stage::SaveImage, ..s }
            } else {
                fail(s, DeployErrorV::Build(cmd_err(spec_cmd_docker_build(s.config.name), r)))
            },
            _ => s,
        },
        Stage::SaveImage => match e {
            PipelineEventV::LocalExit(r) => if r.exit_code == 0 {
                PipelineV { stage: Stage::TransferImage, ..s }
            } else {
                fail(s, DeployErrorV::Build(cmd_err(spec_cmd_docker_save(s.config.name), r)))
            },
            _ => s,
        },
        Stage::TransferImage => match e {
            PipelineEventV::LocalExit(r) => if r.exit_code == 0 {
                PipelineV { stage: Stage::RemoveArchive, ..s }
            } else {
                fail(
                    s,
                    DeployErrorV::Transfer(
                        cmd_err(spec_cmd_transfer_image(s.config.name, s.config.server), r),
                    ),
                )
            },
            _ => s,
        },
        Stage::RemoveArchive => match e {
            PipelineEventV::FileRemoved(_) => if uses_secret(s.config) {
                PipelineV { stage: Stage::LoadKey, ..s }
            } else {
                PipelineV { stage: Stage::Activate, ..s }
            },
            _ => s,
        },
        Stage::LoadKey => match e {
            PipelineEventV::KeyLoaded(o) => match o {
                Some(k) => PipelineV { stage: Stage::Activate, secret_key: k, ..s },
                None => fail(s, DeployErrorV::Config("missing secret key"@)),
            },
            _ => s,
        },
        Stage::Activate => match e {
            PipelineEventV::RemoteDone(o) => match o {
                None => PipelineV { stage: Stage::Persist, ..s },
                Some(err) => fail(s, DeployErrorV::Command(err)),
            },
            PipelineEventV::ConnectFailed(m) => fail(s, DeployErrorV::Connection(m)),
            _ => s,
        },
        Stage::Persist => match e {
            PipelineEventV::Persisted(ok) => if ok {
                PipelineV { stage: Stage::Done, ..s }
            } else {
                fail(s, DeployErrorV::Io("could not persist descriptor"@))
            },
            _ => s,
        },
        Stage::Done => s,
        Stage::Failed => s,
    }
}

/// The state a deploy starts in.
pub open spec fn init_model() -> PipelineV {
    PipelineV {
        stage: Stage::CheckEnv,
        config: AppConfigV {
            name: Seq::<char>::empty(),
            server: Seq::<char>::empty(),
            url: Seq::<char>::empty(),
            port: 0,
            env: None,
            volumes: None,
            version: Seq::<char>::empty(),
        },
        env_content: Seq::<char>::empty(),
        new_hash: Seq::<char>::empty(),
        changed: false,
        recipient: Seq::<char>::empty(),
        secret_key: Seq::<char>::empty(),
        pending: None,
        failure: None,
    }
}

/// Start a deploy.  The driver alternates [`DeployPipeline::next_action`]
/// and [`DeployPipeline::deploy_step`] until the action is `Report`.
pub fn deploy() -> (r: DeployPipeline)
    ensures
        r@ == init_model(),
{
    let r = DeployPipeline {
        stage: Stage::CheckEnv,
        config: AppConfig {
            name: String::new(),
            server: String::new(),
            url: String::new(),
            port: 0,
            env: None,
            volumes: None,
            version: String::new(),
        },
        env_content: String::new(),
        new_hash: String::new(),
        changed: false,
        recipient: String::new(),
        secret_key: String::new(),
        pending: None,
        failure: None,
    };
    proof {
        assert(r@ =~~= init_model());
    }
    r
}

impl DeployPipeline {
    /// The failure that ended the run, if it failed.
    pub fn into_failure(self) -> (r: Option<DeployError>)
        ensures
            match self@.failure {
                Some(e) => r matches Some(re) && re@ == e,
                None => r is None,
            },
    {
        self.failure
    }

    /// What the driver must do next: a pure function of the state.
    pub fn next_action(&self) -> (a: PipelineAction)
        ensures
            a@ == action_model(self@),
    {
        match self.stage {
            Stage::CheckEnv => PipelineAction::CheckFiles {
                dockerfile: "./Dockerfile".to_owned(),
                config_file: "./hobby.yml".to_owned(),
            },
            Stage::Load => PipelineAction::LoadConfig,
            Stage::ReadSecret => match &self.config.env {
                Some(e) => {
                    let mut path = String::new();
                    path.append("./");
                    path.append(self_str(&e.file));
                    PipelineAction::ReadFile { path }
                },
                None => PipelineAction::Report { ok: false },
            },
            Stage::WriteManifest => {
                let has_secret = match &self.config.env {
                    Some(e) => !self_str(&e.file).is_empty(),
                    None => false,
                };
                let compose = build_compose_config(
                    &self.config,
                    if has_secret {
                        Some(&self.env_content)
                    } else {
                        None
                    },
                );
                PipelineAction::WriteFile {
                    path: "docker-compose.yaml".to_owned(),
                    content: render_compose(&compose),
                }
            },
            Stage::TransferManifest => PipelineAction::RunLocal {
                command: cmd_transfer_manifest(&self.config.name, &self.config.server),
            },
            Stage::LoadRecipient => PipelineAction::LoadRecipientKey,
            Stage::Encrypt => {
                let command = match &self.config.env {
                    Some(e) => cmd_encrypt(&self.recipient, &e.file),
                    None => cmd_encrypt(&self.recipient, &String::new()),
                };
                PipelineAction::RunLocal { command }
            },
            Stage::Upload => PipelineAction::RunLocal {
                command: cmd_upload_secret(&self.config.name, &self.config.server),
            },
            Stage::RemoveStaging => PipelineAction::RemoveFile {
                path: "encrypted.env".to_owned(),
            },
            Stage::BuildImage => PipelineAction::RunLocal {
                command: cmd_docker_build(&self.config.name),
            },
            Stage::SaveImage => PipelineAction::RunLocal {
                command: cmd_docker_save(&self.config.name),
            },
            Stage::TransferImage => PipelineAction::RunLocal {
                command: cmd_transfer_image(&self.config.name, &self.config.server),
            },
            Stage::RemoveArchive => {
                let mut path = self.config.name.clone();
                path.append("-latest.tar");
                PipelineAction::RemoveFile { path }
            },
            Stage::LoadKey => PipelineAction::LoadSecretKey,
            Stage::Activate => {
                let has_secret = match &self.config.env {
                    Some(e) => !self_str(&e.file).is_empty(),
                    None => false,
                };
                let commands = deploy_application(
                    &self.config,
                    if has_secret {
                        Some(&self.secret_key)
                    } else {
                        None
                    },
                );
                PipelineAction::RunRemote {
                    user: "hobby".to_owned(),
                    host: self.config.server.clone(),
                    commands,
                }
            },
            Stage::Persist => {
                let mut c2 = clone_app_config(&self.config);
                match update_version_and_config(&mut c2) {
                    Some(content) => PipelineAction::PersistConfig { content },
                    None => PipelineAction::Report { ok: false },
                }
            },
            Stage::Done => PipelineAction::Report { ok: true },
            Stage::Failed => PipelineAction::Report { ok: false },
        }
    }

    /// Feed the outcome of the last action back into the machine.  The new
    /// state is exactly [`step_model`] of the old state and the event.
    pub fn deploy_step(&mut self, event: PipelineEvent)
        ensures
            final(self)@ == step_model(old(self)@, event@),
    {
        match self.stage {
            Stage::CheckEnv => match event {
                PipelineEvent::EnvChecked { dockerfile, config_file } => {
                    if !dockerfile {
                        self.stage = Stage::Failed;
                        self.failure = Some(
                            DeployError::Config(
                                "No Dockerfile found in current directory".to_owned(),
                            ),
                        );
                    } else if !config_file {
                        self.stage = Stage::Failed;
                        self.failure = Some(
                            DeployError::Config(
                                "hobby config is missing - run 'init' command first".to_owned(),
                            ),
                        );
                    } else {
                        self.stage = Stage::Load;
                    }
                },
                _ => {},
            },
            Stage::Load => match event {
                PipelineEvent::ConfigLoaded(o) => match o {
                    None => {
                        self.stage = Stage::Failed;
                        self.failure = Some(
                            DeployError::Config("missing or malformed descriptor".to_owned()),
                        );
                    },
                    Some(c) => {
                        if !check_config(&c) {
                            self.stage = Stage::Failed;
                            self.failure = Some(
                                DeployError::Config(
                                    "descriptor rejected: unsafe name or malformed version"
                                        .to_owned(),
                                ),
                            );
                        } else {
                            let has_secret = match &c.env {
                                Some(e) => !self_str(&e.file).is_empty(),
                                None => false,
                            };
                            self.config = c;
                            if has_secret {
                                self.stage = Stage::ReadSecret;
                            } else {
                                self.stage = Stage::WriteManifest;
                                self.changed = false;
                            }
                        }
                    },
                },
                _ => {},
            },
            Stage::ReadSecret => match event {
                PipelineEvent::SecretRead(o) => match o {
                    None => {
                        self.stage = Stage::Failed;
                        self.failure = Some(
                            DeployError::Io("could not read secret file".to_owned()),
                        );
                    },
                    Some(content) => {
                        let f = get_env_file_hash(self_str(&content));
                        let same = match &self.config.env {
                            Some(e) => f.eq(&e.hash),
                            None => false,
                        };
                        self.stage = Stage::WriteManifest;
                        self.env_content = content;
                        self.new_hash = f;
                        self.changed = !same;
                    },
                },
                _ => {},
            },
            Stage::WriteManifest => match event {
                PipelineEvent::FileWritten(ok) => {
                    if ok {
                        self.stage = Stage::TransferManifest;
                    } else {
                        self.stage = Stage::Failed;
                        self.failure = Some(DeployError::Io("could not write manifest".to_owned()));
                    }
                },
                _ => {},
            },
            Stage::TransferManifest => match event {
                PipelineEvent::LocalExit(r) => {
                    if r.exit_code == 0 {
                        if self.changed {
                            self.stage = Stage::LoadRecipient;
                        } else {
                            self.stage = Stage::BuildImage;
                        }
                    } else {
                        let command = cmd_transfer_manifest(&self.config.name, &self.config.server);
                        self.stage = Stage::Failed;
                        self.failure = Some(
                            DeployError::Transfer(
                                CommandError {
                                    command,
                                    exit_code: r.exit_code,
                                    stdout: r.stdout,
                                    stderr: r.stderr,
                                },
                            ),
                        );
                    }
                },
                _ => {},
            },
            Stage::LoadRecipient => match event {
                PipelineEvent::KeyLoaded(o) => match o {
                    Some(k) => {
                        self.stage = Stage::Encrypt;
                        self.recipient = k;
                    },
                    None => {
                        self.stage = Stage::Failed;
                        self.failure = Some(
                            DeployError::Config("missing recipient key".to_owned()),
                        );
                    },
                },
                _ => {},
            },
            Stage::Encrypt => match event {
                PipelineEvent::LocalExit(r) => {
                    if r.exit_code == 0 {
                        self.stage = Stage::Upload;
                    } else {
                        let command = match &self.config.env {
                            Some(e) => cmd_encrypt(&self.recipient, &e.file),
                            None => cmd_encrypt(&self.recipient, &String::new()),
                        };
                        self.stage = Stage::Failed;
                        self.failure = Some(
                            DeployError::Encryption(
                                CommandError {
                                    command,
                                    exit_code: r.exit_code,
                                    stdout: r.stdout,
                                    stderr: r.stderr,
                                },
                            ),
                        );
                    }
                },
                _ => {},
            },
            Stage::Upload => match event {
                PipelineEvent::LocalExit(r) => {
                    if r.exit_code == 0 {
                        self.stage = Stage::RemoveStaging;
                        self.pending = None;
                    } else {
                        let command = cmd_upload_secret(&self.config.name, &self.config.server);
                        self.stage = Stage::RemoveStaging;
                        self.pending = Some(
                            DeployError::Transfer(
                                CommandError {
                                    command,
                                    exit_code: r.exit_code,
                                    stdout: r.stdout,
                                    stderr: r.stderr,
                                },
                            ),
                        );
                    }
                },
                _ => {},
            },
            Stage::RemoveStaging => match event {
                PipelineEvent::FileRemoved(ok) => {
                    let pending = self.pending.take();
                    match pending {
                        Some(err) => {
                            self.stage = Stage::Failed;
                            self.failure = Some(err);
                        },
                        None => {
                            if ok {
                                self.stage = Stage::BuildImage;
                                match &mut self.config.env {
                                    Some(e) => {
                                        e.hash = self.new_hash.clone();
                                    },
                                    None => {},
                                }
                            } else {
                                self.stage = Stage::Failed;
                                self.failure = Some(
                                    DeployError::Io("could not remove staged ciphertext".to_owned()),
                                );
                            }
                        },
                    }
                },
                _ => {},
            },
            Stage::BuildImage => match event {
                PipelineEvent::LocalExit(r) => {
                    if r.exit_code == 0 {
                        self.stage = Stage::SaveImage;
                    } else {
                        let command = cmd_docker_build(&self.config.name);
                        self.stage = Stage::Failed;
                        self.failure = Some(
                            DeployError::Build(
                                CommandError {
                                    command,
                                    exit_code: r.exit_code,
                                    stdout: r.stdout,
                                    stderr: r.stderr,
                                },
                            ),
                        );
                    }
                },
                _ => {},
            },
            Stage::SaveImage => match event {
                PipelineEvent::LocalExit(r) => {
                    if r.exit_code == 0 {
                        self.stage = Stage::TransferImage;
                    } else {
                        let command = cmd_docker_save(&self.config.name);
                        self.stage = Stage::Failed;
                        self.failure = Some(
                            DeployError::Build(
                                CommandError {
                                    command,
                                    exit_code: r.exit_code,
                                    stdout: r.stdout,
                                    stderr: r.stderr,
                                },
                            ),
                        );
                    }
                },
                _ => {},
            },
            Stage::TransferImage => match event {
                PipelineEvent::LocalExit(r) => {
                    if r.exit_code == 0 {
                        self.stage = Stage::RemoveArchive;
                    } else {
                        let command = cmd_transfer_image(&self.config.name, &self.config.server);
                        self.stage = Stage::Failed;
                        self.failure = Some(
                            DeployError::Transfer(
                                CommandError {
                                    command,
                                    exit_code: r.exit_code,
                                    stdout: r.stdout,
                                    stderr: r.stderr,
                                },
                            ),
                        );
                    }
                },
                _ => {},
            },
            Stage::RemoveArchive => match event {
                PipelineEvent::FileRemoved(_) => {
                    let has_secret = match &self.config.env {
                        Some(e) => !self_str(&e.file).is_empty(),
                        None => false,
                    };
                    if has_secret {
                        self.stage = Stage::LoadKey;
                    } else {
                        self.stage = Stage::Activate;
                    }
                },
                _ => {},
            },
            Stage::LoadKey => match event {
                PipelineEvent::KeyLoaded(o) => match o {
                    Some(k) => {
                        self.stage = Stage::Activate;
                        self.secret_key = k;
                    },
                    None => {
                        self.stage = Stage::Failed;
                        self.failure = Some(DeployError::Config("missing secret key".to_owned()));
                    },
                },
                _ => {},
            },
            Stage::Activate => match event {
                PipelineEvent::RemoteDone(o) => match o {
                    None => {
                        self.stage = Stage::Persist;
                    },
                    Some(err) => {
                        self.stage = Stage::Failed;
                        self.failure = Some(DeployError::Command(err));
                    },
                },
                PipelineEvent::ConnectFailed(m) => {
                    self.stage = Stage::Failed;
                    self.failure = Some(DeployError::Connection(m));
                },
                _ => {},
            },
            Stage::Persist => match event {
                PipelineEvent::Persisted(ok) => {
                    if ok {
                        self.stage = Stage::Done;
                    } else {
                        self.stage = Stage::Failed;
                        self.failure = Some(
                            DeployError::Io("could not persist descriptor".to_owned()),
                        );
                    }
                },
                _ => {},
            },
            Stage::Done => {},
            Stage::Failed => {},
        }
        proof {
            assert(self@ =~~= step_model(old(self)@, event@));
        }
    }
}

/// The state after feeding a whole sequence of events, first event first.
pub open spec fn run_model(s: PipelineV, events: Seq<PipelineEventV>) -> PipelineV
    decreases events.len()
{
    if events.len() == 0 {
        s
    } else {
        run_model(step_model(s, events[0]), events.drop_first())
    }
}

/// Whether the run from `s` under `events` passes through a state waiting in
/// stage `st` (counting `s` itself).
pub open spec fn visits(s: PipelineV, events: Seq<PipelineEventV>, st: Stage) -> bool
    decreases events.len()
{
    s.stage == st || (events.len() > 0 && visits(
        step_model(s, events[0]),
        events.drop_first(),
        st,
    ))
}

/// An event consistent with an unchanged secret: whenever the secret file is
/// read, its fingerprint equals the fingerprint stored in the descriptor at
/// that moment.
pub open spec fn secret_unchanged_event(s: PipelineV, e: PipelineEventV) -> bool {
    match e {
        PipelineEventV::SecretRead(Some(content)) => md5_hex_of(content) == stored_hash(s.config),
        _ => true,
    }
}

/// Every secret read in the run returns content whose fingerprint equals the
/// stored one.
pub open spec fn secret_unchanged_run(s: PipelineV, events: Seq<PipelineEventV>) -> bool
    decreases events.len()
{
    events.len() == 0 || (secret_unchanged_event(s, events[0]) && secret_unchanged_run(
        step_model(s, events[0]),
        events.drop_first(),
    ))
}

/// A state that is not headed for the secret-sync stages: the fingerprint
/// has not been found changed, and the machine is not in any of the four
/// stages that encrypt, upload or clean up the ciphertext.
pub open spec fn sync_skipped(s: PipelineV) -> bool {
    &&& !s.changed
    &&& s.stage != Stage::LoadRecipient
    &&& s.stage != Stage::Encrypt
    &&& s.stage != Stage::Upload
    &&& s.stage != Stage::RemoveStaging
}

proof fn lemma_step_sync_skipped(s: PipelineV, e: PipelineEventV)
    requires
        sync_skipped(s),
        secret_unchanged_event(s, e),
    ensures
        sync_skipped(step_model(s, e)),
{
}

/// Fingerprint equality means no encryption and no upload: while every read
/// of the secret file returns content whose fingerprint equals the stored
/// one, the run never reaches the stage that issues the encryption command
/// nor the stage that issues the ciphertext upload — those commands are
/// issued in exactly those stages and nowhere else.
pub proof fn lemma_unchanged_secret_skips_sync(s: PipelineV, events: Seq<PipelineEventV>)
    requires
        sync_skipped(s),
        secret_unchanged_run(s, events),
    ensures
        !visits(s, events, Stage::Encrypt),
        !visits(s, events, Stage::Upload),
    decreases events.len(),
{
    if events.len() > 0 {
        lemma_step_sync_skipped(s, events[0]);
        lemma_unchanged_secret_skips_sync(step_model(s, events[0]), events.drop_first());
    }
}

/// Position of a stage on the single forward path.
pub open spec fn stage_index(st: Stage) -> int {
    match st {
        Stage::CheckEnv => 0,
        Stage::Load => 1,
        Stage::ReadSecret => 2,
        Stage::WriteManifest => 3,
        Stage::TransferManifest => 4,
        Stage::LoadRecipient => 5,
        Stage::Encrypt => 6,
        Stage::Upload => 7,
        Stage::RemoveStaging => 8,
        Stage::BuildImage => 9,
        Stage::SaveImage => 10,
        Stage::TransferImage => 11,
        Stage::RemoveArchive => 12,
        Stage::LoadKey => 13,
        Stage::Activate => 14,
        Stage::Persist => 15,
        Stage::Done => 16,
        Stage::Failed => 17,
    }
}

/// The pipeline moves strictly forward: a transition either leaves the state
/// untouched (an event that does not belong to the waiting stage) or strictly
/// advances the stage.  No stage is re-entered: encryption and upload are
/// each invoked at most once per run.
pub proof fn lemma_single_forward_path(s: PipelineV, e: PipelineEventV)
    ensures
        step_model(s, e) == s || stage_index(step_model(s, e).stage) > stage_index(s.stage),
{
}

/// The stored descriptor inside the machine changes on exactly two
/// transitions: loading it, and the completion of a fully successful secret
/// sync — ciphertext encrypted, uploaded, and the staging copy removed —
/// which replaces the stored fingerprint with the fingerprint of the content
/// that was read.  Every other transition keeps the descriptor, so a failure
/// in encryption or transfer leaves the stored fingerprint unchanged.
pub proof fn lemma_fingerprint_update(s: PipelineV, e: PipelineEventV)
    ensures
        step_model(s, e).config == s.config || s.stage == Stage::Load || (s.stage
            == Stage::RemoveStaging && s.pending is None && e == PipelineEventV::FileRemoved(true)
            && step_model(s, e).config == set_hash(s.config, s.new_hash)),
{
}

spec fn upload_failed_inv(c: AppConfigV, s: PipelineV) -> bool {
    s.config == c && ((s.stage == Stage::RemoveStaging && s.pending is Some) || s.stage
        == Stage::Failed)
}

proof fn lemma_upload_failed_inv_run(c: AppConfigV, s: PipelineV, events: Seq<PipelineEventV>)
    requires
        upload_failed_inv(c, s),
    ensures
        upload_failed_inv(c, run_model(s, events)),
        !visits(s, events, Stage::Persist),
        !visits(s, events, Stage::Done),
    decreases events.len(),
{
    if events.len() > 0 {
        lemma_upload_failed_inv_run(c, step_model(s, events[0]), events.drop_first());
    }
}

/// A failed ciphertext upload leaves the stored fingerprint — indeed the
/// whole descriptor — unchanged for the rest of the run, which can only end
/// failed: it never reaches the persist stage and never succeeds.
pub proof fn lemma_upload_failure_keeps_fingerprint(
    s: PipelineV,
    r: RemoteCommandResultV,
    events: Seq<PipelineEventV>,
)
    requires
        s.stage == Stage::Upload,
        r.exit_code != 0,
    ensures
        run_model(step_model(s, PipelineEventV::LocalExit(r)), events).config == s.config,
        !visits(step_model(s, PipelineEventV::LocalExit(r)), events, Stage::Persist),
        !visits(step_model(s, PipelineEventV::LocalExit(r)), events, Stage::Done),
{
    let s1 = step_model(s, PipelineEventV::LocalExit(r));
    lemma_upload_failed_inv_run(s.config, s1, events);
}

/// Once a run has failed it is inert: no event changes the state, nothing
/// further is done, and in particular the persist stage is never reached —
/// the descriptor on disk keeps its version tag.
pub proof fn lemma_failed_run_is_inert(s: PipelineV, events: Seq<PipelineEventV>)
    requires
        s.stage == Stage::Failed,
    ensures
        run_model(s, events) == s,
        !visits(s, events, Stage::Persist),
        !visits(s, events, Stage::Done),
    decreases events.len(),
{
    if events.len() > 0 {
        lemma_failed_run_is_inert(step_model(s, events[0]), events.drop_first());
    }
}

/// A failed run visits no other stage at all.
pub proof fn lemma_failed_visits_nothing(s: PipelineV, events: Seq<PipelineEventV>, st: Stage)
    requires
        s.stage == Stage::Failed,
        st != Stage::Failed,
    ensures
        !visits(s, events, st),
    decreases events.len(),
{
    if events.len() > 0 {
        lemma_failed_visits_nothing(step_model(s, events[0]), events.drop_first(), st);
    }
}

proof fn lemma_from_encrypt_to_build_passes_upload(s: PipelineV, events: Seq<PipelineEventV>)
    requires
        s.stage == Stage::Encrypt,
    ensures
        visits(s, events, Stage::BuildImage) ==> visits(s, events, Stage::Upload),
    decreases events.len(),
{
    if events.len() > 0 {
        let s1 = step_model(s, events[0]);
        if s1.stage == Stage::Encrypt {
            lemma_from_encrypt_to_build_passes_upload(s1, events.drop_first());
        } else if s1.stage == Stage::Failed {
            lemma_failed_visits_nothing(s1, events.drop_first(), Stage::BuildImage);
        } else {
            assert(s1.stage == Stage::Upload);
            assert(visits(s1, events.drop_first(), Stage::Upload));
        }
    }
}

/// A state headed for the secret sync: the fingerprint differs and the
/// machine stands between the manifest write and the recipient load.
pub open spec fn sync_owed(s: PipelineV) -> bool {
    &&& s.changed
    &&& (s.stage == Stage::WriteManifest || s.stage == Stage::TransferManifest || s.stage
        == Stage::LoadRecipient)
}

/// A changed fingerprint means the sync runs: a run whose fingerprint
/// differed cannot reach the image build without passing both the encryption
/// stage and the upload stage.  With the forward-path lemma — no stage is
/// entered twice — encryption and upload are invoked exactly once on any
/// run that proceeds past them.
pub proof fn lemma_changed_secret_syncs_before_build(s: PipelineV, events: Seq<PipelineEventV>)
    requires
        sync_owed(s),
    ensures
        visits(s, events, Stage::BuildImage) ==> visits(s, events, Stage::Encrypt) && visits(
            s,
            events,
            Stage::Upload,
        ),
    decreases events.len(),
{
    if events.len() > 0 {
        let s1 = step_model(s, events[0]);
        let rest = events.drop_first();
        if sync_owed(s1) {
            lemma_changed_secret_syncs_before_build(s1, rest);
        } else if s1.stage == Stage::Encrypt {
            assert(visits(s1, rest, Stage::Encrypt));
            lemma_from_encrypt_to_build_passes_upload(s1, rest);
        } else {
            assert(s1.stage == Stage::Failed);
            lemma_failed_visits_nothing(s1, rest, Stage::BuildImage);
        }
    }
}

/// Success is reached only through the persist stage: a run ends in `Done`
/// only after the descriptor write-back was requested and confirmed.
pub proof fn lemma_done_only_after_persist(s: PipelineV, e: PipelineEventV)
    ensures
        step_model(s, e).stage == Stage::Done ==> s.stage == Stage::Persist || s.stage
            == Stage::Done,
{
}

/// What a fully successful run persists: the descriptor it loaded, unchanged
/// but for the fingerprint of a synced secret and the version tag, whose
/// number has grown by exactly one.  A descriptor at `"V7"` is written back
/// at `"V8"`.
pub proof fn lemma_persist_bumps_version(s: PipelineV)
    requires
        s.stage == Stage::Persist,
        config_valid(s.config),
    ensures
        action_model(s) == (PipelineActionV::PersistConfig {
            content: spec_render_config(bumped_config(s.config)),
        }),
        spec_parse_version(bumped_config(s.config).version) == Some(
            (spec_parse_version(s.config.version).unwrap() + 1) as u64,
        ),
        bumped_config(s.config).name == s.config.name,
        bumped_config(s.config).env == s.config.env,
{
    crate::text::lemma_bump_version_parses(s.config.version);
}

} // verus!
