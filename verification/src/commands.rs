//! Remote command batches and the exact command strings the pipeline issues.
//!
//! A batch runs strictly in order, each command in a fresh remote execution
//! context; the first nonzero exit status stops the batch, carrying the
//! failing command's full captured output.  The driver that owns the
//! transport asks [`CommandBatch::next_command`] what to run and feeds the
//! outcome back through [`CommandBatch::record`].

use vstd::prelude::*;
use crate::config::{AppConfig, AppConfigV};
use crate::text::self_str;

verus! {

/// Captured outcome of one remote command.  Ephemeral: never persisted.
#[derive(Clone, Debug)]
pub struct RemoteCommandResult {
    pub stdout: String,
    pub stderr: String,
    pub exit_code: i32,
}

#[verifier::ext_equal]
pub struct RemoteCommandResultV {
    pub stdout: Seq<char>,
    pub stderr: Seq<char>,
    pub exit_code: int,
}

impl View for RemoteCommandResult {
    type V = RemoteCommandResultV;

    open spec fn view(&self) -> RemoteCommandResultV {
        RemoteCommandResultV {
            stdout: self.stdout@,
            stderr: self.stderr@,
            exit_code: self.exit_code as int,
        }
    }
}

/// A command that exited with a nonzero status, with its captured output.
#[derive(Clone, Debug)]
pub struct CommandError {
    pub command: String,
    pub exit_code: i32,
    pub stdout: String,
    pub stderr: String,
}

#[verifier::ext_equal]
pub struct CommandErrorV {
    pub command: Seq<char>,
    pub exit_code: int,
    pub stdout: Seq<char>,
    pub stderr: Seq<char>,
}

impl View for CommandError {
    type V = CommandErrorV;

    open spec fn view(&self) -> CommandErrorV {
        CommandErrorV {
            command: self.command@,
            exit_code: self.exit_code as int,
            stdout: self.stdout@,
            stderr: self.stderr@,
        }
    }
}

/// One ordered batch of remote commands: the commands, how many have
/// completed with exit status zero, and the failure that stopped the batch,
/// if one did.
pub struct CommandBatch {
    pub commands: Vec<String>,
    pub next: usize,
    pub failure: Option<CommandError>,
}

#[verifier::ext_equal]
pub struct CommandBatchV {
    pub commands: Seq<Seq<char>>,
    pub next: int,
    pub failure: Option<CommandErrorV>,
}

impl View for CommandBatch {
    type V = CommandBatchV;

    open spec fn view(&self) -> CommandBatchV {
        CommandBatchV {
            commands: self.commands.deep_view(),
            next: self.next as int,
            failure: match self.failure {
                Some(e) => Some(e@),
                None => None,
            },
        }
    }
}

impl CommandBatch {
    pub open spec fn wf(&self) -> bool {
        self@.next <= self@.commands.len()
    }

    /// Whether another command is owed: no failure yet and commands remain.
    pub open spec fn spec_pending(&self) -> bool {
        self@.failure is None && self@.next < self@.commands.len()
    }

    pub fn new(commands: Vec<String>) -> (r: CommandBatch)
        ensures
            r@ == (CommandBatchV { commands: commands.deep_view(), next: 0, failure: None }),
            r.wf(),
    {
        CommandBatch { commands, next: 0, failure: None }
    }

    /// The next command to execute: the first not yet completed, and only
    /// while no earlier command has failed.  After a failure, or once all
    /// commands have completed, no command is offered.
    pub fn next_command(&self) -> (r: Option<String>)
        requires
            self.wf(),
        ensures
            r is Some <==> self.spec_pending(),
            r matches Some(c) ==> c@ == self@.commands[self@.next],
    {
        if self.failure.is_none() && self.next < self.commands.len() {
            Some(self.commands[self.next].clone())
        } else {
            None
        }
    }

    /// Record the outcome of the command last offered.  Exit status zero
    /// completes it and moves to the next; any other status stops the batch,
    /// keeping the failing command with its full output, and leaves the
    /// remaining commands unexecuted.
    pub fn record(&mut self, result: RemoteCommandResult)
        requires
            old(self).wf(),
            old(self).spec_pending(),
        ensures
            final(self).wf(),
            result@.exit_code == 0 ==> final(self)@ == (CommandBatchV {
                next: old(self)@.next + 1,
                ..old(self)@
            }),
            result@.exit_code != 0 ==> final(self)@ == (CommandBatchV {
                failure: Some(CommandErrorV {
                    command: old(self)@.commands[old(self)@.next],
                    exit_code: result@.exit_code,
                    stdout: result@.stdout,
                    stderr: result@.stderr,
                }),
                ..old(self)@
            }),
    {
        let n: usize = self.commands.len();
        proof {
            assert(self.commands.deep_view().len() == n);
        }
        if result.exit_code == 0 {
            self.next = self.next + 1;
        } else {
            self.failure = Some(CommandError {
                command: self.commands[self.next].clone(),
                exit_code: result.exit_code,
                stdout: result.stdout,
                stderr: result.stderr,
            });
        }
    }

    /// The batch succeeded: every command ran and exited with status zero.
    pub fn succeeded(&self) -> (r: bool)
        requires
            self.wf(),
        ensures
            r == (self@.failure is None && self@.next == self@.commands.len()),
    {
        self.failure.is_none() && self.next == self.commands.len()
    }

    /// Surrender the failure that stopped the batch, if one did.
    pub fn into_failure(self) -> (r: Option<CommandError>)
        ensures
            match self@.failure {
                Some(e) => r matches Some(re) && re@ == e,
                None => r is None,
            },
    {
        self.failure
    }
}

/// `docker build --tag <name> --platform=linux/arm64 .`
pub open spec fn spec_cmd_docker_build(name: Seq<char>) -> Seq<char> {
    "docker build --tag "@ + name + " --platform=linux/arm64 ."@
}

/// `docker save -o <name>-latest.tar <name>`
pub open spec fn spec_cmd_docker_save(name: Seq<char>) -> Seq<char> {
    "docker save -o "@ + name + "-latest.tar "@ + name
}

/// `scp -C <name>-latest.tar hobby@<server>:./<name>/`
pub open spec fn spec_cmd_transfer_image(name: Seq<char>, server: Seq<char>) -> Seq<char> {
    "scp -C "@ + name + "-latest.tar hobby@"@ + server + ":./"@ + name + "/"@
}

/// `scp -C docker-compose.yaml hobby@<server>:./<name>/`
pub open spec fn spec_cmd_transfer_manifest(name: Seq<char>, server: Seq<char>) -> Seq<char> {
    "scp -C docker-compose.yaml hobby@"@ + server + ":./"@ + name + "/"@
}

/// `sops encrypt --age <recipient> ./<file> > encrypted.env`
pub open spec fn spec_cmd_encrypt(recipient: Seq<char>, file: Seq<char>) -> Seq<char> {
    "sops encrypt --age "@ + recipient + " ./"@ + file + " > encrypted.env"@
}

/// `rsync -v encrypted.env hobby@<server>:./<name>`
pub open spec fn spec_cmd_upload_secret(name: Seq<char>, server: Seq<char>) -> Seq<char> {
    "rsync -v encrypted.env hobby@"@ + server + ":./"@ + name
}

/// `cd <name> && docker load -i <name>-latest.tar`
pub open spec fn spec_cmd_load_image(name: Seq<char>) -> Seq<char> {
    "cd "@ + name + " && docker load -i "@ + name + "-latest.tar"@
}

/// `cd <name> && docker compose -p hobby up -d`
pub open spec fn spec_cmd_compose_up(name: Seq<char>) -> Seq<char> {
    "cd "@ + name + " && docker compose -p hobby up -d"@
}

/// The stack start wrapped by the remote secret-injection tool, exporting
/// the decryption key for that one command only.
pub open spec fn spec_cmd_compose_up_secret(name: Seq<char>, key: Seq<char>) -> Seq<char> {
    "cd "@ + name + " && export SOPS_AGE_KEY="@ + key
        + " && sops exec-env encrypted.env 'docker compose -p hobby up -d'"@
}

/// `cd <name> && rm <name>-latest.tar`
pub open spec fn spec_cmd_remove_archive(name: Seq<char>) -> Seq<char> {
    "cd "@ + name + " && rm "@ + name + "-latest.tar"@
}

/// Whether a descriptor has a secret file configured.
pub open spec fn uses_secret(c: AppConfigV) -> bool {
    c.env matches Some(e) && e.file.len() > 0
}

/// The remote activation batch: load the transferred image, start the stack
/// (through the secret-injection wrapper when a secret is configured),
/// then remove the remote archive.
pub open spec fn spec_activation_commands(c: AppConfigV, key: Option<Seq<char>>) -> Seq<Seq<char>> {
    let up = if uses_secret(c) && key is Some {
        spec_cmd_compose_up_secret(c.name, key.unwrap())
    } else {
        spec_cmd_compose_up(c.name)
    };
    seq![spec_cmd_load_image(c.name), up, spec_cmd_remove_archive(c.name)]
}

fn push_str_copy(out: &mut String, s: &String)
    ensures
        final(out)@ == old(out)@ + s@,
{
    out.append(self_str(s));
}

/// Build `docker build`.
pub fn cmd_docker_build(name: &String) -> (r: String)
    ensures
        r@ == spec_cmd_docker_build(name@),
{
    let mut out = String::new();
    out.append("docker build --tag ");
    push_str_copy(&mut out, name);
    out.append(" --platform=linux/arm64 .");
    out
}

/// Build `docker save`.
pub fn cmd_docker_save(name: &String) -> (r: String)
    ensures
        r@ == spec_cmd_docker_save(name@),
{
    let mut out = String::new();
    out.append("docker save -o ");
    push_str_copy(&mut out, name);
    out.append("-latest.tar ");
    push_str_copy(&mut out, name);
    out
}

/// Build the compressed secure copy of the image archive.
pub fn cmd_transfer_image(name: &String, server: &String) -> (r: String)
    ensures
        r@ == spec_cmd_transfer_image(name@, server@),
{
    let mut out = String::new();
    out.append("scp -C ");
    push_str_copy(&mut out, name);
    out.append("-latest.tar hobby@");
    push_str_copy(&mut out, server);
    out.append(":./");
    push_str_copy(&mut out, name);
    out.append("/");
    out
}

/// Build the compressed secure copy of the manifest.
pub fn cmd_transfer_manifest(name: &String, server: &String) -> (r: String)
    ensures
        r@ == spec_cmd_transfer_manifest(name@, server@),
{
    let mut out = String::new();
    out.append("scp -C docker-compose.yaml hobby@");
    push_str_copy(&mut out, server);
    out.append(":./");
    push_str_copy(&mut out, name);
    out.append("/");
    out
}

/// Build the recipient-key encryption of the secret file.
pub fn cmd_encrypt(recipient: &String, file: &String) -> (r: String)
    ensures
        r@ == spec_cmd_encrypt(recipient@, file@),
{
    let mut out = String::new();
    out.append("sops encrypt --age ");
    push_str_copy(&mut out, recipient);
    out.append(" ./");
    push_str_copy(&mut out, file);
    out.append(" > encrypted.env");
    out
}

/// Build the ciphertext upload.
pub fn cmd_upload_secret(name: &String, server: &String) -> (r: String)
    ensures
        r@ == spec_cmd_upload_secret(name@, server@),
{
    let mut out = String::new();
    out.append("rsync -v encrypted.env hobby@");
    push_str_copy(&mut out, server);
    out.append(":./");
    push_str_copy(&mut out, name);
    out
}

/// The activation batch run over one remote session by a deploy.
/// The key is required exactly when the descriptor configures a secret.
pub fn deploy_application(config: &AppConfig, secret_key: Option<&String>) -> (r: Vec<String>)
    requires
        uses_secret(config@) ==> secret_key is Some,
    ensures
        r.deep_view() == spec_activation_commands(
            config@,
            match secret_key {
                Some(k) => Some(k@),
                None => None,
            },
        ),
{
    let mut load = String::new();
    load.append("cd ");
    push_str_copy(&mut load, &config.name);
    load.append(" && docker load -i ");
    push_str_copy(&mut load, &config.name);
    load.append("-latest.tar");

    let has_secret = match &config.env {
        Some(e) => !self_str(&e.file).is_empty(),
        None => false,
    };
    let mut up = String::new();
    up.append("cd ");
    push_str_copy(&mut up, &config.name);
    if has_secret {
        up.append(" && export SOPS_AGE_KEY=");
        match secret_key {
            Some(k) => push_str_copy(&mut up, k),
            None => {},
        }
        up.append(" && sops exec-env encrypted.env 'docker compose -p hobby up -d'");
    } else {
        up.append(" && docker compose -p hobby up -d");
    }

    let mut rm = String::new();
    rm.append("cd ");
    push_str_copy(&mut rm, &config.name);
    rm.append(" && rm ");
    push_str_copy(&mut rm, &config.name);
    rm.append("-latest.tar");

    let mut r: Vec<String> = Vec::new();
    r.push(load);
    r.push(up);
    r.push(rm);
    proof {
        assert(r.deep_view() =~= spec_activation_commands(
            config@,
            match secret_key {
                Some(k) => Some(k@),
                None => None,
            },
        ));
    }
    r
}

} // verus!
