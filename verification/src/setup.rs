//! One-time host bootstrap: the fixed command batches that prepare the
//! remote host (service user, base packages and the secret tool, the
//! container runtime, the reverse proxy), and the default descriptor written
//! locally.  The bootstrap is a linear, idempotent script with no state of
//! its own; the driver connects as `root` for the user batch and as the
//! service user for the rest, running each batch strictly in order.

use vstd::prelude::*;
use crate::config::{AppConfig, AppConfigV, spec_render_config, render_app_config};

verus! {

/// Everything a bootstrap run needs: the command batches and the default
/// descriptor, already rendered for writing.
pub struct SetupPlan {
    /// Run first, as `root`: create the service user.
    pub root_commands: Vec<String>,
    /// Run as the service user: base system, secret tool.
    pub basic_system_commands: Vec<String>,
    /// Run as the service user: container runtime.
    pub docker_commands: Vec<String>,
    /// Run as the service user: reverse proxy stack.
    pub caddy_commands: Vec<String>,
    /// The descriptor a fresh checkout starts from.
    pub default_config: AppConfig,
    /// Its rendering, the initial content of the descriptor file.
    pub default_config_text: String,
}

/// The descriptor a bootstrap writes: a placeholder app on the given host,
/// at version zero, with no secret file and no volumes.
pub open spec fn default_descriptor(server: Seq<char>) -> AppConfigV {
    AppConfigV {
        name: "myapp"@,
        server: server,
        url: "my-app."@ + server + ".sslip.io"@,
        port: 8080,
        env: None,
        volumes: None,
        version: "V0"@,
    }
}

/// Prepare a bootstrap of the given host.  The descriptor starts at version
/// `"V0"` with a URL derived from the host address; the batches are the
/// fixed bootstrap script, split by the session that runs them.
pub fn setup(server_addr: String) -> (r: SetupPlan)
    ensures
        r.default_config@ == default_descriptor(server_addr@),
        r.default_config_text@ == spec_render_config(default_descriptor(server_addr@)),
        r.root_commands@.len() == 6,
        r.basic_system_commands@.len() == 9,
        r.docker_commands@.len() == 8,
        r.caddy_commands@.len() == 4,
{
    let mut root_commands: Vec<String> = Vec::new();
    root_commands.push("id hobby || useradd -m -s /bin/bash -G sudo hobby".to_owned());
    root_commands.push(
        "echo \"hobby ALL=(ALL) NOPASSWD: ALL\" >> /etc/sudoers.d/hobby".to_owned(),
    );
    root_commands.push("mkdir -p /home/hobby/.ssh/".to_owned());
    root_commands.push(
        "cat /root/.ssh/authorized_keys | tee -a /home/hobby/.ssh/authorized_keys".to_owned(),
    );
    root_commands.push("chown hobby:hobby /home/hobby/.ssh/authorized_keys".to_owned());
    root_commands.push("chmod 600 /home/hobby/.ssh/authorized_keys".to_owned());

    let mut basic_system_commands: Vec<String> = Vec::new();
    basic_system_commands.push(
        "sudo sed -i 's/#PermitRootLogin prohibit-password/PermitRootLogin no/' /etc/ssh/sshd_config && sudo systemctl restart ssh"
            .to_owned(),
    );
    basic_system_commands.push("sudo apt-get update -y".to_owned());
    basic_system_commands.push("sudo apt-get upgrade -y".to_owned());
    basic_system_commands.push("sudo apt-get install age ca-certificates curl vim -y".to_owned());
    basic_system_commands.push("ARCH=$(dpkg --print-architecture)".to_owned());
    basic_system_commands.push(
        "if [ \"$ARCH\" = \"arm64\" ]; then SOPS_ARCH=arm64; else SOPS_ARCH=amd64; fi".to_owned(),
    );
    basic_system_commands.push(
        "curl -LO \"https://github.com/getsops/sops/releases/download/v3.9.1/sops-v3.9.1.linux.$SOPS_ARCH\""
            .to_owned(),
    );
    basic_system_commands.push(
        "sudo mv \"sops-v3.9.1.linux.$SOPS_ARCH\" /usr/local/bin/sops".to_owned(),
    );
    basic_system_commands.push("sudo chmod +x /usr/local/bin/sops".to_owned());

    let mut docker_commands: Vec<String> = Vec::new();
    docker_commands.push("sudo apt-get update -y".to_owned());
    docker_commands.push("sudo install -m 0755 -d /etc/apt/keyrings".to_owned());
    docker_commands.push(
        "sudo curl -fsSL https://download.docker.com/linux/ubuntu/gpg -o /etc/apt/keyrings/docker.asc"
            .to_owned(),
    );
    docker_commands.push("sudo chmod a+r /etc/apt/keyrings/docker.asc".to_owned());
    docker_commands.push(
        "echo \"deb [arch=$(dpkg --print-architecture) signed-by=/etc/apt/keyrings/docker.asc] https://download.docker.com/linux/ubuntu $(. /etc/os-release && echo \"$VERSION_CODENAME\") stable\" | sudo tee /etc/apt/sources.list.d/docker.list > /dev/null"
            .to_owned(),
    );
    docker_commands.push("sudo apt-get update -y".to_owned());
    docker_commands.push(
        "sudo apt-get install docker-ce docker-ce-cli containerd.io docker-buildx-plugin docker-compose-plugin -y"
            .to_owned(),
    );
    docker_commands.push("sudo usermod -aG docker hobby".to_owned());

    let mut caddy_commands: Vec<String> = Vec::new();
    caddy_commands.push("mkdir caddy".to_owned());
    caddy_commands.push("sudo docker network create caddy".to_owned());
    caddy_commands.push(
        "cd caddy && echo '\nversion: \"3.7\"\nservices:\n  caddy:\n    image: lucaslorentz/caddy-docker-proxy:ci-alpine\n    ports:\n      - 80:80\n      - 443:443\n    environment:\n      - CADDY_INGRESS_NETWORKS=caddy\n    networks:\n      - caddy\n    volumes:\n      - /var/run/docker.sock:/var/run/docker.sock\n      - caddy_data:/data\n    restart: unless-stopped\n\nnetworks:\n  caddy:\n    external: true\n\nvolumes:\n  caddy_data: {}\n' >> docker-compose.caddy.yml"
            .to_owned(),
    );
    caddy_commands.push(
        "cd caddy && sudo docker compose -p hobby -f docker-compose.caddy.yml up -d".to_owned(),
    );

    let mut url = String::new();
    url.append("my-app.");
    url.append(server_addr.as_str());
    url.append(".sslip.io");

    let default_config = AppConfig {
        name: "myapp".to_owned(),
        server: server_addr,
        url,
        port: 8080,
        env: None,
        volumes: None,
        version: "V0".to_owned(),
    };
    let default_config_text = render_app_config(&default_config);

    SetupPlan {
        root_commands,
        basic_system_commands,
        docker_commands,
        caddy_commands,
        default_config,
        default_config_text,
    }
}

} // verus!
