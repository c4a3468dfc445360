//! The application descriptor: the only persisted state of the orchestrator.
//!
//! A descriptor carries the app's identity, the target host, the public URL,
//! the version tag `"V<n>"`, the optional secret file with its last-known
//! fingerprint, and the volume mounts.  It is loaded at pipeline start and
//! written back, fully and atomically, only after a completely successful
//! run — with the version number increased by exactly one.

use vstd::prelude::*;
use crate::text::{
    spec_bump_version, spec_parse_version, bump_version, parse_version,
    safe_name, is_safe_name, dec_str, push_decimal, self_str,
};

verus! {

/// The secret-file entry of a descriptor: a path and the fingerprint of the
/// content that was last encrypted and uploaded.
#[derive(Clone, Debug)]
pub struct EnvConfig {
    pub file: String,
    pub hash: String,
}

/// Mathematical model of [`EnvConfig`].
#[verifier::ext_equal]
pub struct EnvConfigV {
    pub file: Seq<char>,
    pub hash: Seq<char>,
}

impl View for EnvConfig {
    type V = EnvConfigV;

    open spec fn view(&self) -> EnvConfigV {
        EnvConfigV { file: self.file@, hash: self.hash@ }
    }
}

/// The application descriptor.
#[derive(Clone, Debug)]
pub struct AppConfig {
    pub name: String,
    pub server: String,
    pub url: String,
    pub port: u16,
    pub env: Option<EnvConfig>,
    pub volumes: Option<Vec<String>>,
    pub version: String,
}

/// Mathematical model of [`AppConfig`].
#[verifier::ext_equal]
pub struct AppConfigV {
    pub name: Seq<char>,
    pub server: Seq<char>,
    pub url: Seq<char>,
    pub port: u16,
    pub env: Option<EnvConfigV>,
    pub volumes: Option<Seq<Seq<char>>>,
    pub version: Seq<char>,
}

impl View for AppConfig {
    type V = AppConfigV;

    open spec fn view(&self) -> AppConfigV {
        AppConfigV {
            name: self.name@,
            server: self.server@,
            url: self.url@,
            port: self.port,
            env: match self.env {
                Some(e) => Some(e@),
                None => None,
            },
            volumes: self.volumes.deep_view(),
            version: self.version@,
        }
    }
}

/// A descriptor the pipeline accepts: the name and the host are safe to
/// interpolate into commands, and the version tag parses to a number that
/// can still grow.
pub open spec fn config_valid(c: AppConfigV) -> bool {
    &&& safe_name(c.name)
    &&& safe_name(c.server)
    &&& spec_parse_version(c.version) matches Some(n) && n < u64::MAX
}

/// Check [`config_valid`] on a loaded descriptor.
pub fn check_config(c: &AppConfig) -> (r: bool)
    ensures
        r == config_valid(c@),
{
    if !is_safe_name(self_str(&c.name)) {
        return false;
    }
    if !is_safe_name(self_str(&c.server)) {
        return false;
    }
    match parse_version(self_str(&c.version)) {
        Some(n) => n < u64::MAX,
        None => false,
    }
}

pub open spec fn render_env_section(e: Option<EnvConfigV>) -> Seq<char> {
    match e {
        None => Seq::<char>::empty(),
        Some(e) => "env:\n  file: \""@ + e.file + "\"\n  hash: \""@ + e.hash + "\"\n"@,
    }
}

pub open spec fn render_volume_lines(vs: Seq<Seq<char>>, i: int) -> Seq<char>
    decreases vs.len() - i when 0 <= i <= vs.len()
{
    if i >= vs.len() {
        Seq::<char>::empty()
    } else {
        "- \""@ + vs[i] + "\"\n"@ + render_volume_lines(vs, i + 1)
    }
}

pub open spec fn render_volumes_section(v: Option<Seq<Seq<char>>>) -> Seq<char> {
    match v {
        None => Seq::<char>::empty(),
        Some(vs) => "volumes:\n"@ + render_volume_lines(vs, 0),
    }
}

/// The persisted form of a descriptor.  Rendering is a pure function of the
/// descriptor: equal descriptors give byte-identical files.
pub open spec fn spec_render_config(c: AppConfigV) -> Seq<char> {
    "name: \""@ + c.name + "\"\nserver: \""@ + c.server + "\"\nurl: \""@ + c.url
        + "\"\nport: "@ + dec_str(c.port as nat) + "\n"@
        + render_env_section(c.env)
        + render_volumes_section(c.volumes)
        + "version: \""@ + c.version + "\"\n"@
}

fn push_volume_lines(out: &mut String, vs: &Vec<String>, i: usize)
    requires
        i <= vs.len(),
    ensures
        final(out)@ == old(out)@ + render_volume_lines(vs.deep_view(), i as int),
    decreases vs.len() - i,
{
    if i < vs.len() {
        out.append("- \"");
        out.append(self_str(&vs[i]));
        out.append("\"\n");
        push_volume_lines(out, vs, i + 1);
    } else {
        proof {
            assert(old(out)@ + render_volume_lines(vs.deep_view(), i as int) =~= old(out)@);
        }
    }
}

/// Render a descriptor to the text that is written back to disk.
pub fn render_app_config(c: &AppConfig) -> (r: String)
    ensures
        r@ == spec_render_config(c@),
{
    let mut out = String::new();
    out.append("name: \"");
    out.append(self_str(&c.name));
    out.append("\"\nserver: \"");
    out.append(self_str(&c.server));
    out.append("\"\nurl: \"");
    out.append(self_str(&c.url));
    out.append("\"\nport: ");
    push_decimal(&mut out, c.port as u64);
    out.append("\n");
    match &c.env {
        Some(e) => {
            out.append("env:\n  file: \"");
            out.append(self_str(&e.file));
            out.append("\"\n  hash: \"");
            out.append(self_str(&e.hash));
            out.append("\"\n");
        },
        None => {},
    }
    match &c.volumes {
        Some(vs) => {
            out.append("volumes:\n");
            push_volume_lines(&mut out, vs, 0);
        },
        None => {},
    }
    out.append("version: \"");
    out.append(self_str(&c.version));
    out.append("\"\n");
    out
}

fn clone_string_vec(vs: &Vec<String>) -> (r: Vec<String>)
    ensures
        r.deep_view() == vs.deep_view(),
{
    let mut out: Vec<String> = Vec::new();
    let mut i: usize = 0;
    while i < vs.len()
        invariant
            0 <= i <= vs.len(),
            out.deep_view() =~~= vs.deep_view().take(i as int),
        decreases vs.len() - i,
    {
        let ghost out0 = out@;
        let ghost dv0 = out.deep_view();
        out.push(vs[i].clone());
        proof {
            assert(out@ == out0.push(vs@[i as int]));
            assert(dv0.len() == i);
            assert(out@.len() == i + 1);
            assert forall|j: int| 0 <= j < i + 1 implies out.deep_view()[j]
                == vs.deep_view().take(i + 1)[j] by {
                if j < i {
                    assert(out@[j] == out0[j]);
                    assert(out.deep_view()[j] == out0[j]@);
                    assert(dv0[j] == out0[j]@);
                    assert(dv0[j] == vs.deep_view()[j]);
                } else {
                    assert(out@[j] == vs@[i as int]);
                }
            }
            assert(out.deep_view() =~~= vs.deep_view().take(i + 1));
        }
        i = i + 1;
    }
    proof {
        assert(out.deep_view() =~~= vs.deep_view());
    }
    out
}

/// Duplicate a descriptor, preserving its model exactly.
pub fn clone_app_config(c: &AppConfig) -> (r: AppConfig)
    ensures
        r@ == c@,
{
    let r = AppConfig {
        name: c.name.clone(),
        server: c.server.clone(),
        url: c.url.clone(),
        port: c.port,
        env: match &c.env {
            Some(e) => Some(EnvConfig { file: e.file.clone(), hash: e.hash.clone() }),
            None => None,
        },
        volumes: match &c.volumes {
            Some(vs) => Some(clone_string_vec(vs)),
            None => None,
        },
        version: c.version.clone(),
    };
    proof {
        assert(r@ =~~= c@);
    }
    r
}

/// The descriptor as it must be persisted after a fully successful run:
/// unchanged but for the version tag, whose number grew by one.
pub open spec fn bumped_config(c: AppConfigV) -> AppConfigV {
    AppConfigV { version: spec_bump_version(c.version).unwrap(), ..c }
}

/// Advance the version tag of a successful deploy and render the descriptor
/// for persisting.  Returns `None`, leaving the descriptor untouched, when
/// the version tag is malformed or its number cannot grow.
pub fn update_version_and_config(config: &mut AppConfig) -> (r: Option<String>)
    ensures
        spec_bump_version(old(config)@.version) is Some ==> {
            &&& final(config)@ == bumped_config(old(config)@)
            &&& r matches Some(s) && s@ == spec_render_config(bumped_config(old(config)@))
        },
        spec_bump_version(old(config)@.version) is None ==> {
            &&& final(config)@ == old(config)@
            &&& r is None
        },
{
    match bump_version(self_str(&config.version)) {
        Some(v) => {
            config.version = v;
            Some(render_app_config(config))
        },
        None => None,
    }
}

} // verus!
