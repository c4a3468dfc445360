//! The container-orchestration manifest, derived from the descriptor.
//!
//! Generation is a pure function: the same descriptor and secret-file text
//! give the same manifest, and rendering gives byte-identical output.  One
//! service is emitted, named after the app, attached to the shared external
//! reverse-proxy network, with the two routing labels always set.  Volume
//! mounts are parsed as `source:target`; entries that are not exactly two
//! colon-separated parts are dropped without error.

use vstd::prelude::*;
use crate::config::{AppConfig, AppConfigV};
use crate::commands::uses_secret;
use crate::text::{find_char, lemma_find_char, char_index_of, dec_str, push_decimal, self_str};

verus! {

/// One service of the manifest.
pub struct DockerService {
    pub image: String,
    pub restart: String,
    pub labels: Vec<(String, String)>,
    pub environment: Option<Vec<(String, String)>>,
    pub volumes: Option<Vec<String>>,
    pub networks: Vec<String>,
}

#[verifier::ext_equal]
pub struct DockerServiceV {
    pub image: Seq<char>,
    pub restart: Seq<char>,
    pub labels: Seq<(Seq<char>, Seq<char>)>,
    pub environment: Option<Seq<(Seq<char>, Seq<char>)>>,
    pub volumes: Option<Seq<Seq<char>>>,
    pub networks: Seq<Seq<char>>,
}

impl View for DockerService {
    type V = DockerServiceV;

    open spec fn view(&self) -> DockerServiceV {
        DockerServiceV {
            image: self.image@,
            restart: self.restart@,
            labels: self.labels.deep_view(),
            environment: match self.environment {
                Some(ref e) => Some(e.deep_view()),
                None => None,
            },
            volumes: self.volumes.deep_view(),
            networks: self.networks.deep_view(),
        }
    }
}

/// A named network of the manifest.
pub struct DockerNetwork {
    pub external: bool,
}

#[verifier::ext_equal]
pub struct DockerNetworkV {
    pub external: bool,
}

impl View for DockerNetwork {
    type V = DockerNetworkV;

    open spec fn view(&self) -> DockerNetworkV {
        DockerNetworkV { external: self.external }
    }
}

/// A named top-level volume of the manifest.
pub struct DockerVolume {
    pub external: Option<bool>,
    pub name: Option<String>,
}

#[verifier::ext_equal]
pub struct DockerVolumeV {
    pub external: Option<bool>,
    pub name: Option<Seq<char>>,
}

impl View for DockerVolume {
    type V = DockerVolumeV;

    open spec fn view(&self) -> DockerVolumeV {
        DockerVolumeV {
            external: self.external,
            name: match self.name {
                Some(ref n) => Some(n@),
                None => None,
            },
        }
    }
}

/// The whole manifest: services, networks and the synthetic volumes section.
pub struct DockerComposeFile {
    pub services: Vec<(String, DockerService)>,
    pub networks: Vec<(String, DockerNetwork)>,
    pub volumes: Option<Vec<(String, DockerVolume)>>,
}

#[verifier::ext_equal]
pub struct DockerComposeFileV {
    pub services: Seq<(Seq<char>, DockerServiceV)>,
    pub networks: Seq<(Seq<char>, DockerNetworkV)>,
    pub volumes: Option<Seq<(Seq<char>, DockerVolumeV)>>,
}

pub open spec fn named_views<T: View>(v: Seq<(String, T)>) -> Seq<(Seq<char>, T::V)> {
    Seq::new(v.len(), |i: int| (v[i].0@, v[i].1@))
}

impl View for DockerComposeFile {
    type V = DockerComposeFileV;

    open spec fn view(&self) -> DockerComposeFileV {
        DockerComposeFileV {
            services: named_views(self.services@),
            networks: named_views(self.networks@),
            volumes: match self.volumes {
                Some(ref v) => Some(named_views(v@)),
                None => None,
            },
        }
    }
}

/// A well-formed mount: exactly two colon-separated parts.
pub open spec fn valid_volume(v: Seq<char>) -> bool {
    find_char(v, ':', 0) < v.len() && find_char(v, ':', find_char(v, ':', 0) + 1) == v.len()
}

/// The host half of a mount, the name of its synthetic top-level volume.
pub open spec fn volume_source(v: Seq<char>) -> Seq<char> {
    v.take(find_char(v, ':', 0))
}

/// Check [`valid_volume`].
pub fn check_volume(v: &str) -> (r: bool)
    ensures
        r == valid_volume(v@),
{
    let len: usize = v.unicode_len();
    let c1: usize = char_index_of(v, ':', 0);
    proof {
        lemma_find_char(v@, ':', 0);
    }
    if c1 == len {
        return false;
    }
    let c2: usize = char_index_of(v, ':', c1 + 1);
    c2 == len
}

/// The well-formed mounts, in order, as the service mounts them.
pub open spec fn filter_volumes(vs: Seq<Seq<char>>, i: int) -> Seq<Seq<char>>
    decreases vs.len() - i when 0 <= i <= vs.len()
{
    if i >= vs.len() {
        Seq::<Seq<char>>::empty()
    } else if valid_volume(vs[i]) {
        seq![vs[i]] + filter_volumes(vs, i + 1)
    } else {
        filter_volumes(vs, i + 1)
    }
}

fn collect_valid_volumes(vs: &Vec<String>, i: usize) -> (r: Vec<String>)
    requires
        i <= vs.len(),
    ensures
        r.deep_view() == filter_volumes(vs.deep_view(), i as int),
    decreases vs.len() - i,
{
    if i < vs.len() {
        let rest = collect_valid_volumes(vs, i + 1);
        if check_volume(self_str(&vs[i])) {
            let mut out: Vec<String> = Vec::new();
            out.push(vs[i].clone());
            let mut rest = rest;
            out.append(&mut rest);
            proof {
                assert(out.deep_view() =~= seq![vs.deep_view()[i as int]]
                    + filter_volumes(vs.deep_view(), i + 1));
            }
            out
        } else {
            rest
        }
    } else {
        let r: Vec<String> = Vec::new();
        proof {
            assert(r.deep_view() =~= filter_volumes(vs.deep_view(), i as int));
        }
        r
    }
}

/// The set of names in a sequence of strings.
pub open spec fn names_set(v: Seq<Seq<char>>) -> Set<Seq<char>> {
    Set::new(|n: Seq<char>| exists|k: int| 0 <= k < v.len() && v[k] == n)
}

proof fn lemma_names_set_push(v: Seq<Seq<char>>, x: Seq<char>)
    ensures
        names_set(v.push(x)) =~= names_set(v).insert(x),
{
    assert forall|n: Seq<char>|
        names_set(v.push(x)).contains(n) <==> names_set(v).insert(x).contains(n) by {
        if names_set(v.push(x)).contains(n) {
            let k = choose|k: int| 0 <= k < v.push(x).len() && v.push(x)[k] == n;
            if k < v.len() {
                assert(v[k] == n);
            } else {
                assert(n == x);
            }
        }
        if names_set(v).insert(x).contains(n) {
            if n == x {
                assert(v.push(x)[v.len() as int] == x);
            } else {
                let k = choose|k: int| 0 <= k < v.len() && v[k] == n;
                assert(v.push(x)[k] == n);
            }
        }
    }
}

fn contains_name(seen: &Vec<String>, n: &String) -> (r: bool)
    ensures
        r == names_set(seen.deep_view()).contains(n@),
{
    let mut k: usize = 0;
    while k < seen.len()
        invariant
            0 <= k <= seen.len(),
            forall|j: int| 0 <= j < k ==> seen.deep_view()[j] != n@,
        decreases seen.len() - k,
    {
        if seen[k].eq(n) {
            proof {
                assert(seen.deep_view()[k as int] == n@);
            }
            return true;
        }
        k = k + 1;
    }
    false
}

/// The synthetic top-level volumes: the source half of every well-formed
/// mount not seen before, in first-occurrence order.
pub open spec fn volume_entries(vs: Seq<Seq<char>>, i: int, seen: Set<Seq<char>>) -> Seq<
    (Seq<char>, DockerVolumeV),
>
    decreases vs.len() - i when 0 <= i <= vs.len()
{
    if i >= vs.len() {
        Seq::<(Seq<char>, DockerVolumeV)>::empty()
    } else {
        let here = if valid_volume(vs[i]) && !seen.contains(volume_source(vs[i])) {
            seq![(volume_source(vs[i]), DockerVolumeV { external: None, name: None })]
        } else {
            Seq::<(Seq<char>, DockerVolumeV)>::empty()
        };
        let seen2 = if valid_volume(vs[i]) {
            seen.insert(volume_source(vs[i]))
        } else {
            seen
        };
        here + volume_entries(vs, i + 1, seen2)
    }
}

fn collect_volume_entries(vs: &Vec<String>) -> (r: Vec<(String, DockerVolume)>)
    ensures
        named_views(r@) == volume_entries(vs.deep_view(), 0, Set::<Seq<char>>::empty()),
{
    let ghost gvs = vs.deep_view();
    let mut out: Vec<(String, DockerVolume)> = Vec::new();
    let mut seen: Vec<String> = Vec::new();
    let mut i: usize = 0;
    proof {
        assert(names_set(seen.deep_view()) =~= Set::<Seq<char>>::empty());
        assert(named_views(out@) + volume_entries(gvs, 0, names_set(seen.deep_view()))
            =~~= volume_entries(gvs, 0, Set::<Seq<char>>::empty()));
    }
    while i < vs.len()
        invariant
            0 <= i <= vs.len(),
            gvs == vs.deep_view(),
            named_views(out@) + volume_entries(gvs, i as int, names_set(seen.deep_view()))
                =~~= volume_entries(gvs, 0, Set::<Seq<char>>::empty()),
        decreases vs.len() - i,
    {
        let v = self_str(&vs[i]);
        let ghost seen0 = names_set(seen.deep_view());
        if check_volume(v) {
            let c1: usize = char_index_of(v, ':', 0);
            proof {
                lemma_find_char(v@, ':', 0);
            }
            let src = v.substring_char(0, c1).to_owned();
            proof {
                assert(src@ =~= volume_source(gvs[i as int]));
            }
            let ghost out0 = named_views(out@);
            if !contains_name(&seen, &src) {
                out.push((src.clone(), DockerVolume { external: None, name: None }));
                proof {
                    assert(named_views(out@) =~~= out0.push(
                        (volume_source(gvs[i as int]), DockerVolumeV { external: None, name: None }),
                    ));
                }
            }
            let ghost seen_dv = seen.deep_view();
            seen.push(src);
            proof {
                assert(seen.deep_view() =~= seen_dv.push(volume_source(gvs[i as int])));
                lemma_names_set_push(seen_dv, volume_source(gvs[i as int]));
                assert(names_set(seen.deep_view()) =~= seen0.insert(volume_source(gvs[i as int])));
            }
        }
        proof {
            assert(named_views(out@) + volume_entries(gvs, i + 1, names_set(seen.deep_view()))
                =~~= volume_entries(gvs, 0, Set::<Seq<char>>::empty()));
        }
        i = i + 1;
    }
    proof {
        assert(named_views(out@) + volume_entries(gvs, i as int, names_set(seen.deep_view()))
            =~~= named_views(out@));
    }
    out
}

/// Whether a line of the secret file declares a variable: non-empty and not
/// a comment.
pub open spec fn line_kept(l: Seq<char>) -> bool {
    l.len() > 0 && l[0] != '#'
}

/// The variable name on a line: everything before the first `=`, or the
/// whole line when there is none.
pub open spec fn line_name(l: Seq<char>) -> Seq<char> {
    l.take(find_char(l, '=', 0))
}

/// The self-reference placeholder `${NAME}` the manifest maps a variable to,
/// letting the remote secret-injection tool substitute the real value at
/// container start.
pub open spec fn placeholder(n: Seq<char>) -> Seq<char> {
    "${"@ + n + "}"@
}

/// The environment mapping of the manifest: one entry per variable declared
/// in the secret file, first occurrence first, later duplicates dropped.
pub open spec fn env_pairs_from(s: Seq<char>, from: int, seen: Set<Seq<char>>) -> Seq<
    (Seq<char>, Seq<char>),
>
    decreases s.len() - from when 0 <= from <= s.len() via env_pairs_from_decreases
{
    let nl = find_char(s, '\n', from);
    let line = s.subrange(from, nl);
    let here = if line_kept(line) && !seen.contains(line_name(line)) {
        seq![(line_name(line), placeholder(line_name(line)))]
    } else {
        Seq::<(Seq<char>, Seq<char>)>::empty()
    };
    let seen2 = if line_kept(line) {
        seen.insert(line_name(line))
    } else {
        seen
    };
    if nl >= s.len() {
        here
    } else {
        here + env_pairs_from(s, nl + 1, seen2)
    }
}

#[via_fn]
proof fn env_pairs_from_decreases(s: Seq<char>, from: int, seen: Set<Seq<char>>) {
    lemma_find_char(s, '\n', from);
}

/// The whole environment mapping of a secret file's text.
pub open spec fn env_pairs(s: Seq<char>) -> Seq<(Seq<char>, Seq<char>)> {
    env_pairs_from(s, 0, Set::<Seq<char>>::empty())
}

/// Derive the environment mapping from the text of the secret file: each
/// variable name on a declaration line maps to its `${NAME}` placeholder.
pub fn create_docker_env(content: &str) -> (r: Vec<(String, String)>)
    ensures
        r.deep_view() == env_pairs(content@),
{
    let len: usize = content.unicode_len();
    let mut out: Vec<(String, String)> = Vec::new();
    let mut seen: Vec<String> = Vec::new();
    let mut from: usize = 0;
    proof {
        assert(names_set(seen.deep_view()) =~= Set::<Seq<char>>::empty());
        assert(out.deep_view() + env_pairs_from(content@, 0, names_set(seen.deep_view()))
            =~~= env_pairs(content@));
    }
    loop
        invariant
            0 <= from <= len,
            len == content@.len(),
            out.deep_view() + env_pairs_from(content@, from as int, names_set(seen.deep_view()))
                =~~= env_pairs(content@),
        decreases len - from,
    {
        let nl: usize = char_index_of(content, '\n', from);
        proof {
            lemma_find_char(content@, '\n', from as int);
        }
        let line = content.substring_char(from, nl);
        let ghost gline = content@.subrange(from as int, nl as int);
        let ghost seen0 = names_set(seen.deep_view());
        let line_len: usize = line.unicode_len();
        let kept = line_len > 0 && line.get_char(0) != '#';
        if kept {
            let eq: usize = char_index_of(line, '=', 0);
            proof {
                lemma_find_char(line@, '=', 0);
            }
            let name = line.substring_char(0, eq).to_owned();
            proof {
                assert(name@ =~= line_name(gline));
            }
            let ghost out0 = out.deep_view();
            if !contains_name(&seen, &name) {
                let mut ph = String::new();
                ph.append("${");
                ph.append(self_str(&name));
                ph.append("}");
                out.push((name.clone(), ph));
                proof {
                    assert(out.deep_view() =~~= out0.push(
                        (line_name(gline), placeholder(line_name(gline))),
                    ));
                }
            }
            let ghost seen_dv = seen.deep_view();
            seen.push(name);
            proof {
                assert(seen.deep_view() =~= seen_dv.push(line_name(gline)));
                lemma_names_set_push(seen_dv, line_name(gline));
                assert(names_set(seen.deep_view()) =~= seen0.insert(line_name(gline)));
            }
        }
        proof {
            if from as int <= nl < len {
                assert(out.deep_view() + env_pairs_from(
                    content@,
                    nl + 1,
                    names_set(seen.deep_view()),
                ) =~~= env_pairs(content@));
            }
        }
        if nl >= len {
            proof {
                assert(out.deep_view() =~~= env_pairs(content@));
            }
            return out;
        }
        from = nl + 1;
    }
}

/// The service of a descriptor: image and name equal the app name, restart
/// policy fixed, routing labels for the public URL and the upstream port,
/// the placeholder environment when a secret file is configured, and the
/// well-formed mounts.
pub open spec fn spec_service(c: AppConfigV, env: Option<Seq<char>>) -> DockerServiceV {
    DockerServiceV {
        image: c.name,
        restart: "unless-stopped"@,
        labels: seq![
            ("caddy"@, c.url),
            ("caddy.reverse_proxy"@, "{{upstreams "@ + dec_str(c.port as nat) + "}}"@),
        ],
        environment: if uses_secret(c) && env is Some {
            Some(env_pairs(env.unwrap()))
        } else {
            None
        },
        volumes: match c.volumes {
            None => None,
            Some(vs) => Some(filter_volumes(vs, 0)),
        },
        networks: seq!["caddy"@],
    }
}

/// The manifest of a descriptor.
pub open spec fn spec_compose(c: AppConfigV, env: Option<Seq<char>>) -> DockerComposeFileV {
    DockerComposeFileV {
        services: seq![(c.name, spec_service(c, env))],
        networks: seq![("caddy"@, DockerNetworkV { external: true })],
        volumes: Some(
            match c.volumes {
                None => Seq::<(Seq<char>, DockerVolumeV)>::empty(),
                Some(vs) => volume_entries(vs, 0, Set::<Seq<char>>::empty()),
            },
        ),
    }
}

/// Build the manifest from a descriptor and, when a secret file is
/// configured, the text of that file.  Pure and deterministic.
pub fn build_compose_config(config: &AppConfig, env_content: Option<&String>) -> (r:
    DockerComposeFile)
    ensures
        r@ == spec_compose(
            config@,
            match env_content {
                Some(s) => Some(s@),
                None => None,
            },
        ),
{
    let mut labels: Vec<(String, String)> = Vec::new();
    labels.push(("caddy".to_owned(), config.url.clone()));
    let mut upstream = String::new();
    upstream.append("{{upstreams ");
    push_decimal(&mut upstream, config.port as u64);
    upstream.append("}}");
    labels.push(("caddy.reverse_proxy".to_owned(), upstream));

    let has_secret = match &config.env {
        Some(e) => !self_str(&e.file).is_empty(),
        None => false,
    };
    let environment: Option<Vec<(String, String)>> = if has_secret {
        match env_content {
            Some(content) => Some(create_docker_env(self_str(content))),
            None => None,
        }
    } else {
        None
    };

    let volumes: Option<Vec<String>> = match &config.volumes {
        Some(vs) => Some(collect_valid_volumes(vs, 0)),
        None => None,
    };

    let mut networks: Vec<String> = Vec::new();
    networks.push("caddy".to_owned());

    let service = DockerService {
        image: config.name.clone(),
        restart: "unless-stopped".to_owned(),
        labels,
        environment,
        volumes,
        networks,
    };

    let mut services: Vec<(String, DockerService)> = Vec::new();
    services.push((config.name.clone(), service));

    let mut nets: Vec<(String, DockerNetwork)> = Vec::new();
    nets.push(("caddy".to_owned(), DockerNetwork { external: true }));

    let vols: Vec<(String, DockerVolume)> = match &config.volumes {
        Some(vs) => collect_volume_entries(vs),
        None => Vec::new(),
    };

    let r = DockerComposeFile { services, networks: nets, volumes: Some(vols) };
    proof {
        let ghost envv = match env_content {
            Some(s) => Some(s@),
            None => None,
        };
        assert(r@.services =~~= spec_compose(config@, envv).services);
        assert(r@.networks =~~= spec_compose(config@, envv).networks);
        assert(r@.volumes.unwrap() =~~= spec_compose(config@, envv).volumes.unwrap());
        assert(r@ =~~= spec_compose(config@, envv));
    }
    r
}

/// One `key: "value"` mapping line, indented for a service subsection.
pub open spec fn render_pairs(ps: Seq<(Seq<char>, Seq<char>)>, i: int) -> Seq<char>
    decreases ps.len() - i when 0 <= i <= ps.len()
{
    if i >= ps.len() {
        Seq::<char>::empty()
    } else {
        "      "@ + ps[i].0 + ": \""@ + ps[i].1 + "\"\n"@ + render_pairs(ps, i + 1)
    }
}

/// One `- "item"` list line, indented for a service subsection.
pub open spec fn render_items(vs: Seq<Seq<char>>, i: int) -> Seq<char>
    decreases vs.len() - i when 0 <= i <= vs.len()
{
    if i >= vs.len() {
        Seq::<char>::empty()
    } else {
        "    - \""@ + vs[i] + "\"\n"@ + render_items(vs, i + 1)
    }
}

pub open spec fn render_service_body(s: DockerServiceV) -> Seq<char> {
    "    image: \""@ + s.image + "\"\n    restart: \""@ + s.restart + "\"\n    labels:\n"@
        + render_pairs(s.labels, 0)
        + (match s.environment {
            None => Seq::<char>::empty(),
            Some(e) => "    environment:\n"@ + render_pairs(e, 0),
        })
        + (match s.volumes {
            None => Seq::<char>::empty(),
            Some(v) => if v.len() == 0 {
                "    volumes: []\n"@
            } else {
                "    volumes:\n"@ + render_items(v, 0)
            },
        })
        + "    networks:\n"@ + render_items(s.networks, 0)
}

pub open spec fn render_services(ss: Seq<(Seq<char>, DockerServiceV)>, i: int) -> Seq<char>
    decreases ss.len() - i when 0 <= i <= ss.len()
{
    if i >= ss.len() {
        Seq::<char>::empty()
    } else {
        "  "@ + ss[i].0 + ":\n"@ + render_service_body(ss[i].1) + render_services(ss, i + 1)
    }
}

pub open spec fn render_networks(ns: Seq<(Seq<char>, DockerNetworkV)>, i: int) -> Seq<char>
    decreases ns.len() - i when 0 <= i <= ns.len()
{
    if i >= ns.len() {
        Seq::<char>::empty()
    } else {
        "  "@ + ns[i].0 + ":\n    external: "@ + (if ns[i].1.external {
            "true"@
        } else {
            "false"@
        }) + "\n"@ + render_networks(ns, i + 1)
    }
}

pub open spec fn render_volume_entry(name: Seq<char>, v: DockerVolumeV) -> Seq<char> {
    if v.external is None && v.name is None {
        "  "@ + name + ": {}\n"@
    } else {
        "  "@ + name + ":\n"@ + (match v.external {
            Some(b) => "    external: "@ + (if b { "true"@ } else { "false"@ }) + "\n"@,
            None => Seq::<char>::empty(),
        }) + (match v.name {
            Some(n) => "    name: \""@ + n + "\"\n"@,
            None => Seq::<char>::empty(),
        })
    }
}

pub open spec fn render_volume_entries(vs: Seq<(Seq<char>, DockerVolumeV)>, i: int) -> Seq<char>
    decreases vs.len() - i when 0 <= i <= vs.len()
{
    if i >= vs.len() {
        Seq::<char>::empty()
    } else {
        render_volume_entry(vs[i].0, vs[i].1) + render_volume_entries(vs, i + 1)
    }
}

/// The manifest's persisted text: a pure function of the manifest value.
pub open spec fn spec_render_compose(c: DockerComposeFileV) -> Seq<char> {
    "services:\n"@ + render_services(c.services, 0) + "networks:\n"@
        + render_networks(c.networks, 0)
        + (match c.volumes {
            None => Seq::<char>::empty(),
            Some(v) => if v.len() == 0 {
                "volumes: {}\n"@
            } else {
                "volumes:\n"@ + render_volume_entries(v, 0)
            },
        })
}

fn push_pairs(out: &mut String, ps: &Vec<(String, String)>, i: usize)
    requires
        i <= ps.len(),
    ensures
        final(out)@ == old(out)@ + render_pairs(ps.deep_view(), i as int),
    decreases ps.len() - i,
{
    if i < ps.len() {
        out.append("      ");
        out.append(self_str(&ps[i].0));
        out.append(": \"");
        out.append(self_str(&ps[i].1));
        out.append("\"\n");
        push_pairs(out, ps, i + 1);
    } else {
        proof {
            assert(old(out)@ + render_pairs(ps.deep_view(), i as int) =~= old(out)@);
        }
    }
}

fn push_items(out: &mut String, vs: &Vec<String>, i: usize)
    requires
        i <= vs.len(),
    ensures
        final(out)@ == old(out)@ + render_items(vs.deep_view(), i as int),
    decreases vs.len() - i,
{
    if i < vs.len() {
        out.append("    - \"");
        out.append(self_str(&vs[i]));
        out.append("\"\n");
        push_items(out, vs, i + 1);
    } else {
        proof {
            assert(old(out)@ + render_items(vs.deep_view(), i as int) =~= old(out)@);
        }
    }
}

#[verifier::rlimit(50)]
fn push_service_body(out: &mut String, s: &DockerService)
    ensures
        final(out)@ == old(out)@ + render_service_body(s@),
{
    out.append("    image: \"");
    out.append(self_str(&s.image));
    out.append("\"\n    restart: \"");
    out.append(self_str(&s.restart));
    out.append("\"\n    labels:\n");
    push_pairs(out, &s.labels, 0);
    match &s.environment {
        Some(e) => {
            out.append("    environment:\n");
            push_pairs(out, e, 0);
        },
        None => {},
    }
    match &s.volumes {
        Some(v) => {
            if v.len() == 0 {
                out.append("    volumes: []\n");
            } else {
                out.append("    volumes:\n");
                push_items(out, v, 0);
            }
        },
        None => {},
    }
    out.append("    networks:\n");
    push_items(out, &s.networks, 0);
}

fn push_services(out: &mut String, ss: &Vec<(String, DockerService)>, i: usize)
    requires
        i <= ss.len(),
    ensures
        final(out)@ == old(out)@ + render_services(named_views(ss@), i as int),
    decreases ss.len() - i,
{
    if i < ss.len() {
        out.append("  ");
        out.append(self_str(&ss[i].0));
        out.append(":\n");
        push_service_body(out, &ss[i].1);
        push_services(out, ss, i + 1);
    } else {
        proof {
            assert(old(out)@ + render_services(named_views(ss@), i as int) =~= old(out)@);
        }
    }
}

fn push_networks(out: &mut String, ns: &Vec<(String, DockerNetwork)>, i: usize)
    requires
        i <= ns.len(),
    ensures
        final(out)@ == old(out)@ + render_networks(named_views(ns@), i as int),
    decreases ns.len() - i,
{
    if i < ns.len() {
        out.append("  ");
        out.append(self_str(&ns[i].0));
        out.append(":\n    external: ");
        if ns[i].1.external {
            out.append("true");
        } else {
            out.append("false");
        }
        out.append("\n");
        push_networks(out, ns, i + 1);
    } else {
        proof {
            assert(old(out)@ + render_networks(named_views(ns@), i as int) =~= old(out)@);
        }
    }
}

fn push_volume_entries(out: &mut String, vs: &Vec<(String, DockerVolume)>, i: usize)
    requires
        i <= vs.len(),
    ensures
        final(out)@ == old(out)@ + render_volume_entries(named_views(vs@), i as int),
    decreases vs.len() - i,
{
    if i < vs.len() {
        out.append("  ");
        out.append(self_str(&vs[i].0));
        let is_plain = vs[i].1.external.is_none() && vs[i].1.name.is_none();
        if is_plain {
            out.append(": {}\n");
        } else {
            out.append(":\n");
            match &vs[i].1.external {
                Some(b) => {
                    out.append("    external: ");
                    if *b {
                        out.append("true");
                    } else {
                        out.append("false");
                    }
                    out.append("\n");
                },
                None => {},
            }
            match &vs[i].1.name {
                Some(n) => {
                    out.append("    name: \"");
                    out.append(self_str(n));
                    out.append("\"\n");
                },
                None => {},
            }
        }
        push_volume_entries(out, vs, i + 1);
    } else {
        proof {
            assert(old(out)@ + render_volume_entries(named_views(vs@), i as int) =~= old(out)@);
        }
    }
}

/// Render the manifest to the text that is written to disk and transferred.
/// Byte-identical for equal manifests.
pub fn render_compose(c: &DockerComposeFile) -> (r: String)
    ensures
        r@ == spec_render_compose(c@),
{
    let mut out = String::new();
    out.append("services:\n");
    push_services(&mut out, &c.services, 0);
    out.append("networks:\n");
    push_networks(&mut out, &c.networks, 0);
    match &c.volumes {
        Some(v) => {
            if v.len() == 0 {
                out.append("volumes: {}\n");
            } else {
                out.append("volumes:\n");
                push_volume_entries(&mut out, v, 0);
            }
        },
        None => {},
    }
    out
}

/// The manifest generator is pure and deterministic: the same descriptor and
/// the same secret-file text yield a byte-identical rendered manifest.
pub proof fn lemma_manifest_deterministic(
    c1: AppConfigV,
    c2: AppConfigV,
    e1: Option<Seq<char>>,
    e2: Option<Seq<char>>,
)
    requires
        c1 == c2,
        e1 == e2,
    ensures
        spec_render_compose(spec_compose(c1, e1)) == spec_render_compose(spec_compose(c2, e2)),
{
}

} // verus!
