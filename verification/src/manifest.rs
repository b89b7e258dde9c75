//! Manifest synthesis: turns one container definition into the exact text of
//! the deployment manifest for one service, wrapped under the constant
//! service key "app", with the build context always recomputed from the
//! repository root and the slug. Writing the text to disk is the caller's
//! side of the boundary; the text and its destination path are pinned here,
//! byte for byte.

use vstd::prelude::*;

use crate::config::{Build, ComposeConfiguation, Container, ContainerModel};

verus! {

/// The build context synthesized for a service: "." then the repository
/// root then "/" then the slug, so the context is relative to wherever the
/// manifest is interpreted from.
pub open spec fn computed_context(repo_directory: Seq<char>, slug: Seq<char>) -> Seq<char> {
    "."@ + repo_directory + "/"@ + slug
}

/// Where the manifest for `slug` lives under the manifest directory.
pub open spec fn compose_file_path(compose_directory: Seq<char>, slug: Seq<char>) -> Seq<char> {
    compose_directory + "/"@ + slug + ".yaml"@
}

/// One "key: value" mapping line.
pub open spec fn kv_line(indent: Seq<char>, key: Seq<char>, value: Seq<char>) -> Seq<char> {
    indent + key + ": "@ + value + "\n"@
}

/// One "key:" line that opens a nested block.
pub open spec fn key_line(indent: Seq<char>, key: Seq<char>) -> Seq<char> {
    indent + key + ":\n"@
}

/// The text of a boolean scalar.
pub open spec fn bool_text(b: bool) -> Seq<char> {
    if b {
        "true"@
    } else {
        "false"@
    }
}

/// One "- item" line per element, each at `indent`.
pub open spec fn list_lines(indent: Seq<char>, items: Seq<Seq<char>>) -> Seq<char>
    decreases items.len(),
{
    if items.len() == 0 {
        Seq::empty()
    } else {
        list_lines(indent, items.drop_last()) + indent + "- "@ + items.last() + "\n"@
    }
}

/// A sequence-valued key: its items one per line, or an empty flow sequence
/// when there are none.
pub open spec fn list_block(indent: Seq<char>, key: Seq<char>, items: Seq<Seq<char>>) -> Seq<
    char,
> {
    if items.len() == 0 {
        indent + key + ": []\n"@
    } else {
        key_line(indent, key) + list_lines(indent, items)
    }
}

/// A key that is omitted entirely when no value is present.
pub open spec fn opt_kv_line(indent: Seq<char>, key: Seq<char>, value: Option<Seq<char>>) -> Seq<
    char,
> {
    match value {
        None => Seq::empty(),
        Some(v) => kv_line(indent, key, v),
    }
}

/// A boolean key that is omitted entirely when no value is present.
pub open spec fn opt_bool_line(indent: Seq<char>, key: Seq<char>, value: Option<bool>) -> Seq<
    char,
> {
    match value {
        None => Seq::empty(),
        Some(b) => kv_line(indent, key, bool_text(b)),
    }
}

/// A sequence-valued key that is omitted entirely when no value is present.
pub open spec fn opt_list_block(
    indent: Seq<char>,
    key: Seq<char>,
    items: Option<Seq<Seq<char>>>,
) -> Seq<char> {
    match items {
        None => Seq::empty(),
        Some(xs) => list_block(indent, key, xs),
    }
}

/// The lines of one container definition, as nested under a service key:
/// scalar fields in declaration order, the build block flattened from the
/// model, and every absent optional field omitted rather than emitted empty.
pub open spec fn container_block(c: ContainerModel) -> Seq<char> {
    kv_line("    "@, "container_name"@, c.name) + kv_line("    "@, "image"@, c.image) + key_line(
        "    "@,
        "build"@,
    ) + kv_line("      "@, "context"@, c.context) + opt_list_block("      "@, "args"@, c.args)
        + kv_line("      "@, "dockerfile"@, c.dockerfile) + kv_line("    "@, "restart"@, c.restart)
        + opt_kv_line("    "@, "user"@, c.user) + opt_bool_line("    "@, "stdin_open"@, c.stdin_open)
        + opt_bool_line("    "@, "tty"@, c.tty) + list_block("    "@, "ports"@, c.ports)
        + opt_list_block("    "@, "volumes"@, c.volumes) + opt_list_block(
        "    "@,
        "environment"@,
        c.environment,
    )
}

/// The block of one named service.
pub open spec fn service_block(key: Seq<char>, c: ContainerModel) -> Seq<char> {
    key_line("  "@, key) + container_block(c)
}

/// The blocks of all named services, in order.
pub open spec fn services_blocks(services: Seq<(String, Container)>) -> Seq<char>
    decreases services.len(),
{
    if services.len() == 0 {
        Seq::empty()
    } else {
        services_blocks(services.drop_last()) + service_block(
            services.last().0@,
            services.last().1@,
        )
    }
}

/// The whole manifest text for a compose structure.
pub open spec fn compose_text(compose: ComposeConfiguation) -> Seq<char> {
    "services:\n"@ + services_blocks(compose.services@)
}

/// The whole manifest text synthesized for one container under the constant
/// service key "app".
pub open spec fn manifest_text(c: ContainerModel) -> Seq<char> {
    "services:\n"@ + service_block("app"@, c)
}

fn emit_kv(out: &mut String, indent: &str, key: &str, value: &str)
    ensures
        final(out)@ == old(out)@ + kv_line(indent@, key@, value@),
{
    out.append(indent);
    out.append(key);
    out.append(": ");
    out.append(value);
    out.append("\n");
    proof {
        assert(out@ =~= old(out)@ + kv_line(indent@, key@, value@));
    }
}

fn emit_key(out: &mut String, indent: &str, key: &str)
    ensures
        final(out)@ == old(out)@ + key_line(indent@, key@),
{
    out.append(indent);
    out.append(key);
    out.append(":\n");
    proof {
        assert(out@ =~= old(out)@ + key_line(indent@, key@));
    }
}

fn emit_list_block(out: &mut String, indent: &str, key: &str, items: &Vec<String>)
    ensures
        final(out)@ == old(out)@ + list_block(indent@, key@, items.deep_view()),
{
    if items.len() == 0 {
        out.append(indent);
        out.append(key);
        out.append(": []\n");
        proof {
            assert(out@ =~= old(out)@ + list_block(indent@, key@, items.deep_view()));
        }
    } else {
        emit_key(out, indent, key);
        let n = items.len();
        let mut i: usize = 0;
        while i < n
            invariant
                n == items@.len(),
                0 <= i <= n,
                out@ == old(out)@ + key_line(indent@, key@) + list_lines(
                    indent@,
                    items.deep_view().take(i as int),
                ),
            decreases n - i,
        {
            proof {
                assert(items.deep_view().take(i + 1).drop_last() =~= items.deep_view().take(
                    i as int,
                ));
                assert(items.deep_view().take(i + 1).last() == items[i as int]@);
            }
            out.append(indent);
            out.append("- ");
            out.append(items[i].as_str());
            out.append("\n");
            i = i + 1;
            proof {
                assert(out@ =~= old(out)@ + key_line(indent@, key@) + list_lines(
                    indent@,
                    items.deep_view().take(i as int),
                ));
            }
        }
        proof {
            assert(items.deep_view().take(n as int) =~= items.deep_view());
        }
    }
}

fn emit_opt_kv(out: &mut String, indent: &str, key: &str, value: &Option<String>)
    ensures
        final(out)@ == old(out)@ + opt_kv_line(indent@, key@, value.deep_view()),
{
    match value {
        Some(v) => emit_kv(out, indent, key, v.as_str()),
        None => {
            proof {
                assert(out@ =~= old(out)@ + opt_kv_line(indent@, key@, value.deep_view()));
            }
        },
    }
}

fn emit_opt_bool(out: &mut String, indent: &str, key: &str, value: &Option<bool>)
    ensures
        final(out)@ == old(out)@ + opt_bool_line(indent@, key@, *value),
{
    match value {
        Some(b) => emit_kv(out, indent, key, if *b { "true" } else { "false" }),
        None => {
            proof {
                assert(out@ =~= old(out)@ + opt_bool_line(indent@, key@, *value));
            }
        },
    }
}

fn emit_opt_list_block(out: &mut String, indent: &str, key: &str, items: &Option<Vec<String>>)
    ensures
        final(out)@ == old(out)@ + opt_list_block(indent@, key@, items.deep_view()),
{
    match items {
        Some(xs) => emit_list_block(out, indent, key, xs),
        None => {
            proof {
                assert(out@ =~= old(out)@ + opt_list_block(indent@, key@, items.deep_view()));
            }
        },
    }
}

/// Appends the lines of one container definition.
fn emit_container(out: &mut String, c: &Container)
    ensures
        final(out)@ == old(out)@ + container_block(c@),
{
    emit_kv(out, "    ", "container_name", c.name.as_str());
    emit_kv(out, "    ", "image", c.image.as_str());
    emit_key(out, "    ", "build");
    emit_kv(out, "      ", "context", c.build.context.as_str());
    emit_opt_list_block(out, "      ", "args", &c.build.args);
    emit_kv(out, "      ", "dockerfile", c.build.dockerfile.as_str());
    emit_kv(out, "    ", "restart", c.restart.as_str());
    emit_opt_kv(out, "    ", "user", &c.user);
    emit_opt_bool(out, "    ", "stdin_open", &c.stdin_open);
    emit_opt_bool(out, "    ", "tty", &c.tty);
    emit_list_block(out, "    ", "ports", &c.ports);
    emit_opt_list_block(out, "    ", "volumes", &c.volumes);
    emit_opt_list_block(out, "    ", "environment", &c.environment);
    proof {
        assert(out@ =~= old(out)@ + container_block(c@));
    }
}

/// The manifest text of a whole compose structure: every named service in
/// order.
#[verifier::rlimit(100)]
pub fn render_compose(compose: &ComposeConfiguation) -> (text: String)
    requires
        compose.wf(),
    ensures
        text@ == compose_text(*compose),
{
    let mut out = String::from_str("services:\n");
    let n = compose.services.len();
    let mut i: usize = 0;
    while i < n
        invariant
            n == compose.services@.len(),
            0 <= i <= n,
            out@ == "services:\n"@ + services_blocks(compose.services@.take(i as int)),
        decreases n - i,
    {
        proof {
            assert(compose.services@.take(i + 1).drop_last() =~= compose.services@.take(i as int));
        }
        emit_key(&mut out, "  ", compose.services[i].0.as_str());
        emit_container(&mut out, &compose.services[i].1);
        i = i + 1;
        proof {
            assert(out@ =~= "services:\n"@ + services_blocks(compose.services@.take(i as int)));
        }
    }
    proof {
        assert(compose.services@.take(n as int) =~= compose.services@);
    }
    out
}

fn clone_string(s: &String) -> (r: String)
    ensures
        r@ == s@,
{
    s.clone()
}

fn clone_string_vec(v: &Vec<String>) -> (r: Vec<String>)
    ensures
        r.deep_view() == v.deep_view(),
{
    let mut r: Vec<String> = Vec::new();
    let n = v.len();
    let mut i: usize = 0;
    while i < n
        invariant
            n == v@.len(),
            0 <= i <= n,
            r@.len() == i,
            forall|j: int| 0 <= j < i ==> r@[j]@ == v@[j]@,
        decreases n - i,
    {
        r.push(v[i].clone());
        i = i + 1;
    }
    proof {
        assert(r.deep_view() =~= v.deep_view());
    }
    r
}

fn clone_opt_string(v: &Option<String>) -> (r: Option<String>)
    ensures
        r.deep_view() == v.deep_view(),
{
    match v {
        None => None,
        Some(s) => Some(s.clone()),
    }
}

fn clone_opt_string_vec(v: &Option<Vec<String>>) -> (r: Option<Vec<String>>)
    ensures
        r.deep_view() == v.deep_view(),
{
    match v {
        None => None,
        Some(xs) => Some(clone_string_vec(xs)),
    }
}

/// A synthesized manifest: the exact text to persist and the path it belongs
/// at. The caller performs the write (and creates the manifest directory if
/// it is absent); any filesystem failure there is fatal and must be
/// propagated, not swallowed.
pub struct ComposeDocument {
    pub path: String,
    pub content: String,
}

/// Synthesizes the deployment manifest for one service: recomputes the build
/// context from the repository root and the slug, never trusting a context
/// present in the loaded definition, wraps the container under the constant
/// service key "app", and pins both the manifest text and its destination
/// path "{compose_directory}/{slug}.yaml", byte for byte.
pub fn generate_compose(
    repo_directory: &str,
    compose_directory: &str,
    slug: &str,
    container_config: &Container,
) -> (m: ComposeDocument)
    ensures
        m.path@ == compose_file_path(compose_directory@, slug@),
        m.content@ == manifest_text(
            container_config@.with_context(computed_context(repo_directory@, slug@)),
        ),
{
    let mut context = String::from_str(".");
    context.append(repo_directory);
    context.append("/");
    context.append(slug);
    proof {
        assert(context@ =~= computed_context(repo_directory@, slug@));
    }
    let container = Container {
        name: clone_string(&container_config.name),
        image: clone_string(&container_config.image),
        build: Build {
            context,
            args: clone_opt_string_vec(&container_config.build.args),
            dockerfile: clone_string(&container_config.build.dockerfile),
        },
        restart: clone_string(&container_config.restart),
        user: clone_opt_string(&container_config.user),
        stdin_open: container_config.stdin_open,
        tty: container_config.tty,
        ports: clone_string_vec(&container_config.ports),
        volumes: clone_opt_string_vec(&container_config.volumes),
        environment: clone_opt_string_vec(&container_config.environment),
    };
    proof {
        assert(container@ == container_config@.with_context(
            computed_context(repo_directory@, slug@),
        ));
    }
    let mut services: Vec<(String, Container)> = Vec::new();
    services.push((String::from_str("app"), container));
    let compose = ComposeConfiguation { services };
    proof {
        assert(compose.wf());
    }
    let content = render_compose(&compose);
    proof {
        assert(compose.services@.drop_last() =~= Seq::<(String, Container)>::empty());
        assert(services_blocks(Seq::<(String, Container)>::empty()) == Seq::<char>::empty());
        assert(services_blocks(compose.services@) =~= service_block(
            "app"@,
            container_config@.with_context(computed_context(repo_directory@, slug@)),
        ));
        assert(content@ =~= manifest_text(
            container_config@.with_context(computed_context(repo_directory@, slug@)),
        ));
    }
    let mut path = String::from_str(compose_directory);
    path.append("/");
    path.append(slug);
    path.append(".yaml");
    proof {
        assert(path@ =~= compose_file_path(compose_directory@, slug@));
    }
    ComposeDocument { path, content }
}

/// The directory every synthesized manifest is kept under.
pub open spec fn default_compose_dir() -> Seq<char> {
    "./compose_files"@
}

/// The manifest path for `slug` under the default manifest directory: the
/// restart and stop flows reconstruct this from the slug alone, without
/// re-synthesizing the manifest.
pub fn expected_compose_path(slug: &str) -> (p: String)
    ensures
        p@ == compose_file_path(default_compose_dir(), slug@),
{
    let mut p = String::from_str("./compose_files");
    p.append("/");
    p.append(slug);
    p.append(".yaml");
    proof {
        assert(p@ =~= compose_file_path(default_compose_dir(), slug@));
    }
    p
}

/// Synthesis is deterministic: identical repository root, slug, and container
/// definition give byte-identical manifest text and destination path.
pub proof fn lemma_synthesis_deterministic(
    c1: ContainerModel,
    c2: ContainerModel,
    root1: Seq<char>,
    root2: Seq<char>,
    dir1: Seq<char>,
    dir2: Seq<char>,
    slug1: Seq<char>,
    slug2: Seq<char>,
)
    requires
        c1 == c2,
        root1 == root2,
        dir1 == dir2,
        slug1 == slug2,
    ensures
        manifest_text(c1.with_context(computed_context(root1, slug1))) == manifest_text(
            c2.with_context(computed_context(root2, slug2)),
        ),
        compose_file_path(dir1, slug1) == compose_file_path(dir2, slug2),
{
}

/// The supplied build context never reaches the manifest: replacing it by
/// anything else synthesizes a byte-identical text, and the context the
/// manifest carries is exactly the computed one.
pub proof fn lemma_supplied_context_ignored(
    c: ContainerModel,
    supplied: Seq<char>,
    context: Seq<char>,
)
    ensures
        manifest_text(c.with_context(context)) == manifest_text(
            (ContainerModel { context: supplied, ..c }).with_context(context),
        ),
        c.with_context(context).context == context,
{
}

} // verus!
