//! Where the editor's web resources are looked for inside an installed VST3 bundle,
//! and how a found file is turned into a `file:` URL.
use vstd::prelude::*;
use crate::winpath::{spec_windows_join, windows_join_of};

verus! {

/// The path conventions of the host platform.
#[derive(Clone, Copy, PartialEq, Eq, Debug)]
pub enum PathStyle {
    /// Components are separated by `\`; `/` is accepted as a separator too.
    Windows,
    /// Components are separated by `/`.
    Unix,
}

/// `base` extended by `comp` as `Path::join` extends it: on Unix an absolute `comp`
/// (starting with `/`) replaces `base`, and otherwise a `/` goes between them unless
/// `base` is empty or already ends in one; on Windows as [`spec_windows_join`] says.
pub open spec fn spec_join(style: PathStyle, base: Seq<char>, comp: Seq<char>) -> Seq<char> {
    match style {
        PathStyle::Unix => {
            if comp.len() > 0 && comp[0] == '/' {
                comp
            } else if base.len() == 0 || base.last() == '/' {
                base + comp
            } else {
                base.push('/') + comp
            }
        },
        PathStyle::Windows => spec_windows_join(base, comp),
    }
}

/// `path` with every `\` replaced by `/`.
pub open spec fn forward_slashes(path: Seq<char>) -> Seq<char> {
    path.map_values(|c: char| if c == '\\' { '/' } else { c })
}

/// The `file:` URL of a path: `file:///` followed by the path with forward slashes.
pub open spec fn spec_file_url(path: Seq<char>) -> Seq<char> {
    "file:///"@ + forward_slashes(path)
}

/// `<vst3_dir>/<plugin>.vst3/Contents/Resources/<resource>`.
pub open spec fn spec_bundle_resource_path(
    style: PathStyle,
    vst3_dir: Seq<char>,
    plugin_name: Seq<char>,
    resource: Seq<char>,
) -> Seq<char> {
    spec_join(
        style,
        spec_join(
            style,
            spec_join(style, spec_join(style, vst3_dir, plugin_name + ".vst3"@), "Contents"@),
            "Resources"@,
        ),
        resource,
    )
}

/// Appends one character (`String::push`).
#[verifier::external_body]
pub(crate) fn push_char(s: &mut String, c: char)
    ensures
        final(s)@ == old(s)@.push(c),
{
    s.push(c);
}

/// The characters of `s`.
fn chars_of(s: &str) -> (r: Vec<char>)
    ensures
        r@ == s@,
{
    let mut v: Vec<char> = Vec::new();
    for c in it: s.chars()
        invariant
            it.seq() == s@,
            v@ == s@.take(it.index() as int),
    {
        v.push(c);
        assert(s@.take(it.index() + 1) == s@.take(it.index() as int).push(c));
    }
    assert(s@.take(s@.len() as int) =~= s@);
    v
}

/// Extends `base` by `comp` in the given path style, as [`spec_join`] describes.
pub fn join_path(style: PathStyle, base: &str, comp: &str) -> (r: String)
    ensures
        r@ == spec_join(style, base@, comp@),
{
    let b = chars_of(base);
    let c = chars_of(comp);
    match style {
        PathStyle::Unix => {
            if c.len() > 0 && c[0] == '/' {
                return String::from_str(comp);
            }
            let mut out = String::from_str(base);
            if b.len() > 0 && b[b.len() - 1] != '/' {
                push_char(&mut out, '/');
            }
            out.append(comp);
            out
        },
        PathStyle::Windows => windows_join_of(&b, &c, base, comp),
    }
}

/// Turns a path into a `file:` URL: `file:///` followed by the path, with every `\`
/// replaced by `/`.
pub fn path_to_file_url(path: &str) -> (r: String)
    ensures
        r@ == spec_file_url(path@),
{
    let mut out = String::from_str("file:///");
    proof {
        reveal_strlit("file:///");
    }
    let ghost prefix = out@;
    for c in it: path.chars()
        invariant
            it.seq() == path@,
            out@ == prefix + forward_slashes(path@.take(it.index() as int)),
    {
        if c == '\\' {
            push_char(&mut out, '/');
        } else {
            push_char(&mut out, c);
        }
        assert(path@.take(it.index() + 1) == path@.take(it.index() as int).push(c));
        assert(forward_slashes(path@.take(it.index() + 1)) =~= forward_slashes(
            path@.take(it.index() as int),
        ).push(if c == '\\' { '/' } else { c }));
    }
    assert(path@.take(path@.len() as int) =~= path@);
    out
}

/// The system-wide VST3 folder under `%ProgramFiles%`: `<root>\Common Files\VST3`.
pub open spec fn spec_windows_system_vst3_dir(program_files: Seq<char>) -> Seq<char> {
    spec_join(PathStyle::Windows, spec_join(PathStyle::Windows, program_files, "Common Files"@), "VST3"@)
}

/// The per-user VST3 folder under `%LOCALAPPDATA%`: `<root>\Programs\Common\VST3`.
pub open spec fn spec_windows_user_vst3_dir(local_app_data: Seq<char>) -> Seq<char> {
    spec_join(
        PathStyle::Windows,
        spec_join(PathStyle::Windows, spec_join(PathStyle::Windows, local_app_data, "Programs"@), "Common"@),
        "VST3"@,
    )
}

/// The per-user VST3 folder on macOS: `<home>/Library/Audio/Plug-Ins/VST3`.
pub open spec fn spec_macos_user_vst3_dir(home: Seq<char>) -> Seq<char> {
    spec_join(PathStyle::Unix, home, "Library/Audio/Plug-Ins/VST3"@)
}

/// The Windows places to look for `resource`, in order: under `%ProgramFiles%`, then
/// under `%LOCALAPPDATA%`, each only where that variable is set.
pub open spec fn spec_windows_candidates(
    plugin_name: Seq<char>,
    resource: Seq<char>,
    program_files: Option<Seq<char>>,
    local_app_data: Option<Seq<char>>,
) -> Seq<Seq<char>> {
    let first: Seq<Seq<char>> = match program_files {
        Some(root) => seq![
            spec_bundle_resource_path(PathStyle::Windows, spec_windows_system_vst3_dir(root), plugin_name, resource),
        ],
        None => seq![],
    };
    let second: Seq<Seq<char>> = match local_app_data {
        Some(root) => seq![
            spec_bundle_resource_path(PathStyle::Windows, spec_windows_user_vst3_dir(root), plugin_name, resource),
        ],
        None => seq![],
    };
    first + second
}

/// The macOS places to look for `resource`, in order: the system-wide
/// `/Library/Audio/Plug-Ins/VST3`, then the one under `$HOME` where that is set.
pub open spec fn spec_macos_candidates(
    plugin_name: Seq<char>,
    resource: Seq<char>,
    home: Option<Seq<char>>,
) -> Seq<Seq<char>> {
    let system = spec_bundle_resource_path(
        PathStyle::Unix,
        "/Library/Audio/Plug-Ins/VST3"@,
        plugin_name,
        resource,
    );
    match home {
        Some(h) => seq![
            system,
            spec_bundle_resource_path(PathStyle::Unix, spec_macos_user_vst3_dir(h), plugin_name, resource),
        ],
        None => seq![system],
    }
}

/// The path of `resource` inside the bundle `<plugin_name>.vst3` installed in `vst3_dir`.
pub fn bundle_resource_path(style: PathStyle, vst3_dir: &str, plugin_name: &str, resource: &str) -> (r: String)
    ensures
        r@ == spec_bundle_resource_path(style, vst3_dir@, plugin_name@, resource@),
{
    let bundle_name = String::from_str(plugin_name).concat(".vst3");
    let p = join_path(style, vst3_dir, bundle_name.as_str());
    let p = join_path(style, p.as_str(), "Contents");
    let p = join_path(style, p.as_str(), "Resources");
    join_path(style, p.as_str(), resource)
}

/// The Windows candidate paths of `resource`, given the values of the `ProgramFiles` and
/// `LOCALAPPDATA` environment variables (`None` where unset).
pub fn windows_candidates(
    plugin_name: &str,
    resource: &str,
    program_files: Option<&str>,
    local_app_data: Option<&str>,
) -> (r: Vec<String>)
    ensures
        r@.map_values(|p: String| p@) == spec_windows_candidates(
            plugin_name@,
            resource@,
            match program_files { Some(s) => Some(s@), None => None },
            match local_app_data { Some(s) => Some(s@), None => None },
        ),
{
    let mut v: Vec<String> = Vec::new();
    if let Some(root) = program_files {
        let dir = join_path(PathStyle::Windows, root, "Common Files");
        let dir = join_path(PathStyle::Windows, dir.as_str(), "VST3");
        v.push(bundle_resource_path(PathStyle::Windows, dir.as_str(), plugin_name, resource));
    }
    if let Some(root) = local_app_data {
        let dir = join_path(PathStyle::Windows, root, "Programs");
        let dir = join_path(PathStyle::Windows, dir.as_str(), "Common");
        let dir = join_path(PathStyle::Windows, dir.as_str(), "VST3");
        v.push(bundle_resource_path(PathStyle::Windows, dir.as_str(), plugin_name, resource));
    }
    proof {
        let pf = match program_files { Some(s) => Some(s@), None => None };
        let la = match local_app_data { Some(s) => Some(s@), None => None };
        assert(v@.map_values(|p: String| p@) =~= spec_windows_candidates(plugin_name@, resource@, pf, la));
    }
    v
}

/// The macOS candidate paths of `resource`, given the value of the `HOME` environment
/// variable (`None` where unset).
pub fn macos_candidates(plugin_name: &str, resource: &str, home: Option<&str>) -> (r: Vec<String>)
    ensures
        r@.map_values(|p: String| p@) == spec_macos_candidates(
            plugin_name@,
            resource@,
            match home { Some(s) => Some(s@), None => None },
        ),
{
    let mut v: Vec<String> = Vec::new();
    v.push(bundle_resource_path(PathStyle::Unix, "/Library/Audio/Plug-Ins/VST3", plugin_name, resource));
    if let Some(h) = home {
        let dir = join_path(PathStyle::Unix, h, "Library/Audio/Plug-Ins/VST3");
        v.push(bundle_resource_path(PathStyle::Unix, dir.as_str(), plugin_name, resource));
    }
    proof {
        let hv = match home { Some(s) => Some(s@), None => None };
        assert(v@.map_values(|p: String| p@) =~= spec_macos_candidates(plugin_name@, resource@, hv));
    }
    v
}

/// A candidate path together with whether a file exists there.
pub struct ResourceCandidate {
    pub path: String,
    pub exists: bool,
}

/// The URL that [`bundle_resource_url`] gives for the candidates `cands`, given as
/// pairs of path and existence: the `file:` URL of the first existing one, or
/// `resource` itself where none exists.
pub open spec fn spec_bundle_resource_url(cands: Seq<(Seq<char>, bool)>, resource: Seq<char>) -> Seq<char>
    decreases cands.len(),
{
    if cands.len() == 0 {
        resource
    } else if cands[0].1 {
        spec_file_url(cands[0].0)
    } else {
        spec_bundle_resource_url(cands.drop_first(), resource)
    }
}

/// The candidates as plain values.
pub open spec fn candidates_view(cands: Seq<ResourceCandidate>) -> Seq<(Seq<char>, bool)> {
    cands.map_values(|c: ResourceCandidate| (c.path@, c.exists))
}

/// The URL of `resource` inside the installed bundle: the `file:` URL of the first
/// candidate that exists, or `resource` unchanged where none does.
pub fn bundle_resource_url(candidates: &Vec<ResourceCandidate>, resource: &str) -> (r: String)
    ensures
        r@ == spec_bundle_resource_url(candidates_view(candidates@), resource@),
        forall|k: int|
            0 <= k < candidates@.len() && #[trigger] candidates@[k].exists && (forall|j: int|
                0 <= j < k ==> !candidates@[j].exists) ==> r@ == spec_file_url(candidates@[k].path@),
        (forall|j: int| 0 <= j < candidates@.len() ==> !#[trigger] candidates@[j].exists) ==> r@ == resource@,
{
    let r = first_existing_url(candidates, resource);
    proof {
        let cv = candidates_view(candidates@);
        law_first_existing_candidate(cv, resource@);
        assert forall|k: int| 0 <= k < candidates@.len() implies #[trigger] cv[k] == (
            candidates@[k].path@,
            candidates@[k].exists,
        ) by {}
        assert forall|k: int|
            0 <= k < candidates@.len() && #[trigger] candidates@[k].exists && (forall|j: int|
                0 <= j < k ==> !candidates@[j].exists) implies spec_bundle_resource_url(cv, resource@)
            == spec_file_url(candidates@[k].path@) by {
            assert(cv[k].1);
            assert forall|j: int| 0 <= j < k implies !cv[j].1 by {
                assert(cv[j] == (candidates@[j].path@, candidates@[j].exists));
            }
        }
        if forall|j: int| 0 <= j < candidates@.len() ==> !#[trigger] candidates@[j].exists {
            assert forall|j: int| 0 <= j < cv.len() implies !#[trigger] cv[j].1 by {
                assert(cv[j] == (candidates@[j].path@, candidates@[j].exists));
            }
        }
    }
    r
}

/// See [`bundle_resource_url`].
fn first_existing_url(candidates: &Vec<ResourceCandidate>, resource: &str) -> (r: String)
    ensures
        r@ == spec_bundle_resource_url(candidates_view(candidates@), resource@),
{
    let ghost all = candidates_view(candidates@);
    assert(all.skip(0) =~= all);
    let mut i: usize = 0;
    while i < candidates.len()
        invariant
            i <= candidates.len(),
            all == candidates_view(candidates@),
            spec_bundle_resource_url(all, resource@) == spec_bundle_resource_url(all.skip(i as int), resource@),
        decreases candidates.len() - i,
    {
        let c = &candidates[i];
        assert(all.skip(i as int)[0] == (c.path@, c.exists));
        if c.exists {
            return path_to_file_url(c.path.as_str());
        }
        assert(all.skip(i as int).drop_first() =~= all.skip(i + 1));
        i = i + 1;
    }
    assert(all.skip(i as int).len() == 0);
    String::from_str(resource)
}

/// A `file:` URL starts with `file:///` and holds no backslash.
pub proof fn law_file_url_shape(path: Seq<char>)
    ensures
        spec_file_url(path).len() == path.len() + 8,
        spec_file_url(path).take(8) == "file:///"@,
        forall|i: int| 0 <= i < spec_file_url(path).len() ==> spec_file_url(path)[i] != '\\',
{
    reveal_strlit("file:///");
    let u = spec_file_url(path);
    assert(u.take(8) =~= "file:///"@);
    assert forall|i: int| 0 <= i < u.len() implies u[i] != '\\' by {
        if i >= 8 {
            assert(u[i] == forward_slashes(path)[i - 8]);
        }
    }
}

/// The resource is found at the first existing candidate, wherever it stands in the list
/// (the last one or the only one included); the bare resource name comes back only when
/// no candidate exists.
pub proof fn law_first_existing_candidate(cands: Seq<(Seq<char>, bool)>, resource: Seq<char>)
    ensures
        forall|k: int|
            0 <= k < cands.len() && #[trigger] cands[k].1 && (forall|j: int| 0 <= j < k ==> !cands[j].1)
                ==> spec_bundle_resource_url(cands, resource) == spec_file_url(cands[k].0),
        (forall|j: int| 0 <= j < cands.len() ==> !#[trigger] cands[j].1) ==> spec_bundle_resource_url(
            cands,
            resource,
        ) == resource,
    decreases cands.len(),
{
    if cands.len() > 0 {
        let rest = cands.drop_first();
        law_first_existing_candidate(rest, resource);
        assert forall|k: int|
            0 <= k < cands.len() && #[trigger] cands[k].1 && (forall|j: int| 0 <= j < k ==> !cands[j].1)
            implies spec_bundle_resource_url(cands, resource) == spec_file_url(cands[k].0) by {
            if k > 0 {
                assert(!cands[0].1);
                assert(rest[k - 1] == cands[k]);
                assert forall|j: int| 0 <= j < k - 1 implies !rest[j].1 by {
                    assert(rest[j] == cands[j + 1]);
                }
            }
        }
        if forall|j: int| 0 <= j < cands.len() ==> !#[trigger] cands[j].1 {
            assert forall|j: int| 0 <= j < rest.len() implies !#[trigger] rest[j].1 by {
                assert(rest[j] == cands[j + 1]);
            }
        }
    }
}

} // verus!
