use vstd::prelude::*;
use vstd::string::*;
use crate::text::{concat2, join_path, join_spec, same_text};

verus! {

/// What a link directive means.
pub enum LinkEntry {
    SearchPath(Seq<char>),
    StaticLib(Seq<char>),
    Lib(Seq<char>),
}

/// One instruction for the consuming linker; their order matters.
#[derive(Debug, Clone)]
pub enum LinkDirective {
    /// A native library search path.
    SearchPath(String),
    /// A static library, by name.
    StaticLib(String),
    /// A library of the default kind, by name.
    Lib(String),
}

impl View for LinkDirective {
    type V = LinkEntry;

    open spec fn view(&self) -> LinkEntry {
        match self {
            LinkDirective::SearchPath(p) => LinkEntry::SearchPath(p@),
            LinkDirective::StaticLib(n) => LinkEntry::StaticLib(n@),
            LinkDirective::Lib(n) => LinkEntry::Lib(n@),
        }
    }
}

/// The meanings of a sequence of directives, in order.
pub open spec fn entries_of(v: Seq<LinkDirective>) -> Seq<LinkEntry> {
    v.map_values(|d: LinkDirective| d@)
}

/// How a system dependency's link flags were found.
#[derive(Debug, Clone, Copy, PartialEq, Eq, Structural)]
pub enum Provenance {
    /// The metadata probe succeeded and emitted its own flags.
    Probed,
    /// The probe failed; the library is named directly and found on the
    /// linker's default search path.
    Assumed,
}

/// What a system dependency contributes: the probed search paths and then the
/// probed libraries, or the library by its name when the probe failed.
pub open spec fn dependency_spec(name: Seq<char>, probe: Option<(Seq<String>, Seq<String>)>) -> Seq<
    LinkEntry,
> {
    match probe {
        Some((paths, libs)) => paths.map_values(|p: String| LinkEntry::SearchPath(p@))
            + libs.map_values(|l: String| LinkEntry::Lib(l@)),
        None => seq![LinkEntry::Lib(name)],
    }
}

/// The provenance and the directives of a system dependency, from the
/// metadata probe's search paths and libraries (`None` when it failed).
pub fn dependency_directives(name: &str, probe: &Option<(Vec<String>, Vec<String>)>) -> (r: (
    Provenance,
    Vec<LinkDirective>,
))
    ensures
        r.0 == (if probe.is_some() { Provenance::Probed } else { Provenance::Assumed }),
        entries_of(r.1@) == dependency_spec(
            name@,
            match probe {
                Some((p, l)) => Some((p@, l@)),
                None => None,
            },
        ),
{
    let mut r: Vec<LinkDirective> = Vec::new();
    match probe {
        None => {
            push_directive(&mut r, LinkDirective::Lib(String::from_str(name)));
            proof {
                assert(entries_of(r@) =~= seq![LinkEntry::Lib(name@)]);
            }
            (Provenance::Assumed, r)
        },
        Some((paths, libs)) => {
            let ghost ps = paths@.map_values(|p: String| LinkEntry::SearchPath(p@));
            let ghost ls = libs@.map_values(|l: String| LinkEntry::Lib(l@));
            let mut i: usize = 0;
            while i < paths.len()
                invariant
                    i <= paths.len(),
                    ps == paths@.map_values(|p: String| LinkEntry::SearchPath(p@)),
                    entries_of(r@) == ps.subrange(0, i as int),
                decreases paths.len() - i,
            {
                push_directive(&mut r, LinkDirective::SearchPath(paths[i].clone()));
                assert(ps.subrange(0, i as int + 1) =~= ps.subrange(0, i as int).push(ps[i as int]));
                i += 1;
            }
            assert(ps.subrange(0, paths.len() as int) =~= ps);
            let mut j: usize = 0;
            while j < libs.len()
                invariant
                    j <= libs.len(),
                    ls == libs@.map_values(|l: String| LinkEntry::Lib(l@)),
                    entries_of(r@) == ps + ls.subrange(0, j as int),
                decreases libs.len() - j,
            {
                push_directive(&mut r, LinkDirective::Lib(libs[j].clone()));
                assert(ls.subrange(0, j as int + 1) =~= ls.subrange(0, j as int).push(ls[j as int]));
                assert(ps + ls.subrange(0, j as int + 1) =~= (ps + ls.subrange(0, j as int)).push(ls[j as int]));
                j += 1;
            }
            assert(ls.subrange(0, libs.len() as int) =~= ls);
            (Provenance::Probed, r)
        },
    }
}

/// What the link needs, in order.
pub open spec fn link_plan_spec(
    runtime_lib_dir: Option<Seq<char>>,
    build_dir: Seq<char>,
    obj_dir: Option<Seq<char>>,
    dependency: Seq<LinkEntry>,
    target_os: Seq<char>,
) -> Seq<LinkEntry> {
    let toolchain = match runtime_lib_dir {
        Some(d) => seq![LinkEntry::SearchPath(d)],
        None => Seq::empty(),
    };
    let core = seq![
        LinkEntry::SearchPath(join_spec(build_dir, "bin"@)),
        LinkEntry::StaticLib("builder-core"@),
    ];
    let objects = match obj_dir {
        Some(o) => seq![LinkEntry::SearchPath(o), LinkEntry::StaticLib("builder-c"@)],
        None => Seq::empty(),
    };
    let platform = if target_os == "macos"@ {
        seq![
            LinkEntry::SearchPath("/opt/homebrew/lib"@),
            LinkEntry::SearchPath("/usr/local/lib"@),
            LinkEntry::Lib("c++"@),
        ]
    } else {
        Seq::empty()
    };
    let runtime = seq![LinkEntry::Lib("phobos2-ldc"@), LinkEntry::Lib("druntime-ldc"@)];
    toolchain + core + objects + dependency + platform + runtime
}

/// A copy of a directive, with the same meaning.
pub fn copy_directive(d: &LinkDirective) -> (r: LinkDirective)
    ensures
        r@ == d@,
{
    match d {
        LinkDirective::SearchPath(p) => LinkDirective::SearchPath(p.clone()),
        LinkDirective::StaticLib(n) => LinkDirective::StaticLib(n.clone()),
        LinkDirective::Lib(n) => LinkDirective::Lib(n.clone()),
    }
}

fn push_directive(v: &mut Vec<LinkDirective>, d: LinkDirective)
    ensures
        entries_of(final(v)@) == entries_of(old(v)@).push(d@),
{
    let ghost e = d@;
    v.push(d);
    assert(entries_of(v@) =~= entries_of(old(v)@).push(e));
}

/// The link directives, in order: the installed toolchain's runtime library
/// directory, if one was installed; the compiled library; the object archive,
/// if one was built (`obj_dir`); the system dependency's directives; the extra
/// paths and C++ runtime on macOS; the two runtime libraries.
pub fn link_plan(
    runtime_lib_dir: &Option<String>,
    build_dir: &str,
    obj_dir: &Option<String>,
    dependency: &Vec<LinkDirective>,
    target_os: &str,
) -> (r: Vec<LinkDirective>)
    ensures
        entries_of(r@) == link_plan_spec(
            match runtime_lib_dir {
                Some(d) => Some(d@),
                None => None,
            },
            build_dir@,
            match obj_dir {
                Some(o) => Some(o@),
                None => None,
            },
            entries_of(dependency@),
            target_os@,
        ),
{
    let mut r: Vec<LinkDirective> = Vec::new();
    match runtime_lib_dir {
        Some(d) => push_directive(&mut r, LinkDirective::SearchPath(d.clone())),
        None => {},
    }
    push_directive(&mut r, LinkDirective::SearchPath(join_path(build_dir, "bin")));
    push_directive(&mut r, LinkDirective::StaticLib(String::from_str("builder-core")));
    match obj_dir {
        Some(o) => {
            push_directive(&mut r, LinkDirective::SearchPath(o.clone()));
            push_directive(&mut r, LinkDirective::StaticLib(String::from_str("builder-c")));
        },
        None => {},
    }
    let ghost before = entries_of(r@);
    let mut k: usize = 0;
    while k < dependency.len()
        invariant
            k <= dependency.len(),
            entries_of(r@) == before + entries_of(dependency@).subrange(0, k as int),
        decreases dependency.len() - k,
    {
        push_directive(&mut r, copy_directive(&dependency[k]));
        assert(entries_of(dependency@).subrange(0, k as int + 1) =~= entries_of(dependency@).subrange(
            0,
            k as int,
        ).push(dependency@[k as int]@));
        k += 1;
    }
    if same_text(target_os, "macos") {
        push_directive(&mut r, LinkDirective::SearchPath(String::from_str("/opt/homebrew/lib")));
        push_directive(&mut r, LinkDirective::SearchPath(String::from_str("/usr/local/lib")));
        push_directive(&mut r, LinkDirective::Lib(String::from_str("c++")));
    }
    push_directive(&mut r, LinkDirective::Lib(String::from_str("phobos2-ldc")));
    push_directive(&mut r, LinkDirective::Lib(String::from_str("druntime-ldc")));
    proof {
        let spec = link_plan_spec(
            match runtime_lib_dir {
                Some(d) => Some(d@),
                None => None,
            },
            build_dir@,
            match obj_dir {
                Some(o) => Some(o@),
                None => None,
            },
            entries_of(dependency@),
            target_os@,
        );
        assert(entries_of(dependency@).subrange(0, dependency.len() as int) =~= entries_of(dependency@));
        assert(entries_of(r@) =~= spec);
    }
    r
}

/// The text of a directive in the host build graph's line protocol.
pub open spec fn render_spec(e: LinkEntry) -> Seq<char> {
    match e {
        LinkEntry::SearchPath(p) => "cargo:rustc-link-search=native="@ + p,
        LinkEntry::StaticLib(n) => "cargo:rustc-link-lib=static="@ + n,
        LinkEntry::Lib(n) => "cargo:rustc-link-lib="@ + n,
    }
}

/// Renders one directive as a line for the host build graph.
pub fn render(d: &LinkDirective) -> (r: String)
    ensures
        r@ == render_spec(d@),
{
    match d {
        LinkDirective::SearchPath(p) => concat2("cargo:rustc-link-search=native=", p.as_str()),
        LinkDirective::StaticLib(n) => concat2("cargo:rustc-link-lib=static=", n.as_str()),
        LinkDirective::Lib(n) => concat2("cargo:rustc-link-lib=", n.as_str()),
    }
}

/// The source locations whose change asks for a new build: the source tree
/// and the two build descriptor files.
pub fn watched_paths(source_root: &str) -> (r: Vec<String>)
    ensures
        r@.len() == 3,
        r@[0]@ == join_spec(source_root@, "source"@),
        r@[1]@ == join_spec(source_root@, "dub.json"@),
        r@[2]@ == join_spec(source_root@, "Makefile"@),
{
    let mut r: Vec<String> = Vec::new();
    r.push(join_path(source_root, "source"));
    r.push(join_path(source_root, "dub.json"));
    r.push(join_path(source_root, "Makefile"));
    r
}

} // verus!
