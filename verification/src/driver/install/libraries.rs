//! Installation of library dependencies.
use vstd::prelude::*;

use crate::driver::CompileSketches;
use crate::paths::{file_name_of, path_file_name};
use crate::serde_types::{ManagerEntry, ManagerEntryView, opt_view};
use crate::text::{concat, owned, push_owned, same_text, string_views};

verus! {

/// The name under which a manager dependency is installed: `name@version` for a pinned
/// version; the bare name when no version or "latest" is requested.
pub open spec fn manager_dep_name_of(name: Seq<char>, version: Option<Seq<char>>) -> Seq<char> {
    match version {
        Some(v) => if v != "latest"@ {
            name + "@"@ + v
        } else {
            name
        },
        None => name,
    }
}

/// The name under which a manager dependency is installed (see [`manager_dep_name_of`]).
pub fn manager_dep_name(dep: &ManagerEntry) -> (r: String)
    ensures
        r@ == manager_dep_name_of(dep@.name, dep@.version),
{
    match &dep.version {
        Some(version) => {
            if !same_text(version.as_str(), "latest") {
                let a = concat(dep.name.as_str(), "@");
                concat(a.as_str(), version.as_str())
            } else {
                dep.name.clone()
            }
        },
        None => dep.name.clone(),
    }
}

/// The arguments of `arduino-cli` that install a library from the Library Manager.
pub open spec fn lib_install_args(dep: ManagerEntryView) -> Seq<Seq<char>> {
    seq!["lib"@, "install"@, manager_dep_name_of(dep.name, dep.version)]
}

/// A library is installed by `arduino-cli lib install` under its name, with `@version`
/// appended exactly when a version other than "latest" is pinned: the installed name
/// starts with the library's name, and what follows it is `@` and the pinned version, or
/// nothing.
pub proof fn law_pinned_versions_are_installed(dep: ManagerEntryView)
    ensures
        lib_install_args(dep).len() == 3,
        lib_install_args(dep)[0] == "lib"@,
        lib_install_args(dep)[1] == "install"@,
        lib_install_args(dep)[2].len() >= dep.name.len(),
        lib_install_args(dep)[2].subrange(0, dep.name.len() as int) == dep.name,
        match dep.version {
            Some(v) => if v != "latest"@ {
                lib_install_args(dep)[2].subrange(dep.name.len() as int, lib_install_args(dep)[2].len() as int)
                    == seq!['@'] + v
            } else {
                lib_install_args(dep)[2] == dep.name
            },
            None => lib_install_args(dep)[2] == dep.name,
        },
{
    reveal_strlit("@");
    let n = lib_install_args(dep)[2];
    assert(n.subrange(0, dep.name.len() as int) =~= dep.name);
    if let Some(v) = dep.version {
        if v != "latest"@ {
            assert(n.subrange(dep.name.len() as int, n.len() as int) =~= seq!['@'] + v);
        }
    }
}

/// The `arduino-cli` arguments that install a library from the Library Manager.
pub fn library_install_args(dep: &ManagerEntry) -> (r: Vec<String>)
    ensures
        string_views(r@) == lib_install_args(dep@),
{
    let mut args: Vec<String> = Vec::new();
    push_owned(&mut args, "lib");
    push_owned(&mut args, "install");
    let ghost before = string_views(args@);
    let name = manager_dep_name(dep);
    let ghost n = name@;
    args.push(name);
    assert(string_views(args@) =~= before.push(n));
    assert(string_views(args@) =~= lib_install_args(dep@));
    args
}

/// The destination name of a library installed from a local path: the given name, or,
/// when none is given and the source is the working directory itself, its final component.
pub open spec fn library_path_destination_of(
    name: Option<Seq<char>>,
    resolved_source: Seq<char>,
    cwd: Seq<char>,
) -> Option<Seq<char>> {
    match name {
        Some(n) => Some(n),
        None => if resolved_source == cwd {
            file_name_of(resolved_source)
        } else {
            None
        },
    }
}

/// The destination name of a library installed from a local path (see
/// [`library_path_destination_of`]); `resolved_source` is the canonical source path.
pub fn library_path_destination(name: Option<&str>, resolved_source: &str, cwd: &str) -> (r: Option<
    String,
>)
    ensures
        opt_view(r) == library_path_destination_of(
            match name { Some(n) => Some(n@), None => None },
            resolved_source@,
            cwd@,
        ),
{
    match name {
        Some(n) => Some(owned(n)),
        None => {
            if same_text(resolved_source, cwd) {
                path_file_name(resolved_source)
            } else {
                None
            }
        },
    }
}

/// The path inside a repository or archive to install from: the given one, or `default`.
pub fn source_path_or(source_path: &Option<String>, default: &str) -> (r: String)
    ensures
        r@ == match source_path {
            Some(p) => p@,
            None => default@,
        },
{
    match source_path {
        Some(p) => p.clone(),
        None => owned(default),
    }
}

impl CompileSketches {
    /// The `arduino-cli` commands that install the Library Manager dependencies, one library
    /// at a time in the order given (so that the user controls which version of a shared
    /// dependency ends up installed).
    pub fn library_manager_commands(&self) -> (r: Vec<Vec<String>>)
        ensures
            r@.len() == self.libraries.manager@.len(),
            forall|i: int|
                0 <= i < r@.len() ==> string_views(#[trigger] r@[i]@) == lib_install_args(
                    self.libraries.manager@[i]@,
                ),
    {
        let mut cmds: Vec<Vec<String>> = Vec::new();
        let mut i: usize = 0;
        while i < self.libraries.manager.len()
            invariant
                i <= self.libraries.manager@.len(),
                cmds@.len() == i,
                forall|k: int|
                    0 <= k < i ==> string_views(#[trigger] cmds@[k]@) == lib_install_args(
                        self.libraries.manager@[k]@,
                    ),
            decreases self.libraries.manager.len() - i,
        {
            let args = library_install_args(&self.libraries.manager[i]);
            cmds.push(args);
            i = i + 1;
        }
        cmds
    }
}

} // verus!
