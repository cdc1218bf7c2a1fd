//! Queries: which package to search, and where its sources lie.

use vstd::prelude::*;
use crate::cursor::{ModulePath, ModulePathView, strings_view};
use crate::errors::{CargoQueryError, invalid_crate_error};
use crate::find_dependencies::Definition;
use crate::find_mod::{find_mod_in_crate, find_mod_outcome};
use crate::flags::Flags;
use crate::source::{Item, SourceTree};

verus! {

/// The package a query searches.
pub enum Crate {
    /// The package the query is made from.
    Internal,
    /// A dependency, by name.
    External(String),
}

/// What a query asks for.
pub enum QueryType {
    /// A definition of a kind, by name.
    Definition(String, Definition),
    /// The items of a module.
    Mod,
}

/// A query: a package, a path of module names within it, and what to find there.
pub struct Query {
    pub crate_name: Crate,
    pub path: Vec<String>,
    pub query_type: QueryType,
}

/// A package as the package metadata lists it: its name and the path of its manifest.
#[derive(Clone, PartialEq, Eq, Debug)]
pub struct PackageInfo {
    pub name: String,
    pub manifest_path: String,
}

/// What a query reads: the directory of the package it is made from, the packages the
/// metadata lists, and the source files.
pub struct QueryEnvironment {
    pub manifest_dir: String,
    pub packages: Vec<PackageInfo>,
    pub sources: SourceTree,
}

/// The first package of `packages` named `name`.
pub open spec fn find_package(packages: Seq<PackageInfo>, name: Seq<char>) -> Option<PackageInfo>
    decreases packages.len(),
{
    if packages.len() == 0 {
        None
    } else if packages[0].name@ == name {
        Some(packages[0])
    } else {
        find_package(packages.drop_first(), name)
    }
}

/// The index of the last `/` among the first `i` characters of `p`, or -1 if there is none.
pub open spec fn slash_before(p: Seq<char>, i: int) -> int
    decreases i,
{
    if i <= 0 {
        -1
    } else if p[i - 1] == '/' {
        i - 1
    } else {
        slash_before(p, i - 1)
    }
}

/// The path `p` without its last component: what precedes its last `/`, or `/` itself
/// when that is the first character; empty when there is no `/`.
pub open spec fn parent_dir(p: Seq<char>) -> Seq<char> {
    let k = slash_before(p, p.len() as int);
    if k < 0 {
        Seq::empty()
    } else if k == 0 {
        p.take(1)
    } else {
        p.take(k)
    }
}

/// The root directory a query searches: the directory of the package the query is made
/// from, or that of the named dependency's manifest; the name if no package has it.
pub open spec fn package_root_spec(env: QueryEnvironment, crate_name: Crate) -> Result<Seq<char>, Seq<char>> {
    match crate_name {
        Crate::Internal => Ok(env.manifest_dir@),
        Crate::External(name) => match find_package(env.packages@, name@) {
            Some(p) => Ok(parent_dir(p.manifest_path@)),
            None => Err(name@),
        },
    }
}

/// `path` without its last component.
fn parent_directory(path: &String) -> (r: String)
    ensures
        r@ == parent_dir(path@),
{
    let s = path.as_str();
    let n = s.unicode_len();
    let mut i: usize = n;
    while i > 0 && s.get_char(i - 1) != '/'
        invariant
            i <= n,
            n == s@.len(),
            s@ == path@,
            slash_before(s@, n as int) == slash_before(s@, i as int),
        decreases i,
    {
        i = i - 1;
    }
    if i == 0 {
        String::new()
    } else if i == 1 {
        String::from_str(s.substring_char(0, 1))
    } else {
        String::from_str(s.substring_char(0, i - 1))
    }
}

/// The root directory of the dependency named `src_crate`: the directory of its manifest.
pub fn get_cargo_metadata_src_path(packages: &Vec<PackageInfo>, src_crate: &String) -> (r: Result<
    String,
    CargoQueryError,
>)
    ensures
        match find_package(packages@, src_crate@) {
            Some(p) => r matches Ok(root) && root@ == parent_dir(p.manifest_path@),
            None => r matches Err(e) && e@ == invalid_crate_error(src_crate@),
        },
{
    let mut i: usize = 0;
    assert(packages@.subrange(0, packages@.len() as int) =~= packages@);
    while i < packages.len()
        invariant
            i <= packages@.len(),
            find_package(packages@, src_crate@) == find_package(
                packages@.subrange(i as int, packages@.len() as int),
                src_crate@,
            ),
        decreases packages@.len() - i,
    {
        proof {
            assert(packages@.subrange(i as int, packages@.len() as int).drop_first()
                =~= packages@.subrange(i + 1, packages@.len() as int));
        }
        let package = &packages[i];
        if package.name == *src_crate {
            return Ok(parent_directory(&package.manifest_path));
        }
        i = i + 1;
    }
    Err(crate::errors::invalid_crate_name(src_crate))
}

/// Finds the items of the module that `query` names. The options in `flags` are carried
/// but none changes the result yet.
pub fn query_cargo_src_core<'a>(flags: Flags, query: Query, env: &'a QueryEnvironment) -> (r: Result<
    &'a Vec<Item>,
    CargoQueryError,
>)
    requires
        query.query_type is Mod,
    ensures
        match package_root_spec(*env, query.crate_name) {
            Err(name) => r matches Err(e) && e@ == invalid_crate_error(name),
            Ok(root) => find_mod_outcome(
                env.sources.files@,
                root,
                ModulePathView { segments: strings_view(query.path@), position: 0 },
                r,
            ),
        },
{
    let Query { crate_name, path, query_type: _ } = query;
    let crate_src_path = match crate_name {
        Crate::Internal => env.manifest_dir.clone(),
        Crate::External(src_crate_name) => match get_cargo_metadata_src_path(&env.packages, &src_crate_name) {
            Ok(root) => root,
            Err(e) => {
                return Err(e);
            },
        },
    };
    find_mod_in_crate(&env.sources, &crate_src_path, ModulePath::new(path))
}

} // verus!
