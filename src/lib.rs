//! Resolves a module path such as `a::b::c` against the source tree of a package and
//! returns the declaration items found at that path.
//!
//! The source files come as a [`source::SourceTree`]: the items each file parsed to, by
//! path. Resolution starts at the package's entry file and follows the path through
//! inline blocks, files beside, and subdirectories' index files.

use vstd::prelude::*;

pub mod cursor;
pub mod errors;
pub mod find_dependencies;
pub mod find_mod;
pub mod flags;
pub mod macro_state;
pub mod query;
pub mod source;

use crate::cursor::{ModulePathView, strings_view};
use crate::errors::{CargoQueryError, invalid_crate_error};
use crate::find_mod::find_mod_outcome;
use crate::flags::Flags;
use crate::query::{Crate, Query, QueryEnvironment, QueryType, package_root_spec, query_cargo_src_core};
use crate::source::Item;

verus! {

/// Finds the items of the module at `path` in the package `crate_name`, reading from
/// `env`. Fails when the package is unknown, or as resolving the path does.
pub fn get_module<'a>(flags: Flags, crate_name: Crate, path: Vec<String>, env: &'a QueryEnvironment) -> (r:
    Result<&'a Vec<Item>, CargoQueryError>)
    ensures
        match package_root_spec(*env, crate_name) {
            Err(name) => r matches Err(e) && e@ == invalid_crate_error(name),
            Ok(root) => find_mod_outcome(
                env.sources.files@,
                root,
                ModulePathView { segments: strings_view(path@), position: 0 },
                r,
            ),
        },
{
    query_cargo_src_core(flags, Query { crate_name, path, query_type: QueryType::Mod }, env)
}

/// The sum of two sizes.
pub fn add(left: usize, right: usize) -> (r: usize)
    requires
        left + right <= usize::MAX,
    ensures
        r == left + right,
{
    left + right
}

} // verus!
