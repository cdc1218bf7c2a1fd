//! Finding the items of a module from its path.
//!
//! A module is implemented in one of these forms:
//! 1. as the package's entry file, `src/lib.rs`;
//! 2. inline, as `mod name { ... }` within a file or another module block;
//! 3. as a file `name.rs` beside the file that declares `mod name;`;
//! 4. as an index file `name/mod.rs` in a subdirectory of the directory searched.
//!
//! Resolution starts at the entry file and walks the path one segment at a time. For a
//! module declared with `mod name;` the file beside is tried first, and only when it cannot
//! be loaded the subdirectory's index file.

use vstd::prelude::*;
use crate::cursor::{ModulePath, ModulePathView, join_segments};
use crate::errors::{
    CargoQueryError, CargoQueryErrorView, ErrorKindView, MODULE_PATH, SOURCE_PATH, entry_file_message,
    file_message, generic_message, load_error_notes, not_in_file_message, not_in_scope_message,
    notes_view, plain_error,
};
use crate::source::{
    Item, ItemMod, SourceFile, SourceTree, find_mod_spec, find_module_from_scope, join, join_path,
    load_failure, load_spec,
};

verus! {

/// The source directory of the package at `root`.
pub open spec fn src_dir(root: Seq<char>) -> Seq<char> {
    join_path(root, "src"@)
}

/// The entry file of the package at `root`.
pub open spec fn entry_file(root: Seq<char>) -> Seq<char> {
    join_path(src_dir(root), "lib.rs"@)
}

/// The file beside, in `dir`, that implements the module `name`.
pub open spec fn sibling_file(dir: Seq<char>, name: Seq<char>) -> Seq<char> {
    join_path(dir, name + ".rs"@)
}

/// The index file of the subdirectory `dir`.
pub open spec fn index_file(dir: Seq<char>) -> Seq<char> {
    join_path(dir, "mod.rs"@)
}

/// The error a resolution failure of `kind` gives, in the package at `root`.
pub open spec fn failure_view(files: Seq<SourceFile>, root: Seq<char>, kind: ErrorKindView) -> CargoQueryErrorView {
    match kind {
        ErrorKindView::EntryFileUnreadable => CargoQueryErrorView {
            kind,
            message: entry_file_message(),
            notes: load_error_notes(
                load_failure(files, entry_file(root)).0,
                load_failure(files, entry_file(root)).1,
            ),
        },
        ErrorKindView::FileUnreadable(path) => CargoQueryErrorView {
            kind,
            message: file_message(path),
            notes: load_error_notes(load_failure(files, path).0, load_failure(files, path).1),
        },
        ErrorKindView::ModuleNotFoundInScope(m) => plain_error(kind, not_in_scope_message(m)),
        ErrorKindView::ModuleNotFoundInFile(m) => plain_error(kind, not_in_file_message(m)),
        _ => plain_error(kind, generic_message()),
    }
}

/// The items at the end of the path, from a scope whose items are `items`, reached with
/// the cursor at `pos`: the scope's own items when the path ends there, else the items
/// found by moving on to the next segment's module. `in_file` tells an inline block or
/// a file beside (`true`) from a subdirectory's index file (`false`).
pub open spec fn scope_result(
    files: Seq<SourceFile>,
    items: Seq<Item>,
    dir: Seq<char>,
    segs: Seq<Seq<char>>,
    pos: int,
    in_file: bool,
) -> Result<Seq<Item>, ErrorKindView>
    decreases segs.len() - pos, 0int,
{
    if pos + 1 >= segs.len() {
        Ok(items)
    } else {
        match find_mod_spec(items, segs[pos + 1]) {
            None => Err(
                if in_file {
                    ErrorKindView::ModuleNotFoundInFile(segs[pos + 1])
                } else {
                    ErrorKindView::ModuleNotFoundInScope(segs[pos + 1])
                },
            ),
            Some(m) => walk_result(files, m, dir, segs, pos + 1),
        }
    }
}

/// The items at the end of the path from the module `m`, declared in the directory
/// `dir`, with the cursor at `pos` on its name: its inline block if it has one, else the
/// file beside, else the index file of its subdirectory.
pub open spec fn walk_result(
    files: Seq<SourceFile>,
    m: ItemMod,
    dir: Seq<char>,
    segs: Seq<Seq<char>>,
    pos: int,
) -> Result<Seq<Item>, ErrorKindView>
    decreases segs.len() - pos, 1int,
{
    match m.content {
        Some(c) => scope_result(files, c@, dir, segs, pos, true),
        None => match load_spec(files, sibling_file(dir, m.ident@)) {
            Some(items) => scope_result(files, items, dir, segs, pos, true),
            None => {
                let sub = join_path(dir, m.ident@);
                match load_spec(files, index_file(sub)) {
                    Some(items) => scope_result(files, items, sub, segs, pos, false),
                    None => Err(ErrorKindView::FileUnreadable(index_file(sub))),
                }
            },
        },
    }
}

/// The items at the path `segs`, from position `pos` on, in the package at `root`.
pub open spec fn resolve_spec(
    files: Seq<SourceFile>,
    root: Seq<char>,
    segs: Seq<Seq<char>>,
    pos: int,
) -> Result<Seq<Item>, ErrorKindView> {
    match load_spec(files, entry_file(root)) {
        None => Err(ErrorKindView::EntryFileUnreadable),
        Some(items) => if pos >= segs.len() {
            Ok(items)
        } else {
            match find_mod_spec(items, segs[pos]) {
                None => Err(ErrorKindView::ModuleNotFoundInScope(segs[pos])),
                Some(m) => walk_result(files, m, src_dir(root), segs, pos),
            }
        },
    }
}

/// `r` is what `expected` says: the same items, or the error of the same failure.
pub open spec fn outcome(
    files: Seq<SourceFile>,
    root: Seq<char>,
    r: Result<&Vec<Item>, CargoQueryError>,
    expected: Result<Seq<Item>, ErrorKindView>,
) -> bool {
    match r {
        Ok(items) => expected == Ok::<Seq<Item>, ErrorKindView>(items@),
        Err(e) => match expected {
            Ok(_) => false,
            Err(kind) => e@ == failure_view(files, root, kind),
        },
    }
}

/// Where a resolution stands: the package root, the directory searched, and the cursor.
pub struct FindModuleContext {
    pub crate_path: String,
    pub current_directory_path: String,
    pub current_module_path: ModulePath,
}

impl FindModuleContext {
    /// The cursor is well formed and on a segment.
    pub open spec fn on_segment(&self) -> bool {
        &&& self.current_module_path.wf()
        &&& self.current_module_path@.position < self.current_module_path@.segments.len()
    }

    /// The package root.
    pub open spec fn root(&self) -> Seq<char> {
        self.crate_path@
    }

    /// The directory searched.
    pub open spec fn dir(&self) -> Seq<char> {
        self.current_directory_path@
    }

    /// The same resolution, searching `new_directory_path`.
    fn clone_and_update_current_directory_path(&self, new_directory_path: String) -> (r:
        FindModuleContext)
        ensures
            r.root() == self.root(),
            r.dir() == new_directory_path@,
            r.current_module_path@ == self.current_module_path@,
    {
        FindModuleContext {
            crate_path: self.crate_path.clone(),
            current_directory_path: new_directory_path,
            current_module_path: self.current_module_path.duplicate(),
        }
    }
}

/// `r` is what finding the module at the cursor `mod_path` in the package at `root` gives:
/// the items at the path, or the error of the failure with two more notes, the source path
/// and the module path asked for.
pub open spec fn find_mod_outcome(
    files: Seq<SourceFile>,
    root: Seq<char>,
    mod_path: ModulePathView,
    r: Result<&Vec<Item>, CargoQueryError>,
) -> bool {
    let expected = resolve_spec(files, root, mod_path.segments, mod_path.position as int);
    match r {
        Ok(items) => expected == Ok::<Seq<Item>, ErrorKindView>(items@),
        Err(e) => match expected {
            Ok(_) => false,
            Err(kind) => {
                let failure = failure_view(files, root, kind);
                e@ == (CargoQueryErrorView { notes: failure.notes + context_notes(root, mod_path), ..failure })
            },
        },
    }
}

/// Finds the items of the module at `mod_path` in the package at `crate_dir_path`,
/// loading its files from `tree`. A failure carries two more notes: the source path and
/// the module path asked for.
pub fn find_mod_in_crate<'a>(
    tree: &'a SourceTree,
    crate_dir_path: &String,
    mod_path: ModulePath,
) -> (r: Result<&'a Vec<Item>, CargoQueryError>)
    requires
        mod_path.wf(),
    ensures
        find_mod_outcome(tree.files@, crate_dir_path@, mod_path@, r),
{
    let source_path = CargoQueryError::src_path_to_string(crate_dir_path);
    let module_text = CargoQueryError::module_path_to_string(&mod_path);
    match find_mod_in_crate_core(tree, crate_dir_path, mod_path) {
        Ok(items) => Ok(items),
        Err(e) => {
            let notes = vec![
                (String::from_str(SOURCE_PATH), source_path),
                (String::from_str(MODULE_PATH), module_text),
            ];
            let ghost added = notes@;
            let r = e.add_messages(notes);
            proof {
                assert(notes_view(added) =~= context_notes(crate_dir_path@, mod_path@));
            }
            Err(r)
        },
    }
}

/// The notes a failed query gets: where it searched, and the part of the path that was
/// not yet consumed when it started.
pub open spec fn context_notes(root: Seq<char>, mod_path: ModulePathView) -> Seq<
    (Seq<char>, Seq<char>),
> {
    seq![
        (SOURCE_PATH@, root),
        (MODULE_PATH@, join_segments(
            mod_path.segments.subrange(mod_path.position as int, mod_path.segments.len() as int),
        )),
    ]
}

/// Finds the items of the module at `mod_path` in the package at `crate_dir_path`.
pub fn find_mod_in_crate_core<'a>(
    tree: &'a SourceTree,
    crate_dir_path: &String,
    mod_path: ModulePath,
) -> (r: Result<&'a Vec<Item>, CargoQueryError>)
    requires
        mod_path.wf(),
    ensures
        outcome(
            tree.files@,
            crate_dir_path@,
            r,
            resolve_spec(
                tree.files@,
                crate_dir_path@,
                mod_path@.segments,
                mod_path@.position as int,
            ),
        ),
{
    let src_path = join(crate_dir_path, "src");
    let lib_path = join(&src_path, "lib.rs");
    let lib_rs = match tree.parse_file_from_path(&lib_path) {
        Ok(items) => items,
        Err(e) => {
            return Err(CargoQueryError::could_not_process_lib_rs(e));
        },
    };
    let first_module = match mod_path.get_current_module() {
        Some(module) => module,
        None => {
            return Ok(lib_rs);
        },
    };
    let module = match find_module_from_scope(lib_rs, &first_module) {
        Some(m) => m,
        None => {
            return Err(CargoQueryError::could_not_find_module_in_scope(first_module));
        },
    };
    let query_context = FindModuleContext {
        crate_path: crate_dir_path.clone(),
        current_directory_path: src_path,
        current_module_path: mod_path,
    };
    recurse_module_hierarchy(tree, module, query_context)
}

/// Walks on from `module`, whose name is the cursor's current segment: into its inline
/// block if it has one, else into the file beside named after it, else into the index
/// file of the subdirectory named after it.
fn recurse_module_hierarchy<'a>(
    tree: &'a SourceTree,
    module: &'a ItemMod,
    query_context: FindModuleContext,
) -> (r: Result<&'a Vec<Item>, CargoQueryError>)
    requires
        query_context.on_segment(),
    ensures
        outcome(
            tree.files@,
            query_context.root(),
            r,
            walk_result(
                tree.files@,
                *module,
                query_context.dir(),
                query_context.current_module_path@.segments,
                query_context.current_module_path@.position as int,
            ),
        ),
    decreases
            query_context.current_module_path@.segments.len() - query_context.current_module_path@.position,
            2int,
{
    if let Some(content) = &module.content {
        return recurse_inline_mods(tree, content, query_context, true);
    }
    let mut file_name = module.ident.clone();
    file_name.append(".rs");
    let sibling = join(&query_context.current_directory_path, file_name.as_str());
    match tree.parse_file_from_path(&sibling) {
        Ok(items) => recurse_inline_mods(tree, items, query_context, true),
        Err(_) => {
            let sub = join(&query_context.current_directory_path, module.ident.as_str());
            let sub_context = query_context.clone_and_update_current_directory_path(sub);
            recurse_mod_rs(tree, sub_context)
        },
    }
}

/// Loads the index file of the directory searched, then moves on to the next segment.
fn recurse_mod_rs<'a>(tree: &'a SourceTree, query_context: FindModuleContext) -> (r: Result<
    &'a Vec<Item>,
    CargoQueryError,
>)
    requires
        query_context.on_segment(),
    ensures
        outcome(
            tree.files@,
            query_context.root(),
            r,
            match load_spec(tree.files@, index_file(query_context.dir())) {
                Some(items) => scope_result(
                    tree.files@,
                    items,
                    query_context.dir(),
                    query_context.current_module_path@.segments,
                    query_context.current_module_path@.position as int,
                    false,
                ),
                None => Err(ErrorKindView::FileUnreadable(index_file(query_context.dir()))),
            },
        ),
    decreases
            query_context.current_module_path@.segments.len() - query_context.current_module_path@.position,
            1int,
{
    let path_to_mod_rs = join(&query_context.current_directory_path, "mod.rs");
    match tree.parse_file_from_path(&path_to_mod_rs) {
        Ok(items) => recurse_inline_mods(tree, items, query_context, false),
        Err(e) => Err(CargoQueryError::could_not_process_file(&path_to_mod_rs, e)),
    }
}

/// Moves the cursor to the next segment. When the path ends there, `items` are the
/// result; else the next segment's module is looked up among them and walked into. The
/// items are those of an inline block or of a file beside (`in_file`), or of an index
/// file.
fn recurse_inline_mods<'a>(
    tree: &'a SourceTree,
    items: &'a Vec<Item>,
    mut query_context: FindModuleContext,
    in_file: bool,
) -> (r: Result<&'a Vec<Item>, CargoQueryError>)
    requires
        query_context.on_segment(),
    ensures
        outcome(
            tree.files@,
            query_context.root(),
            r,
            scope_result(
                tree.files@,
                items@,
                query_context.dir(),
                query_context.current_module_path@.segments,
                query_context.current_module_path@.position as int,
                in_file,
            ),
        ),
    decreases
            query_context.current_module_path@.segments.len() - query_context.current_module_path@.position,
            0int,
{
    let next_mod = match query_context.current_module_path.next() {
        Some(module) => module,
        None => {
            return Ok(items);
        },
    };
    match find_module_from_scope(items, &next_mod) {
        Some(module) => recurse_module_hierarchy(tree, module, query_context),
        None => if in_file {
            Err(CargoQueryError::could_not_find_module_in_file(&next_mod))
        } else {
            Err(CargoQueryError::could_not_find_module_in_scope(next_mod))
        },
    }
}


/// A module found by name has that name.
pub proof fn lemma_found_module_has_name(items: Seq<Item>, name: Seq<char>)
    ensures
        find_mod_spec(items, name) matches Some(m) ==> m.ident@ == name,
    decreases items.len(),
{
    if items.len() > 0 {
        lemma_found_module_has_name(items.drop_first(), name);
    }
}

/// An exhausted path resolves to the entry file's items, unchanged.
pub proof fn lemma_empty_path_resolves_to_entry(
    files: Seq<SourceFile>,
    root: Seq<char>,
    segs: Seq<Seq<char>>,
    pos: int,
)
    requires
        load_spec(files, entry_file(root)) is Some,
        pos >= segs.len(),
    ensures
        resolve_spec(files, root, segs, pos) == Ok::<Seq<Item>, ErrorKindView>(
            load_spec(files, entry_file(root))->Some_0,
        ),
{
}

/// A module with the same items as an inline block, as a file beside, or as a
/// subdirectory's index file gives those items when the path ends at it, at any depth.
pub proof fn lemma_layout_forms_agree_at_end(
    inline_files: Seq<SourceFile>,
    sibling_files: Seq<SourceFile>,
    index_files: Seq<SourceFile>,
    inline_mod: ItemMod,
    declared_mod: ItemMod,
    dir: Seq<char>,
    segs: Seq<Seq<char>>,
    pos: int,
    content: Seq<Item>,
)
    requires
        pos + 1 == segs.len(),
        inline_mod.content matches Some(c) && c@ == content,
        declared_mod.content is None,
        load_spec(sibling_files, sibling_file(dir, declared_mod.ident@)) == Some(content),
        load_spec(index_files, sibling_file(dir, declared_mod.ident@)) is None,
        load_spec(index_files, index_file(join_path(dir, declared_mod.ident@))) == Some(content),
    ensures
        walk_result(inline_files, inline_mod, dir, segs, pos) == Ok::<Seq<Item>, ErrorKindView>(content),
        walk_result(sibling_files, declared_mod, dir, segs, pos) == Ok::<Seq<Item>, ErrorKindView>(
            content,
        ),
        walk_result(index_files, declared_mod, dir, segs, pos) == Ok::<Seq<Item>, ErrorKindView>(
            content,
        ),
{
}

/// A module `name` of the entry file with the same items as an inline block, as a file
/// beside, or as a subdirectory's index file: the path `name` resolves to those items in
/// all three forms.
pub proof fn lemma_layout_forms_agree(
    inline_files: Seq<SourceFile>,
    sibling_files: Seq<SourceFile>,
    index_files: Seq<SourceFile>,
    root: Seq<char>,
    name: Seq<char>,
    content: Seq<Item>,
)
    requires
        load_spec(inline_files, entry_file(root)) matches Some(items) && find_mod_spec(items, name) matches Some(
            m,
        ) && m.content matches Some(c) && c@ == content,
        load_spec(sibling_files, entry_file(root)) matches Some(items) && find_mod_spec(items, name) matches Some(
            m,
        ) && m.content is None,
        load_spec(sibling_files, sibling_file(src_dir(root), name)) == Some(content),
        load_spec(index_files, entry_file(root)) matches Some(items) && find_mod_spec(items, name) matches Some(
            m,
        ) && m.content is None,
        load_spec(index_files, sibling_file(src_dir(root), name)) is None,
        load_spec(index_files, index_file(join_path(src_dir(root), name))) == Some(content),
    ensures
        resolve_spec(inline_files, root, seq![name], 0) == Ok::<Seq<Item>, ErrorKindView>(content),
        resolve_spec(sibling_files, root, seq![name], 0) == Ok::<Seq<Item>, ErrorKindView>(content),
        resolve_spec(index_files, root, seq![name], 0) == Ok::<Seq<Item>, ErrorKindView>(content),
{
    lemma_found_module_has_name(load_spec(sibling_files, entry_file(root))->Some_0, name);
    lemma_found_module_has_name(load_spec(index_files, entry_file(root))->Some_0, name);
}

/// An inline block and a file beside with the same items are interchangeable: from a
/// module of either form, every path gives the same result.
pub proof fn lemma_inline_block_and_file_beside_agree(
    files: Seq<SourceFile>,
    inline_mod: ItemMod,
    declared_mod: ItemMod,
    dir: Seq<char>,
    segs: Seq<Seq<char>>,
    pos: int,
)
    requires
        inline_mod.content matches Some(c) && load_spec(files, sibling_file(dir, declared_mod.ident@))
            == Some(c@),
        declared_mod.content is None,
    ensures
        walk_result(files, inline_mod, dir, segs, pos) == walk_result(files, declared_mod, dir, segs, pos),
{
}

/// A module declared `mod name;` whose file beside can be loaded is read from that file,
/// whatever the subdirectory's index file holds.
pub proof fn lemma_sibling_file_first(
    files: Seq<SourceFile>,
    m: ItemMod,
    dir: Seq<char>,
    segs: Seq<Seq<char>>,
    pos: int,
)
    requires
        m.content is None,
        load_spec(files, sibling_file(dir, m.ident@)) is Some,
    ensures
        walk_result(files, m, dir, segs, pos) == scope_result(
            files,
            load_spec(files, sibling_file(dir, m.ident@))->Some_0,
            dir,
            segs,
            pos,
            true,
        ),
{
}

/// When the entry file declares `mod name;` and both `src/name.rs` and `src/name/mod.rs`
/// can be loaded, the path `name` resolves to the items of `src/name.rs`.
pub proof fn lemma_sibling_file_before_subdirectory(
    files: Seq<SourceFile>,
    root: Seq<char>,
    name: Seq<char>,
)
    requires
        load_spec(files, entry_file(root)) matches Some(items) && find_mod_spec(items, name) matches Some(
            m,
        ) && m.content is None,
        load_spec(files, sibling_file(src_dir(root), name)) is Some,
        load_spec(files, index_file(join_path(src_dir(root), name))) is Some,
    ensures
        resolve_spec(files, root, seq![name], 0) == Ok::<Seq<Item>, ErrorKindView>(
            load_spec(files, sibling_file(src_dir(root), name))->Some_0,
        ),
{
    lemma_found_module_has_name(load_spec(files, entry_file(root))->Some_0, name);
}

/// A first segment that names no module of the entry file fails with
/// `ModuleNotFoundInScope` of exactly that segment.
pub proof fn lemma_missing_first_module(
    files: Seq<SourceFile>,
    root: Seq<char>,
    segs: Seq<Seq<char>>,
    pos: int,
)
    requires
        0 <= pos < segs.len(),
        load_spec(files, entry_file(root)) matches Some(items) && find_mod_spec(items, segs[pos]) is None,
    ensures
        resolve_spec(files, root, segs, pos) == Err::<Seq<Item>, ErrorKindView>(
            ErrorKindView::ModuleNotFoundInScope(segs[pos]),
        ),
        failure_view(files, root, ErrorKindView::ModuleNotFoundInScope(segs[pos])).message
            == not_in_scope_message(segs[pos]),
{
}

/// A next segment that names no module of the scope reached fails with
/// `ModuleNotFoundInFile` (an inline block or a file beside) or `ModuleNotFoundInScope`
/// (an index file) of exactly that segment.
pub proof fn lemma_missing_next_module(
    files: Seq<SourceFile>,
    items: Seq<Item>,
    dir: Seq<char>,
    segs: Seq<Seq<char>>,
    pos: int,
    in_file: bool,
)
    requires
        0 <= pos,
        pos + 1 < segs.len(),
        find_mod_spec(items, segs[pos + 1]) is None,
    ensures
        scope_result(files, items, dir, segs, pos, in_file) == Err::<Seq<Item>, ErrorKindView>(
            if in_file {
                ErrorKindView::ModuleNotFoundInFile(segs[pos + 1])
            } else {
                ErrorKindView::ModuleNotFoundInScope(segs[pos + 1])
            },
        ),
{
}

/// The missing module named by a failure.
pub open spec fn missing_name(kind: ErrorKindView) -> Option<Seq<char>> {
    match kind {
        ErrorKindView::ModuleNotFoundInScope(n) => Some(n),
        ErrorKindView::ModuleNotFoundInFile(n) => Some(n),
        _ => None,
    }
}

/// Walking on from a module, a failure that names a missing module names a segment of
/// the path after the module's own.
pub proof fn lemma_walk_missing_name_is_a_later_segment(
    files: Seq<SourceFile>,
    m: ItemMod,
    dir: Seq<char>,
    segs: Seq<Seq<char>>,
    pos: int,
)
    requires
        0 <= pos,
    ensures
        walk_result(files, m, dir, segs, pos) matches Err(kind) ==> (missing_name(kind) matches Some(
            n,
        ) ==> exists|k: int| pos < k < segs.len() && segs[k] == n),
    decreases segs.len() - pos,
{
    let (items, d) = match m.content {
        Some(c) => (c@, dir),
        None => match load_spec(files, sibling_file(dir, m.ident@)) {
            Some(items) => (items, dir),
            None => (
                load_spec(files, index_file(join_path(dir, m.ident@))).unwrap_or(Seq::empty()),
                join_path(dir, m.ident@),
            ),
        },
    };
    if pos + 1 < segs.len() {
        if let Some(next) = find_mod_spec(items, segs[pos + 1]) {
            lemma_walk_missing_name_is_a_later_segment(files, next, d, segs, pos + 1);
        }
    }
}

/// A failure of a resolution that names a missing module names a segment of the path,
/// at or after the position it started from.
pub proof fn lemma_missing_name_is_a_segment(
    files: Seq<SourceFile>,
    root: Seq<char>,
    segs: Seq<Seq<char>>,
    pos: int,
)
    requires
        0 <= pos,
    ensures
        resolve_spec(files, root, segs, pos) matches Err(kind) ==> (missing_name(kind) matches Some(
            n,
        ) ==> exists|k: int| pos <= k < segs.len() && segs[k] == n),
{
    if let Some(items) = load_spec(files, entry_file(root)) {
        if pos < segs.len() {
            if let Some(m) = find_mod_spec(items, segs[pos]) {
                lemma_walk_missing_name_is_a_later_segment(files, m, src_dir(root), segs, pos);
            }
        }
    }
}

} // verus!
