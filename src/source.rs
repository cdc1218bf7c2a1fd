//! Declaration items of parsed source files, and the source tree a query reads them from.
//!
//! Only module items are looked into while resolving a path; every other kind is carried
//! as it is and surfaces only in a result. A source tree maps file paths to what loading
//! and parsing each file gave: its top-level items, or the loader's error.

use vstd::prelude::*;
use crate::errors::LoadError;

verus! {

/// A module declaration: its name and, for `mod name { ... }`, the items of its block.
/// A declaration `mod name;` has no content: its items live in another file.
#[derive(PartialEq, Eq, Debug)]
pub struct ItemMod {
    pub ident: String,
    pub content: Option<Vec<Item>>,
}

/// A named definition, with its source text.
#[derive(PartialEq, Eq, Debug)]
pub struct ItemDef {
    pub ident: String,
    pub text: String,
}

/// A top-level declaration item of a source file or module block.
#[derive(PartialEq, Eq, Debug)]
pub enum Item {
    Mod(ItemMod),
    Struct(ItemDef),
    Enum(ItemDef),
    Fn(ItemDef),
    /// Any other item (an import, a constant, ...), as source text.
    Other(String),
}

/// A source file of the tree: its path, and its items or why it could not be loaded.
#[derive(PartialEq, Eq, Debug)]
pub struct SourceFile {
    pub path: String,
    pub contents: Result<Vec<Item>, LoadError>,
}

/// The source files that a query may load, by path. A path that no file has stands
/// for a file that does not exist. Where two files have one path, the first counts.
#[derive(PartialEq, Eq, Debug)]
pub struct SourceTree {
    pub files: Vec<SourceFile>,
}

/// The first file of `files` whose path is `path`.
pub open spec fn lookup(files: Seq<SourceFile>, path: Seq<char>) -> Option<SourceFile>
    decreases files.len(),
{
    if files.len() == 0 {
        None
    } else if files[0].path@ == path {
        Some(files[0])
    } else {
        lookup(files.drop_first(), path)
    }
}

/// The items of the file at `path`, or `None` if it does not exist or could not be loaded.
pub open spec fn load_spec(files: Seq<SourceFile>, path: Seq<char>) -> Option<Seq<Item>> {
    match lookup(files, path) {
        Some(f) => match f.contents {
            Ok(items) => Some(items@),
            Err(_) => None,
        },
        None => None,
    }
}

/// The message of the error that loading a file that does not exist gives.
pub open spec fn missing_file_message() -> Seq<char> {
    "No such file or directory (os error 2)"@
}

/// The message and trace of the error that loading the file at `path` gives, for a file
/// that does not exist or could not be loaded.
pub open spec fn load_failure(files: Seq<SourceFile>, path: Seq<char>) -> (Seq<char>, Seq<char>) {
    match lookup(files, path) {
        Some(f) => match f.contents {
            Err(e) => (e.message@, e.trace@),
            Ok(_) => (Seq::empty(), Seq::empty()),
        },
        None => (missing_file_message(), Seq::empty()),
    }
}

/// The first module item of `items` named `name`.
pub open spec fn find_mod_spec(items: Seq<Item>, name: Seq<char>) -> Option<ItemMod>
    decreases items.len(),
{
    if items.len() == 0 {
        None
    } else {
        match items[0] {
            Item::Mod(m) if m.ident@ == name => Some(m),
            _ => find_mod_spec(items.drop_first(), name),
        }
    }
}

/// `name` inside the directory `dir`.
pub open spec fn join_path(dir: Seq<char>, name: Seq<char>) -> Seq<char> {
    dir + seq!['/'] + name
}

/// The path of `name` inside the directory `dir`.
pub fn join(dir: &String, name: &str) -> (r: String)
    ensures
        r@ == join_path(dir@, name@),
{
    let mut r = dir.clone();
    r.append("/");
    r.append(name);
    proof {
        reveal_strlit("/");
    }
    r
}

/// Finds the first module item of `items` named `module_name`.
pub fn find_module_from_scope<'a>(items: &'a Vec<Item>, module_name: &String) -> (r: Option<
    &'a ItemMod,
>)
    ensures
        r matches Some(m) ==> find_mod_spec(items@, module_name@) == Some(*m),
        r is None ==> find_mod_spec(items@, module_name@) is None,
{
    let mut i: usize = 0;
    assert(items@.subrange(0, items@.len() as int) =~= items@);
    while i < items.len()
        invariant
            i <= items@.len(),
            find_mod_spec(items@, module_name@) == find_mod_spec(
                items@.subrange(i as int, items@.len() as int),
                module_name@,
            ),
        decreases items@.len() - i,
    {
        proof {
            assert(items@.subrange(i as int, items@.len() as int).drop_first() =~= items@.subrange(
                i + 1,
                items@.len() as int,
            ));
        }
        if let Item::Mod(m) = &items[i] {
            if m.ident == *module_name {
                return Some(m);
            }
        }
        i = i + 1;
    }
    None
}

impl SourceTree {
    /// A tree with no files.
    pub fn new() -> (r: SourceTree)
        ensures
            r.files@ == Seq::<SourceFile>::empty(),
    {
        SourceTree { files: Vec::new() }
    }

    /// Adds a file at `path` holding `items`.
    pub fn add_file(&mut self, path: String, items: Vec<Item>)
        ensures
            final(self).files@ == old(self).files@.push(SourceFile { path, contents: Ok(items) }),
    {
        self.files.push(SourceFile { path, contents: Ok(items) });
    }

    /// Adds a file at `path` that could not be loaded, with the loader's error.
    pub fn add_unreadable_file(&mut self, path: String, error: LoadError)
        ensures
            final(self).files@ == old(self).files@.push(SourceFile { path, contents: Err(error) }),
    {
        self.files.push(SourceFile { path, contents: Err(error) });
    }

    /// Loads the file at `path`: its items, or the error that loading it gives.
    pub fn parse_file_from_path<'a>(&'a self, path: &String) -> (r: Result<&'a Vec<Item>, LoadError>)
        ensures
            r matches Ok(items) ==> load_spec(self.files@, path@) == Some(items@),
            r matches Err(e) ==> load_spec(self.files@, path@) is None && load_failure(
                self.files@,
                path@,
            ) == (e.message@, e.trace@),
    {
        let mut i: usize = 0;
        assert(self.files@.subrange(0, self.files@.len() as int) =~= self.files@);
        while i < self.files.len()
            invariant
                i <= self.files@.len(),
                lookup(self.files@, path@) == lookup(
                    self.files@.subrange(i as int, self.files@.len() as int),
                    path@,
                ),
            decreases self.files@.len() - i,
        {
            proof {
                assert(self.files@.subrange(i as int, self.files@.len() as int).drop_first()
                    =~= self.files@.subrange(i + 1, self.files@.len() as int));
            }
            let file = &self.files[i];
            if file.path == *path {
                return match &file.contents {
                    Ok(items) => Ok(items),
                    Err(e) => Err(LoadError { message: e.message.clone(), trace: e.trace.clone() }),
                };
            }
            i = i + 1;
        }
        Err(
            LoadError {
                message: String::from_str("No such file or directory (os error 2)"),
                trace: String::new(),
            },
        )
    }
}

} // verus!
