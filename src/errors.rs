//! Errors of a module query.
//!
//! Each error has a kind, a short top-level message for the user, and indexed notes: pairs
//! of a category and a note, kept in the order they were attached. The notes of a category
//! are those of its pairs, in that order. Notes are only ever appended.

use vstd::prelude::*;
use crate::cursor::ModulePath;

verus! {

/// Category of the note that holds the source path a query searched.
pub const SOURCE_PATH: &'static str = "source path";

/// Category of the note that holds the module path a query asked for.
pub const MODULE_PATH: &'static str = "module path";

/// What went wrong.
#[derive(Clone, PartialEq, Eq, Debug)]
pub enum ErrorKind {
    /// The package's entry file could not be loaded.
    EntryFileUnreadable,
    /// The named source file could not be loaded.
    FileUnreadable(String),
    /// No module of this name among the modules of the scope searched.
    ModuleNotFoundInScope(String),
    /// No module of this name in the file or inline block searched.
    ModuleNotFoundInFile(String),
    /// None of the layout forms apply.
    ModulePathUnresolved,
    /// The named package is not a dependency that can be located.
    InvalidPackageName(String),
    /// No further detail is available.
    Generic,
}

/// An [`ErrorKind`] with its names as characters.
pub enum ErrorKindView {
    EntryFileUnreadable,
    FileUnreadable(Seq<char>),
    ModuleNotFoundInScope(Seq<char>),
    ModuleNotFoundInFile(Seq<char>),
    ModulePathUnresolved,
    InvalidPackageName(Seq<char>),
    Generic,
}

impl View for ErrorKind {
    type V = ErrorKindView;

    open spec fn view(&self) -> ErrorKindView {
        match self {
            ErrorKind::EntryFileUnreadable => ErrorKindView::EntryFileUnreadable,
            ErrorKind::FileUnreadable(p) => ErrorKindView::FileUnreadable(p@),
            ErrorKind::ModuleNotFoundInScope(m) => ErrorKindView::ModuleNotFoundInScope(m@),
            ErrorKind::ModuleNotFoundInFile(m) => ErrorKindView::ModuleNotFoundInFile(m@),
            ErrorKind::ModulePathUnresolved => ErrorKindView::ModulePathUnresolved,
            ErrorKind::InvalidPackageName(n) => ErrorKindView::InvalidPackageName(n@),
            ErrorKind::Generic => ErrorKindView::Generic,
        }
    }
}

/// Why a source file could not be loaded, as the loader reported it.
#[derive(Clone, PartialEq, Eq, Debug)]
pub struct LoadError {
    pub message: String,
    pub trace: String,
}

/// An error of a module query: its kind, a top-level message, and indexed notes that give
/// the context in which it arose.
#[derive(Clone, PartialEq, Eq, Debug)]
pub struct CargoQueryError {
    kind: ErrorKind,
    top_level_message: String,
    indexed_messages: Vec<(String, String)>,
}

/// What an error holds.
pub struct CargoQueryErrorView {
    pub kind: ErrorKindView,
    pub message: Seq<char>,
    pub notes: Seq<(Seq<char>, Seq<char>)>,
}

/// The characters of each category and note.
pub open spec fn notes_view(v: Seq<(String, String)>) -> Seq<(Seq<char>, Seq<char>)> {
    v.map_values(|p: (String, String)| (p.0@, p.1@))
}

/// The notes of `category`, in the order they were attached.
pub open spec fn notes_for(notes: Seq<(Seq<char>, Seq<char>)>, category: Seq<char>) -> Seq<Seq<char>>
    decreases notes.len(),
{
    if notes.len() == 0 {
        Seq::empty()
    } else if notes.last().0 == category {
        notes_for(notes.drop_last(), category).push(notes.last().1)
    } else {
        notes_for(notes.drop_last(), category)
    }
}

impl View for CargoQueryError {
    type V = CargoQueryErrorView;

    closed spec fn view(&self) -> CargoQueryErrorView {
        CargoQueryErrorView {
            kind: self.kind@,
            message: self.top_level_message@,
            notes: notes_view(self.indexed_messages@),
        }
    }
}

/// The message of an error that has no more specific one.
pub open spec fn generic_message() -> Seq<char> {
    "An error has occurred."@
}

/// The message of an unreadable entry file.
pub open spec fn entry_file_message() -> Seq<char> {
    "Could not process `lib.rs` in src_path."@
}

/// The message of an unreadable source file.
pub open spec fn file_message(path: Seq<char>) -> Seq<char> {
    "Could not process `"@ + path + "` in src_path."@
}

/// The message of a module missing from a scope.
pub open spec fn not_in_scope_message(module: Seq<char>) -> Seq<char> {
    "Could not find module `"@ + module + "` in scope"@
}

/// The message of a module missing from a source file or inline block.
pub open spec fn not_in_file_message(module: Seq<char>) -> Seq<char> {
    "Could not find module `"@ + module + "` in source file."@
}

/// The message of a module path that maps to no module.
pub open spec fn unresolved_message() -> Seq<char> {
    "Module path does not map to any known module. Using the src_path, manually validate that the module you are looking for exists. If it does exist, cut an issue [here]()."@
}

/// The two notes that carry what a loader reported.
pub open spec fn load_error_notes(message: Seq<char>, trace: Seq<char>) -> Seq<(Seq<char>, Seq<char>)> {
    seq![("file error"@, message), ("file error backtrace"@, trace)]
}

/// The notes of an unknown package: its name and how to add it.
pub open spec fn invalid_crate_notes(name: Seq<char>) -> Seq<(Seq<char>, Seq<char>)> {
    seq![
        ("note"@, "crate name: `"@ + name + "`"@),
        ("help"@, "try including this cargo crate using `cargo add "@ + name + "`"@),
        ("help"@, "or include the cargo crate by following the directions on [crates.io - "@ + name
            + "](https://crates.io/crates/"@ + name + ")"@),
    ]
}

/// The error of an unknown package named `name`.
pub open spec fn invalid_crate_error(name: Seq<char>) -> CargoQueryErrorView {
    CargoQueryErrorView {
        kind: ErrorKindView::InvalidPackageName(name),
        message: "Invalid crate name."@,
        notes: invalid_crate_notes(name),
    }
}

/// An error whose kind has a fixed message and no notes.
pub open spec fn plain_error(kind: ErrorKindView, message: Seq<char>) -> CargoQueryErrorView {
    CargoQueryErrorView { kind, message, notes: Seq::empty() }
}

/// A string holding the characters of a literal.
fn text(s: &str) -> (r: String)
    ensures
        r@ == s@,
{
    String::from_str(s)
}

/// `before`, then `middle`, then `after`.
fn enclose(before: &str, middle: &str, after: &str) -> (r: String)
    ensures
        r@ == before@ + middle@ + after@,
{
    let mut out = String::from_str(before);
    out.append(middle);
    out.append(after);
    out
}

/// The notes that carry what a loader reported, in the form they are stored.
fn load_notes(error: LoadError) -> (r: Vec<(String, String)>)
    ensures
        notes_view(r@) == load_error_notes(error.message@, error.trace@),
{
    let r = vec![(text("file error"), error.message), (text("file error backtrace"), error.trace)];
    assert(notes_view(r@) =~= load_error_notes(error.message@, error.trace@));
    r
}

/// Builds the error of an unknown package, with the package's name and how to add it.
pub fn invalid_crate_name(crate_name: &String) -> (r: CargoQueryError)
    ensures
        r@ == invalid_crate_error(crate_name@),
{
    let name = crate_name.as_str();
    let mut directions = enclose(
        "or include the cargo crate by following the directions on [crates.io - ",
        name,
        "](https://crates.io/crates/",
    );
    directions.append(name);
    directions.append(")");
    let notes = vec![
        (text("note"), enclose("crate name: `", name, "`")),
        (text("help"), enclose("try including this cargo crate using `cargo add ", name, "`")),
        (text("help"), directions),
    ];
    let r = CargoQueryError {
        kind: ErrorKind::InvalidPackageName(crate_name.clone()),
        top_level_message: text("Invalid crate name."),
        indexed_messages: notes,
    };
    assert(notes_view(r.indexed_messages@) =~= invalid_crate_notes(crate_name@));
    r
}

impl CargoQueryError {
    /// The kind of this error.
    pub fn kind(&self) -> (r: &ErrorKind)
        ensures
            r@ == self@.kind,
    {
        &self.kind
    }

    /// The top-level message of this error.
    pub fn top_level_message(&self) -> (r: &String)
        ensures
            r@ == self@.message,
    {
        &self.top_level_message
    }

    /// All notes of this error as pairs of category and note, in attachment order.
    pub fn indexed_messages(&self) -> (r: &Vec<(String, String)>)
        ensures
            notes_view(r@) == self@.notes,
    {
        &self.indexed_messages
    }

    /// The notes of `category`, in the order they were attached.
    pub fn messages_for(&self, category: &str) -> (r: Vec<String>)
        ensures
            r@.map_values(|s: String| s@) == notes_for(self@.notes, category@),
    {
        let wanted = String::from_str(category);
        let mut r: Vec<String> = Vec::new();
        let mut i: usize = 0;
        while i < self.indexed_messages.len()
            invariant
                i <= self.indexed_messages@.len(),
                wanted@ == category@,
                r@.map_values(|s: String| s@) == notes_for(
                    notes_view(self.indexed_messages@).take(i as int),
                    category@,
                ),
            decreases self.indexed_messages@.len() - i,
        {
            let ghost before = r@;
            let pair = &self.indexed_messages[i];
            proof {
                assert(notes_view(self.indexed_messages@).take(i + 1).drop_last()
                    =~= notes_view(self.indexed_messages@).take(i as int));
            }
            if pair.0 == wanted {
                r.push(pair.1.clone());
                assert(r@.map_values(|s: String| s@) =~= before.map_values(|s: String| s@).push(
                    pair.1@,
                ));
            }
            i = i + 1;
        }
        assert(notes_view(self.indexed_messages@).take(i as int) =~= self@.notes);
        r
    }

    /// Appends `messages`, pairs of category and note, after the notes already held.
    /// No note already held is changed or dropped.
    pub fn add_messages(self, messages: Vec<(String, String)>) -> (r: CargoQueryError)
        ensures
            r@ == (CargoQueryErrorView { notes: self@.notes + notes_view(messages@), ..self@ }),
    {
        let ghost added = messages@;
        let mut r = self;
        let mut messages = messages;
        r.indexed_messages.append(&mut messages);
        assert(notes_view(r.indexed_messages@) =~= self@.notes + notes_view(added));
        r
    }

    /// Wraps an error of another kind of operation, described by `description`, with the
    /// given notes.
    pub fn convert_error(description: String, indexed_messages: Vec<(String, String)>) -> (r:
        CargoQueryError)
        ensures
            r@ == (CargoQueryErrorView {
                kind: ErrorKindView::Generic,
                message: description@,
                notes: notes_view(indexed_messages@),
            }),
    {
        CargoQueryError { kind: ErrorKind::Generic, top_level_message: description, indexed_messages }
    }

    /// An error with no further detail; a more specific one is always preferable.
    pub fn generic_error() -> (r: CargoQueryError)
        ensures
            r@ == plain_error(ErrorKindView::Generic, generic_message()),
    {
        let r = CargoQueryError {
            kind: ErrorKind::Generic,
            top_level_message: text("An error has occurred."),
            indexed_messages: Vec::new(),
        };
        assert(r@.notes =~= Seq::empty());
        r
    }

    /// The package's entry file could not be loaded; the loader's report goes in the notes.
    pub fn could_not_process_lib_rs(error: LoadError) -> (r: CargoQueryError)
        ensures
            r@ == (CargoQueryErrorView {
                kind: ErrorKindView::EntryFileUnreadable,
                message: entry_file_message(),
                notes: load_error_notes(error.message@, error.trace@),
            }),
    {
        CargoQueryError {
            kind: ErrorKind::EntryFileUnreadable,
            top_level_message: text("Could not process `lib.rs` in src_path."),
            indexed_messages: load_notes(error),
        }
    }

    /// The source file at `file_path` could not be loaded; the loader's report goes in
    /// the notes.
    pub fn could_not_process_file(file_path: &String, error: LoadError) -> (r: CargoQueryError)
        ensures
            r@ == (CargoQueryErrorView {
                kind: ErrorKindView::FileUnreadable(file_path@),
                message: file_message(file_path@),
                notes: load_error_notes(error.message@, error.trace@),
            }),
    {
        CargoQueryError {
            kind: ErrorKind::FileUnreadable(file_path.clone()),
            top_level_message: enclose("Could not process `", file_path.as_str(), "` in src_path."),
            indexed_messages: load_notes(error),
        }
    }

    /// No module named `module` among the modules of the scope searched.
    pub fn could_not_find_defined_module(module: &String) -> (r: CargoQueryError)
        ensures
            r@ == plain_error(
                ErrorKindView::ModuleNotFoundInScope(module@),
                not_in_scope_message(module@),
            ),
    {
        Self::could_not_find_module_in_scope(module.clone())
    }

    /// No module named `module` among the modules of the scope searched.
    pub fn could_not_find_module_in_scope(module: String) -> (r: CargoQueryError)
        ensures
            r@ == plain_error(
                ErrorKindView::ModuleNotFoundInScope(module@),
                not_in_scope_message(module@),
            ),
    {
        let message = enclose("Could not find module `", module.as_str(), "` in scope");
        let r = CargoQueryError {
            kind: ErrorKind::ModuleNotFoundInScope(module),
            top_level_message: message,
            indexed_messages: Vec::new(),
        };
        assert(r@.notes =~= Seq::empty());
        r
    }

    /// The module path maps to no module; the directory reached goes in the notes.
    pub fn could_not_find_module_from_path(current_directory: &String) -> (r: CargoQueryError)
        ensures
            r@ == (CargoQueryErrorView {
                kind: ErrorKindView::ModulePathUnresolved,
                message: unresolved_message(),
                notes: seq![("current_directory"@, current_directory@)],
            }),
    {
        let notes = vec![(text("current_directory"), current_directory.clone())];
        let r = CargoQueryError {
            kind: ErrorKind::ModulePathUnresolved,
            top_level_message: text(
                "Module path does not map to any known module. Using the src_path, manually validate that the module you are looking for exists. If it does exist, cut an issue [here]().",
            ),
            indexed_messages: notes,
        };
        assert(r@.notes =~= seq![("current_directory"@, current_directory@)]);
        r
    }

    /// The module path maps to no module.
    pub fn could_not_find_module() -> (r: CargoQueryError)
        ensures
            r@ == plain_error(ErrorKindView::ModulePathUnresolved, unresolved_message()),
    {
        let r = CargoQueryError {
            kind: ErrorKind::ModulePathUnresolved,
            top_level_message: text(
                "Module path does not map to any known module. Using the src_path, manually validate that the module you are looking for exists. If it does exist, cut an issue [here]().",
            ),
            indexed_messages: Vec::new(),
        };
        assert(r@.notes =~= Seq::empty());
        r
    }

    /// No module named `module` in the source file or inline block searched.
    pub fn could_not_find_module_in_file(module: &String) -> (r: CargoQueryError)
        ensures
            r@ == plain_error(
                ErrorKindView::ModuleNotFoundInFile(module@),
                not_in_file_message(module@),
            ),
    {
        let r = CargoQueryError {
            kind: ErrorKind::ModuleNotFoundInFile(module.clone()),
            top_level_message: enclose("Could not find module `", module.as_str(), "` in source file."),
            indexed_messages: Vec::new(),
        };
        assert(r@.notes =~= Seq::empty());
        r
    }

    /// The text of a source path, for a note.
    pub fn src_path_to_string(src_path: &String) -> (r: String)
        ensures
            r@ == src_path@,
    {
        src_path.clone()
    }

    /// The text of the part of a module path not yet consumed, for a note.
    pub fn module_path_to_string(mod_path: &ModulePath) -> (r: String)
        requires
            mod_path.wf(),
        ensures
            r@ == crate::cursor::join_segments(
                mod_path@.segments.subrange(mod_path@.position as int, mod_path@.segments.len() as int),
            ),
    {
        mod_path.to_string()
    }
}

/// Attaching notes to an error held in a `Result`.
pub trait AddMessages: Sized {
    /// `r` is `self` with `messages` appended to its error's notes, if it holds an error.
    spec fn messages_added(&self, messages: Seq<(Seq<char>, Seq<char>)>, r: &Self) -> bool;

    /// Appends `messages`, pairs of category and note, to the error, if there is one.
    fn add_messages(self, messages: Vec<(String, String)>) -> (r: Self)
        ensures
            self.messages_added(notes_view(messages@), &r),
    ;
}

impl<T> AddMessages for Result<T, CargoQueryError> {
    open spec fn messages_added(&self, messages: Seq<(Seq<char>, Seq<char>)>, r: &Self) -> bool {
        match (*self, *r) {
            (Ok(a), Ok(b)) => a == b,
            (Err(e), Err(f)) => f@ == (CargoQueryErrorView { notes: e@.notes + messages, ..e@ }),
            _ => false,
        }
    }

    fn add_messages(self, messages: Vec<(String, String)>) -> (r: Self) {
        match self {
            Ok(v) => Ok(v),
            Err(e) => Err(e.add_messages(messages)),
        }
    }
}

/// Turning the failure of another operation into a query error.
pub trait IntoProcMacroError<T>: Sized {
    /// `r` holds the value `self` holds, or a query error that describes its failure.
    spec fn converted(&self, r: Result<T, CargoQueryError>) -> bool;

    /// The value, or a query error whose top-level message describes the failure.
    fn into_proc_err(self) -> (r: Result<T, CargoQueryError>)
        ensures
            self.converted(r),
    ;
}

impl<T> IntoProcMacroError<T> for Result<T, LoadError> {
    open spec fn converted(&self, r: Result<T, CargoQueryError>) -> bool {
        match (*self, r) {
            (Ok(a), Ok(b)) => a == b,
            (Err(e), Err(f)) => f@ == plain_error(ErrorKindView::Generic, e.message@),
            _ => false,
        }
    }

    fn into_proc_err(self) -> (r: Result<T, CargoQueryError>) {
        match self {
            Ok(v) => Ok(v),
            Err(e) => {
                let converted = CargoQueryError::convert_error(e.message, Vec::new());
                assert(converted@.notes =~= Seq::empty());
                Err(converted)
            },
        }
    }
}

/// Appending notes in two steps gives, for every category, the notes held before, then
/// those of the first step, then those of the second: none is lost and the order of
/// attachment is kept.
pub proof fn lemma_notes_accumulate(
    held: Seq<(Seq<char>, Seq<char>)>,
    added: Seq<(Seq<char>, Seq<char>)>,
    category: Seq<char>,
)
    ensures
        notes_for(held + added, category) == notes_for(held, category) + notes_for(added, category),
    decreases added.len(),
{
    if added.len() == 0 {
        assert(held + added =~= held);
        assert(notes_for(added, category) =~= Seq::empty());
        assert(notes_for(held, category) + notes_for(added, category) =~= notes_for(held, category));
    } else {
        lemma_notes_accumulate(held, added.drop_last(), category);
        assert((held + added).drop_last() =~= held + added.drop_last());
        if added.last().0 == category {
            assert(notes_for(held, category) + notes_for(added, category) =~= (notes_for(held, category)
                + notes_for(added.drop_last(), category)).push(added.last().1));
        }
    }
}

/// The notes held, followed by those of each layer in turn.
pub open spec fn with_layers(
    held: Seq<(Seq<char>, Seq<char>)>,
    layers: Seq<Seq<(Seq<char>, Seq<char>)>>,
) -> Seq<(Seq<char>, Seq<char>)>
    decreases layers.len(),
{
    if layers.len() == 0 {
        held
    } else {
        with_layers(held, layers.drop_last()) + layers.last()
    }
}

/// The notes of `category` in each layer, layer after layer.
pub open spec fn layer_notes_for(layers: Seq<Seq<(Seq<char>, Seq<char>)>>, category: Seq<char>) -> Seq<
    Seq<char>,
>
    decreases layers.len(),
{
    if layers.len() == 0 {
        Seq::empty()
    } else {
        layer_notes_for(layers.drop_last(), category) + notes_for(layers.last(), category)
    }
}

/// An error passed up through any number of layers, each appending its notes, keeps for
/// every category the notes it had where it arose, then those of each layer in the order
/// the layers attached them.
pub proof fn lemma_notes_survive_layers(
    held: Seq<(Seq<char>, Seq<char>)>,
    layers: Seq<Seq<(Seq<char>, Seq<char>)>>,
    category: Seq<char>,
)
    ensures
        notes_for(with_layers(held, layers), category) == notes_for(held, category) + layer_notes_for(
            layers,
            category,
        ),
    decreases layers.len(),
{
    if layers.len() == 0 {
        assert(notes_for(held, category) + layer_notes_for(layers, category) =~= notes_for(
            held,
            category,
        ));
    } else {
        lemma_notes_survive_layers(held, layers.drop_last(), category);
        lemma_notes_accumulate(with_layers(held, layers.drop_last()), layers.last(), category);
        assert(notes_for(held, category) + layer_notes_for(layers, category) =~= notes_for(
            held,
            category,
        ) + layer_notes_for(layers.drop_last(), category) + notes_for(layers.last(), category));
    }
}

} // verus!
