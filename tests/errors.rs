use cargo_src_query::cursor::ModulePath;
use cargo_src_query::errors::{
    invalid_crate_name, AddMessages, CargoQueryError, ErrorKind, IntoProcMacroError, LoadError,
};

fn note(category: &str, text: &str) -> (String, String) {
    (category.to_string(), text.to_string())
}

#[test]
fn generic_error_has_fixed_message_and_no_notes() {
    let error = CargoQueryError::generic_error();
    assert_eq!(error.kind(), &ErrorKind::Generic);
    assert_eq!(error.top_level_message(), "An error has occurred.");
    assert!(error.indexed_messages().is_empty());
}

#[test]
fn convert_error_keeps_description_and_notes() {
    let error = CargoQueryError::convert_error(
        "it broke".to_string(),
        vec![note("k", "one"), note("j", "two"), note("k", "three")],
    );
    assert_eq!(error.kind(), &ErrorKind::Generic);
    assert_eq!(error.top_level_message(), "it broke");
    assert_eq!(error.messages_for("k"), vec!["one", "three"]);
    assert_eq!(error.messages_for("j"), vec!["two"]);
    assert!(error.messages_for("absent").is_empty());
}

#[test]
fn could_not_find_module_is_unresolved() {
    let error = CargoQueryError::could_not_find_module();
    assert_eq!(error.kind(), &ErrorKind::ModulePathUnresolved);
    assert!(error.top_level_message().starts_with("Module path does not map to any known module."));
    assert!(error.indexed_messages().is_empty());
}

#[test]
fn could_not_find_module_from_path_notes_the_directory() {
    let error = CargoQueryError::could_not_find_module_from_path(&"/x/src".to_string());
    assert_eq!(error.kind(), &ErrorKind::ModulePathUnresolved);
    assert_eq!(error.messages_for("current_directory"), vec!["/x/src"]);
}

#[test]
fn defined_module_and_scope_errors_agree() {
    let a = CargoQueryError::could_not_find_defined_module(&"m".to_string());
    let b = CargoQueryError::could_not_find_module_in_scope("m".to_string());
    assert_eq!(a, b);
    assert_eq!(a.top_level_message(), "Could not find module `m` in scope");
}

#[test]
fn could_not_process_file_names_the_file() {
    let error = CargoQueryError::could_not_process_file(
        &"/p/src/a.rs".to_string(),
        LoadError { message: "bad".to_string(), trace: "trace".to_string() },
    );
    assert_eq!(error.kind(), &ErrorKind::FileUnreadable("/p/src/a.rs".to_string()));
    assert_eq!(error.top_level_message(), "Could not process `/p/src/a.rs` in src_path.");
    assert_eq!(error.messages_for("file error"), vec!["bad"]);
    assert_eq!(error.messages_for("file error backtrace"), vec!["trace"]);
}

#[test]
fn path_texts() {
    assert_eq!(CargoQueryError::src_path_to_string(&"/a/b".to_string()), "/a/b");
    let mut path = ModulePath::new(vec!["a".to_string(), "b".to_string()]);
    assert_eq!(CargoQueryError::module_path_to_string(&path), "a::b");
    path.next();
    assert_eq!(CargoQueryError::module_path_to_string(&path), "b");
}

#[test]
fn invalid_crate_name_explains_how_to_add_it() {
    let error = invalid_crate_name(&"serde".to_string());
    assert_eq!(error.kind(), &ErrorKind::InvalidPackageName("serde".to_string()));
    assert_eq!(error.top_level_message(), "Invalid crate name.");
    assert_eq!(error.messages_for("note"), vec!["crate name: `serde`"]);
    assert_eq!(
        error.messages_for("help"),
        vec![
            "try including this cargo crate using `cargo add serde`",
            "or include the cargo crate by following the directions on [crates.io - serde](https://crates.io/crates/serde)",
        ]
    );
}

#[test]
fn notes_accumulate_through_layers() {
    let error = CargoQueryError::could_not_find_module_in_file(&"deep".to_string())
        .add_messages(vec![note("where", "inner"), note("why", "first")])
        .add_messages(vec![note("where", "middle")])
        .add_messages(vec![note("where", "outer"), note("why", "last")]);
    assert_eq!(error.kind(), &ErrorKind::ModuleNotFoundInFile("deep".to_string()));
    assert_eq!(error.messages_for("where"), vec!["inner", "middle", "outer"]);
    assert_eq!(error.messages_for("why"), vec!["first", "last"]);
    assert_eq!(error.indexed_messages().len(), 5);
}

#[test]
fn add_messages_on_results() {
    let ok: Result<u8, CargoQueryError> = Ok(3);
    assert_eq!(ok.add_messages(vec![note("k", "v")]), Ok(3));
    let err: Result<u8, CargoQueryError> = Err(CargoQueryError::generic_error());
    let err = err.add_messages(vec![note("k", "v")]).unwrap_err();
    assert_eq!(err.messages_for("k"), vec!["v"]);
}

#[test]
fn load_errors_convert_to_query_errors() {
    let failed: Result<u8, LoadError> =
        Err(LoadError { message: "read failed".to_string(), trace: String::new() });
    let error = failed.into_proc_err().unwrap_err();
    assert_eq!(error.kind(), &ErrorKind::Generic);
    assert_eq!(error.top_level_message(), "read failed");
    let fine: Result<u8, LoadError> = Ok(7);
    assert_eq!(fine.into_proc_err(), Ok(7));
}
