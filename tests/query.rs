use cargo_src_query::errors::ErrorKind;
use cargo_src_query::flags::default_flags;
use cargo_src_query::get_module;
use cargo_src_query::query::{
    get_cargo_metadata_src_path, query_cargo_src_core, Crate, PackageInfo, Query, QueryEnvironment,
    QueryType,
};
use cargo_src_query::source::{Item, ItemDef, ItemMod, SourceTree};

const INTEGRATION_TEST_CRATE: &str = "integration_test_crate";

fn structure(name: &str) -> Item {
    Item::Struct(ItemDef { ident: name.to_string(), text: format!("pub struct {name} {{}}") })
}

fn declared_mod(name: &str) -> Item {
    Item::Mod(ItemMod { ident: name.to_string(), content: None })
}

fn package(name: &str, manifest_path: &str) -> PackageInfo {
    PackageInfo { name: name.to_string(), manifest_path: manifest_path.to_string() }
}

fn environment() -> QueryEnvironment {
    let mut sources = SourceTree::new();
    sources.add_file("/work/query/src/lib.rs".to_string(), vec![declared_mod("local")]);
    sources.add_file("/work/query/src/local.rs".to_string(), vec![structure("Local")]);
    sources.add_file(
        "/work/query/integration_test_crate/src/lib.rs".to_string(),
        vec![
            declared_mod("nested_directory"),
            structure("PublicExampleStruct"),
            Item::Mod(ItemMod {
                ident: "nested_in_lib".to_string(),
                content: Some(vec![structure("PublicExampleStruct")]),
            }),
        ],
    );
    sources.add_file(
        "/work/query/integration_test_crate/src/nested_directory/mod.rs".to_string(),
        vec![declared_mod("another_file")],
    );
    sources.add_file(
        "/work/query/integration_test_crate/src/nested_directory/another_file.rs".to_string(),
        vec![structure("ExampleStruct")],
    );
    QueryEnvironment {
        manifest_dir: "/work/query".to_string(),
        packages: vec![
            package("cargo_src_query", "/work/query/Cargo.toml"),
            package(INTEGRATION_TEST_CRATE, "/work/query/integration_test_crate/Cargo.toml"),
        ],
        sources,
    }
}

fn names(path: &[&str]) -> Vec<String> {
    path.iter().map(|s| s.to_string()).collect()
}

#[test]
fn successfully_find_module_in_integration_test_crate() {
    let env = environment();
    let module = get_module(
        default_flags(),
        Crate::External(INTEGRATION_TEST_CRATE.to_string()),
        names(&["nested_directory", "another_file"]),
        &env,
    )
    .expect("Could not find module");
    assert_eq!(module, &vec![structure("ExampleStruct")]);
}

#[test]
fn internal_crate_is_searched_from_manifest_dir() {
    let env = environment();
    let module = get_module(default_flags(), Crate::Internal, names(&["local"]), &env).unwrap();
    assert_eq!(module, &vec![structure("Local")]);
}

#[test]
fn unknown_crate_is_invalid_package_name() {
    let env = environment();
    let error =
        get_module(default_flags(), Crate::External("nope".to_string()), names(&["a"]), &env)
            .unwrap_err();
    assert_eq!(error.kind(), &ErrorKind::InvalidPackageName("nope".to_string()));
}

#[test]
fn query_core_finds_inline_module() {
    let env = environment();
    let query = Query {
        crate_name: Crate::External(INTEGRATION_TEST_CRATE.to_string()),
        path: names(&["nested_in_lib"]),
        query_type: QueryType::Mod,
    };
    let module = query_cargo_src_core(default_flags(), query, &env).unwrap();
    assert_eq!(module, &vec![structure("PublicExampleStruct")]);
}

#[test]
fn package_root_is_manifest_directory() {
    let packages = vec![
        package("a", "/x/a/Cargo.toml"),
        package("b", "/Cargo.toml"),
        package("c", "Cargo.toml"),
        package("a", "/second/a/Cargo.toml"),
    ];
    assert_eq!(get_cargo_metadata_src_path(&packages, &"a".to_string()).unwrap(), "/x/a");
    assert_eq!(get_cargo_metadata_src_path(&packages, &"b".to_string()).unwrap(), "/");
    assert_eq!(get_cargo_metadata_src_path(&packages, &"c".to_string()).unwrap(), "");
    let error = get_cargo_metadata_src_path(&packages, &"d".to_string()).unwrap_err();
    assert_eq!(error.kind(), &ErrorKind::InvalidPackageName("d".to_string()));
}

#[test]
fn external_failure_notes_the_package_root() {
    let env = environment();
    let error = get_module(
        default_flags(),
        Crate::External(INTEGRATION_TEST_CRATE.to_string()),
        names(&["nested_directory", "missing"]),
        &env,
    )
    .unwrap_err();
    assert_eq!(error.kind(), &ErrorKind::ModuleNotFoundInScope("missing".to_string()));
    assert_eq!(error.messages_for("source path"), vec!["/work/query/integration_test_crate"]);
    assert_eq!(error.messages_for("module path"), vec!["nested_directory::missing"]);
}
