use cargo_src_query::add;
use cargo_src_query::find_dependencies::{find_definition_in_scope, Definition};
use cargo_src_query::flags::{default_flags, Flags, EXCLUDE_PRIVATE};
use cargo_src_query::macro_state::{Diagnostic, Level, MacroState, Message};
use cargo_src_query::source::{Item, ItemDef, ItemMod};

#[test]
fn lib_it_works() {
    let result = add(2, 2);
    assert_eq!(result, 4);
}

#[test]
fn attr_macro_test_it_works() {
    let result = 2 + 2;
    assert_eq!(result, 4);
}

#[test]
fn boop() {}

#[test]
fn add_of_large_values() {
    assert_eq!(add(usize::MAX - 1, 1), usize::MAX);
    assert_eq!(add(0, 0), 0);
}

fn def(name: &str) -> ItemDef {
    ItemDef { ident: name.to_string(), text: format!("item {name}") }
}

#[test]
fn definitions_are_found_by_kind_and_name() {
    let scope = vec![
        Item::Mod(ItemMod { ident: "Thing".to_string(), content: None }),
        Item::Fn(def("Thing")),
        Item::Struct(def("Thing")),
        Item::Enum(def("Other")),
    ];
    let name = "Thing".to_string();
    assert_eq!(find_definition_in_scope(&scope, Definition::Struct, &name), Some(&scope[2]));
    assert_eq!(find_definition_in_scope(&scope, Definition::Fn, &name), Some(&scope[1]));
    assert_eq!(find_definition_in_scope(&scope, Definition::Enum, &name), None);
    assert_eq!(
        find_definition_in_scope(&scope, Definition::Enum, &"Other".to_string()),
        Some(&scope[3])
    );
    let (ident, item) = Definition::get_definition_name(&scope[1], Definition::Fn).unwrap();
    assert_eq!(ident, "Thing");
    assert_eq!(item, &scope[1]);
    assert_eq!(Definition::get_definition_name(&scope[0], Definition::Struct), None);
}

#[test]
fn flags_default_to_excluding_private_items() {
    let flags = default_flags();
    assert_eq!(flags.bits(), EXCLUDE_PRIVATE);
    assert!(flags.contains(Flags::from_bits_truncate(EXCLUDE_PRIVATE)));
    assert!(!Flags::empty().contains(flags));
    assert_eq!(Flags::from_bits_truncate(0xff).bits(), 1);
}

fn diagnostic(level: Level, text: &str) -> Diagnostic {
    Diagnostic { level, message: Message::new(text.to_string()) }
}

#[test]
fn message_starts_without_notes() {
    let message = Message::new("message".to_string());
    assert_eq!(message.message, "message");
    assert!(message.notes.is_empty());
}

#[test]
fn extend_diagnostics_keeps_all_in_order() {
    let mut first = MacroState::new(1u8);
    first.add_diagnostic(diagnostic(Level::Warning, "a"));
    let mut second = MacroState::new(2u8);
    second.add_diagnostic(diagnostic(Level::Error, "b"));
    second.add_diagnostic(diagnostic(Level::Warning, "c"));
    let third = MacroState::new(3u8);
    let mut fourth = MacroState::new(4u8);
    fourth.add_diagnostic(diagnostic(Level::Error, "d"));

    let merged = first.extend_diagnostics(vec![second, third, fourth]);
    let (state, diagnostics) = merged.into_parts();
    assert_eq!(state, 1);
    let texts: Vec<&str> = diagnostics.iter().map(|d| d.message.message.as_str()).collect();
    assert_eq!(texts, vec!["a", "b", "c", "d"]);
    assert_eq!(diagnostics[1].level, Level::Error);
}
