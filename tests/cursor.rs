use cargo_src_query::cursor::ModulePath;

fn ident(name: &str) -> String {
    name.to_string()
}

fn path(names: &[&str]) -> ModulePath {
    ModulePath::new(names.iter().map(|n| n.to_string()).collect())
}

#[test]
fn overwrite_does_not_affect_original_path() {
    let a = ident("a");
    let expected_a = ident("a");
    let b = ident("b");
    let expected_b = ident("b");
    let c = ident("c");
    let expected_c = ident("c");

    let mut mod_path = ModulePath::new(vec![a, b]);
    let mut cloned_module_path = mod_path.clone_and_overwrite(c);

    assert_eq!(cloned_module_path.get_current_module(), Some(expected_c.clone()));
    assert_eq!(mod_path.get_current_module(), Some(expected_a.clone()));

    assert_eq!(cloned_module_path, ModulePath::new(vec![expected_c, expected_b.clone()]));
    assert_eq!(mod_path, ModulePath::new(vec![expected_a, expected_b]));

    cloned_module_path.next();
    assert_eq!(cloned_module_path.get_position(), 1);
    assert_eq!(mod_path.get_position(), 0);

    mod_path.next();
    assert_eq!(mod_path.get_position(), 1);
    assert_eq!(cloned_module_path.get_position(), 1);
}

#[test]
fn insert_does_not_affect_original_path() {
    let a = ident("a");
    let expected_a = ident("a");
    let b = ident("b");
    let expected_b = ident("b");
    let c = ident("c");
    let expected_c = ident("c");

    let mut mod_path = ModulePath::new(vec![a, b]);
    let mut cloned_module_path = mod_path.clone_and_insert(c);

    assert_eq!(cloned_module_path.get_current_module(), Some(expected_c.clone()));
    assert_eq!(mod_path.get_current_module(), Some(expected_a.clone()));

    assert_eq!(
        cloned_module_path,
        ModulePath::new(vec![expected_c, expected_a.clone(), expected_b.clone()])
    );
    assert_eq!(mod_path, ModulePath::new(vec![expected_a, expected_b]));

    cloned_module_path.next();
    assert_eq!(cloned_module_path.get_position(), 1);
    assert_eq!(mod_path.get_position(), 0);

    mod_path.next();
    assert_eq!(mod_path.get_position(), 1);
    assert_eq!(cloned_module_path.get_position(), 1);
}

#[test]
fn get_position() {
    let mut mod_path = path(&["a", "b", "c"]);
    assert_eq!(mod_path.get_position(), 0);
    mod_path.next();
    assert_eq!(mod_path.get_position(), 1);
}

#[test]
fn next_walks_segments_in_order() {
    let mut mod_path = path(&["a", "b", "c"]);
    assert_eq!(mod_path.get_current_module(), Some(ident("a")));
    assert_eq!(mod_path.next(), Some(ident("b")));
    assert_eq!(mod_path.get_current_module(), Some(ident("b")));
    assert_eq!(mod_path.next(), Some(ident("c")));
    assert_eq!(mod_path.next(), None);
}

#[test]
fn advancing_len_times_exhausts_and_stays_exhausted() {
    let mut mod_path = path(&["a", "b", "c"]);
    for _ in 0..3 {
        mod_path.next();
    }
    assert_eq!(mod_path.get_current_module(), None);
    assert_eq!(mod_path.get_position(), 3);
    assert_eq!(mod_path.next(), None);
    assert_eq!(mod_path.next(), None);
    assert_eq!(mod_path.get_position(), 3);
    assert_eq!(mod_path.get_current_module(), None);
}

#[test]
fn empty_path_is_exhausted_from_the_start() {
    let mut mod_path = ModulePath::default();
    assert_eq!(mod_path.get_current_module(), None);
    assert_eq!(mod_path.next(), None);
    assert_eq!(mod_path.get_position(), 0);
}

#[test]
fn advancing_a_copy_leaves_its_source() {
    let mut source = path(&["a", "b", "c"]);
    source.next();
    let mut copy = source.clone_and_overwrite(ident("x"));
    assert_eq!(copy.get_current_module(), Some(ident("x")));
    copy.next();
    copy.next();
    assert_eq!(copy.get_position(), 3);
    assert_eq!(source.get_position(), 1);
    assert_eq!(source.get_current_module(), Some(ident("b")));
    source.next();
    assert_eq!(copy.get_position(), 3);
    assert_eq!(copy.get_current_module(), None);
}

#[test]
fn insert_in_the_middle_shifts_later_segments() {
    let mut mod_path = path(&["a", "b", "c"]);
    mod_path.next();
    let mut inserted = mod_path.clone_and_insert(ident("x"));
    assert_eq!(inserted.get_position(), 1);
    assert_eq!(inserted.get_current_module(), Some(ident("x")));
    assert_eq!(inserted.next(), Some(ident("b")));
    assert_eq!(inserted.next(), Some(ident("c")));
    assert_eq!(inserted.next(), None);
    assert_eq!(mod_path.get_current_module(), Some(ident("b")));
}

#[test]
fn rendering_leaves_out_consumed_segments() {
    let mut mod_path = path(&["a", "b", "c"]);
    assert_eq!(mod_path.to_string(), "a::b::c");
    mod_path.next();
    assert_eq!(mod_path.to_string(), "b::c");
    mod_path.next();
    mod_path.next();
    assert_eq!(mod_path.to_string(), "");
    assert_eq!(path(&["solo"]).to_string(), "solo");
}
