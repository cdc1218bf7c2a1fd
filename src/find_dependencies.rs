//! Finding a definition of a given kind and name among the items of a scope.

use vstd::prelude::*;
use crate::source::Item;

verus! {

/// The kinds of definition a query can ask for.
#[derive(Clone, Copy, PartialEq, Eq, Debug)]
pub enum Definition {
    Struct,
    Fn,
    Enum,
}

/// The name of `item` if it is a definition of kind `def_type`.
pub open spec fn definition_name_spec(item: Item, def_type: Definition) -> Option<Seq<char>> {
    match (item, def_type) {
        (Item::Fn(f), Definition::Fn) => Some(f.ident@),
        (Item::Struct(s), Definition::Struct) => Some(s.ident@),
        (Item::Enum(e), Definition::Enum) => Some(e.ident@),
        _ => None,
    }
}

/// The first item of `scope` that is a definition of kind `def_type` named `name`.
pub open spec fn find_definition_spec(scope: Seq<Item>, def_type: Definition, name: Seq<char>) -> Option<
    Item,
>
    decreases scope.len(),
{
    if scope.len() == 0 {
        None
    } else if definition_name_spec(scope[0], def_type) == Some(name) {
        Some(scope[0])
    } else {
        find_definition_spec(scope.drop_first(), def_type, name)
    }
}

impl Definition {
    /// The name of `item`, with the item, if it is a definition of kind `def_type`.
    pub fn get_definition_name<'a>(item: &'a Item, def_type: Definition) -> (r: Option<(String, &'a Item)>)
        ensures
            r matches Some(p) ==> definition_name_spec(*item, def_type) == Some(p.0@) && *p.1 == *item,
            r is None ==> definition_name_spec(*item, def_type) is None,
    {
        match (item, def_type) {
            (Item::Fn(f), Definition::Fn) => Some((f.ident.clone(), item)),
            (Item::Struct(s), Definition::Struct) => Some((s.ident.clone(), item)),
            (Item::Enum(e), Definition::Enum) => Some((e.ident.clone(), item)),
            _ => None,
        }
    }
}

/// Finds the first item of `scope` that is a definition of kind `definition_type` named
/// `name`.
pub fn find_definition_in_scope<'a>(scope: &'a Vec<Item>, definition_type: Definition, name: &String) -> (r:
    Option<&'a Item>)
    ensures
        r matches Some(item) ==> find_definition_spec(scope@, definition_type, name@) == Some(*item),
        r is None ==> find_definition_spec(scope@, definition_type, name@) is None,
{
    let mut i: usize = 0;
    assert(scope@.subrange(0, scope@.len() as int) =~= scope@);
    while i < scope.len()
        invariant
            i <= scope@.len(),
            find_definition_spec(scope@, definition_type, name@) == find_definition_spec(
                scope@.subrange(i as int, scope@.len() as int),
                definition_type,
                name@,
            ),
        decreases scope@.len() - i,
    {
        proof {
            assert(scope@.subrange(i as int, scope@.len() as int).drop_first() =~= scope@.subrange(
                i + 1,
                scope@.len() as int,
            ));
        }
        if let Some((ident, item)) = Definition::get_definition_name(&scope[i], definition_type) {
            if ident == *name {
                return Some(item);
            }
        }
        i = i + 1;
    }
    None
}

} // verus!
