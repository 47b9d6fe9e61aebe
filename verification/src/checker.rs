//! What kind of construct a node is.

use vstd::prelude::*;
use crate::getter::{get_space_kind, space_kind};
use crate::langs::LANG;
use crate::languages::language_go;
use crate::languages::language_python;
use crate::languages::language_rust;
use crate::languages::language_tsx;
use crate::languages::language_typescript;
use crate::node::Tree;
use crate::spaces::SpaceKind;

verus! {

/// Whether `k` is the kind of a function or method definition.
pub open spec fn func_kind(lang: LANG, k: u16) -> bool {
    match lang {
        LANG::Python => k == language_python::FUNCTION_DEFINITION,
        LANG::Typescript => k == language_typescript::FUNCTION_DECLARATION || k
            == language_typescript::METHOD_DEFINITION,
        LANG::Tsx => k == language_tsx::FUNCTION_DECLARATION || k == language_tsx::METHOD_DEFINITION,
        LANG::Rust => k == language_rust::FUNCTION_ITEM,
        LANG::Go => k == language_go::FUNCTION_DECLARATION || k == language_go::METHOD_DECLARATION,
    }
}

/// Whether `k` is the kind of a function written as an expression: a lambda,
/// a closure, a function expression, an arrow function or a generator.
pub open spec fn closure_kind(lang: LANG, k: u16) -> bool {
    match lang {
        LANG::Python => k == language_python::LAMBDA,
        LANG::Typescript => k == language_typescript::FUNCTION_EXPRESSION || k
            == language_typescript::ARROW_FUNCTION || k == language_typescript::GENERATOR_FUNCTION
            || k == language_typescript::GENERATOR_FUNCTION_DECLARATION,
        LANG::Tsx => k == language_tsx::FUNCTION_EXPRESSION || k == language_tsx::ARROW_FUNCTION
            || k == language_tsx::GENERATOR_FUNCTION || k
            == language_tsx::GENERATOR_FUNCTION_DECLARATION,
        LANG::Rust => k == language_rust::CLOSURE_EXPRESSION,
        LANG::Go => k == language_go::FUNC_LITERAL,
    }
}

/// Whether `k` is the kind of a comment.
pub open spec fn comment_kind(lang: LANG, k: u16) -> bool {
    match lang {
        LANG::Python => k == language_python::COMMENT,
        LANG::Typescript => k == language_typescript::COMMENT,
        LANG::Tsx => k == language_tsx::COMMENT,
        LANG::Rust => k == language_rust::LINE_COMMENT || k == language_rust::BLOCK_COMMENT,
        LANG::Go => k == language_go::COMMENT,
    }
}

/// Tells whether the node at `i` defines a function or method.
pub fn is_func(lang: LANG, tree: &Tree, i: usize) -> (r: bool)
    requires
        i < tree@.len(),
    ensures
        r == func_kind(lang, tree@[i as int].kind_id),
{
    let k = tree.node(i).kind_id;
    match lang {
        LANG::Python => k == language_python::FUNCTION_DEFINITION,
        LANG::Typescript => k == language_typescript::FUNCTION_DECLARATION || k
            == language_typescript::METHOD_DEFINITION,
        LANG::Tsx => k == language_tsx::FUNCTION_DECLARATION || k == language_tsx::METHOD_DEFINITION,
        LANG::Rust => k == language_rust::FUNCTION_ITEM,
        LANG::Go => k == language_go::FUNCTION_DECLARATION || k == language_go::METHOD_DECLARATION,
    }
}

/// Tells whether the node at `i` is a function written as an expression.
pub fn is_closure(lang: LANG, tree: &Tree, i: usize) -> (r: bool)
    requires
        i < tree@.len(),
    ensures
        r == closure_kind(lang, tree@[i as int].kind_id),
{
    let k = tree.node(i).kind_id;
    match lang {
        LANG::Python => k == language_python::LAMBDA,
        LANG::Typescript => k == language_typescript::FUNCTION_EXPRESSION || k
            == language_typescript::ARROW_FUNCTION || k == language_typescript::GENERATOR_FUNCTION
            || k == language_typescript::GENERATOR_FUNCTION_DECLARATION,
        LANG::Tsx => k == language_tsx::FUNCTION_EXPRESSION || k == language_tsx::ARROW_FUNCTION
            || k == language_tsx::GENERATOR_FUNCTION || k
            == language_tsx::GENERATOR_FUNCTION_DECLARATION,
        LANG::Rust => k == language_rust::CLOSURE_EXPRESSION,
        LANG::Go => k == language_go::FUNC_LITERAL,
    }
}

/// Tells whether the node at `i` is a comment.
pub fn is_comment(lang: LANG, tree: &Tree, i: usize) -> (r: bool)
    requires
        i < tree@.len(),
    ensures
        r == comment_kind(lang, tree@[i as int].kind_id),
{
    let k = tree.node(i).kind_id;
    match lang {
        LANG::Python => k == language_python::COMMENT,
        LANG::Typescript => k == language_typescript::COMMENT,
        LANG::Tsx => k == language_tsx::COMMENT,
        LANG::Rust => k == language_rust::LINE_COMMENT || k == language_rust::BLOCK_COMMENT,
        LANG::Go => k == language_go::COMMENT,
    }
}

/// Tells whether the node at `i` opens a scope.
pub fn is_func_space(lang: LANG, tree: &Tree, i: usize) -> (r: bool)
    requires
        i < tree@.len(),
    ensures
        r == (space_kind(lang, tree@, i as int) != SpaceKind::Unknown),
{
    get_space_kind(lang, tree, i) != SpaceKind::Unknown
}

} // verus!
