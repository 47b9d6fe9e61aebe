//! What a node means to the metrics: the scope it opens, its name, and its
//! role as operator or operand.

use vstd::prelude::*;
use vstd::slice::slice_subrange;
use vstd::utf8::{decode_utf8, valid_utf8};
use crate::langs::LANG;
use crate::languages::language_go;
use crate::languages::language_python;
use crate::languages::language_rust;
use crate::languages::language_tsx;
use crate::languages::language_typescript;
use crate::metrics::halstead::HalsteadType;
use crate::node::{count_children_from, find_field_from, fits, node_ok, Field, Node, Tree};
use crate::spaces::SpaceKind;
use crate::tools::str_from_utf8;

verus! {

/// Whether `k` is a kind the Python grammar gives an operator, wherever it stands.
pub open spec fn python_operator(k: u16) -> bool {
    matches!(
        k,
        language_python::IMPORT | language_python::DOT | language_python::FROM
        | language_python::COMMA | language_python::AS | language_python::STAR
        | language_python::GTGT | language_python::ASSERT | language_python::COLONEQ
        | language_python::RETURN | language_python::DEF | language_python::DEL
        | language_python::RAISE | language_python::PASS | language_python::BREAK
        | language_python::CONTINUE | language_python::IF | language_python::ELIF
        | language_python::ELSE | language_python::ASYNC | language_python::FOR
        | language_python::IN | language_python::WHILE | language_python::TRY
        | language_python::EXCEPT | language_python::FINALLY | language_python::WITH
        | language_python::DASHGT | language_python::EQ | language_python::GLOBAL
        | language_python::EXEC | language_python::AT | language_python::NOT
        | language_python::AND | language_python::OR | language_python::PLUS
        | language_python::DASH | language_python::SLASH | language_python::PERCENT
        | language_python::SLASHSLASH | language_python::STARSTAR | language_python::PIPE
        | language_python::AMP | language_python::CARET | language_python::LTLT
        | language_python::TILDE | language_python::LT | language_python::LTEQ
        | language_python::EQEQ | language_python::BANGEQ | language_python::GTEQ
        | language_python::GT | language_python::LTGT | language_python::IS
        | language_python::PLUSEQ | language_python::DASHEQ | language_python::STAREQ
        | language_python::SLASHEQ | language_python::ATEQ | language_python::SLASHSLASHEQ
        | language_python::PERCENTEQ | language_python::STARSTAREQ | language_python::GTGTEQ
        | language_python::LTLTEQ | language_python::AMPEQ | language_python::CARETEQ
        | language_python::PIPEEQ | language_python::YIELD | language_python::AWAIT
        | language_python::AWAIT2 | language_python::PRINT
    )
}

/// Tells whether `k` is a kind the Python grammar gives an operator, wherever it stands.
fn is_python_operator(k: u16) -> (r: bool)
    ensures
        r == python_operator(k),
{
    matches!(
        k,
        language_python::IMPORT | language_python::DOT | language_python::FROM
        | language_python::COMMA | language_python::AS | language_python::STAR
        | language_python::GTGT | language_python::ASSERT | language_python::COLONEQ
        | language_python::RETURN | language_python::DEF | language_python::DEL
        | language_python::RAISE | language_python::PASS | language_python::BREAK
        | language_python::CONTINUE | language_python::IF | language_python::ELIF
        | language_python::ELSE | language_python::ASYNC | language_python::FOR
        | language_python::IN | language_python::WHILE | language_python::TRY
        | language_python::EXCEPT | language_python::FINALLY | language_python::WITH
        | language_python::DASHGT | language_python::EQ | language_python::GLOBAL
        | language_python::EXEC | language_python::AT | language_python::NOT
        | language_python::AND | language_python::OR | language_python::PLUS
        | language_python::DASH | language_python::SLASH | language_python::PERCENT
        | language_python::SLASHSLASH | language_python::STARSTAR | language_python::PIPE
        | language_python::AMP | language_python::CARET | language_python::LTLT
        | language_python::TILDE | language_python::LT | language_python::LTEQ
        | language_python::EQEQ | language_python::BANGEQ | language_python::GTEQ
        | language_python::GT | language_python::LTGT | language_python::IS
        | language_python::PLUSEQ | language_python::DASHEQ | language_python::STAREQ
        | language_python::SLASHEQ | language_python::ATEQ | language_python::SLASHSLASHEQ
        | language_python::PERCENTEQ | language_python::STARSTAREQ | language_python::GTGTEQ
        | language_python::LTLTEQ | language_python::AMPEQ | language_python::CARETEQ
        | language_python::PIPEEQ | language_python::YIELD | language_python::AWAIT
        | language_python::AWAIT2 | language_python::PRINT
    )
}

/// Whether `k` is a kind the Python grammar gives an operand, wherever it stands.
pub open spec fn python_operand(k: u16) -> bool {
    matches!(
        k,
        language_python::IDENTIFIER | language_python::INTEGER | language_python::FLOAT
        | language_python::TRUE | language_python::FALSE | language_python::NONE
    )
}

/// Tells whether `k` is a kind the Python grammar gives an operand, wherever it stands.
fn is_python_operand(k: u16) -> (r: bool)
    ensures
        r == python_operand(k),
{
    matches!(
        k,
        language_python::IDENTIFIER | language_python::INTEGER | language_python::FLOAT
        | language_python::TRUE | language_python::FALSE | language_python::NONE
    )
}

/// Whether `k` is a kind the TypeScript grammar gives an operator, wherever it stands.
pub open spec fn typescript_operator(k: u16) -> bool {
    matches!(
        k,
        language_typescript::EXPORT | language_typescript::IMPORT | language_typescript::IMPORT2
        | language_typescript::EXTENDS | language_typescript::DOT | language_typescript::FROM
        | language_typescript::LPAREN | language_typescript::COMMA | language_typescript::AS
        | language_typescript::STAR | language_typescript::GTGT | language_typescript::GTGTGT
        | language_typescript::COLON | language_typescript::RETURN | language_typescript::DELETE
        | language_typescript::THROW | language_typescript::BREAK | language_typescript::CONTINUE
        | language_typescript::IF | language_typescript::ELSE | language_typescript::SWITCH
        | language_typescript::CASE | language_typescript::DEFAULT | language_typescript::ASYNC
        | language_typescript::FOR | language_typescript::IN | language_typescript::OF
        | language_typescript::WHILE | language_typescript::TRY | language_typescript::CATCH
        | language_typescript::FINALLY | language_typescript::WITH | language_typescript::EQ
        | language_typescript::AT | language_typescript::AMPAMP | language_typescript::PIPEPIPE
        | language_typescript::PLUS | language_typescript::DASH | language_typescript::DASHDASH
        | language_typescript::PLUSPLUS | language_typescript::SLASH
        | language_typescript::PERCENT | language_typescript::STARSTAR
        | language_typescript::PIPE | language_typescript::AMP | language_typescript::LTLT
        | language_typescript::TILDE | language_typescript::LT | language_typescript::LTEQ
        | language_typescript::EQEQ | language_typescript::BANGEQ | language_typescript::GTEQ
        | language_typescript::GT | language_typescript::PLUSEQ | language_typescript::BANG
        | language_typescript::BANGEQEQ | language_typescript::EQEQEQ
        | language_typescript::DASHEQ | language_typescript::STAREQ
        | language_typescript::SLASHEQ | language_typescript::PERCENTEQ
        | language_typescript::STARSTAREQ | language_typescript::GTGTEQ
        | language_typescript::GTGTGTEQ | language_typescript::LTLTEQ
        | language_typescript::AMPEQ | language_typescript::CARET | language_typescript::CARETEQ
        | language_typescript::PIPEEQ | language_typescript::YIELD | language_typescript::LBRACK
        | language_typescript::LBRACE | language_typescript::AWAIT | language_typescript::QMARK
        | language_typescript::QMARKQMARK | language_typescript::NEW | language_typescript::LET
        | language_typescript::VAR | language_typescript::CONST | language_typescript::FUNCTION
        | language_typescript::FUNCTION_EXPRESSION | language_typescript::SEMI
    )
}

/// Tells whether `k` is a kind the TypeScript grammar gives an operator, wherever it stands.
fn is_typescript_operator(k: u16) -> (r: bool)
    ensures
        r == typescript_operator(k),
{
    matches!(
        k,
        language_typescript::EXPORT | language_typescript::IMPORT | language_typescript::IMPORT2
        | language_typescript::EXTENDS | language_typescript::DOT | language_typescript::FROM
        | language_typescript::LPAREN | language_typescript::COMMA | language_typescript::AS
        | language_typescript::STAR | language_typescript::GTGT | language_typescript::GTGTGT
        | language_typescript::COLON | language_typescript::RETURN | language_typescript::DELETE
        | language_typescript::THROW | language_typescript::BREAK | language_typescript::CONTINUE
        | language_typescript::IF | language_typescript::ELSE | language_typescript::SWITCH
        | language_typescript::CASE | language_typescript::DEFAULT | language_typescript::ASYNC
        | language_typescript::FOR | language_typescript::IN | language_typescript::OF
        | language_typescript::WHILE | language_typescript::TRY | language_typescript::CATCH
        | language_typescript::FINALLY | language_typescript::WITH | language_typescript::EQ
        | language_typescript::AT | language_typescript::AMPAMP | language_typescript::PIPEPIPE
        | language_typescript::PLUS | language_typescript::DASH | language_typescript::DASHDASH
        | language_typescript::PLUSPLUS | language_typescript::SLASH
        | language_typescript::PERCENT | language_typescript::STARSTAR
        | language_typescript::PIPE | language_typescript::AMP | language_typescript::LTLT
        | language_typescript::TILDE | language_typescript::LT | language_typescript::LTEQ
        | language_typescript::EQEQ | language_typescript::BANGEQ | language_typescript::GTEQ
        | language_typescript::GT | language_typescript::PLUSEQ | language_typescript::BANG
        | language_typescript::BANGEQEQ | language_typescript::EQEQEQ
        | language_typescript::DASHEQ | language_typescript::STAREQ
        | language_typescript::SLASHEQ | language_typescript::PERCENTEQ
        | language_typescript::STARSTAREQ | language_typescript::GTGTEQ
        | language_typescript::GTGTGTEQ | language_typescript::LTLTEQ
        | language_typescript::AMPEQ | language_typescript::CARET | language_typescript::CARETEQ
        | language_typescript::PIPEEQ | language_typescript::YIELD | language_typescript::LBRACK
        | language_typescript::LBRACE | language_typescript::AWAIT | language_typescript::QMARK
        | language_typescript::QMARKQMARK | language_typescript::NEW | language_typescript::LET
        | language_typescript::VAR | language_typescript::CONST | language_typescript::FUNCTION
        | language_typescript::FUNCTION_EXPRESSION | language_typescript::SEMI
    )
}

/// Whether `k` is a kind the TypeScript grammar gives an operand, wherever it stands.
pub open spec fn typescript_operand(k: u16) -> bool {
    matches!(
        k,
        language_typescript::IDENTIFIER | language_typescript::NESTED_IDENTIFIER
        | language_typescript::MEMBER_EXPRESSION | language_typescript::PROPERTY_IDENTIFIER
        | language_typescript::STRING | language_typescript::NUMBER | language_typescript::TRUE
        | language_typescript::FALSE | language_typescript::NULL | language_typescript::VOID
        | language_typescript::THIS | language_typescript::SUPER | language_typescript::UNDEFINED
        | language_typescript::SET | language_typescript::GET | language_typescript::TYPEOF
        | language_typescript::INSTANCEOF
    )
}

/// Tells whether `k` is a kind the TypeScript grammar gives an operand, wherever it stands.
fn is_typescript_operand(k: u16) -> (r: bool)
    ensures
        r == typescript_operand(k),
{
    matches!(
        k,
        language_typescript::IDENTIFIER | language_typescript::NESTED_IDENTIFIER
        | language_typescript::MEMBER_EXPRESSION | language_typescript::PROPERTY_IDENTIFIER
        | language_typescript::STRING | language_typescript::NUMBER | language_typescript::TRUE
        | language_typescript::FALSE | language_typescript::NULL | language_typescript::VOID
        | language_typescript::THIS | language_typescript::SUPER | language_typescript::UNDEFINED
        | language_typescript::SET | language_typescript::GET | language_typescript::TYPEOF
        | language_typescript::INSTANCEOF
    )
}

/// Whether `k` is a kind of the TypeScript grammar that opens a function scope.
pub open spec fn typescript_function_scope(k: u16) -> bool {
    matches!(
        k,
        language_typescript::FUNCTION_EXPRESSION | language_typescript::METHOD_DEFINITION
        | language_typescript::GENERATOR_FUNCTION | language_typescript::FUNCTION_DECLARATION
        | language_typescript::GENERATOR_FUNCTION_DECLARATION
        | language_typescript::ARROW_FUNCTION
    )
}

/// Tells whether `k` is a kind of the TypeScript grammar that opens a function scope.
fn is_typescript_function_scope(k: u16) -> (r: bool)
    ensures
        r == typescript_function_scope(k),
{
    matches!(
        k,
        language_typescript::FUNCTION_EXPRESSION | language_typescript::METHOD_DEFINITION
        | language_typescript::GENERATOR_FUNCTION | language_typescript::FUNCTION_DECLARATION
        | language_typescript::GENERATOR_FUNCTION_DECLARATION
        | language_typescript::ARROW_FUNCTION
    )
}

/// Whether `k` is a kind the TSX grammar gives an operator, wherever it stands.
pub open spec fn tsx_operator(k: u16) -> bool {
    matches!(
        k,
        language_tsx::EXPORT | language_tsx::IMPORT | language_tsx::IMPORT2
        | language_tsx::EXTENDS | language_tsx::DOT | language_tsx::FROM | language_tsx::LPAREN
        | language_tsx::COMMA | language_tsx::AS | language_tsx::STAR | language_tsx::GTGT
        | language_tsx::GTGTGT | language_tsx::COLON | language_tsx::RETURN
        | language_tsx::DELETE | language_tsx::THROW | language_tsx::BREAK
        | language_tsx::CONTINUE | language_tsx::IF | language_tsx::ELSE | language_tsx::SWITCH
        | language_tsx::CASE | language_tsx::DEFAULT | language_tsx::ASYNC | language_tsx::FOR
        | language_tsx::IN | language_tsx::OF | language_tsx::WHILE | language_tsx::TRY
        | language_tsx::CATCH | language_tsx::FINALLY | language_tsx::WITH | language_tsx::EQ
        | language_tsx::AT | language_tsx::AMPAMP | language_tsx::PIPEPIPE | language_tsx::PLUS
        | language_tsx::DASH | language_tsx::DASHDASH | language_tsx::PLUSPLUS
        | language_tsx::SLASH | language_tsx::PERCENT | language_tsx::STARSTAR
        | language_tsx::PIPE | language_tsx::AMP | language_tsx::LTLT | language_tsx::TILDE
        | language_tsx::LT | language_tsx::LTEQ | language_tsx::EQEQ | language_tsx::BANGEQ
        | language_tsx::GTEQ | language_tsx::GT | language_tsx::PLUSEQ | language_tsx::BANG
        | language_tsx::BANGEQEQ | language_tsx::EQEQEQ | language_tsx::DASHEQ
        | language_tsx::STAREQ | language_tsx::SLASHEQ | language_tsx::PERCENTEQ
        | language_tsx::STARSTAREQ | language_tsx::GTGTEQ | language_tsx::GTGTGTEQ
        | language_tsx::LTLTEQ | language_tsx::AMPEQ | language_tsx::CARET
        | language_tsx::CARETEQ | language_tsx::PIPEEQ | language_tsx::YIELD
        | language_tsx::LBRACK | language_tsx::LBRACE | language_tsx::AWAIT | language_tsx::QMARK
        | language_tsx::QMARKQMARK | language_tsx::NEW | language_tsx::LET | language_tsx::VAR
        | language_tsx::CONST | language_tsx::FUNCTION | language_tsx::FUNCTION_EXPRESSION
        | language_tsx::SEMI
    )
}

/// Tells whether `k` is a kind the TSX grammar gives an operator, wherever it stands.
fn is_tsx_operator(k: u16) -> (r: bool)
    ensures
        r == tsx_operator(k),
{
    matches!(
        k,
        language_tsx::EXPORT | language_tsx::IMPORT | language_tsx::IMPORT2
        | language_tsx::EXTENDS | language_tsx::DOT | language_tsx::FROM | language_tsx::LPAREN
        | language_tsx::COMMA | language_tsx::AS | language_tsx::STAR | language_tsx::GTGT
        | language_tsx::GTGTGT | language_tsx::COLON | language_tsx::RETURN
        | language_tsx::DELETE | language_tsx::THROW | language_tsx::BREAK
        | language_tsx::CONTINUE | language_tsx::IF | language_tsx::ELSE | language_tsx::SWITCH
        | language_tsx::CASE | language_tsx::DEFAULT | language_tsx::ASYNC | language_tsx::FOR
        | language_tsx::IN | language_tsx::OF | language_tsx::WHILE | language_tsx::TRY
        | language_tsx::CATCH | language_tsx::FINALLY | language_tsx::WITH | language_tsx::EQ
        | language_tsx::AT | language_tsx::AMPAMP | language_tsx::PIPEPIPE | language_tsx::PLUS
        | language_tsx::DASH | language_tsx::DASHDASH | language_tsx::PLUSPLUS
        | language_tsx::SLASH | language_tsx::PERCENT | language_tsx::STARSTAR
        | language_tsx::PIPE | language_tsx::AMP | language_tsx::LTLT | language_tsx::TILDE
        | language_tsx::LT | language_tsx::LTEQ | language_tsx::EQEQ | language_tsx::BANGEQ
        | language_tsx::GTEQ | language_tsx::GT | language_tsx::PLUSEQ | language_tsx::BANG
        | language_tsx::BANGEQEQ | language_tsx::EQEQEQ | language_tsx::DASHEQ
        | language_tsx::STAREQ | language_tsx::SLASHEQ | language_tsx::PERCENTEQ
        | language_tsx::STARSTAREQ | language_tsx::GTGTEQ | language_tsx::GTGTGTEQ
        | language_tsx::LTLTEQ | language_tsx::AMPEQ | language_tsx::CARET
        | language_tsx::CARETEQ | language_tsx::PIPEEQ | language_tsx::YIELD
        | language_tsx::LBRACK | language_tsx::LBRACE | language_tsx::AWAIT | language_tsx::QMARK
        | language_tsx::QMARKQMARK | language_tsx::NEW | language_tsx::LET | language_tsx::VAR
        | language_tsx::CONST | language_tsx::FUNCTION | language_tsx::FUNCTION_EXPRESSION
        | language_tsx::SEMI
    )
}

/// Whether `k` is a kind the TSX grammar gives an operand, wherever it stands.
pub open spec fn tsx_operand(k: u16) -> bool {
    matches!(
        k,
        language_tsx::IDENTIFIER | language_tsx::NESTED_IDENTIFIER
        | language_tsx::MEMBER_EXPRESSION | language_tsx::PROPERTY_IDENTIFIER
        | language_tsx::STRING | language_tsx::STRING2 | language_tsx::NUMBER
        | language_tsx::TRUE | language_tsx::FALSE | language_tsx::NULL | language_tsx::VOID
        | language_tsx::THIS | language_tsx::SUPER | language_tsx::UNDEFINED | language_tsx::SET
        | language_tsx::GET | language_tsx::TYPEOF | language_tsx::INSTANCEOF
    )
}

/// Tells whether `k` is a kind the TSX grammar gives an operand, wherever it stands.
fn is_tsx_operand(k: u16) -> (r: bool)
    ensures
        r == tsx_operand(k),
{
    matches!(
        k,
        language_tsx::IDENTIFIER | language_tsx::NESTED_IDENTIFIER
        | language_tsx::MEMBER_EXPRESSION | language_tsx::PROPERTY_IDENTIFIER
        | language_tsx::STRING | language_tsx::STRING2 | language_tsx::NUMBER
        | language_tsx::TRUE | language_tsx::FALSE | language_tsx::NULL | language_tsx::VOID
        | language_tsx::THIS | language_tsx::SUPER | language_tsx::UNDEFINED | language_tsx::SET
        | language_tsx::GET | language_tsx::TYPEOF | language_tsx::INSTANCEOF
    )
}

/// Whether `k` is a kind of the TSX grammar that opens a function scope.
pub open spec fn tsx_function_scope(k: u16) -> bool {
    matches!(
        k,
        language_tsx::FUNCTION_EXPRESSION | language_tsx::METHOD_DEFINITION
        | language_tsx::GENERATOR_FUNCTION | language_tsx::FUNCTION_DECLARATION
        | language_tsx::GENERATOR_FUNCTION_DECLARATION | language_tsx::ARROW_FUNCTION
    )
}

/// Tells whether `k` is a kind of the TSX grammar that opens a function scope.
fn is_tsx_function_scope(k: u16) -> (r: bool)
    ensures
        r == tsx_function_scope(k),
{
    matches!(
        k,
        language_tsx::FUNCTION_EXPRESSION | language_tsx::METHOD_DEFINITION
        | language_tsx::GENERATOR_FUNCTION | language_tsx::FUNCTION_DECLARATION
        | language_tsx::GENERATOR_FUNCTION_DECLARATION | language_tsx::ARROW_FUNCTION
    )
}

/// Whether `k` is a kind the Rust grammar gives an operator, wherever it stands.
pub open spec fn rust_operator(k: u16) -> bool {
    matches!(
        k,
        language_rust::LPAREN | language_rust::LBRACE | language_rust::LBRACK
        | language_rust::EQGT | language_rust::PLUS | language_rust::STAR | language_rust::ASYNC
        | language_rust::AWAIT | language_rust::CONTINUE | language_rust::FOR | language_rust::IF
        | language_rust::LET | language_rust::LOOP | language_rust::MATCH | language_rust::RETURN
        | language_rust::UNSAFE | language_rust::WHILE | language_rust::EQ | language_rust::COMMA
        | language_rust::DASHGT | language_rust::QMARK | language_rust::LT | language_rust::GT
        | language_rust::AMP | language_rust::MUTABLE_SPECIFIER | language_rust::DOTDOT
        | language_rust::DOTDOTEQ | language_rust::DASH | language_rust::AMPAMP
        | language_rust::PIPE | language_rust::CARET | language_rust::EQEQ
        | language_rust::BANGEQ | language_rust::LTEQ | language_rust::GTEQ | language_rust::LTLT
        | language_rust::GTGT | language_rust::PERCENT | language_rust::PLUSEQ
        | language_rust::DASHEQ | language_rust::STAREQ | language_rust::SLASHEQ
        | language_rust::PERCENTEQ | language_rust::AMPEQ | language_rust::PIPEEQ
        | language_rust::CARETEQ | language_rust::LTLTEQ | language_rust::GTGTEQ
        | language_rust::MOVE | language_rust::DOT | language_rust::PRIMITIVE_TYPE
        | language_rust::FN | language_rust::SEMI
    )
}

/// Tells whether `k` is a kind the Rust grammar gives an operator, wherever it stands.
fn is_rust_operator(k: u16) -> (r: bool)
    ensures
        r == rust_operator(k),
{
    matches!(
        k,
        language_rust::LPAREN | language_rust::LBRACE | language_rust::LBRACK
        | language_rust::EQGT | language_rust::PLUS | language_rust::STAR | language_rust::ASYNC
        | language_rust::AWAIT | language_rust::CONTINUE | language_rust::FOR | language_rust::IF
        | language_rust::LET | language_rust::LOOP | language_rust::MATCH | language_rust::RETURN
        | language_rust::UNSAFE | language_rust::WHILE | language_rust::EQ | language_rust::COMMA
        | language_rust::DASHGT | language_rust::QMARK | language_rust::LT | language_rust::GT
        | language_rust::AMP | language_rust::MUTABLE_SPECIFIER | language_rust::DOTDOT
        | language_rust::DOTDOTEQ | language_rust::DASH | language_rust::AMPAMP
        | language_rust::PIPE | language_rust::CARET | language_rust::EQEQ
        | language_rust::BANGEQ | language_rust::LTEQ | language_rust::GTEQ | language_rust::LTLT
        | language_rust::GTGT | language_rust::PERCENT | language_rust::PLUSEQ
        | language_rust::DASHEQ | language_rust::STAREQ | language_rust::SLASHEQ
        | language_rust::PERCENTEQ | language_rust::AMPEQ | language_rust::PIPEEQ
        | language_rust::CARETEQ | language_rust::LTLTEQ | language_rust::GTGTEQ
        | language_rust::MOVE | language_rust::DOT | language_rust::PRIMITIVE_TYPE
        | language_rust::FN | language_rust::SEMI
    )
}

/// Whether `k` is a kind the Rust grammar gives an operand, wherever it stands.
pub open spec fn rust_operand(k: u16) -> bool {
    matches!(
        k,
        language_rust::IDENTIFIER | language_rust::STRING_LITERAL
        | language_rust::RAW_STRING_LITERAL | language_rust::INTEGER_LITERAL
        | language_rust::FLOAT_LITERAL | language_rust::BOOLEAN_LITERAL | language_rust::ZELF
        | language_rust::CHAR_LITERAL | language_rust::UNDERSCORE
    )
}

/// Tells whether `k` is a kind the Rust grammar gives an operand, wherever it stands.
fn is_rust_operand(k: u16) -> (r: bool)
    ensures
        r == rust_operand(k),
{
    matches!(
        k,
        language_rust::IDENTIFIER | language_rust::STRING_LITERAL
        | language_rust::RAW_STRING_LITERAL | language_rust::INTEGER_LITERAL
        | language_rust::FLOAT_LITERAL | language_rust::BOOLEAN_LITERAL | language_rust::ZELF
        | language_rust::CHAR_LITERAL | language_rust::UNDERSCORE
    )
}

/// Whether `k` is a kind of the Rust grammar that opens a function scope.
pub open spec fn rust_function_scope(k: u16) -> bool {
    matches!(
        k,
        language_rust::FUNCTION_ITEM | language_rust::CLOSURE_EXPRESSION
    )
}

/// Tells whether `k` is a kind of the Rust grammar that opens a function scope.
fn is_rust_function_scope(k: u16) -> (r: bool)
    ensures
        r == rust_function_scope(k),
{
    matches!(
        k,
        language_rust::FUNCTION_ITEM | language_rust::CLOSURE_EXPRESSION
    )
}

/// Whether `k` is a kind the Go grammar gives an operator, wherever it stands.
pub open spec fn go_operator(k: u16) -> bool {
    matches!(
        k,
        language_go::FUNC | language_go::GO | language_go::DEFER | language_go::RETURN
        | language_go::IF | language_go::ELSE | language_go::FOR | language_go::RANGE
        | language_go::SWITCH | language_go::SELECT | language_go::CASE | language_go::DEFAULT
        | language_go::BREAK | language_go::CONTINUE | language_go::GOTO
        | language_go::FALLTHROUGH | language_go::CHAN | language_go::MAP | language_go::STRUCT
        | language_go::INTERFACE | language_go::TYPE | language_go::VAR | language_go::CONST
        | language_go::PACKAGE | language_go::IMPORT | language_go::DOT | language_go::COMMA
        | language_go::SEMI | language_go::COLON | language_go::COLONEQ | language_go::EQ
        | language_go::PLUSEQ | language_go::DASHEQ | language_go::STAREQ | language_go::SLASHEQ
        | language_go::PERCENTEQ | language_go::AMPEQ | language_go::PIPEEQ
        | language_go::CARETEQ | language_go::LTLTEQ | language_go::GTGTEQ
        | language_go::AMPCARETEQ | language_go::PLUS | language_go::DASH | language_go::STAR
        | language_go::SLASH | language_go::PERCENT | language_go::AMP | language_go::PIPE
        | language_go::CARET | language_go::LTLT | language_go::GTGT | language_go::AMPAMP
        | language_go::PIPEPIPE | language_go::AMPCARET | language_go::PLUSPLUS
        | language_go::DASHDASH | language_go::EQEQ | language_go::BANGEQ | language_go::LT
        | language_go::LTEQ | language_go::GT | language_go::GTEQ | language_go::BANG
        | language_go::LPAREN | language_go::LBRACK | language_go::LBRACE
        | language_go::DOTDOTDOT
    )
}

/// Tells whether `k` is a kind the Go grammar gives an operator, wherever it stands.
fn is_go_operator(k: u16) -> (r: bool)
    ensures
        r == go_operator(k),
{
    matches!(
        k,
        language_go::FUNC | language_go::GO | language_go::DEFER | language_go::RETURN
        | language_go::IF | language_go::ELSE | language_go::FOR | language_go::RANGE
        | language_go::SWITCH | language_go::SELECT | language_go::CASE | language_go::DEFAULT
        | language_go::BREAK | language_go::CONTINUE | language_go::GOTO
        | language_go::FALLTHROUGH | language_go::CHAN | language_go::MAP | language_go::STRUCT
        | language_go::INTERFACE | language_go::TYPE | language_go::VAR | language_go::CONST
        | language_go::PACKAGE | language_go::IMPORT | language_go::DOT | language_go::COMMA
        | language_go::SEMI | language_go::COLON | language_go::COLONEQ | language_go::EQ
        | language_go::PLUSEQ | language_go::DASHEQ | language_go::STAREQ | language_go::SLASHEQ
        | language_go::PERCENTEQ | language_go::AMPEQ | language_go::PIPEEQ
        | language_go::CARETEQ | language_go::LTLTEQ | language_go::GTGTEQ
        | language_go::AMPCARETEQ | language_go::PLUS | language_go::DASH | language_go::STAR
        | language_go::SLASH | language_go::PERCENT | language_go::AMP | language_go::PIPE
        | language_go::CARET | language_go::LTLT | language_go::GTGT | language_go::AMPAMP
        | language_go::PIPEPIPE | language_go::AMPCARET | language_go::PLUSPLUS
        | language_go::DASHDASH | language_go::EQEQ | language_go::BANGEQ | language_go::LT
        | language_go::LTEQ | language_go::GT | language_go::GTEQ | language_go::BANG
        | language_go::LPAREN | language_go::LBRACK | language_go::LBRACE
        | language_go::DOTDOTDOT
    )
}

/// Whether `k` is a kind the Go grammar gives an operand, wherever it stands.
pub open spec fn go_operand(k: u16) -> bool {
    matches!(
        k,
        language_go::IDENTIFIER | language_go::INT_LITERAL | language_go::FLOAT_LITERAL
        | language_go::IMAGINARY_LITERAL | language_go::RUNE_LITERAL
        | language_go::RAW_STRING_LITERAL | language_go::INTERPRETED_STRING_LITERAL
        | language_go::TRUE | language_go::FALSE | language_go::NIL | language_go::IOTA
    )
}

/// Tells whether `k` is a kind the Go grammar gives an operand, wherever it stands.
fn is_go_operand(k: u16) -> (r: bool)
    ensures
        r == go_operand(k),
{
    matches!(
        k,
        language_go::IDENTIFIER | language_go::INT_LITERAL | language_go::FLOAT_LITERAL
        | language_go::IMAGINARY_LITERAL | language_go::RUNE_LITERAL
        | language_go::RAW_STRING_LITERAL | language_go::INTERPRETED_STRING_LITERAL
        | language_go::TRUE | language_go::FALSE | language_go::NIL | language_go::IOTA
    )
}

/// Whether `k` is a kind of the Go grammar that opens a function scope.
pub open spec fn go_function_scope(k: u16) -> bool {
    matches!(
        k,
        language_go::FUNCTION_DECLARATION | language_go::METHOD_DECLARATION
        | language_go::FUNC_LITERAL
    )
}

/// Tells whether `k` is a kind of the Go grammar that opens a function scope.
fn is_go_function_scope(k: u16) -> (r: bool)
    ensures
        r == go_function_scope(k),
{
    matches!(
        k,
        language_go::FUNCTION_DECLARATION | language_go::METHOD_DECLARATION
        | language_go::FUNC_LITERAL
    )
}

/// The kind of scope the node at `i` opens; `Unknown` if it opens none.
pub open spec fn space_kind(lang: LANG, nodes: Seq<Node>, i: int) -> SpaceKind {
    let k = nodes[i].kind_id;
    match lang {
        LANG::Python => if k == language_python::FUNCTION_DEFINITION {
            SpaceKind::Function
        } else if k == language_python::CLASS_DEFINITION {
            SpaceKind::Class
        } else if k == language_python::MODULE {
            SpaceKind::Unit
        } else {
            SpaceKind::Unknown
        },
        LANG::Typescript => if typescript_function_scope(k) {
            SpaceKind::Function
        } else if k == language_typescript::CLASS || k == language_typescript::CLASS_DECLARATION {
            SpaceKind::Class
        } else if k == language_typescript::INTERFACE_DECLARATION {
            SpaceKind::Interface
        } else if k == language_typescript::PROGRAM {
            SpaceKind::Unit
        } else {
            SpaceKind::Unknown
        },
        LANG::Tsx => if tsx_function_scope(k) {
            SpaceKind::Function
        } else if k == language_tsx::CLASS || k == language_tsx::CLASS_DECLARATION {
            SpaceKind::Class
        } else if k == language_tsx::INTERFACE_DECLARATION {
            SpaceKind::Interface
        } else if k == language_tsx::PROGRAM {
            SpaceKind::Unit
        } else {
            SpaceKind::Unknown
        },
        LANG::Rust => if rust_function_scope(k) {
            SpaceKind::Function
        } else if k == language_rust::TRAIT_ITEM {
            SpaceKind::Trait
        } else if k == language_rust::IMPL_ITEM {
            SpaceKind::Impl
        } else if k == language_rust::SOURCE_FILE {
            SpaceKind::Unit
        } else {
            SpaceKind::Unknown
        },
        LANG::Go => if go_function_scope(k) {
            SpaceKind::Function
        } else if k == language_go::SOURCE_FILE {
            SpaceKind::Unit
        } else {
            SpaceKind::Unknown
        },
    }
}

/// Tells the kind of scope the node at `i` opens; `Unknown` if it opens none.
pub fn get_space_kind(lang: LANG, tree: &Tree, i: usize) -> (r: SpaceKind)
    requires
        i < tree@.len(),
    ensures
        r == space_kind(lang, tree@, i as int),
{
    let k = tree.node(i).kind_id;
    match lang {
        LANG::Python => if k == language_python::FUNCTION_DEFINITION {
            SpaceKind::Function
        } else if k == language_python::CLASS_DEFINITION {
            SpaceKind::Class
        } else if k == language_python::MODULE {
            SpaceKind::Unit
        } else {
            SpaceKind::Unknown
        },
        LANG::Typescript => if is_typescript_function_scope(k) {
            SpaceKind::Function
        } else if k == language_typescript::CLASS || k == language_typescript::CLASS_DECLARATION {
            SpaceKind::Class
        } else if k == language_typescript::INTERFACE_DECLARATION {
            SpaceKind::Interface
        } else if k == language_typescript::PROGRAM {
            SpaceKind::Unit
        } else {
            SpaceKind::Unknown
        },
        LANG::Tsx => if is_tsx_function_scope(k) {
            SpaceKind::Function
        } else if k == language_tsx::CLASS || k == language_tsx::CLASS_DECLARATION {
            SpaceKind::Class
        } else if k == language_tsx::INTERFACE_DECLARATION {
            SpaceKind::Interface
        } else if k == language_tsx::PROGRAM {
            SpaceKind::Unit
        } else {
            SpaceKind::Unknown
        },
        LANG::Rust => if is_rust_function_scope(k) {
            SpaceKind::Function
        } else if k == language_rust::TRAIT_ITEM {
            SpaceKind::Trait
        } else if k == language_rust::IMPL_ITEM {
            SpaceKind::Impl
        } else if k == language_rust::SOURCE_FILE {
            SpaceKind::Unit
        } else {
            SpaceKind::Unknown
        },
        LANG::Go => if is_go_function_scope(k) {
            SpaceKind::Function
        } else if k == language_go::SOURCE_FILE {
            SpaceKind::Unit
        } else {
            SpaceKind::Unknown
        },
    }
}

/// Whether the node at `i` is a Python string that stands alone as a
/// statement of its own, or has no parent: documentation, not an operand.
pub open spec fn python_docstring(nodes: Seq<Node>, i: int) -> bool {
    nodes[i].parent is None || {
        let p = nodes[i].parent->0 as int;
        nodes[p].kind_id == language_python::EXPRESSION_STATEMENT && count_children_from(
            nodes,
            p,
            p + 1,
        ) == 1
    }
}

/// Whether the parent of the node at `i` has the kind `kind`.
pub open spec fn parent_is(nodes: Seq<Node>, i: int, kind: u16) -> bool {
    nodes[i].parent is Some && nodes[nodes[i].parent->0 as int].kind_id == kind
}

/// Tells whether the parent of the node at `i` has the kind `kind`.
pub fn has_parent_of_kind(tree: &Tree, i: usize, kind: u16) -> (r: bool)
    requires
        tree.wf(),
        i < tree@.len(),
    ensures
        r == parent_is(tree@, i as int, kind),
{
    match tree.parent(i) {
        Some(p) => tree.node(p).kind_id == kind,
        None => false,
    }
}

/// The role of the node at `i` for the Halstead suite.
///
/// Most kinds have one role wherever they stand. A Python string is an
/// operand unless it is documentation. In Rust, `||` and `/` are operators
/// only inside a binary expression, and `!` is one unless it marks an inner
/// doc comment or has no parent.
pub open spec fn op_type(lang: LANG, nodes: Seq<Node>, i: int) -> HalsteadType {
    let k = nodes[i].kind_id;
    match lang {
        LANG::Python => if python_operator(k) {
            HalsteadType::Operator
        } else if python_operand(k) {
            HalsteadType::Operand
        } else if k == language_python::STRING && !python_docstring(nodes, i) {
            HalsteadType::Operand
        } else {
            HalsteadType::Unknown
        },
        LANG::Typescript => if typescript_operator(k) {
            HalsteadType::Operator
        } else if typescript_operand(k) {
            HalsteadType::Operand
        } else {
            HalsteadType::Unknown
        },
        LANG::Tsx => if tsx_operator(k) {
            HalsteadType::Operator
        } else if tsx_operand(k) {
            HalsteadType::Operand
        } else {
            HalsteadType::Unknown
        },
        LANG::Rust => if k == language_rust::PIPEPIPE || k == language_rust::SLASH {
            if parent_is(nodes, i, language_rust::BINARY_EXPRESSION) {
                HalsteadType::Operator
            } else {
                HalsteadType::Unknown
            }
        } else if k == language_rust::BANG {
            if nodes[i].parent is Some && !parent_is(
                nodes,
                i,
                language_rust::INNER_DOC_COMMENT_MARKER,
            ) {
                HalsteadType::Operator
            } else {
                HalsteadType::Unknown
            }
        } else if rust_operator(k) {
            HalsteadType::Operator
        } else if rust_operand(k) {
            HalsteadType::Operand
        } else {
            HalsteadType::Unknown
        },
        LANG::Go => if go_operator(k) {
            HalsteadType::Operator
        } else if go_operand(k) {
            HalsteadType::Operand
        } else {
            HalsteadType::Unknown
        },
    }
}

/// Classifies the node at `i` for the Halstead suite.
pub fn get_op_type(lang: LANG, tree: &Tree, i: usize) -> (r: HalsteadType)
    requires
        tree.wf(),
        i < tree@.len(),
    ensures
        r == op_type(lang, tree@, i as int),
{
    let k = tree.node(i).kind_id;
    match lang {
        LANG::Python => if is_python_operator(k) {
            HalsteadType::Operator
        } else if is_python_operand(k) {
            HalsteadType::Operand
        } else if k == language_python::STRING {
            match tree.parent(i) {
                Some(p) => if tree.node(p).kind_id != language_python::EXPRESSION_STATEMENT
                    || tree.child_count(p) != 1 {
                    HalsteadType::Operand
                } else {
                    HalsteadType::Unknown
                },
                None => HalsteadType::Unknown,
            }
        } else {
            HalsteadType::Unknown
        },
        LANG::Typescript => if is_typescript_operator(k) {
            HalsteadType::Operator
        } else if is_typescript_operand(k) {
            HalsteadType::Operand
        } else {
            HalsteadType::Unknown
        },
        LANG::Tsx => if is_tsx_operator(k) {
            HalsteadType::Operator
        } else if is_tsx_operand(k) {
            HalsteadType::Operand
        } else {
            HalsteadType::Unknown
        },
        LANG::Rust => if k == language_rust::PIPEPIPE || k == language_rust::SLASH {
            if has_parent_of_kind(tree, i, language_rust::BINARY_EXPRESSION) {
                HalsteadType::Operator
            } else {
                HalsteadType::Unknown
            }
        } else if k == language_rust::BANG {
            if tree.parent(i).is_some() && !has_parent_of_kind(
                tree,
                i,
                language_rust::INNER_DOC_COMMENT_MARKER,
            ) {
                HalsteadType::Operator
            } else {
                HalsteadType::Unknown
            }
        } else if is_rust_operator(k) {
            HalsteadType::Operator
        } else if is_rust_operand(k) {
            HalsteadType::Operand
        } else {
            HalsteadType::Unknown
        },
        LANG::Go => if is_go_operator(k) {
            HalsteadType::Operator
        } else if is_go_operand(k) {
            HalsteadType::Operand
        } else {
            HalsteadType::Unknown
        },
    }
}

/// The text an operator kind is shown as: its name in the grammar, and for
/// an opening bracket the pair of brackets. Python shows every kind by its name.
pub open spec fn operator_text(lang: LANG, id: u16) -> Seq<char> {
    match lang {
        LANG::Python => language_python::kind_text(id),
        LANG::Typescript => if id == language_typescript::LPAREN {
            "()"@
        } else if id == language_typescript::LBRACK {
            "[]"@
        } else if id == language_typescript::LBRACE {
            "{}"@
        } else {
            language_typescript::kind_text(id)
        },
        LANG::Tsx => if id == language_tsx::LPAREN {
            "()"@
        } else if id == language_tsx::LBRACK {
            "[]"@
        } else if id == language_tsx::LBRACE {
            "{}"@
        } else {
            language_tsx::kind_text(id)
        },
        LANG::Rust => if id == language_rust::LPAREN {
            "()"@
        } else if id == language_rust::LBRACK {
            "[]"@
        } else if id == language_rust::LBRACE {
            "{}"@
        } else {
            language_rust::kind_text(id)
        },
        LANG::Go => if id == language_go::LPAREN {
            "()"@
        } else if id == language_go::LBRACK {
            "[]"@
        } else if id == language_go::LBRACE {
            "{}"@
        } else {
            language_go::kind_text(id)
        },
    }
}

/// Renders an operator kind for display.
pub fn get_operator_id_as_str(lang: LANG, id: u16) -> (r: &'static str)
    ensures
        r@ == operator_text(lang, id),
{
    match lang {
        LANG::Python => language_python::kind_str(id),
        LANG::Typescript => if id == language_typescript::LPAREN {
            "()"
        } else if id == language_typescript::LBRACK {
            "[]"
        } else if id == language_typescript::LBRACE {
            "{}"
        } else {
            language_typescript::kind_str(id)
        },
        LANG::Tsx => if id == language_tsx::LPAREN {
            "()"
        } else if id == language_tsx::LBRACK {
            "[]"
        } else if id == language_tsx::LBRACE {
            "{}"
        } else {
            language_tsx::kind_str(id)
        },
        LANG::Rust => if id == language_rust::LPAREN {
            "()"
        } else if id == language_rust::LBRACK {
            "[]"
        } else if id == language_rust::LBRACE {
            "{}"
        } else {
            language_rust::kind_str(id)
        },
        LANG::Go => if id == language_go::LPAREN {
            "()"
        } else if id == language_go::LBRACK {
            "[]"
        } else if id == language_go::LBRACE {
            "{}"
        } else {
            language_go::kind_str(id)
        },
    }
}

/// Where the name of the scope opened at `i` is written: the node's own
/// name; for Rust, failing that, the type it is written for; for the
/// TypeScript flavours, failing a name, the key of the pair or the name of
/// the variable declarator directly above it. `None` if there is none.
pub open spec fn name_node(lang: LANG, nodes: Seq<Node>, i: int) -> Option<usize> {
    let own = find_field_from(nodes, i, i + 1, Field::Name);
    if own is Some {
        own
    } else {
        match lang {
            LANG::Rust => find_field_from(nodes, i, i + 1, Field::Type),
            LANG::Typescript => if parent_is(nodes, i, language_typescript::PAIR) {
                let p = nodes[i].parent->0 as int;
                find_field_from(nodes, p, p + 1, Field::Key)
            } else if parent_is(nodes, i, language_typescript::VARIABLE_DECLARATOR) {
                let p = nodes[i].parent->0 as int;
                find_field_from(nodes, p, p + 1, Field::Name)
            } else {
                None
            },
            LANG::Tsx => if parent_is(nodes, i, language_tsx::PAIR) {
                let p = nodes[i].parent->0 as int;
                find_field_from(nodes, p, p + 1, Field::Key)
            } else if parent_is(nodes, i, language_tsx::VARIABLE_DECLARATOR) {
                let p = nodes[i].parent->0 as int;
                find_field_from(nodes, p, p + 1, Field::Name)
            } else {
                None
            },
            _ => None,
        }
    }
}

/// Finds where the name of the scope opened at `i` is written.
pub fn find_name_node(lang: LANG, tree: &Tree, i: usize) -> (r: Option<usize>)
    requires
        tree.wf(),
        i < tree@.len(),
    ensures
        r == name_node(lang, tree@, i as int),
        r is Some ==> r->0 < tree@.len(),
{
    let own = tree.child_by_field(i, Field::Name);
    if own.is_some() {
        return own;
    }
    match lang {
        LANG::Rust => tree.child_by_field(i, Field::Type),
        LANG::Typescript => match tree.parent(i) {
            Some(p) => {
                let pk = tree.node(p).kind_id;
                if pk == language_typescript::PAIR {
                    tree.child_by_field(p, Field::Key)
                } else if pk == language_typescript::VARIABLE_DECLARATOR {
                    tree.child_by_field(p, Field::Name)
                } else {
                    None
                }
            },
            None => None,
        },
        LANG::Tsx => match tree.parent(i) {
            Some(p) => {
                let pk = tree.node(p).kind_id;
                if pk == language_tsx::PAIR {
                    tree.child_by_field(p, Field::Key)
                } else if pk == language_tsx::VARIABLE_DECLARATOR {
                    tree.child_by_field(p, Field::Name)
                } else {
                    None
                }
            },
            None => None,
        },
        _ => None,
    }
}

/// The source text of the node at `i`.
pub open spec fn node_text(nodes: Seq<Node>, i: int, code: Seq<u8>) -> Seq<u8> {
    code.subrange(nodes[i].start_byte as int, nodes[i].end_byte as int)
}

/// The name of the scope opened at `i`: the text of its name node, if there
/// is one and its text is well-formed UTF-8.
pub open spec fn func_space_name(lang: LANG, nodes: Seq<Node>, i: int, code: Seq<u8>) -> Option<Seq<char>> {
    match name_node(lang, nodes, i) {
        Some(n) => if valid_utf8(node_text(nodes, n as int, code)) {
            Some(decode_utf8(node_text(nodes, n as int, code)))
        } else {
            None
        },
        None => None,
    }
}

/// Extracts the name of the scope opened at `i`.
pub fn get_func_space_name(lang: LANG, tree: &Tree, i: usize, code: &[u8]) -> (r: Option<String>)
    requires
        tree.wf(),
        i < tree@.len(),
        fits(tree@, code@.len()),
    ensures
        r is Some <==> func_space_name(lang, tree@, i as int, code@) is Some,
        r is Some ==> r->0@ == func_space_name(lang, tree@, i as int, code@)->0,
{
    match find_name_node(lang, tree, i) {
        Some(n) => {
            let node = tree.node(n);
            assert(node_ok(tree@, n as int));
            let text = slice_subrange(code, node.start_byte, node.end_byte);
            match str_from_utf8(text) {
                Some(s) => {
                    proof {
                        vstd::utf8::encode_utf8_decode_utf8(s@);
                        vstd::utf8::decode_utf8_encode_utf8(text@);
                    }
                    Some(s.to_owned())
                },
                None => None,
            }
        },
        None => None,
    }
}

/// Extracts the name of the function at `i`.
pub fn get_func_name(lang: LANG, tree: &Tree, i: usize, code: &[u8]) -> (r: Option<String>)
    requires
        tree.wf(),
        i < tree@.len(),
        fits(tree@, code@.len()),
    ensures
        r is Some <==> func_space_name(lang, tree@, i as int, code@) is Some,
        r is Some ==> r->0@ == func_space_name(lang, tree@, i as int, code@)->0,
{
    get_func_space_name(lang, tree, i, code)
}

} // verus!
