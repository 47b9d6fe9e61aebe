//! Node kinds of the Rust grammar that the analysis distinguishes.
//!
//! Each constant is the numeric kind a syntax node of that grammar carries.

use vstd::prelude::*;

verus! {

/// `identifier`
pub const IDENTIFIER: u16 = 1;

/// `;`
pub const SEMI: u16 = 2;

/// `(`
pub const LPAREN: u16 = 4;

/// `[`
pub const LBRACK: u16 = 6;

/// `{`
pub const LBRACE: u16 = 8;

/// `=>`
pub const EQGT: u16 = 10;

/// `+`
pub const PLUS: u16 = 14;

/// `*`
pub const STAR: u16 = 15;

/// `?`
pub const QMARK: u16 = 16;

/// `primitive_type`
pub const PRIMITIVE_TYPE: u16 = 32;

/// `-`
pub const DASH: u16 = 49;

/// `/`
pub const SLASH: u16 = 50;

/// `%`
pub const PERCENT: u16 = 51;

/// `^`
pub const CARET: u16 = 52;

/// `!`
pub const BANG: u16 = 53;

/// `&`
pub const AMP: u16 = 54;

/// `|`
pub const PIPE: u16 = 55;

/// `&&`
pub const AMPAMP: u16 = 56;

/// `||`
pub const PIPEPIPE: u16 = 57;

/// `<<`
pub const LTLT: u16 = 58;

/// `>>`
pub const GTGT: u16 = 59;

/// `+=`
pub const PLUSEQ: u16 = 60;

/// `-=`
pub const DASHEQ: u16 = 61;

/// `*=`
pub const STAREQ: u16 = 62;

/// `/=`
pub const SLASHEQ: u16 = 63;

/// `%=`
pub const PERCENTEQ: u16 = 64;

/// `^=`
pub const CARETEQ: u16 = 65;

/// `&=`
pub const AMPEQ: u16 = 66;

/// `|=`
pub const PIPEEQ: u16 = 67;

/// `<<=`
pub const LTLTEQ: u16 = 68;

/// `>>=`
pub const GTGTEQ: u16 = 69;

/// `=`
pub const EQ: u16 = 70;

/// `==`
pub const EQEQ: u16 = 71;

/// `!=`
pub const BANGEQ: u16 = 72;

/// `>`
pub const GT: u16 = 73;

/// `<`
pub const LT: u16 = 74;

/// `>=`
pub const GTEQ: u16 = 75;

/// `<=`
pub const LTEQ: u16 = 76;

/// `_`
pub const UNDERSCORE: u16 = 78;

/// `.`
pub const DOT: u16 = 79;

/// `..`
pub const DOTDOT: u16 = 80;

/// `..=`
pub const DOTDOTEQ: u16 = 82;

/// `,`
pub const COMMA: u16 = 83;

/// `->`
pub const DASHGT: u16 = 85;

/// `async`
pub const ASYNC: u16 = 89;

/// `await`
pub const AWAIT: u16 = 90;

/// `continue`
pub const CONTINUE: u16 = 93;

/// `fn`
pub const FN: u16 = 96;

/// `for`
pub const FOR: u16 = 97;

/// `if`
pub const IF: u16 = 99;

/// `let`
pub const LET: u16 = 101;

/// `loop`
pub const LOOP: u16 = 102;

/// `match`
pub const MATCH: u16 = 103;

/// `return`
pub const RETURN: u16 = 106;

/// `unsafe`
pub const UNSAFE: u16 = 112;

/// `while`
pub const WHILE: u16 = 115;

/// `mutable_specifier`
pub const MUTABLE_SPECIFIER: u16 = 122;

/// `move`
pub const MOVE: u16 = 125;

/// `integer_literal`
pub const INTEGER_LITERAL: u16 = 127;

/// `char_literal`
pub const CHAR_LITERAL: u16 = 129;

/// `//`
pub const SLASHSLASH: u16 = 133;

/// `/*`
pub const SLASHSTAR: u16 = 139;

/// `*/`
pub const STARSLASH: u16 = 140;

/// `self`
pub const ZELF: u16 = 142;

/// `float_literal`
pub const FLOAT_LITERAL: u16 = 151;

/// `outer_doc_comment_marker`
pub const OUTER_DOC_COMMENT_MARKER: u16 = 152;

/// `inner_doc_comment_marker`
pub const INNER_DOC_COMMENT_MARKER: u16 = 153;

/// `doc_comment`
pub const DOC_COMMENT: u16 = 155;

/// `source_file`
pub const SOURCE_FILE: u16 = 157;

/// `_statement`
pub const STATEMENT: u16 = 158;

/// `empty_statement`
pub const EMPTY_STATEMENT: u16 = 159;

/// `expression_statement`
pub const EXPRESSION_STATEMENT: u16 = 160;

/// `function_item`
pub const FUNCTION_ITEM: u16 = 188;

/// `impl_item`
pub const IMPL_ITEM: u16 = 193;

/// `trait_item`
pub const TRAIT_ITEM: u16 = 194;

/// `let_declaration`
pub const LET_DECLARATION: u16 = 203;

/// `try_expression`
pub const TRY_EXPRESSION: u16 = 248;

/// `binary_expression`
pub const BINARY_EXPRESSION: u16 = 250;

/// `assignment_expression`
pub const ASSIGNMENT_EXPRESSION: u16 = 251;

/// `compound_assignment_expr`
pub const COMPOUND_ASSIGNMENT_EXPR: u16 = 252;

/// `return_expression`
pub const RETURN_EXPRESSION: u16 = 254;

/// `match_arm`
pub const MATCH_ARM: u16 = 274;

/// `match_arm`
pub const MATCH_ARM2: u16 = 275;

/// `closure_expression`
pub const CLOSURE_EXPRESSION: u16 = 281;

/// `block`
pub const BLOCK: u16 = 293;

/// `string_literal`
pub const STRING_LITERAL: u16 = 311;

/// `raw_string_literal`
pub const RAW_STRING_LITERAL: u16 = 312;

/// `boolean_literal`
pub const BOOLEAN_LITERAL: u16 = 313;

/// `line_comment`
pub const LINE_COMMENT: u16 = 314;

/// `outer_doc_comment_marker`
pub const OUTER_DOC_COMMENT_MARKER2: u16 = 317;

/// `block_comment`
pub const BLOCK_COMMENT: u16 = 318;

/// The name the grammar gives a kind; empty for a kind not listed here.
pub open spec fn kind_text(id: u16) -> Seq<char> {
    match id {
        IDENTIFIER => "identifier"@,
        SEMI => ";"@,
        LPAREN => "("@,
        LBRACK => "["@,
        LBRACE => "{"@,
        EQGT => "=>"@,
        PLUS => "+"@,
        STAR => "*"@,
        QMARK => "?"@,
        PRIMITIVE_TYPE => "primitive_type"@,
        DASH => "-"@,
        SLASH => "/"@,
        PERCENT => "%"@,
        CARET => "^"@,
        BANG => "!"@,
        AMP => "&"@,
        PIPE => "|"@,
        AMPAMP => "&&"@,
        PIPEPIPE => "||"@,
        LTLT => "<<"@,
        GTGT => ">>"@,
        PLUSEQ => "+="@,
        DASHEQ => "-="@,
        STAREQ => "*="@,
        SLASHEQ => "/="@,
        PERCENTEQ => "%="@,
        CARETEQ => "^="@,
        AMPEQ => "&="@,
        PIPEEQ => "|="@,
        LTLTEQ => "<<="@,
        GTGTEQ => ">>="@,
        EQ => "="@,
        EQEQ => "=="@,
        BANGEQ => "!="@,
        GT => ">"@,
        LT => "<"@,
        GTEQ => ">="@,
        LTEQ => "<="@,
        UNDERSCORE => "_"@,
        DOT => "."@,
        DOTDOT => ".."@,
        DOTDOTEQ => "..="@,
        COMMA => ","@,
        DASHGT => "->"@,
        ASYNC => "async"@,
        AWAIT => "await"@,
        CONTINUE => "continue"@,
        FN => "fn"@,
        FOR => "for"@,
        IF => "if"@,
        LET => "let"@,
        LOOP => "loop"@,
        MATCH => "match"@,
        RETURN => "return"@,
        UNSAFE => "unsafe"@,
        WHILE => "while"@,
        MUTABLE_SPECIFIER => "mutable_specifier"@,
        MOVE => "move"@,
        INTEGER_LITERAL => "integer_literal"@,
        CHAR_LITERAL => "char_literal"@,
        SLASHSLASH => "//"@,
        SLASHSTAR => "/*"@,
        STARSLASH => "*/"@,
        ZELF => "self"@,
        FLOAT_LITERAL => "float_literal"@,
        OUTER_DOC_COMMENT_MARKER => "outer_doc_comment_marker"@,
        INNER_DOC_COMMENT_MARKER => "inner_doc_comment_marker"@,
        DOC_COMMENT => "doc_comment"@,
        SOURCE_FILE => "source_file"@,
        STATEMENT => "_statement"@,
        EMPTY_STATEMENT => "empty_statement"@,
        EXPRESSION_STATEMENT => "expression_statement"@,
        FUNCTION_ITEM => "function_item"@,
        IMPL_ITEM => "impl_item"@,
        TRAIT_ITEM => "trait_item"@,
        LET_DECLARATION => "let_declaration"@,
        TRY_EXPRESSION => "try_expression"@,
        BINARY_EXPRESSION => "binary_expression"@,
        ASSIGNMENT_EXPRESSION => "assignment_expression"@,
        COMPOUND_ASSIGNMENT_EXPR => "compound_assignment_expr"@,
        RETURN_EXPRESSION => "return_expression"@,
        MATCH_ARM => "match_arm"@,
        MATCH_ARM2 => "match_arm"@,
        CLOSURE_EXPRESSION => "closure_expression"@,
        BLOCK => "block"@,
        STRING_LITERAL => "string_literal"@,
        RAW_STRING_LITERAL => "raw_string_literal"@,
        BOOLEAN_LITERAL => "boolean_literal"@,
        LINE_COMMENT => "line_comment"@,
        OUTER_DOC_COMMENT_MARKER2 => "outer_doc_comment_marker"@,
        BLOCK_COMMENT => "block_comment"@,
        _ => ""@,
    }
}

/// Returns the name the grammar gives a kind; empty for a kind not listed here.
pub fn kind_str(id: u16) -> (r: &'static str)
    ensures
        r@ == kind_text(id),
{
    match id {
        IDENTIFIER => "identifier",
        SEMI => ";",
        LPAREN => "(",
        LBRACK => "[",
        LBRACE => "{",
        EQGT => "=>",
        PLUS => "+",
        STAR => "*",
        QMARK => "?",
        PRIMITIVE_TYPE => "primitive_type",
        DASH => "-",
        SLASH => "/",
        PERCENT => "%",
        CARET => "^",
        BANG => "!",
        AMP => "&",
        PIPE => "|",
        AMPAMP => "&&",
        PIPEPIPE => "||",
        LTLT => "<<",
        GTGT => ">>",
        PLUSEQ => "+=",
        DASHEQ => "-=",
        STAREQ => "*=",
        SLASHEQ => "/=",
        PERCENTEQ => "%=",
        CARETEQ => "^=",
        AMPEQ => "&=",
        PIPEEQ => "|=",
        LTLTEQ => "<<=",
        GTGTEQ => ">>=",
        EQ => "=",
        EQEQ => "==",
        BANGEQ => "!=",
        GT => ">",
        LT => "<",
        GTEQ => ">=",
        LTEQ => "<=",
        UNDERSCORE => "_",
        DOT => ".",
        DOTDOT => "..",
        DOTDOTEQ => "..=",
        COMMA => ",",
        DASHGT => "->",
        ASYNC => "async",
        AWAIT => "await",
        CONTINUE => "continue",
        FN => "fn",
        FOR => "for",
        IF => "if",
        LET => "let",
        LOOP => "loop",
        MATCH => "match",
        RETURN => "return",
        UNSAFE => "unsafe",
        WHILE => "while",
        MUTABLE_SPECIFIER => "mutable_specifier",
        MOVE => "move",
        INTEGER_LITERAL => "integer_literal",
        CHAR_LITERAL => "char_literal",
        SLASHSLASH => "//",
        SLASHSTAR => "/*",
        STARSLASH => "*/",
        ZELF => "self",
        FLOAT_LITERAL => "float_literal",
        OUTER_DOC_COMMENT_MARKER => "outer_doc_comment_marker",
        INNER_DOC_COMMENT_MARKER => "inner_doc_comment_marker",
        DOC_COMMENT => "doc_comment",
        SOURCE_FILE => "source_file",
        STATEMENT => "_statement",
        EMPTY_STATEMENT => "empty_statement",
        EXPRESSION_STATEMENT => "expression_statement",
        FUNCTION_ITEM => "function_item",
        IMPL_ITEM => "impl_item",
        TRAIT_ITEM => "trait_item",
        LET_DECLARATION => "let_declaration",
        TRY_EXPRESSION => "try_expression",
        BINARY_EXPRESSION => "binary_expression",
        ASSIGNMENT_EXPRESSION => "assignment_expression",
        COMPOUND_ASSIGNMENT_EXPR => "compound_assignment_expr",
        RETURN_EXPRESSION => "return_expression",
        MATCH_ARM => "match_arm",
        MATCH_ARM2 => "match_arm",
        CLOSURE_EXPRESSION => "closure_expression",
        BLOCK => "block",
        STRING_LITERAL => "string_literal",
        RAW_STRING_LITERAL => "raw_string_literal",
        BOOLEAN_LITERAL => "boolean_literal",
        LINE_COMMENT => "line_comment",
        OUTER_DOC_COMMENT_MARKER2 => "outer_doc_comment_marker",
        BLOCK_COMMENT => "block_comment",
        _ => "",
    }
}

} // verus!
