//! Node kinds of the TypeScript grammar that the analysis distinguishes.
//!
//! Each constant is the numeric kind a syntax node of that grammar carries.

use vstd::prelude::*;

verus! {

/// `identifier`
pub const IDENTIFIER: u16 = 1;

/// `export`
pub const EXPORT: u16 = 3;

/// `*`
pub const STAR: u16 = 4;

/// `default`
pub const DEFAULT: u16 = 5;

/// `=`
pub const EQ: u16 = 7;

/// `as`
pub const AS: u16 = 8;

/// `{`
pub const LBRACE: u16 = 10;

/// `,`
pub const COMMA: u16 = 11;

/// `typeof`
pub const TYPEOF: u16 = 13;

/// `import`
pub const IMPORT2: u16 = 14;

/// `from`
pub const FROM: u16 = 15;

/// `with`
pub const WITH: u16 = 16;

/// `var`
pub const VAR: u16 = 18;

/// `let`
pub const LET: u16 = 19;

/// `const`
pub const CONST: u16 = 20;

/// `!`
pub const BANG: u16 = 21;

/// `else`
pub const ELSE: u16 = 22;

/// `if`
pub const IF: u16 = 23;

/// `switch`
pub const SWITCH: u16 = 24;

/// `for`
pub const FOR: u16 = 25;

/// `(`
pub const LPAREN: u16 = 26;

/// `;`
pub const SEMI: u16 = 27;

/// `await`
pub const AWAIT: u16 = 29;

/// `in`
pub const IN: u16 = 30;

/// `of`
pub const OF: u16 = 31;

/// `while`
pub const WHILE: u16 = 32;

/// `try`
pub const TRY: u16 = 34;

/// `break`
pub const BREAK: u16 = 35;

/// `continue`
pub const CONTINUE: u16 = 36;

/// `return`
pub const RETURN: u16 = 38;

/// `throw`
pub const THROW: u16 = 39;

/// `:`
pub const COLON: u16 = 40;

/// `case`
pub const CASE: u16 = 41;

/// `catch`
pub const CATCH: u16 = 42;

/// `finally`
pub const FINALLY: u16 = 43;

/// `yield`
pub const YIELD: u16 = 44;

/// `[`
pub const LBRACK: u16 = 45;

/// `.`
pub const DOT: u16 = 47;

/// `async`
pub const ASYNC: u16 = 49;

/// `function`
pub const FUNCTION: u16 = 50;

/// `new`
pub const NEW: u16 = 53;

/// `+=`
pub const PLUSEQ: u16 = 55;

/// `-=`
pub const DASHEQ: u16 = 56;

/// `*=`
pub const STAREQ: u16 = 57;

/// `/=`
pub const SLASHEQ: u16 = 58;

/// `%=`
pub const PERCENTEQ: u16 = 59;

/// `^=`
pub const CARETEQ: u16 = 60;

/// `&=`
pub const AMPEQ: u16 = 61;

/// `|=`
pub const PIPEEQ: u16 = 62;

/// `>>=`
pub const GTGTEQ: u16 = 63;

/// `>>>=`
pub const GTGTGTEQ: u16 = 64;

/// `<<=`
pub const LTLTEQ: u16 = 65;

/// `**=`
pub const STARSTAREQ: u16 = 66;

/// `&&`
pub const AMPAMP: u16 = 71;

/// `||`
pub const PIPEPIPE: u16 = 72;

/// `>>`
pub const GTGT: u16 = 73;

/// `>>>`
pub const GTGTGT: u16 = 74;

/// `<<`
pub const LTLT: u16 = 75;

/// `&`
pub const AMP: u16 = 76;

/// `^`
pub const CARET: u16 = 77;

/// `|`
pub const PIPE: u16 = 78;

/// `+`
pub const PLUS: u16 = 79;

/// `-`
pub const DASH: u16 = 80;

/// `/`
pub const SLASH: u16 = 81;

/// `%`
pub const PERCENT: u16 = 82;

/// `**`
pub const STARSTAR: u16 = 83;

/// `<`
pub const LT: u16 = 84;

/// `<=`
pub const LTEQ: u16 = 85;

/// `==`
pub const EQEQ: u16 = 86;

/// `===`
pub const EQEQEQ: u16 = 87;

/// `!=`
pub const BANGEQ: u16 = 88;

/// `!==`
pub const BANGEQEQ: u16 = 89;

/// `>=`
pub const GTEQ: u16 = 90;

/// `>`
pub const GT: u16 = 91;

/// `??`
pub const QMARKQMARK: u16 = 92;

/// `instanceof`
pub const INSTANCEOF: u16 = 93;

/// `~`
pub const TILDE: u16 = 94;

/// `void`
pub const VOID: u16 = 95;

/// `delete`
pub const DELETE: u16 = 96;

/// `++`
pub const PLUSPLUS: u16 = 97;

/// `--`
pub const DASHDASH: u16 = 98;

/// `\"`
pub const DQUOTE: u16 = 99;

/// `comment`
pub const COMMENT: u16 = 104;

/// `number`
pub const NUMBER: u16 = 110;

/// `this`
pub const THIS: u16 = 114;

/// `super`
pub const SUPER: u16 = 115;

/// `true`
pub const TRUE: u16 = 116;

/// `false`
pub const FALSE: u16 = 117;

/// `null`
pub const NULL: u16 = 118;

/// `undefined`
pub const UNDEFINED: u16 = 119;

/// `@`
pub const AT: u16 = 120;

/// `get`
pub const GET: u16 = 123;

/// `set`
pub const SET: u16 = 124;

/// `?`
pub const QMARK: u16 = 125;

/// `extends`
pub const EXTENDS: u16 = 142;

/// `program`
pub const PROGRAM: u16 = 166;

/// `export_statement`
pub const EXPORT_STATEMENT: u16 = 167;

/// `import`
pub const IMPORT: u16 = 173;

/// `import_statement`
pub const IMPORT_STATEMENT: u16 = 174;

/// `expression_statement`
pub const EXPRESSION_STATEMENT: u16 = 182;

/// `variable_declarator`
pub const VARIABLE_DECLARATOR: u16 = 185;

/// `statement_block`
pub const STATEMENT_BLOCK: u16 = 186;

/// `if_statement`
pub const IF_STATEMENT: u16 = 188;

/// `switch_statement`
pub const SWITCH_STATEMENT: u16 = 189;

/// `for_statement`
pub const FOR_STATEMENT: u16 = 190;

/// `for_in_statement`
pub const FOR_IN_STATEMENT: u16 = 191;

/// `while_statement`
pub const WHILE_STATEMENT: u16 = 193;

/// `do_statement`
pub const DO_STATEMENT: u16 = 194;

/// `try_statement`
pub const TRY_STATEMENT: u16 = 195;

/// `with_statement`
pub const WITH_STATEMENT: u16 = 196;

/// `break_statement`
pub const BREAK_STATEMENT: u16 = 197;

/// `continue_statement`
pub const CONTINUE_STATEMENT: u16 = 198;

/// `debugger_statement`
pub const DEBUGGER_STATEMENT: u16 = 199;

/// `return_statement`
pub const RETURN_STATEMENT: u16 = 200;

/// `throw_statement`
pub const THROW_STATEMENT: u16 = 201;

/// `empty_statement`
pub const EMPTY_STATEMENT: u16 = 202;

/// `nested_identifier`
pub const NESTED_IDENTIFIER: u16 = 219;

/// `class`
pub const CLASS: u16 = 220;

/// `class_declaration`
pub const CLASS_DECLARATION: u16 = 221;

/// `function_expression`
pub const FUNCTION_EXPRESSION: u16 = 223;

/// `function_declaration`
pub const FUNCTION_DECLARATION: u16 = 224;

/// `generator_function`
pub const GENERATOR_FUNCTION: u16 = 225;

/// `generator_function_declaration`
pub const GENERATOR_FUNCTION_DECLARATION: u16 = 226;

/// `arrow_function`
pub const ARROW_FUNCTION: u16 = 227;

/// `member_expression`
pub const MEMBER_EXPRESSION: u16 = 234;

/// `ternary_expression`
pub const TERNARY_EXPRESSION: u16 = 242;

/// `string`
pub const STRING: u16 = 247;

/// `method_definition`
pub const METHOD_DEFINITION: u16 = 261;

/// `pair`
pub const PAIR: u16 = 262;

/// `interface_declaration`
pub const INTERFACE_DECLARATION: u16 = 288;

/// `property_identifier`
pub const PROPERTY_IDENTIFIER: u16 = 377;

/// `statement_identifier`
pub const STATEMENT_IDENTIFIER: u16 = 380;

/// The name the grammar gives a kind; empty for a kind not listed here.
pub open spec fn kind_text(id: u16) -> Seq<char> {
    match id {
        IDENTIFIER => "identifier"@,
        EXPORT => "export"@,
        STAR => "*"@,
        DEFAULT => "default"@,
        EQ => "="@,
        AS => "as"@,
        LBRACE => "{"@,
        COMMA => ","@,
        TYPEOF => "typeof"@,
        IMPORT2 => "import"@,
        FROM => "from"@,
        WITH => "with"@,
        VAR => "var"@,
        LET => "let"@,
        CONST => "const"@,
        BANG => "!"@,
        ELSE => "else"@,
        IF => "if"@,
        SWITCH => "switch"@,
        FOR => "for"@,
        LPAREN => "("@,
        SEMI => ";"@,
        AWAIT => "await"@,
        IN => "in"@,
        OF => "of"@,
        WHILE => "while"@,
        TRY => "try"@,
        BREAK => "break"@,
        CONTINUE => "continue"@,
        RETURN => "return"@,
        THROW => "throw"@,
        COLON => ":"@,
        CASE => "case"@,
        CATCH => "catch"@,
        FINALLY => "finally"@,
        YIELD => "yield"@,
        LBRACK => "["@,
        DOT => "."@,
        ASYNC => "async"@,
        FUNCTION => "function"@,
        NEW => "new"@,
        PLUSEQ => "+="@,
        DASHEQ => "-="@,
        STAREQ => "*="@,
        SLASHEQ => "/="@,
        PERCENTEQ => "%="@,
        CARETEQ => "^="@,
        AMPEQ => "&="@,
        PIPEEQ => "|="@,
        GTGTEQ => ">>="@,
        GTGTGTEQ => ">>>="@,
        LTLTEQ => "<<="@,
        STARSTAREQ => "**="@,
        AMPAMP => "&&"@,
        PIPEPIPE => "||"@,
        GTGT => ">>"@,
        GTGTGT => ">>>"@,
        LTLT => "<<"@,
        AMP => "&"@,
        CARET => "^"@,
        PIPE => "|"@,
        PLUS => "+"@,
        DASH => "-"@,
        SLASH => "/"@,
        PERCENT => "%"@,
        STARSTAR => "**"@,
        LT => "<"@,
        LTEQ => "<="@,
        EQEQ => "=="@,
        EQEQEQ => "==="@,
        BANGEQ => "!="@,
        BANGEQEQ => "!=="@,
        GTEQ => ">="@,
        GT => ">"@,
        QMARKQMARK => "??"@,
        INSTANCEOF => "instanceof"@,
        TILDE => "~"@,
        VOID => "void"@,
        DELETE => "delete"@,
        PLUSPLUS => "++"@,
        DASHDASH => "--"@,
        DQUOTE => "\""@,
        COMMENT => "comment"@,
        NUMBER => "number"@,
        THIS => "this"@,
        SUPER => "super"@,
        TRUE => "true"@,
        FALSE => "false"@,
        NULL => "null"@,
        UNDEFINED => "undefined"@,
        AT => "@"@,
        GET => "get"@,
        SET => "set"@,
        QMARK => "?"@,
        EXTENDS => "extends"@,
        PROGRAM => "program"@,
        EXPORT_STATEMENT => "export_statement"@,
        IMPORT => "import"@,
        IMPORT_STATEMENT => "import_statement"@,
        EXPRESSION_STATEMENT => "expression_statement"@,
        VARIABLE_DECLARATOR => "variable_declarator"@,
        STATEMENT_BLOCK => "statement_block"@,
        IF_STATEMENT => "if_statement"@,
        SWITCH_STATEMENT => "switch_statement"@,
        FOR_STATEMENT => "for_statement"@,
        FOR_IN_STATEMENT => "for_in_statement"@,
        WHILE_STATEMENT => "while_statement"@,
        DO_STATEMENT => "do_statement"@,
        TRY_STATEMENT => "try_statement"@,
        WITH_STATEMENT => "with_statement"@,
        BREAK_STATEMENT => "break_statement"@,
        CONTINUE_STATEMENT => "continue_statement"@,
        DEBUGGER_STATEMENT => "debugger_statement"@,
        RETURN_STATEMENT => "return_statement"@,
        THROW_STATEMENT => "throw_statement"@,
        EMPTY_STATEMENT => "empty_statement"@,
        NESTED_IDENTIFIER => "nested_identifier"@,
        CLASS => "class"@,
        CLASS_DECLARATION => "class_declaration"@,
        FUNCTION_EXPRESSION => "function_expression"@,
        FUNCTION_DECLARATION => "function_declaration"@,
        GENERATOR_FUNCTION => "generator_function"@,
        GENERATOR_FUNCTION_DECLARATION => "generator_function_declaration"@,
        ARROW_FUNCTION => "arrow_function"@,
        MEMBER_EXPRESSION => "member_expression"@,
        TERNARY_EXPRESSION => "ternary_expression"@,
        STRING => "string"@,
        METHOD_DEFINITION => "method_definition"@,
        PAIR => "pair"@,
        INTERFACE_DECLARATION => "interface_declaration"@,
        PROPERTY_IDENTIFIER => "property_identifier"@,
        STATEMENT_IDENTIFIER => "statement_identifier"@,
        _ => ""@,
    }
}

/// Returns the name the grammar gives a kind; empty for a kind not listed here.
pub fn kind_str(id: u16) -> (r: &'static str)
    ensures
        r@ == kind_text(id),
{
    match id {
        IDENTIFIER => "identifier",
        EXPORT => "export",
        STAR => "*",
        DEFAULT => "default",
        EQ => "=",
        AS => "as",
        LBRACE => "{",
        COMMA => ",",
        TYPEOF => "typeof",
        IMPORT2 => "import",
        FROM => "from",
        WITH => "with",
        VAR => "var",
        LET => "let",
        CONST => "const",
        BANG => "!",
        ELSE => "else",
        IF => "if",
        SWITCH => "switch",
        FOR => "for",
        LPAREN => "(",
        SEMI => ";",
        AWAIT => "await",
        IN => "in",
        OF => "of",
        WHILE => "while",
        TRY => "try",
        BREAK => "break",
        CONTINUE => "continue",
        RETURN => "return",
        THROW => "throw",
        COLON => ":",
        CASE => "case",
        CATCH => "catch",
        FINALLY => "finally",
        YIELD => "yield",
        LBRACK => "[",
        DOT => ".",
        ASYNC => "async",
        FUNCTION => "function",
        NEW => "new",
        PLUSEQ => "+=",
        DASHEQ => "-=",
        STAREQ => "*=",
        SLASHEQ => "/=",
        PERCENTEQ => "%=",
        CARETEQ => "^=",
        AMPEQ => "&=",
        PIPEEQ => "|=",
        GTGTEQ => ">>=",
        GTGTGTEQ => ">>>=",
        LTLTEQ => "<<=",
        STARSTAREQ => "**=",
        AMPAMP => "&&",
        PIPEPIPE => "||",
        GTGT => ">>",
        GTGTGT => ">>>",
        LTLT => "<<",
        AMP => "&",
        CARET => "^",
        PIPE => "|",
        PLUS => "+",
        DASH => "-",
        SLASH => "/",
        PERCENT => "%",
        STARSTAR => "**",
        LT => "<",
        LTEQ => "<=",
        EQEQ => "==",
        EQEQEQ => "===",
        BANGEQ => "!=",
        BANGEQEQ => "!==",
        GTEQ => ">=",
        GT => ">",
        QMARKQMARK => "??",
        INSTANCEOF => "instanceof",
        TILDE => "~",
        VOID => "void",
        DELETE => "delete",
        PLUSPLUS => "++",
        DASHDASH => "--",
        DQUOTE => "\"",
        COMMENT => "comment",
        NUMBER => "number",
        THIS => "this",
        SUPER => "super",
        TRUE => "true",
        FALSE => "false",
        NULL => "null",
        UNDEFINED => "undefined",
        AT => "@",
        GET => "get",
        SET => "set",
        QMARK => "?",
        EXTENDS => "extends",
        PROGRAM => "program",
        EXPORT_STATEMENT => "export_statement",
        IMPORT => "import",
        IMPORT_STATEMENT => "import_statement",
        EXPRESSION_STATEMENT => "expression_statement",
        VARIABLE_DECLARATOR => "variable_declarator",
        STATEMENT_BLOCK => "statement_block",
        IF_STATEMENT => "if_statement",
        SWITCH_STATEMENT => "switch_statement",
        FOR_STATEMENT => "for_statement",
        FOR_IN_STATEMENT => "for_in_statement",
        WHILE_STATEMENT => "while_statement",
        DO_STATEMENT => "do_statement",
        TRY_STATEMENT => "try_statement",
        WITH_STATEMENT => "with_statement",
        BREAK_STATEMENT => "break_statement",
        CONTINUE_STATEMENT => "continue_statement",
        DEBUGGER_STATEMENT => "debugger_statement",
        RETURN_STATEMENT => "return_statement",
        THROW_STATEMENT => "throw_statement",
        EMPTY_STATEMENT => "empty_statement",
        NESTED_IDENTIFIER => "nested_identifier",
        CLASS => "class",
        CLASS_DECLARATION => "class_declaration",
        FUNCTION_EXPRESSION => "function_expression",
        FUNCTION_DECLARATION => "function_declaration",
        GENERATOR_FUNCTION => "generator_function",
        GENERATOR_FUNCTION_DECLARATION => "generator_function_declaration",
        ARROW_FUNCTION => "arrow_function",
        MEMBER_EXPRESSION => "member_expression",
        TERNARY_EXPRESSION => "ternary_expression",
        STRING => "string",
        METHOD_DEFINITION => "method_definition",
        PAIR => "pair",
        INTERFACE_DECLARATION => "interface_declaration",
        PROPERTY_IDENTIFIER => "property_identifier",
        STATEMENT_IDENTIFIER => "statement_identifier",
        _ => "",
    }
}

} // verus!
