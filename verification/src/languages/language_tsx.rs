//! Node kinds of the TSX grammar that the analysis distinguishes.
//!
//! Each constant is the numeric kind a syntax node of that grammar carries.

use vstd::prelude::*;

verus! {

/// `identifier`
pub const IDENTIFIER: u16 = 1;

/// `export`
pub const EXPORT: u16 = 3;

/// `*`
pub const STAR: u16 = 4;

/// `default`
pub const DEFAULT: u16 = 5;

/// `=`
pub const EQ: u16 = 7;

/// `as`
pub const AS: u16 = 8;

/// `{`
pub const LBRACE: u16 = 10;

/// `,`
pub const COMMA: u16 = 11;

/// `typeof`
pub const TYPEOF: u16 = 13;

/// `import`
pub const IMPORT2: u16 = 14;

/// `from`
pub const FROM: u16 = 15;

/// `with`
pub const WITH: u16 = 16;

/// `var`
pub const VAR: u16 = 18;

/// `let`
pub const LET: u16 = 19;

/// `const`
pub const CONST: u16 = 20;

/// `!`
pub const BANG: u16 = 21;

/// `else`
pub const ELSE: u16 = 22;

/// `if`
pub const IF: u16 = 23;

/// `switch`
pub const SWITCH: u16 = 24;

/// `for`
pub const FOR: u16 = 25;

/// `(`
pub const LPAREN: u16 = 26;

/// `;`
pub const SEMI: u16 = 27;

/// `await`
pub const AWAIT: u16 = 29;

/// `in`
pub const IN: u16 = 30;

/// `of`
pub const OF: u16 = 31;

/// `while`
pub const WHILE: u16 = 32;

/// `try`
pub const TRY: u16 = 34;

/// `break`
pub const BREAK: u16 = 35;

/// `continue`
pub const CONTINUE: u16 = 36;

/// `return`
pub const RETURN: u16 = 38;

/// `throw`
pub const THROW: u16 = 39;

/// `:`
pub const COLON: u16 = 40;

/// `case`
pub const CASE: u16 = 41;

/// `catch`
pub const CATCH: u16 = 42;

/// `finally`
pub const FINALLY: u16 = 43;

/// `yield`
pub const YIELD: u16 = 44;

/// `[`
pub const LBRACK: u16 = 45;

/// `>`
pub const GT: u16 = 48;

/// `.`
pub const DOT: u16 = 50;

/// `\"`
pub const DQUOTE: u16 = 53;

/// `async`
pub const ASYNC: u16 = 58;

/// `function`
pub const FUNCTION: u16 = 59;

/// `new`
pub const NEW: u16 = 62;

/// `+=`
pub const PLUSEQ: u16 = 64;

/// `-=`
pub const DASHEQ: u16 = 65;

/// `*=`
pub const STAREQ: u16 = 66;

/// `/=`
pub const SLASHEQ: u16 = 67;

/// `%=`
pub const PERCENTEQ: u16 = 68;

/// `^=`
pub const CARETEQ: u16 = 69;

/// `&=`
pub const AMPEQ: u16 = 70;

/// `|=`
pub const PIPEEQ: u16 = 71;

/// `>>=`
pub const GTGTEQ: u16 = 72;

/// `>>>=`
pub const GTGTGTEQ: u16 = 73;

/// `<<=`
pub const LTLTEQ: u16 = 74;

/// `**=`
pub const STARSTAREQ: u16 = 75;

/// `&&`
pub const AMPAMP: u16 = 80;

/// `||`
pub const PIPEPIPE: u16 = 81;

/// `>>`
pub const GTGT: u16 = 82;

/// `>>>`
pub const GTGTGT: u16 = 83;

/// `<<`
pub const LTLT: u16 = 84;

/// `&`
pub const AMP: u16 = 85;

/// `^`
pub const CARET: u16 = 86;

/// `|`
pub const PIPE: u16 = 87;

/// `+`
pub const PLUS: u16 = 88;

/// `-`
pub const DASH: u16 = 89;

/// `/`
pub const SLASH: u16 = 90;

/// `%`
pub const PERCENT: u16 = 91;

/// `**`
pub const STARSTAR: u16 = 92;

/// `<`
pub const LT: u16 = 93;

/// `<=`
pub const LTEQ: u16 = 94;

/// `==`
pub const EQEQ: u16 = 95;

/// `===`
pub const EQEQEQ: u16 = 96;

/// `!=`
pub const BANGEQ: u16 = 97;

/// `!==`
pub const BANGEQEQ: u16 = 98;

/// `>=`
pub const GTEQ: u16 = 99;

/// `??`
pub const QMARKQMARK: u16 = 100;

/// `instanceof`
pub const INSTANCEOF: u16 = 101;

/// `~`
pub const TILDE: u16 = 102;

/// `void`
pub const VOID: u16 = 103;

/// `delete`
pub const DELETE: u16 = 104;

/// `++`
pub const PLUSPLUS: u16 = 105;

/// `--`
pub const DASHDASH: u16 = 106;

/// `comment`
pub const COMMENT: u16 = 110;

/// `number`
pub const NUMBER: u16 = 116;

/// `this`
pub const THIS: u16 = 120;

/// `super`
pub const SUPER: u16 = 121;

/// `true`
pub const TRUE: u16 = 122;

/// `false`
pub const FALSE: u16 = 123;

/// `null`
pub const NULL: u16 = 124;

/// `undefined`
pub const UNDEFINED: u16 = 125;

/// `@`
pub const AT: u16 = 126;

/// `get`
pub const GET: u16 = 129;

/// `set`
pub const SET: u16 = 130;

/// `?`
pub const QMARK: u16 = 131;

/// `extends`
pub const EXTENDS: u16 = 148;

/// `program`
pub const PROGRAM: u16 = 172;

/// `export_statement`
pub const EXPORT_STATEMENT: u16 = 173;

/// `import`
pub const IMPORT: u16 = 179;

/// `import_statement`
pub const IMPORT_STATEMENT: u16 = 180;

/// `expression_statement`
pub const EXPRESSION_STATEMENT: u16 = 188;

/// `variable_declarator`
pub const VARIABLE_DECLARATOR: u16 = 191;

/// `statement_block`
pub const STATEMENT_BLOCK: u16 = 192;

/// `if_statement`
pub const IF_STATEMENT: u16 = 194;

/// `switch_statement`
pub const SWITCH_STATEMENT: u16 = 195;

/// `for_statement`
pub const FOR_STATEMENT: u16 = 196;

/// `for_in_statement`
pub const FOR_IN_STATEMENT: u16 = 197;

/// `while_statement`
pub const WHILE_STATEMENT: u16 = 199;

/// `do_statement`
pub const DO_STATEMENT: u16 = 200;

/// `try_statement`
pub const TRY_STATEMENT: u16 = 201;

/// `with_statement`
pub const WITH_STATEMENT: u16 = 202;

/// `break_statement`
pub const BREAK_STATEMENT: u16 = 203;

/// `continue_statement`
pub const CONTINUE_STATEMENT: u16 = 204;

/// `debugger_statement`
pub const DEBUGGER_STATEMENT: u16 = 205;

/// `return_statement`
pub const RETURN_STATEMENT: u16 = 206;

/// `throw_statement`
pub const THROW_STATEMENT: u16 = 207;

/// `empty_statement`
pub const EMPTY_STATEMENT: u16 = 208;

/// `nested_identifier`
pub const NESTED_IDENTIFIER: u16 = 228;

/// `string`
pub const STRING: u16 = 233;

/// `class`
pub const CLASS: u16 = 234;

/// `class_declaration`
pub const CLASS_DECLARATION: u16 = 235;

/// `function_expression`
pub const FUNCTION_EXPRESSION: u16 = 237;

/// `function_declaration`
pub const FUNCTION_DECLARATION: u16 = 238;

/// `generator_function`
pub const GENERATOR_FUNCTION: u16 = 239;

/// `generator_function_declaration`
pub const GENERATOR_FUNCTION_DECLARATION: u16 = 240;

/// `arrow_function`
pub const ARROW_FUNCTION: u16 = 241;

/// `member_expression`
pub const MEMBER_EXPRESSION: u16 = 248;

/// `ternary_expression`
pub const TERNARY_EXPRESSION: u16 = 256;

/// `string`
pub const STRING2: u16 = 261;

/// `method_definition`
pub const METHOD_DEFINITION: u16 = 275;

/// `pair`
pub const PAIR: u16 = 276;

/// `interface_declaration`
pub const INTERFACE_DECLARATION: u16 = 301;

/// `property_identifier`
pub const PROPERTY_IDENTIFIER: u16 = 394;

/// `statement_identifier`
pub const STATEMENT_IDENTIFIER: u16 = 397;

/// The name the grammar gives a kind; empty for a kind not listed here.
pub open spec fn kind_text(id: u16) -> Seq<char> {
    match id {
        IDENTIFIER => "identifier"@,
        EXPORT => "export"@,
        STAR => "*"@,
        DEFAULT => "default"@,
        EQ => "="@,
        AS => "as"@,
        LBRACE => "{"@,
        COMMA => ","@,
        TYPEOF => "typeof"@,
        IMPORT2 => "import"@,
        FROM => "from"@,
        WITH => "with"@,
        VAR => "var"@,
        LET => "let"@,
        CONST => "const"@,
        BANG => "!"@,
        ELSE => "else"@,
        IF => "if"@,
        SWITCH => "switch"@,
        FOR => "for"@,
        LPAREN => "("@,
        SEMI => ";"@,
        AWAIT => "await"@,
        IN => "in"@,
        OF => "of"@,
        WHILE => "while"@,
        TRY => "try"@,
        BREAK => "break"@,
        CONTINUE => "continue"@,
        RETURN => "return"@,
        THROW => "throw"@,
        COLON => ":"@,
        CASE => "case"@,
        CATCH => "catch"@,
        FINALLY => "finally"@,
        YIELD => "yield"@,
        LBRACK => "["@,
        GT => ">"@,
        DOT => "."@,
        DQUOTE => "\""@,
        ASYNC => "async"@,
        FUNCTION => "function"@,
        NEW => "new"@,
        PLUSEQ => "+="@,
        DASHEQ => "-="@,
        STAREQ => "*="@,
        SLASHEQ => "/="@,
        PERCENTEQ => "%="@,
        CARETEQ => "^="@,
        AMPEQ => "&="@,
        PIPEEQ => "|="@,
        GTGTEQ => ">>="@,
        GTGTGTEQ => ">>>="@,
        LTLTEQ => "<<="@,
        STARSTAREQ => "**="@,
        AMPAMP => "&&"@,
        PIPEPIPE => "||"@,
        GTGT => ">>"@,
        GTGTGT => ">>>"@,
        LTLT => "<<"@,
        AMP => "&"@,
        CARET => "^"@,
        PIPE => "|"@,
        PLUS => "+"@,
        DASH => "-"@,
        SLASH => "/"@,
        PERCENT => "%"@,
        STARSTAR => "**"@,
        LT => "<"@,
        LTEQ => "<="@,
        EQEQ => "=="@,
        EQEQEQ => "==="@,
        BANGEQ => "!="@,
        BANGEQEQ => "!=="@,
        GTEQ => ">="@,
        QMARKQMARK => "??"@,
        INSTANCEOF => "instanceof"@,
        TILDE => "~"@,
        VOID => "void"@,
        DELETE => "delete"@,
        PLUSPLUS => "++"@,
        DASHDASH => "--"@,
        COMMENT => "comment"@,
        NUMBER => "number"@,
        THIS => "this"@,
        SUPER => "super"@,
        TRUE => "true"@,
        FALSE => "false"@,
        NULL => "null"@,
        UNDEFINED => "undefined"@,
        AT => "@"@,
        GET => "get"@,
        SET => "set"@,
        QMARK => "?"@,
        EXTENDS => "extends"@,
        PROGRAM => "program"@,
        EXPORT_STATEMENT => "export_statement"@,
        IMPORT => "import"@,
        IMPORT_STATEMENT => "import_statement"@,
        EXPRESSION_STATEMENT => "expression_statement"@,
        VARIABLE_DECLARATOR => "variable_declarator"@,
        STATEMENT_BLOCK => "statement_block"@,
        IF_STATEMENT => "if_statement"@,
        SWITCH_STATEMENT => "switch_statement"@,
        FOR_STATEMENT => "for_statement"@,
        FOR_IN_STATEMENT => "for_in_statement"@,
        WHILE_STATEMENT => "while_statement"@,
        DO_STATEMENT => "do_statement"@,
        TRY_STATEMENT => "try_statement"@,
        WITH_STATEMENT => "with_statement"@,
        BREAK_STATEMENT => "break_statement"@,
        CONTINUE_STATEMENT => "continue_statement"@,
        DEBUGGER_STATEMENT => "debugger_statement"@,
        RETURN_STATEMENT => "return_statement"@,
        THROW_STATEMENT => "throw_statement"@,
        EMPTY_STATEMENT => "empty_statement"@,
        NESTED_IDENTIFIER => "nested_identifier"@,
        STRING => "string"@,
        CLASS => "class"@,
        CLASS_DECLARATION => "class_declaration"@,
        FUNCTION_EXPRESSION => "function_expression"@,
        FUNCTION_DECLARATION => "function_declaration"@,
        GENERATOR_FUNCTION => "generator_function"@,
        GENERATOR_FUNCTION_DECLARATION => "generator_function_declaration"@,
        ARROW_FUNCTION => "arrow_function"@,
        MEMBER_EXPRESSION => "member_expression"@,
        TERNARY_EXPRESSION => "ternary_expression"@,
        STRING2 => "string"@,
        METHOD_DEFINITION => "method_definition"@,
        PAIR => "pair"@,
        INTERFACE_DECLARATION => "interface_declaration"@,
        PROPERTY_IDENTIFIER => "property_identifier"@,
        STATEMENT_IDENTIFIER => "statement_identifier"@,
        _ => ""@,
    }
}

/// Returns the name the grammar gives a kind; empty for a kind not listed here.
pub fn kind_str(id: u16) -> (r: &'static str)
    ensures
        r@ == kind_text(id),
{
    match id {
        IDENTIFIER => "identifier",
        EXPORT => "export",
        STAR => "*",
        DEFAULT => "default",
        EQ => "=",
        AS => "as",
        LBRACE => "{",
        COMMA => ",",
        TYPEOF => "typeof",
        IMPORT2 => "import",
        FROM => "from",
        WITH => "with",
        VAR => "var",
        LET => "let",
        CONST => "const",
        BANG => "!",
        ELSE => "else",
        IF => "if",
        SWITCH => "switch",
        FOR => "for",
        LPAREN => "(",
        SEMI => ";",
        AWAIT => "await",
        IN => "in",
        OF => "of",
        WHILE => "while",
        TRY => "try",
        BREAK => "break",
        CONTINUE => "continue",
        RETURN => "return",
        THROW => "throw",
        COLON => ":",
        CASE => "case",
        CATCH => "catch",
        FINALLY => "finally",
        YIELD => "yield",
        LBRACK => "[",
        GT => ">",
        DOT => ".",
        DQUOTE => "\"",
        ASYNC => "async",
        FUNCTION => "function",
        NEW => "new",
        PLUSEQ => "+=",
        DASHEQ => "-=",
        STAREQ => "*=",
        SLASHEQ => "/=",
        PERCENTEQ => "%=",
        CARETEQ => "^=",
        AMPEQ => "&=",
        PIPEEQ => "|=",
        GTGTEQ => ">>=",
        GTGTGTEQ => ">>>=",
        LTLTEQ => "<<=",
        STARSTAREQ => "**=",
        AMPAMP => "&&",
        PIPEPIPE => "||",
        GTGT => ">>",
        GTGTGT => ">>>",
        LTLT => "<<",
        AMP => "&",
        CARET => "^",
        PIPE => "|",
        PLUS => "+",
        DASH => "-",
        SLASH => "/",
        PERCENT => "%",
        STARSTAR => "**",
        LT => "<",
        LTEQ => "<=",
        EQEQ => "==",
        EQEQEQ => "===",
        BANGEQ => "!=",
        BANGEQEQ => "!==",
        GTEQ => ">=",
        QMARKQMARK => "??",
        INSTANCEOF => "instanceof",
        TILDE => "~",
        VOID => "void",
        DELETE => "delete",
        PLUSPLUS => "++",
        DASHDASH => "--",
        COMMENT => "comment",
        NUMBER => "number",
        THIS => "this",
        SUPER => "super",
        TRUE => "true",
        FALSE => "false",
        NULL => "null",
        UNDEFINED => "undefined",
        AT => "@",
        GET => "get",
        SET => "set",
        QMARK => "?",
        EXTENDS => "extends",
        PROGRAM => "program",
        EXPORT_STATEMENT => "export_statement",
        IMPORT => "import",
        IMPORT_STATEMENT => "import_statement",
        EXPRESSION_STATEMENT => "expression_statement",
        VARIABLE_DECLARATOR => "variable_declarator",
        STATEMENT_BLOCK => "statement_block",
        IF_STATEMENT => "if_statement",
        SWITCH_STATEMENT => "switch_statement",
        FOR_STATEMENT => "for_statement",
        FOR_IN_STATEMENT => "for_in_statement",
        WHILE_STATEMENT => "while_statement",
        DO_STATEMENT => "do_statement",
        TRY_STATEMENT => "try_statement",
        WITH_STATEMENT => "with_statement",
        BREAK_STATEMENT => "break_statement",
        CONTINUE_STATEMENT => "continue_statement",
        DEBUGGER_STATEMENT => "debugger_statement",
        RETURN_STATEMENT => "return_statement",
        THROW_STATEMENT => "throw_statement",
        EMPTY_STATEMENT => "empty_statement",
        NESTED_IDENTIFIER => "nested_identifier",
        STRING => "string",
        CLASS => "class",
        CLASS_DECLARATION => "class_declaration",
        FUNCTION_EXPRESSION => "function_expression",
        FUNCTION_DECLARATION => "function_declaration",
        GENERATOR_FUNCTION => "generator_function",
        GENERATOR_FUNCTION_DECLARATION => "generator_function_declaration",
        ARROW_FUNCTION => "arrow_function",
        MEMBER_EXPRESSION => "member_expression",
        TERNARY_EXPRESSION => "ternary_expression",
        STRING2 => "string",
        METHOD_DEFINITION => "method_definition",
        PAIR => "pair",
        INTERFACE_DECLARATION => "interface_declaration",
        PROPERTY_IDENTIFIER => "property_identifier",
        STATEMENT_IDENTIFIER => "statement_identifier",
        _ => "",
    }
}

} // verus!
