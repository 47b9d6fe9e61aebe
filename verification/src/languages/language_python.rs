//! Node kinds of the Python grammar that the analysis distinguishes.
//!
//! Each constant is the numeric kind a syntax node of that grammar carries.

use vstd::prelude::*;

verus! {

/// `identifier`
pub const IDENTIFIER: u16 = 1;

/// `import`
pub const IMPORT: u16 = 3;

/// `.`
pub const DOT: u16 = 4;

/// `from`
pub const FROM: u16 = 5;

/// `,`
pub const COMMA: u16 = 9;

/// `as`
pub const AS: u16 = 10;

/// `*`
pub const STAR: u16 = 11;

/// `print`
pub const PRINT: u16 = 12;

/// `>>`
pub const GTGT: u16 = 13;

/// `assert`
pub const ASSERT: u16 = 14;

/// `:=`
pub const COLONEQ: u16 = 15;

/// `return`
pub const RETURN: u16 = 16;

/// `del`
pub const DEL: u16 = 17;

/// `raise`
pub const RAISE: u16 = 18;

/// `pass`
pub const PASS: u16 = 19;

/// `break`
pub const BREAK: u16 = 20;

/// `continue`
pub const CONTINUE: u16 = 21;

/// `if`
pub const IF: u16 = 22;

/// `elif`
pub const ELIF: u16 = 24;

/// `else`
pub const ELSE: u16 = 25;

/// `async`
pub const ASYNC: u16 = 28;

/// `for`
pub const FOR: u16 = 29;

/// `in`
pub const IN: u16 = 30;

/// `while`
pub const WHILE: u16 = 31;

/// `try`
pub const TRY: u16 = 32;

/// `except`
pub const EXCEPT: u16 = 33;

/// `finally`
pub const FINALLY: u16 = 35;

/// `with`
pub const WITH: u16 = 36;

/// `def`
pub const DEF: u16 = 37;

/// `->`
pub const DASHGT: u16 = 38;

/// `**`
pub const STARSTAR: u16 = 39;

/// `global`
pub const GLOBAL: u16 = 40;

/// `exec`
pub const EXEC: u16 = 42;

/// `=`
pub const EQ: u16 = 44;

/// `@`
pub const AT: u16 = 48;

/// `-`
pub const DASH: u16 = 49;

/// `|`
pub const PIPE: u16 = 51;

/// `+`
pub const PLUS: u16 = 54;

/// `not`
pub const NOT: u16 = 55;

/// `and`
pub const AND: u16 = 56;

/// `or`
pub const OR: u16 = 57;

/// `/`
pub const SLASH: u16 = 58;

/// `%`
pub const PERCENT: u16 = 59;

/// `//`
pub const SLASHSLASH: u16 = 60;

/// `&`
pub const AMP: u16 = 61;

/// `^`
pub const CARET: u16 = 62;

/// `<<`
pub const LTLT: u16 = 63;

/// `~`
pub const TILDE: u16 = 64;

/// `is`
pub const IS: u16 = 65;

/// `<`
pub const LT: u16 = 66;

/// `<=`
pub const LTEQ: u16 = 67;

/// `==`
pub const EQEQ: u16 = 68;

/// `!=`
pub const BANGEQ: u16 = 69;

/// `>=`
pub const GTEQ: u16 = 70;

/// `>`
pub const GT: u16 = 71;

/// `<>`
pub const LTGT: u16 = 72;

/// `+=`
pub const PLUSEQ: u16 = 74;

/// `-=`
pub const DASHEQ: u16 = 75;

/// `*=`
pub const STAREQ: u16 = 76;

/// `/=`
pub const SLASHEQ: u16 = 77;

/// `@=`
pub const ATEQ: u16 = 78;

/// `//=`
pub const SLASHSLASHEQ: u16 = 79;

/// `%=`
pub const PERCENTEQ: u16 = 80;

/// `**=`
pub const STARSTAREQ: u16 = 81;

/// `>>=`
pub const GTGTEQ: u16 = 82;

/// `<<=`
pub const LTLTEQ: u16 = 83;

/// `&=`
pub const AMPEQ: u16 = 84;

/// `^=`
pub const CARETEQ: u16 = 85;

/// `|=`
pub const PIPEEQ: u16 = 86;

/// `integer`
pub const INTEGER: u16 = 93;

/// `float`
pub const FLOAT: u16 = 94;

/// `await`
pub const AWAIT2: u16 = 95;

/// `true`
pub const TRUE: u16 = 96;

/// `false`
pub const FALSE: u16 = 97;

/// `none`
pub const NONE: u16 = 98;

/// `comment`
pub const COMMENT: u16 = 99;

/// `string_start`
pub const STRING_START: u16 = 104;

/// `string_end`
pub const STRING_END: u16 = 107;

/// `module`
pub const MODULE: u16 = 108;

/// `_statement`
pub const STATEMENT: u16 = 109;

/// `_simple_statements`
pub const SIMPLE_STATEMENTS: u16 = 110;

/// `import_statement`
pub const IMPORT_STATEMENT: u16 = 111;

/// `future_import_statement`
pub const FUTURE_IMPORT_STATEMENT: u16 = 114;

/// `import_from_statement`
pub const IMPORT_FROM_STATEMENT: u16 = 115;

/// `print_statement`
pub const PRINT_STATEMENT: u16 = 119;

/// `assert_statement`
pub const ASSERT_STATEMENT: u16 = 121;

/// `expression_statement`
pub const EXPRESSION_STATEMENT: u16 = 122;

/// `return_statement`
pub const RETURN_STATEMENT: u16 = 125;

/// `delete_statement`
pub const DELETE_STATEMENT: u16 = 126;

/// `raise_statement`
pub const RAISE_STATEMENT: u16 = 127;

/// `pass_statement`
pub const PASS_STATEMENT: u16 = 128;

/// `break_statement`
pub const BREAK_STATEMENT: u16 = 129;

/// `continue_statement`
pub const CONTINUE_STATEMENT: u16 = 130;

/// `if_statement`
pub const IF_STATEMENT: u16 = 131;

/// `else_clause`
pub const ELSE_CLAUSE: u16 = 133;

/// `block`
pub const BLOCK: u16 = 135;

/// `for_statement`
pub const FOR_STATEMENT: u16 = 137;

/// `while_statement`
pub const WHILE_STATEMENT: u16 = 138;

/// `try_statement`
pub const TRY_STATEMENT: u16 = 139;

/// `with_statement`
pub const WITH_STATEMENT: u16 = 142;

/// `function_definition`
pub const FUNCTION_DEFINITION: u16 = 145;

/// `global_statement`
pub const GLOBAL_STATEMENT: u16 = 150;

/// `nonlocal_statement`
pub const NONLOCAL_STATEMENT: u16 = 151;

/// `exec_statement`
pub const EXEC_STATEMENT: u16 = 152;

/// `class_definition`
pub const CLASS_DEFINITION: u16 = 154;

/// `lambda`
pub const LAMBDA: u16 = 196;

/// `yield`
pub const YIELD: u16 = 202;

/// `string`
pub const STRING: u16 = 231;

/// `string_content`
pub const STRING_CONTENT: u16 = 232;

/// `await`
pub const AWAIT: u16 = 237;

/// The name the grammar gives a kind; empty for a kind not listed here.
pub open spec fn kind_text(id: u16) -> Seq<char> {
    match id {
        IDENTIFIER => "identifier"@,
        IMPORT => "import"@,
        DOT => "."@,
        FROM => "from"@,
        COMMA => ","@,
        AS => "as"@,
        STAR => "*"@,
        PRINT => "print"@,
        GTGT => ">>"@,
        ASSERT => "assert"@,
        COLONEQ => ":="@,
        RETURN => "return"@,
        DEL => "del"@,
        RAISE => "raise"@,
        PASS => "pass"@,
        BREAK => "break"@,
        CONTINUE => "continue"@,
        IF => "if"@,
        ELIF => "elif"@,
        ELSE => "else"@,
        ASYNC => "async"@,
        FOR => "for"@,
        IN => "in"@,
        WHILE => "while"@,
        TRY => "try"@,
        EXCEPT => "except"@,
        FINALLY => "finally"@,
        WITH => "with"@,
        DEF => "def"@,
        DASHGT => "->"@,
        STARSTAR => "**"@,
        GLOBAL => "global"@,
        EXEC => "exec"@,
        EQ => "="@,
        AT => "@"@,
        DASH => "-"@,
        PIPE => "|"@,
        PLUS => "+"@,
        NOT => "not"@,
        AND => "and"@,
        OR => "or"@,
        SLASH => "/"@,
        PERCENT => "%"@,
        SLASHSLASH => "//"@,
        AMP => "&"@,
        CARET => "^"@,
        LTLT => "<<"@,
        TILDE => "~"@,
        IS => "is"@,
        LT => "<"@,
        LTEQ => "<="@,
        EQEQ => "=="@,
        BANGEQ => "!="@,
        GTEQ => ">="@,
        GT => ">"@,
        LTGT => "<>"@,
        PLUSEQ => "+="@,
        DASHEQ => "-="@,
        STAREQ => "*="@,
        SLASHEQ => "/="@,
        ATEQ => "@="@,
        SLASHSLASHEQ => "//="@,
        PERCENTEQ => "%="@,
        STARSTAREQ => "**="@,
        GTGTEQ => ">>="@,
        LTLTEQ => "<<="@,
        AMPEQ => "&="@,
        CARETEQ => "^="@,
        PIPEEQ => "|="@,
        INTEGER => "integer"@,
        FLOAT => "float"@,
        AWAIT2 => "await"@,
        TRUE => "true"@,
        FALSE => "false"@,
        NONE => "none"@,
        COMMENT => "comment"@,
        STRING_START => "string_start"@,
        STRING_END => "string_end"@,
        MODULE => "module"@,
        STATEMENT => "_statement"@,
        SIMPLE_STATEMENTS => "_simple_statements"@,
        IMPORT_STATEMENT => "import_statement"@,
        FUTURE_IMPORT_STATEMENT => "future_import_statement"@,
        IMPORT_FROM_STATEMENT => "import_from_statement"@,
        PRINT_STATEMENT => "print_statement"@,
        ASSERT_STATEMENT => "assert_statement"@,
        EXPRESSION_STATEMENT => "expression_statement"@,
        RETURN_STATEMENT => "return_statement"@,
        DELETE_STATEMENT => "delete_statement"@,
        RAISE_STATEMENT => "raise_statement"@,
        PASS_STATEMENT => "pass_statement"@,
        BREAK_STATEMENT => "break_statement"@,
        CONTINUE_STATEMENT => "continue_statement"@,
        IF_STATEMENT => "if_statement"@,
        ELSE_CLAUSE => "else_clause"@,
        BLOCK => "block"@,
        FOR_STATEMENT => "for_statement"@,
        WHILE_STATEMENT => "while_statement"@,
        TRY_STATEMENT => "try_statement"@,
        WITH_STATEMENT => "with_statement"@,
        FUNCTION_DEFINITION => "function_definition"@,
        GLOBAL_STATEMENT => "global_statement"@,
        NONLOCAL_STATEMENT => "nonlocal_statement"@,
        EXEC_STATEMENT => "exec_statement"@,
        CLASS_DEFINITION => "class_definition"@,
        LAMBDA => "lambda"@,
        YIELD => "yield"@,
        STRING => "string"@,
        STRING_CONTENT => "string_content"@,
        AWAIT => "await"@,
        _ => ""@,
    }
}

/// Returns the name the grammar gives a kind; empty for a kind not listed here.
pub fn kind_str(id: u16) -> (r: &'static str)
    ensures
        r@ == kind_text(id),
{
    match id {
        IDENTIFIER => "identifier",
        IMPORT => "import",
        DOT => ".",
        FROM => "from",
        COMMA => ",",
        AS => "as",
        STAR => "*",
        PRINT => "print",
        GTGT => ">>",
        ASSERT => "assert",
        COLONEQ => ":=",
        RETURN => "return",
        DEL => "del",
        RAISE => "raise",
        PASS => "pass",
        BREAK => "break",
        CONTINUE => "continue",
        IF => "if",
        ELIF => "elif",
        ELSE => "else",
        ASYNC => "async",
        FOR => "for",
        IN => "in",
        WHILE => "while",
        TRY => "try",
        EXCEPT => "except",
        FINALLY => "finally",
        WITH => "with",
        DEF => "def",
        DASHGT => "->",
        STARSTAR => "**",
        GLOBAL => "global",
        EXEC => "exec",
        EQ => "=",
        AT => "@",
        DASH => "-",
        PIPE => "|",
        PLUS => "+",
        NOT => "not",
        AND => "and",
        OR => "or",
        SLASH => "/",
        PERCENT => "%",
        SLASHSLASH => "//",
        AMP => "&",
        CARET => "^",
        LTLT => "<<",
        TILDE => "~",
        IS => "is",
        LT => "<",
        LTEQ => "<=",
        EQEQ => "==",
        BANGEQ => "!=",
        GTEQ => ">=",
        GT => ">",
        LTGT => "<>",
        PLUSEQ => "+=",
        DASHEQ => "-=",
        STAREQ => "*=",
        SLASHEQ => "/=",
        ATEQ => "@=",
        SLASHSLASHEQ => "//=",
        PERCENTEQ => "%=",
        STARSTAREQ => "**=",
        GTGTEQ => ">>=",
        LTLTEQ => "<<=",
        AMPEQ => "&=",
        CARETEQ => "^=",
        PIPEEQ => "|=",
        INTEGER => "integer",
        FLOAT => "float",
        AWAIT2 => "await",
        TRUE => "true",
        FALSE => "false",
        NONE => "none",
        COMMENT => "comment",
        STRING_START => "string_start",
        STRING_END => "string_end",
        MODULE => "module",
        STATEMENT => "_statement",
        SIMPLE_STATEMENTS => "_simple_statements",
        IMPORT_STATEMENT => "import_statement",
        FUTURE_IMPORT_STATEMENT => "future_import_statement",
        IMPORT_FROM_STATEMENT => "import_from_statement",
        PRINT_STATEMENT => "print_statement",
        ASSERT_STATEMENT => "assert_statement",
        EXPRESSION_STATEMENT => "expression_statement",
        RETURN_STATEMENT => "return_statement",
        DELETE_STATEMENT => "delete_statement",
        RAISE_STATEMENT => "raise_statement",
        PASS_STATEMENT => "pass_statement",
        BREAK_STATEMENT => "break_statement",
        CONTINUE_STATEMENT => "continue_statement",
        IF_STATEMENT => "if_statement",
        ELSE_CLAUSE => "else_clause",
        BLOCK => "block",
        FOR_STATEMENT => "for_statement",
        WHILE_STATEMENT => "while_statement",
        TRY_STATEMENT => "try_statement",
        WITH_STATEMENT => "with_statement",
        FUNCTION_DEFINITION => "function_definition",
        GLOBAL_STATEMENT => "global_statement",
        NONLOCAL_STATEMENT => "nonlocal_statement",
        EXEC_STATEMENT => "exec_statement",
        CLASS_DEFINITION => "class_definition",
        LAMBDA => "lambda",
        YIELD => "yield",
        STRING => "string",
        STRING_CONTENT => "string_content",
        AWAIT => "await",
        _ => "",
    }
}

} // verus!
