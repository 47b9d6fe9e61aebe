//! Node kinds of the Go grammar that the analysis distinguishes.
//!
//! Each constant is the numeric kind a syntax node of that grammar carries.

use vstd::prelude::*;

verus! {

/// `identifier`
pub const IDENTIFIER: u16 = 1;

/// `;`
pub const SEMI: u16 = 3;

/// `package`
pub const PACKAGE: u16 = 5;

/// `import`
pub const IMPORT: u16 = 6;

/// `.`
pub const DOT: u16 = 7;

/// `(`
pub const LPAREN: u16 = 9;

/// `const`
pub const CONST: u16 = 11;

/// `,`
pub const COMMA: u16 = 12;

/// `=`
pub const EQ: u16 = 13;

/// `var`
pub const VAR: u16 = 14;

/// `func`
pub const FUNC: u16 = 15;

/// `[`
pub const LBRACK: u16 = 16;

/// `...`
pub const DOTDOTDOT: u16 = 18;

/// `type`
pub const TYPE: u16 = 19;

/// `*`
pub const STAR: u16 = 20;

/// `struct`
pub const STRUCT: u16 = 21;

/// `{`
pub const LBRACE: u16 = 23;

/// `interface`
pub const INTERFACE: u16 = 25;

/// `|`
pub const PIPE: u16 = 26;

/// `map`
pub const MAP: u16 = 27;

/// `chan`
pub const CHAN: u16 = 28;

/// `:=`
pub const COLONEQ: u16 = 30;

/// `++`
pub const PLUSPLUS: u16 = 31;

/// `--`
pub const DASHDASH: u16 = 32;

/// `*=`
pub const STAREQ: u16 = 33;

/// `/=`
pub const SLASHEQ: u16 = 34;

/// `%=`
pub const PERCENTEQ: u16 = 35;

/// `<<=`
pub const LTLTEQ: u16 = 36;

/// `>>=`
pub const GTGTEQ: u16 = 37;

/// `&=`
pub const AMPEQ: u16 = 38;

/// `&^=`
pub const AMPCARETEQ: u16 = 39;

/// `+=`
pub const PLUSEQ: u16 = 40;

/// `-=`
pub const DASHEQ: u16 = 41;

/// `|=`
pub const PIPEEQ: u16 = 42;

/// `^=`
pub const CARETEQ: u16 = 43;

/// `:`
pub const COLON: u16 = 44;

/// `fallthrough`
pub const FALLTHROUGH: u16 = 45;

/// `break`
pub const BREAK: u16 = 46;

/// `continue`
pub const CONTINUE: u16 = 47;

/// `goto`
pub const GOTO: u16 = 48;

/// `return`
pub const RETURN: u16 = 49;

/// `go`
pub const GO: u16 = 50;

/// `defer`
pub const DEFER: u16 = 51;

/// `if`
pub const IF: u16 = 52;

/// `else`
pub const ELSE: u16 = 53;

/// `for`
pub const FOR: u16 = 54;

/// `range`
pub const RANGE: u16 = 55;

/// `switch`
pub const SWITCH: u16 = 56;

/// `case`
pub const CASE: u16 = 57;

/// `default`
pub const DEFAULT: u16 = 58;

/// `select`
pub const SELECT: u16 = 59;

/// `+`
pub const PLUS: u16 = 62;

/// `-`
pub const DASH: u16 = 63;

/// `!`
pub const BANG: u16 = 64;

/// `^`
pub const CARET: u16 = 65;

/// `&`
pub const AMP: u16 = 66;

/// `/`
pub const SLASH: u16 = 67;

/// `%`
pub const PERCENT: u16 = 68;

/// `<<`
pub const LTLT: u16 = 69;

/// `>>`
pub const GTGT: u16 = 70;

/// `&^`
pub const AMPCARET: u16 = 71;

/// `==`
pub const EQEQ: u16 = 72;

/// `!=`
pub const BANGEQ: u16 = 73;

/// `<`
pub const LT: u16 = 74;

/// `<=`
pub const LTEQ: u16 = 75;

/// `>`
pub const GT: u16 = 76;

/// `>=`
pub const GTEQ: u16 = 77;

/// `&&`
pub const AMPAMP: u16 = 78;

/// `||`
pub const PIPEPIPE: u16 = 79;

/// `int_literal`
pub const INT_LITERAL: u16 = 86;

/// `float_literal`
pub const FLOAT_LITERAL: u16 = 87;

/// `imaginary_literal`
pub const IMAGINARY_LITERAL: u16 = 88;

/// `rune_literal`
pub const RUNE_LITERAL: u16 = 89;

/// `nil`
pub const NIL: u16 = 90;

/// `true`
pub const TRUE: u16 = 91;

/// `false`
pub const FALSE: u16 = 92;

/// `iota`
pub const IOTA: u16 = 93;

/// `comment`
pub const COMMENT: u16 = 94;

/// `source_file`
pub const SOURCE_FILE: u16 = 95;

/// `const_declaration`
pub const CONST_DECLARATION: u16 = 102;

/// `var_declaration`
pub const VAR_DECLARATION: u16 = 104;

/// `function_declaration`
pub const FUNCTION_DECLARATION: u16 = 107;

/// `method_declaration`
pub const METHOD_DECLARATION: u16 = 108;

/// `type_declaration`
pub const TYPE_DECLARATION: u16 = 115;

/// `expression_statement`
pub const EXPRESSION_STATEMENT: u16 = 141;

/// `send_statement`
pub const SEND_STATEMENT: u16 = 142;

/// `inc_statement`
pub const INC_STATEMENT: u16 = 144;

/// `dec_statement`
pub const DEC_STATEMENT: u16 = 145;

/// `assignment_statement`
pub const ASSIGNMENT_STATEMENT: u16 = 146;

/// `short_var_declaration`
pub const SHORT_VAR_DECLARATION: u16 = 147;

/// `fallthrough_statement`
pub const FALLTHROUGH_STATEMENT: u16 = 150;

/// `break_statement`
pub const BREAK_STATEMENT: u16 = 151;

/// `continue_statement`
pub const CONTINUE_STATEMENT: u16 = 152;

/// `goto_statement`
pub const GOTO_STATEMENT: u16 = 153;

/// `return_statement`
pub const RETURN_STATEMENT: u16 = 154;

/// `go_statement`
pub const GO_STATEMENT: u16 = 155;

/// `defer_statement`
pub const DEFER_STATEMENT: u16 = 156;

/// `if_statement`
pub const IF_STATEMENT: u16 = 157;

/// `for_statement`
pub const FOR_STATEMENT: u16 = 158;

/// `expression_switch_statement`
pub const EXPRESSION_SWITCH_STATEMENT: u16 = 161;

/// `expression_case`
pub const EXPRESSION_CASE: u16 = 162;

/// `default_case`
pub const DEFAULT_CASE: u16 = 163;

/// `type_switch_statement`
pub const TYPE_SWITCH_STATEMENT: u16 = 164;

/// `type_case`
pub const TYPE_CASE: u16 = 166;

/// `select_statement`
pub const SELECT_STATEMENT: u16 = 167;

/// `communication_case`
pub const COMMUNICATION_CASE: u16 = 168;

/// `func_literal`
pub const FUNC_LITERAL: u16 = 185;

/// `raw_string_literal`
pub const RAW_STRING_LITERAL: u16 = 189;

/// `interpreted_string_literal`
pub const INTERPRETED_STRING_LITERAL: u16 = 190;

/// The name the grammar gives a kind; empty for a kind not listed here.
pub open spec fn kind_text(id: u16) -> Seq<char> {
    match id {
        IDENTIFIER => "identifier"@,
        SEMI => ";"@,
        PACKAGE => "package"@,
        IMPORT => "import"@,
        DOT => "."@,
        LPAREN => "("@,
        CONST => "const"@,
        COMMA => ","@,
        EQ => "="@,
        VAR => "var"@,
        FUNC => "func"@,
        LBRACK => "["@,
        DOTDOTDOT => "..."@,
        TYPE => "type"@,
        STAR => "*"@,
        STRUCT => "struct"@,
        LBRACE => "{"@,
        INTERFACE => "interface"@,
        PIPE => "|"@,
        MAP => "map"@,
        CHAN => "chan"@,
        COLONEQ => ":="@,
        PLUSPLUS => "++"@,
        DASHDASH => "--"@,
        STAREQ => "*="@,
        SLASHEQ => "/="@,
        PERCENTEQ => "%="@,
        LTLTEQ => "<<="@,
        GTGTEQ => ">>="@,
        AMPEQ => "&="@,
        AMPCARETEQ => "&^="@,
        PLUSEQ => "+="@,
        DASHEQ => "-="@,
        PIPEEQ => "|="@,
        CARETEQ => "^="@,
        COLON => ":"@,
        FALLTHROUGH => "fallthrough"@,
        BREAK => "break"@,
        CONTINUE => "continue"@,
        GOTO => "goto"@,
        RETURN => "return"@,
        GO => "go"@,
        DEFER => "defer"@,
        IF => "if"@,
        ELSE => "else"@,
        FOR => "for"@,
        RANGE => "range"@,
        SWITCH => "switch"@,
        CASE => "case"@,
        DEFAULT => "default"@,
        SELECT => "select"@,
        PLUS => "+"@,
        DASH => "-"@,
        BANG => "!"@,
        CARET => "^"@,
        AMP => "&"@,
        SLASH => "/"@,
        PERCENT => "%"@,
        LTLT => "<<"@,
        GTGT => ">>"@,
        AMPCARET => "&^"@,
        EQEQ => "=="@,
        BANGEQ => "!="@,
        LT => "<"@,
        LTEQ => "<="@,
        GT => ">"@,
        GTEQ => ">="@,
        AMPAMP => "&&"@,
        PIPEPIPE => "||"@,
        INT_LITERAL => "int_literal"@,
        FLOAT_LITERAL => "float_literal"@,
        IMAGINARY_LITERAL => "imaginary_literal"@,
        RUNE_LITERAL => "rune_literal"@,
        NIL => "nil"@,
        TRUE => "true"@,
        FALSE => "false"@,
        IOTA => "iota"@,
        COMMENT => "comment"@,
        SOURCE_FILE => "source_file"@,
        CONST_DECLARATION => "const_declaration"@,
        VAR_DECLARATION => "var_declaration"@,
        FUNCTION_DECLARATION => "function_declaration"@,
        METHOD_DECLARATION => "method_declaration"@,
        TYPE_DECLARATION => "type_declaration"@,
        EXPRESSION_STATEMENT => "expression_statement"@,
        SEND_STATEMENT => "send_statement"@,
        INC_STATEMENT => "inc_statement"@,
        DEC_STATEMENT => "dec_statement"@,
        ASSIGNMENT_STATEMENT => "assignment_statement"@,
        SHORT_VAR_DECLARATION => "short_var_declaration"@,
        FALLTHROUGH_STATEMENT => "fallthrough_statement"@,
        BREAK_STATEMENT => "break_statement"@,
        CONTINUE_STATEMENT => "continue_statement"@,
        GOTO_STATEMENT => "goto_statement"@,
        RETURN_STATEMENT => "return_statement"@,
        GO_STATEMENT => "go_statement"@,
        DEFER_STATEMENT => "defer_statement"@,
        IF_STATEMENT => "if_statement"@,
        FOR_STATEMENT => "for_statement"@,
        EXPRESSION_SWITCH_STATEMENT => "expression_switch_statement"@,
        EXPRESSION_CASE => "expression_case"@,
        DEFAULT_CASE => "default_case"@,
        TYPE_SWITCH_STATEMENT => "type_switch_statement"@,
        TYPE_CASE => "type_case"@,
        SELECT_STATEMENT => "select_statement"@,
        COMMUNICATION_CASE => "communication_case"@,
        FUNC_LITERAL => "func_literal"@,
        RAW_STRING_LITERAL => "raw_string_literal"@,
        INTERPRETED_STRING_LITERAL => "interpreted_string_literal"@,
        _ => ""@,
    }
}

/// Returns the name the grammar gives a kind; empty for a kind not listed here.
pub fn kind_str(id: u16) -> (r: &'static str)
    ensures
        r@ == kind_text(id),
{
    match id {
        IDENTIFIER => "identifier",
        SEMI => ";",
        PACKAGE => "package",
        IMPORT => "import",
        DOT => ".",
        LPAREN => "(",
        CONST => "const",
        COMMA => ",",
        EQ => "=",
        VAR => "var",
        FUNC => "func",
        LBRACK => "[",
        DOTDOTDOT => "...",
        TYPE => "type",
        STAR => "*",
        STRUCT => "struct",
        LBRACE => "{",
        INTERFACE => "interface",
        PIPE => "|",
        MAP => "map",
        CHAN => "chan",
        COLONEQ => ":=",
        PLUSPLUS => "++",
        DASHDASH => "--",
        STAREQ => "*=",
        SLASHEQ => "/=",
        PERCENTEQ => "%=",
        LTLTEQ => "<<=",
        GTGTEQ => ">>=",
        AMPEQ => "&=",
        AMPCARETEQ => "&^=",
        PLUSEQ => "+=",
        DASHEQ => "-=",
        PIPEEQ => "|=",
        CARETEQ => "^=",
        COLON => ":",
        FALLTHROUGH => "fallthrough",
        BREAK => "break",
        CONTINUE => "continue",
        GOTO => "goto",
        RETURN => "return",
        GO => "go",
        DEFER => "defer",
        IF => "if",
        ELSE => "else",
        FOR => "for",
        RANGE => "range",
        SWITCH => "switch",
        CASE => "case",
        DEFAULT => "default",
        SELECT => "select",
        PLUS => "+",
        DASH => "-",
        BANG => "!",
        CARET => "^",
        AMP => "&",
        SLASH => "/",
        PERCENT => "%",
        LTLT => "<<",
        GTGT => ">>",
        AMPCARET => "&^",
        EQEQ => "==",
        BANGEQ => "!=",
        LT => "<",
        LTEQ => "<=",
        GT => ">",
        GTEQ => ">=",
        AMPAMP => "&&",
        PIPEPIPE => "||",
        INT_LITERAL => "int_literal",
        FLOAT_LITERAL => "float_literal",
        IMAGINARY_LITERAL => "imaginary_literal",
        RUNE_LITERAL => "rune_literal",
        NIL => "nil",
        TRUE => "true",
        FALSE => "false",
        IOTA => "iota",
        COMMENT => "comment",
        SOURCE_FILE => "source_file",
        CONST_DECLARATION => "const_declaration",
        VAR_DECLARATION => "var_declaration",
        FUNCTION_DECLARATION => "function_declaration",
        METHOD_DECLARATION => "method_declaration",
        TYPE_DECLARATION => "type_declaration",
        EXPRESSION_STATEMENT => "expression_statement",
        SEND_STATEMENT => "send_statement",
        INC_STATEMENT => "inc_statement",
        DEC_STATEMENT => "dec_statement",
        ASSIGNMENT_STATEMENT => "assignment_statement",
        SHORT_VAR_DECLARATION => "short_var_declaration",
        FALLTHROUGH_STATEMENT => "fallthrough_statement",
        BREAK_STATEMENT => "break_statement",
        CONTINUE_STATEMENT => "continue_statement",
        GOTO_STATEMENT => "goto_statement",
        RETURN_STATEMENT => "return_statement",
        GO_STATEMENT => "go_statement",
        DEFER_STATEMENT => "defer_statement",
        IF_STATEMENT => "if_statement",
        FOR_STATEMENT => "for_statement",
        EXPRESSION_SWITCH_STATEMENT => "expression_switch_statement",
        EXPRESSION_CASE => "expression_case",
        DEFAULT_CASE => "default_case",
        TYPE_SWITCH_STATEMENT => "type_switch_statement",
        TYPE_CASE => "type_case",
        SELECT_STATEMENT => "select_statement",
        COMMUNICATION_CASE => "communication_case",
        FUNC_LITERAL => "func_literal",
        RAW_STRING_LITERAL => "raw_string_literal",
        INTERPRETED_STRING_LITERAL => "interpreted_string_literal",
        _ => "",
    }
}

} // verus!
