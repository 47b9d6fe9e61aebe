use mehen::getter::get_operator_id_as_str;
use mehen::langs::LANG;
use mehen::languages::{language_python, language_rust, language_typescript};
use mehen::metrics::cyclomatic::Stats as CyclomaticStats;
use mehen::metrics::npa::Stats as NpaStats;
use mehen::metrics::halstead::Stats as HalsteadStats;
use mehen::metrics::Ratio;
use mehen::node::{Field, Node, Tree};
use mehen::spaces::{metrics, CodeMetrics, FuncSpace, SpaceKind};

fn field_of(name: Option<&str>) -> Field {
    match name {
        Some("name") => Field::Name,
        Some("type") => Field::Type,
        Some("key") => Field::Key,
        Some("return_type") => Field::ReturnType,
        _ => Field::Unnamed,
    }
}

fn flatten(cursor: &mut tree_sitter::TreeCursor, parent: Option<usize>, out: &mut Vec<Node>) {
    let node = cursor.node();
    let index = out.len();
    out.push(Node {
        kind_id: node.kind_id(),
        start_row: node.start_position().row,
        end_row: node.end_position().row,
        start_byte: node.start_byte(),
        end_byte: node.end_byte(),
        field: field_of(cursor.field_name()),
        parent,
        end: 0,
    });
    if cursor.goto_first_child() {
        loop {
            flatten(cursor, Some(index), out);
            if !cursor.goto_next_sibling() {
                break;
            }
        }
        cursor.goto_parent();
    }
    out[index].end = out.len();
}

fn grammar(lang: LANG) -> tree_sitter::Language {
    match lang {
        LANG::Rust => tree_sitter_rust::LANGUAGE.into(),
        LANG::Python => tree_sitter_python::LANGUAGE.into(),
        LANG::Tsx => tree_sitter_typescript::LANGUAGE_TSX.into(),
        LANG::Typescript => tree_sitter_typescript::LANGUAGE_TYPESCRIPT.into(),
        LANG::Go => tree_sitter_go::LANGUAGE.into(),
    }
}

fn parse(lang: LANG, code: &[u8]) -> Tree {
    let mut parser = tree_sitter::Parser::new();
    parser.set_language(&grammar(lang)).unwrap();
    let parsed = parser.parse(code, None).unwrap();
    let mut nodes = Vec::new();
    flatten(&mut parsed.walk(), None, &mut nodes);
    Tree::new(nodes).unwrap()
}

fn check_func_space(lang: LANG, source: &str, filename: &str, check: fn(FuncSpace)) {
    let mut code = source.trim_end().trim_matches('\n').as_bytes().to_vec();
    code.push(b'\n');
    let tree = parse(lang, &code);
    assert!(tree.fits(code.len()));
    let space = metrics(lang, &tree, &code, filename).unwrap();
    check(space)
}

fn check_metrics(lang: LANG, source: &str, filename: &str, check: fn(CodeMetrics)) {
    let mut code = source.trim_end().trim_matches('\n').as_bytes().to_vec();
    code.push(b'\n');
    let tree = parse(lang, &code);
    assert!(tree.fits(code.len()));
    let space = metrics(lang, &tree, &code, filename).unwrap();
    check(space.metrics)
}

fn value(r: Option<Ratio>) -> Option<f64> {
    r.map(|q| q.num as f64 / q.den as f64)
}

fn number(v: u64) -> f64 {
    v as f64
}

fn min_of(v: Option<u64>) -> Option<f64> {
    v.map(|m| m as f64)
}

fn wide(v: u128) -> f64 {
    v as f64
}

fn signed(v: i128) -> f64 {
    v as f64
}

fn signed_value(v: Option<(i128, u64)>) -> Option<f64> {
    v.map(|(num, den)| num as f64 / den as f64)
}

fn estimated_program_length(s: &HalsteadStats) -> Option<f64> {
    if !s.has_estimated_program_length() {
        return None;
    }
    let n1 = s.u_operators() as f64;
    let n2 = s.u_operands() as f64;
    Some(n1.mul_add(n1.log2(), n2 * n2.log2()))
}

fn purity_ratio(s: &HalsteadStats) -> Option<f64> {
    if !s.has_purity_ratio() {
        return None;
    }
    estimated_program_length(s).map(|e| e / s.length() as f64)
}

fn volume(s: &HalsteadStats) -> Option<f64> {
    if !s.has_volume() {
        return None;
    }
    Some(s.length() as f64 * (s.vocabulary() as f64).log2())
}

fn effort(s: &HalsteadStats) -> Option<f64> {
    if !s.has_effort() {
        return None;
    }
    Some(value(s.difficulty())? * volume(s)?)
}

fn time(s: &HalsteadStats) -> Option<f64> {
    effort(s).map(|e| e / 18.)
}

fn bugs(s: &HalsteadStats) -> Option<f64> {
    effort(s).map(|e| e.powf(2. / 3.) / 3000.)
}


#[test]
fn cyclomatic_python_simple_function() {
    check_metrics(LANG::Python, "def f(a, b): # +2 (+1 unit space)
                if a and b:  # +2 (+1 and)
                   return 1
                if c and d: # +2 (+1 and)
                   return 1", "foo.py", |metric| {
        // nspace = 2 (func and unit)
        assert_eq!(number(metric.cyclomatic.cyclomatic_sum()), 6.0);
        assert_eq!(value(metric.cyclomatic.cyclomatic_average()), Some(3.0));
        assert_eq!(min_of(metric.cyclomatic.cyclomatic_min()), Some(1.0));
        assert_eq!(number(metric.cyclomatic.cyclomatic_max()), 5.0);
    });
}

#[test]
fn python_1_level_nesting() {
    check_metrics(LANG::Python, "def f(a, b): # +2 (+1 unit space)
                if a:  # +1
                    for i in range(b):  # +1
                        return 1", "foo.py", |metric| {
        // nspace = 2 (func and unit)
        assert_eq!(number(metric.cyclomatic.cyclomatic_sum()), 4.0);
        assert_eq!(value(metric.cyclomatic.cyclomatic_average()), Some(2.0));
        assert_eq!(min_of(metric.cyclomatic.cyclomatic_min()), Some(1.0));
        assert_eq!(number(metric.cyclomatic.cyclomatic_max()), 3.0);
    });
}

#[test]
fn rust_1_level_nesting() {
    check_metrics(LANG::Rust, "fn f() { // +2 (+1 unit space)
                 if true { // +1
                     match true {
                         true => println!(\"test\"), // +1
                         false => println!(\"test\"), // +1
                     }
                 }
             }", "foo.rs", |metric| {
        // nspace = 2 (func and unit)
        assert_eq!(number(metric.cyclomatic.cyclomatic_sum()), 5.0);
        assert_eq!(value(metric.cyclomatic.cyclomatic_average()), Some(2.5));
        assert_eq!(min_of(metric.cyclomatic.cyclomatic_min()), Some(1.0));
        assert_eq!(number(metric.cyclomatic.cyclomatic_max()), 4.0);
    });
}

#[test]
fn cyclomatic_go_simple_function() {
    check_metrics(LANG::Go, "package main

            func calculate(a, b int) int { // +2 (+1 unit space)
                if a > b { // +1
                    return a
                }
                return b
            }", "foo.go", |metric| {
        // nspace = 2 (func and unit)
        assert_eq!(number(metric.cyclomatic.cyclomatic_sum()), 3.0);
        assert_eq!(value(metric.cyclomatic.cyclomatic_average()), Some(1.5));
        assert_eq!(min_of(metric.cyclomatic.cyclomatic_min()), Some(1.0));
        assert_eq!(number(metric.cyclomatic.cyclomatic_max()), 2.0);
    });
}

#[test]
fn go_switch_statement() {
    check_metrics(LANG::Go, "package main

            func grade(score int) string { // +2 (+1 unit space)
                switch { // switch itself doesn't add, cases do
                case score >= 90: // +1
                    return \"A\"
                case score >= 80: // +1
                    return \"B\"
                case score >= 70: // +1
                    return \"C\"
                default: // +1
                    return \"F\"
                }
            }", "foo.go", |metric| {
        // nspace = 2 (func and unit)
        assert_eq!(number(metric.cyclomatic.cyclomatic_sum()), 6.0);
        assert_eq!(value(metric.cyclomatic.cyclomatic_average()), Some(3.0));
        assert_eq!(min_of(metric.cyclomatic.cyclomatic_min()), Some(1.0));
        assert_eq!(number(metric.cyclomatic.cyclomatic_max()), 5.0);
    });
}

#[test]
fn go_logical_operators() {
    check_metrics(LANG::Go, "package main

            func check(a, b, c bool) bool { // +2 (+1 unit space)
                if a && b || c { // +3 (+1 if, +1 &&, +1 ||)
                    return true
                }
                return false
            }", "foo.go", |metric| {
        // nspace = 2 (func and unit)
        assert_eq!(number(metric.cyclomatic.cyclomatic_sum()), 5.0);
        assert_eq!(value(metric.cyclomatic.cyclomatic_average()), Some(2.5));
        assert_eq!(min_of(metric.cyclomatic.cyclomatic_min()), Some(1.0));
        assert_eq!(number(metric.cyclomatic.cyclomatic_max()), 4.0);
    });
}

#[test]
fn python_no_exit() {
    check_metrics(LANG::Python, "a = 42", "foo.py", |metric| {
        // 0 functions
        assert_eq!(number(metric.nexits.exit_sum()), 0.0);
        assert_eq!(value(metric.nexits.exit_average()), None);
        assert_eq!(min_of(metric.nexits.exit_min()), Some(0.0));
        assert_eq!(number(metric.nexits.exit_max()), 0.0);
    });
}

#[test]
fn rust_no_exit() {
    check_metrics(LANG::Rust, "let a = 42;", "foo.rs", |metric| {
        // 0 functions
        assert_eq!(number(metric.nexits.exit_sum()), 0.0);
        assert_eq!(value(metric.nexits.exit_average()), None);
        assert_eq!(min_of(metric.nexits.exit_min()), Some(0.0));
        assert_eq!(number(metric.nexits.exit_max()), 0.0);
    });
}

#[test]
fn rust_question_mark() {
    check_metrics(LANG::Rust, "let _ = a? + b? + c?;", "foo.rs", |metric| {
        // 0 functions
        assert_eq!(number(metric.nexits.exit_sum()), 3.0);
        assert_eq!(value(metric.nexits.exit_average()), None);
        assert_eq!(min_of(metric.nexits.exit_min()), Some(3.0));
        assert_eq!(number(metric.nexits.exit_max()), 3.0);
    });
}

#[test]
fn exit_python_simple_function() {
    check_metrics(LANG::Python, "def f(a, b):
                 if a:
                     return a", "foo.py", |metric| {
        // 1 function
        assert_eq!(number(metric.nexits.exit_sum()), 1.0);
        assert_eq!(value(metric.nexits.exit_average()), Some(1.0));
        assert_eq!(min_of(metric.nexits.exit_min()), Some(0.0));
        assert_eq!(number(metric.nexits.exit_max()), 1.0);
    });
}

#[test]
fn python_more_functions() {
    check_metrics(LANG::Python, "def f(a, b):
                 if a:
                     return a
            def f(a, b):
                 if b:
                     return b", "foo.py", |metric| {
        // 2 functions
        assert_eq!(number(metric.nexits.exit_sum()), 2.0);
        assert_eq!(value(metric.nexits.exit_average()), Some(1.0));
        assert_eq!(min_of(metric.nexits.exit_min()), Some(0.0));
        assert_eq!(number(metric.nexits.exit_max()), 1.0);
    });
}

#[test]
fn python_nested_functions() {
    check_metrics(LANG::Python, "def f(a, b):
                 def foo(a):
                     if a:
                         return 1
                 bar = lambda a: lambda b: b or True or True
                 return bar(foo(a))(a)", "foo.py", |metric| {
        // 2 functions + 2 lambdas = 4
        assert_eq!(number(metric.nexits.exit_sum()), 2.0);
        assert_eq!(value(metric.nexits.exit_average()), Some(0.5));
        assert_eq!(min_of(metric.nexits.exit_min()), Some(0.0));
        assert_eq!(number(metric.nexits.exit_max()), 1.0);
    });
}

#[test]
fn go_no_exit() {
    check_metrics(LANG::Go, "var a = 42", "foo.go", |metric| {
        // 0 functions
        assert_eq!(number(metric.nexits.exit_sum()), 0.0);
        assert_eq!(value(metric.nexits.exit_average()), None);
        assert_eq!(min_of(metric.nexits.exit_min()), Some(0.0));
        assert_eq!(number(metric.nexits.exit_max()), 0.0);
    });
}

#[test]
fn exit_go_simple_function() {
    check_metrics(LANG::Go, "package main

            func max(a, b int) int {
                if a > b {
                    return a
                }
                return b
            }", "foo.go", |metric| {
        // 2 exits / 1 function
        assert_eq!(number(metric.nexits.exit_sum()), 2.0);
        assert_eq!(value(metric.nexits.exit_average()), Some(2.0));
        assert_eq!(min_of(metric.nexits.exit_min()), Some(0.0));
        assert_eq!(number(metric.nexits.exit_max()), 2.0);
    });
}

#[test]
fn go_multiple_functions() {
    check_metrics(LANG::Go, "package main

            func f1() int {
                return 1
            }

            func f2() int {
                return 2
            }", "foo.go", |metric| {
        // 2 exits / 2 functions
        assert_eq!(number(metric.nexits.exit_sum()), 2.0);
        assert_eq!(value(metric.nexits.exit_average()), Some(1.0));
        assert_eq!(min_of(metric.nexits.exit_min()), Some(0.0));
        assert_eq!(number(metric.nexits.exit_max()), 1.0);
    });
}

#[test]
fn python_operators_and_operands() {
    check_metrics(LANG::Python, "def foo():
                 def bar():
                     def toto():
                        a = 1 + 1
                     b = 2 + a
                 c = 3 + 3", "foo.py", |metric| {
        // unique operators: def, =, +
        // operators: def, def, def, =, =, =, +, +, +
        // unique operands: foo, bar, toto, a, b, c, 1, 2, 3
        // operands: foo, bar, toto, a, b, c, 1, 1, 2, a, 3, 3
        assert_eq!(number(metric.halstead.u_operators()), 3.0);
        assert_eq!(number(metric.halstead.operators()), 9.0);
        assert_eq!(number(metric.halstead.u_operands()), 9.0);
        assert_eq!(number(metric.halstead.operands()), 12.0);
        assert_eq!(wide(metric.halstead.length()), 21.0);
        assert_eq!(estimated_program_length(&metric.halstead), Some(33.284212515144276));
        assert_eq!(purity_ratio(&metric.halstead), Some(1.584962500721156));
        assert_eq!(wide(metric.halstead.vocabulary()), 12.0);
        assert_eq!(volume(&metric.halstead), Some(75.28421251514428));
        assert_eq!(value(metric.halstead.difficulty()), Some(2.0));
        assert_eq!(value(metric.halstead.level()), Some(0.5));
        assert_eq!(effort(&metric.halstead), Some(150.56842503028855));
        assert_eq!(time(&metric.halstead), Some(8.364912501682698));
        assert_eq!(bugs(&metric.halstead), Some(0.0094341190071077));
    });
}

#[test]
fn rust_operators_and_operands() {
    check_metrics(LANG::Rust, "fn main() {
              let a = 5; let b = 5; let c = 5;
              let avg = (a + b + c) / 3;
              println!(\"{}\", avg);
            }", "foo.rs", |metric| {
        // unique operators: fn, (), {}, let, =, +, /, ;, !, ,
        // unique operands: main, a, b, c, avg, 5, 3, println, "{}"
        assert_eq!(number(metric.halstead.u_operators()), 10.0);
        assert_eq!(number(metric.halstead.operators()), 23.0);
        assert_eq!(number(metric.halstead.u_operands()), 9.0);
        assert_eq!(number(metric.halstead.operands()), 15.0);
        assert_eq!(wide(metric.halstead.length()), 38.0);
        assert_eq!(estimated_program_length(&metric.halstead), Some(61.74860596185443));
        assert_eq!(purity_ratio(&metric.halstead), Some(1.6249633147856428));
        assert_eq!(wide(metric.halstead.vocabulary()), 19.0);
        assert_eq!(volume(&metric.halstead), Some(161.42124551085624));
        assert_eq!(value(metric.halstead.difficulty()), Some(8.333333333333334));
        assert_eq!(value(metric.halstead.level()), Some(0.12));
        assert_eq!(effort(&metric.halstead), Some(1345.177045923802));
        assert_eq!(time(&metric.halstead), Some(74.7320581068779));
        assert_eq!(bugs(&metric.halstead), Some(0.040619232256751396));
    });
}

#[test]
fn typescript_operators_and_operands() {
    check_metrics(LANG::Typescript, "function main() {
              var a, b, c, avg;
              a = 5; b = 5; c = 5;
              avg = (a + b + c) / 3;
              console.log(\"{}\", avg);
            }", "foo.ts", |metric| {
        // unique operators: function, (), {}, var, =, +, /, ,, ., ;
        // unique operands: main, a, b, c, avg, 3, 5, console.log, console, log, "{}"
        assert_eq!(number(metric.halstead.u_operators()), 10.0);
        assert_eq!(number(metric.halstead.operators()), 24.0);
        assert_eq!(number(metric.halstead.u_operands()), 11.0);
        assert_eq!(number(metric.halstead.operands()), 21.0);
        assert_eq!(wide(metric.halstead.length()), 45.0);
        assert_eq!(estimated_program_length(&metric.halstead), Some(71.27302875388389));
        assert_eq!(purity_ratio(&metric.halstead), Some(1.583845083419642));
        assert_eq!(wide(metric.halstead.vocabulary()), 21.0);
        assert_eq!(volume(&metric.halstead), Some(197.65428402504423));
        assert_eq!(value(metric.halstead.difficulty()), Some(9.545454545454545));
        assert_eq!(value(metric.halstead.level()), Some(0.10476190476190476));
        assert_eq!(effort(&metric.halstead), Some(1886.699983875422));
        assert_eq!(time(&metric.halstead), Some(104.81666577085679));
        assert_eq!(bugs(&metric.halstead), Some(0.05089564733125986));
    });
}

#[test]
fn tsx_operators_and_operands() {
    check_metrics(LANG::Tsx, "function main() {
              var a, b, c, avg;
              a = 5; b = 5; c = 5;
              avg = (a + b + c) / 3;
              console.log(\"{}\", avg);
            }", "foo.ts", |metric| {
        // unique operators: function, (), {}, var, =, +, /, ,, ., ;
        // unique operands: main, a, b, c, avg, 3, 5, console.log, console, log, "{}"
        assert_eq!(number(metric.halstead.u_operators()), 10.0);
        assert_eq!(number(metric.halstead.operators()), 24.0);
        assert_eq!(number(metric.halstead.u_operands()), 11.0);
        assert_eq!(number(metric.halstead.operands()), 21.0);
        assert_eq!(wide(metric.halstead.length()), 45.0);
        assert_eq!(estimated_program_length(&metric.halstead), Some(71.27302875388389));
        assert_eq!(purity_ratio(&metric.halstead), Some(1.583845083419642));
        assert_eq!(wide(metric.halstead.vocabulary()), 21.0);
        assert_eq!(volume(&metric.halstead), Some(197.65428402504423));
        assert_eq!(value(metric.halstead.difficulty()), Some(9.545454545454545));
        assert_eq!(value(metric.halstead.level()), Some(0.10476190476190476));
        assert_eq!(effort(&metric.halstead), Some(1886.699983875422));
        assert_eq!(time(&metric.halstead), Some(104.81666577085679));
        assert_eq!(bugs(&metric.halstead), Some(0.05089564733125986));
    });
}

#[test]
fn python_wrong_operators() {
    check_metrics(LANG::Python, "()[]{}", "foo.py", |metric| {
        assert_eq!(number(metric.halstead.u_operators()), 0.0);
        assert_eq!(number(metric.halstead.operators()), 0.0);
        assert_eq!(number(metric.halstead.u_operands()), 0.0);
        assert_eq!(number(metric.halstead.operands()), 0.0);
        assert_eq!(wide(metric.halstead.length()), 0.0);
        assert_eq!(estimated_program_length(&metric.halstead), None);
        assert_eq!(purity_ratio(&metric.halstead), None);
        assert_eq!(wide(metric.halstead.vocabulary()), 0.0);
        assert_eq!(volume(&metric.halstead), None);
        assert_eq!(value(metric.halstead.difficulty()), None);
        assert_eq!(value(metric.halstead.level()), None);
        assert_eq!(effort(&metric.halstead), None);
        assert_eq!(time(&metric.halstead), None);
        assert_eq!(bugs(&metric.halstead), None);
    });
}

#[test]
fn python_check_metrics() {
    check_metrics(LANG::Python, "def f():
                 pass", "foo.py", |metric| {
        assert_eq!(number(metric.halstead.u_operators()), 2.0);
        assert_eq!(number(metric.halstead.operators()), 2.0);
        assert_eq!(number(metric.halstead.u_operands()), 1.0);
        assert_eq!(number(metric.halstead.operands()), 1.0);
        assert_eq!(wide(metric.halstead.length()), 3.0);
        assert_eq!(estimated_program_length(&metric.halstead), Some(2.0));
        assert_eq!(purity_ratio(&metric.halstead), Some(0.6666666666666666));
        assert_eq!(wide(metric.halstead.vocabulary()), 3.0);
        assert_eq!(volume(&metric.halstead), Some(4.754887502163468));
        assert_eq!(value(metric.halstead.difficulty()), Some(1.0));
        assert_eq!(value(metric.halstead.level()), Some(1.0));
        assert_eq!(effort(&metric.halstead), Some(4.754887502163468));
        assert_eq!(time(&metric.halstead), Some(0.26416041678685936));
        assert_eq!(bugs(&metric.halstead), Some(0.0009425525573729414));
    });
}

#[test]
fn go_operators_and_operands() {
    check_metrics(LANG::Go, "package main

            func add(a, b int) int {
                return a + b
            }", "foo.go", |metric| {
        assert_eq!(number(metric.halstead.u_operators()), 7.0);
        assert_eq!(number(metric.halstead.operators()), 7.0);
        assert_eq!(number(metric.halstead.u_operands()), 3.0);
        assert_eq!(number(metric.halstead.operands()), 5.0);
        assert_eq!(wide(metric.halstead.length()), 12.0);
        assert_eq!(estimated_program_length(&metric.halstead), Some(24.406371956566698));
        assert_eq!(purity_ratio(&metric.halstead), Some(2.0338643297138916));
        assert_eq!(wide(metric.halstead.vocabulary()), 10.0);
        assert_eq!(volume(&metric.halstead), Some(39.86313713864835));
        assert_eq!(value(metric.halstead.difficulty()), Some(5.833333333333333));
        assert_eq!(value(metric.halstead.level()), Some(0.17142857142857143));
        assert_eq!(effort(&metric.halstead), Some(232.53496664211536));
        assert_eq!(time(&metric.halstead), Some(12.918609257895298));
        assert_eq!(bugs(&metric.halstead), Some(0.012604847345273484));
    });
}

#[test]
fn python_sloc() {
    check_metrics(LANG::Python, "

            a = 42

            ", "foo.py", |metric| {
        // Spaces: 1
        assert_eq!(number(metric.loc.sloc()), 1.0);
        assert_eq!(number(metric.loc.ploc()), 1.0);
        assert_eq!(number(metric.loc.lloc()), 1.0);
        assert_eq!(number(metric.loc.cloc()), 0.0);
        assert_eq!(signed(metric.loc.blank()), 0.0);
        assert_eq!(value(metric.loc.sloc_average()), Some(1.0));
        assert_eq!(value(metric.loc.ploc_average()), Some(1.0));
        assert_eq!(value(metric.loc.lloc_average()), Some(1.0));
        assert_eq!(value(metric.loc.cloc_average()), Some(0.0));
        assert_eq!(signed_value(metric.loc.blank_average()), Some(0.0));
        assert_eq!(min_of(metric.loc.sloc_min()), Some(1.0));
        assert_eq!(number(metric.loc.sloc_max()), 1.0);
        assert_eq!(min_of(metric.loc.cloc_min()), Some(0.0));
        assert_eq!(number(metric.loc.cloc_max()), 0.0);
        assert_eq!(min_of(metric.loc.ploc_min()), Some(1.0));
        assert_eq!(number(metric.loc.ploc_max()), 1.0);
        assert_eq!(min_of(metric.loc.lloc_min()), Some(1.0));
        assert_eq!(number(metric.loc.lloc_max()), 1.0);
        assert_eq!(min_of(metric.loc.blank_min()), Some(0.0));
        assert_eq!(number(metric.loc.blank_max()), 0.0);
    });
}

#[test]
fn python_blank() {
    check_metrics(LANG::Python, "
            a = 42

            b = 43

            ", "foo.py", |metric| {
        // Spaces: 1
        assert_eq!(number(metric.loc.sloc()), 3.0);
        assert_eq!(number(metric.loc.ploc()), 2.0);
        assert_eq!(number(metric.loc.lloc()), 2.0);
        assert_eq!(number(metric.loc.cloc()), 0.0);
        assert_eq!(signed(metric.loc.blank()), 1.0);
        assert_eq!(value(metric.loc.sloc_average()), Some(3.0));
        assert_eq!(value(metric.loc.ploc_average()), Some(2.0));
        assert_eq!(value(metric.loc.lloc_average()), Some(2.0));
        assert_eq!(value(metric.loc.cloc_average()), Some(0.0));
        assert_eq!(signed_value(metric.loc.blank_average()), Some(1.0));
        assert_eq!(min_of(metric.loc.sloc_min()), Some(3.0));
        assert_eq!(number(metric.loc.sloc_max()), 3.0);
        assert_eq!(min_of(metric.loc.cloc_min()), Some(0.0));
        assert_eq!(number(metric.loc.cloc_max()), 0.0);
        assert_eq!(min_of(metric.loc.ploc_min()), Some(2.0));
        assert_eq!(number(metric.loc.ploc_max()), 2.0);
        assert_eq!(min_of(metric.loc.lloc_min()), Some(2.0));
        assert_eq!(number(metric.loc.lloc_max()), 2.0);
        assert_eq!(min_of(metric.loc.blank_min()), Some(1.0));
        assert_eq!(number(metric.loc.blank_max()), 1.0);
    });
}

#[test]
fn rust_blank() {
    check_metrics(LANG::Rust, "

            let a = 42;

            let b = 43;

            ", "foo.rs", |metric| {
        // Spaces: 1
        assert_eq!(number(metric.loc.sloc()), 3.0);
        assert_eq!(number(metric.loc.ploc()), 2.0);
        assert_eq!(number(metric.loc.lloc()), 2.0);
        assert_eq!(number(metric.loc.cloc()), 0.0);
        assert_eq!(signed(metric.loc.blank()), 1.0);
        assert_eq!(value(metric.loc.sloc_average()), Some(3.0));
        assert_eq!(value(metric.loc.ploc_average()), Some(2.0));
        assert_eq!(value(metric.loc.lloc_average()), Some(2.0));
        assert_eq!(value(metric.loc.cloc_average()), Some(0.0));
        assert_eq!(signed_value(metric.loc.blank_average()), Some(1.0));
        assert_eq!(min_of(metric.loc.sloc_min()), Some(3.0));
        assert_eq!(number(metric.loc.sloc_max()), 3.0);
        assert_eq!(min_of(metric.loc.cloc_min()), Some(0.0));
        assert_eq!(number(metric.loc.cloc_max()), 0.0);
        assert_eq!(min_of(metric.loc.ploc_min()), Some(2.0));
        assert_eq!(number(metric.loc.ploc_max()), 2.0);
        assert_eq!(min_of(metric.loc.lloc_min()), Some(2.0));
        assert_eq!(number(metric.loc.lloc_max()), 2.0);
        assert_eq!(min_of(metric.loc.blank_min()), Some(1.0));
        assert_eq!(number(metric.loc.blank_max()), 1.0);
    });
    check_metrics(LANG::Rust, "fn func() { /* comment */ }", "foo.rs", |metric| {
        // Spaces: 2
        assert_eq!(number(metric.loc.sloc()), 1.0);
        assert_eq!(number(metric.loc.ploc()), 1.0);
        assert_eq!(number(metric.loc.lloc()), 0.0);
        assert_eq!(number(metric.loc.cloc()), 1.0);
        assert_eq!(signed(metric.loc.blank()), 0.0);
        assert_eq!(value(metric.loc.sloc_average()), Some(0.5));
        assert_eq!(value(metric.loc.ploc_average()), Some(0.5));
        assert_eq!(value(metric.loc.lloc_average()), Some(0.0));
        assert_eq!(value(metric.loc.cloc_average()), Some(0.5));
        assert_eq!(signed_value(metric.loc.blank_average()), Some(0.0));
        assert_eq!(min_of(metric.loc.sloc_min()), Some(1.0));
        assert_eq!(number(metric.loc.sloc_max()), 1.0);
        assert_eq!(min_of(metric.loc.cloc_min()), Some(1.0));
        assert_eq!(number(metric.loc.cloc_max()), 1.0);
        assert_eq!(min_of(metric.loc.ploc_min()), Some(1.0));
        assert_eq!(number(metric.loc.ploc_max()), 1.0);
        assert_eq!(min_of(metric.loc.lloc_min()), Some(0.0));
        assert_eq!(number(metric.loc.lloc_max()), 0.0);
        assert_eq!(min_of(metric.loc.blank_min()), Some(0.0));
        assert_eq!(number(metric.loc.blank_max()), 0.0);
    });
}

#[test]
fn python_no_zero_blank() {
    check_metrics(LANG::Python, "def ConnectToUpdateServer():
                 pool = 4

                 updateServer = -42
                 isConnected = False
                 currTry = 0
                 numRetries = 10 # Number of IPC connection retries before
                                 # giving up.
                 numTries = 20 # Number of IPC connection tries before
                               # giving up.", "foo.py", |metric| {
        // Spaces: 2
        assert_eq!(number(metric.loc.sloc()), 10.0);
        assert_eq!(number(metric.loc.ploc()), 7.0);
        assert_eq!(number(metric.loc.lloc()), 6.0);
        assert_eq!(number(metric.loc.cloc()), 4.0);
        assert_eq!(signed(metric.loc.blank()), 1.0);
        assert_eq!(value(metric.loc.sloc_average()), Some(5.0));
        assert_eq!(value(metric.loc.ploc_average()), Some(3.5));
        assert_eq!(value(metric.loc.lloc_average()), Some(3.0));
        assert_eq!(value(metric.loc.cloc_average()), Some(2.0));
        assert_eq!(signed_value(metric.loc.blank_average()), Some(0.5));
        assert_eq!(min_of(metric.loc.sloc_min()), Some(10.0));
        assert_eq!(number(metric.loc.sloc_max()), 10.0);
        assert_eq!(min_of(metric.loc.cloc_min()), Some(4.0));
        assert_eq!(number(metric.loc.cloc_max()), 4.0);
        assert_eq!(min_of(metric.loc.ploc_min()), Some(7.0));
        assert_eq!(number(metric.loc.ploc_max()), 7.0);
        assert_eq!(min_of(metric.loc.lloc_min()), Some(6.0));
        assert_eq!(number(metric.loc.lloc_max()), 6.0);
        assert_eq!(min_of(metric.loc.blank_min()), Some(1.0));
        assert_eq!(number(metric.loc.blank_max()), 1.0);
    });
}

#[test]
fn python_no_blank() {
    check_metrics(LANG::Python, "def ConnectToUpdateServer():
                 pool = 4
                 updateServer = -42
                 isConnected = False
                 currTry = 0
                 numRetries = 10 # Number of IPC connection retries before
                                 # giving up.
                 numTries = 20 # Number of IPC connection tries before
                               # giving up.", "foo.py", |metric| {
        // Spaces: 2
        assert_eq!(number(metric.loc.sloc()), 9.0);
        assert_eq!(number(metric.loc.ploc()), 7.0);
        assert_eq!(number(metric.loc.lloc()), 6.0);
        assert_eq!(number(metric.loc.cloc()), 4.0);
        assert_eq!(signed(metric.loc.blank()), 0.0);
        assert_eq!(value(metric.loc.sloc_average()), Some(4.5));
        assert_eq!(value(metric.loc.ploc_average()), Some(3.5));
        assert_eq!(value(metric.loc.lloc_average()), Some(3.0));
        assert_eq!(value(metric.loc.cloc_average()), Some(2.0));
        assert_eq!(signed_value(metric.loc.blank_average()), Some(0.0));
        assert_eq!(min_of(metric.loc.sloc_min()), Some(9.0));
        assert_eq!(number(metric.loc.sloc_max()), 9.0);
        assert_eq!(min_of(metric.loc.cloc_min()), Some(4.0));
        assert_eq!(number(metric.loc.cloc_max()), 4.0);
        assert_eq!(min_of(metric.loc.ploc_min()), Some(7.0));
        assert_eq!(number(metric.loc.ploc_max()), 7.0);
        assert_eq!(min_of(metric.loc.lloc_min()), Some(6.0));
        assert_eq!(number(metric.loc.lloc_max()), 6.0);
        assert_eq!(min_of(metric.loc.blank_min()), Some(0.0));
        assert_eq!(number(metric.loc.blank_max()), 0.0);
    });
}

#[test]
fn python_no_zero_blank_more_comments() {
    check_metrics(LANG::Python, "def ConnectToUpdateServer():
                 pool = 4

                 updateServer = -42
                 isConnected = False
                 currTry = 0 # Set this variable to 0
                 numRetries = 10 # Number of IPC connection retries before
                                 # giving up.
                 numTries = 20 # Number of IPC connection tries before
                               # giving up.", "foo.py", |metric| {
        // Spaces: 2
        assert_eq!(number(metric.loc.sloc()), 10.0);
        assert_eq!(number(metric.loc.ploc()), 7.0);
        assert_eq!(number(metric.loc.lloc()), 6.0);
        assert_eq!(number(metric.loc.cloc()), 5.0);
        assert_eq!(signed(metric.loc.blank()), 1.0);
        assert_eq!(value(metric.loc.sloc_average()), Some(5.0));
        assert_eq!(value(metric.loc.ploc_average()), Some(3.5));
        assert_eq!(value(metric.loc.lloc_average()), Some(3.0));
        assert_eq!(value(metric.loc.cloc_average()), Some(2.5));
        assert_eq!(signed_value(metric.loc.blank_average()), Some(0.5));
        assert_eq!(min_of(metric.loc.sloc_min()), Some(10.0));
        assert_eq!(number(metric.loc.sloc_max()), 10.0);
        assert_eq!(min_of(metric.loc.cloc_min()), Some(5.0));
        assert_eq!(number(metric.loc.cloc_max()), 5.0);
        assert_eq!(min_of(metric.loc.ploc_min()), Some(7.0));
        assert_eq!(number(metric.loc.ploc_max()), 7.0);
        assert_eq!(min_of(metric.loc.lloc_min()), Some(6.0));
        assert_eq!(number(metric.loc.lloc_max()), 6.0);
        assert_eq!(min_of(metric.loc.blank_min()), Some(1.0));
        assert_eq!(number(metric.loc.blank_max()), 1.0);
    });
}

#[test]
fn rust_no_zero_blank() {
    check_metrics(LANG::Rust, "fn ConnectToUpdateServer() {
              let pool = 0;

              let updateServer = -42;
              let isConnected = false;
              let currTry = 0;
              let numRetries = 10;  // Number of IPC connection retries before
                                    // giving up.
              let numTries = 20;    // Number of IPC connection tries before
                                    // giving up.
            }", "foo.rs", |metric| {
        // Spaces: 2
        assert_eq!(number(metric.loc.sloc()), 11.0);
        assert_eq!(number(metric.loc.ploc()), 8.0);
        assert_eq!(number(metric.loc.lloc()), 6.0);
        assert_eq!(number(metric.loc.cloc()), 4.0);
        assert_eq!(signed(metric.loc.blank()), 1.0);
        assert_eq!(value(metric.loc.sloc_average()), Some(5.5));
        assert_eq!(value(metric.loc.ploc_average()), Some(4.0));
        assert_eq!(value(metric.loc.lloc_average()), Some(3.0));
        assert_eq!(value(metric.loc.cloc_average()), Some(2.0));
        assert_eq!(signed_value(metric.loc.blank_average()), Some(0.5));
        assert_eq!(min_of(metric.loc.sloc_min()), Some(11.0));
        assert_eq!(number(metric.loc.sloc_max()), 11.0);
        assert_eq!(min_of(metric.loc.cloc_min()), Some(4.0));
        assert_eq!(number(metric.loc.cloc_max()), 4.0);
        assert_eq!(min_of(metric.loc.ploc_min()), Some(8.0));
        assert_eq!(number(metric.loc.ploc_max()), 8.0);
        assert_eq!(min_of(metric.loc.lloc_min()), Some(6.0));
        assert_eq!(number(metric.loc.lloc_max()), 6.0);
        assert_eq!(min_of(metric.loc.blank_min()), Some(1.0));
        assert_eq!(number(metric.loc.blank_max()), 1.0);
    });
}

#[test]
fn python_cloc() {
    check_metrics(LANG::Python, "\"\"\"Block comment
            Block comment
            \"\"\"
            # Line Comment
            a = 42 # Line Comment", "foo.py", |metric| {
        // Spaces: 1
        assert_eq!(number(metric.loc.sloc()), 5.0);
        assert_eq!(number(metric.loc.ploc()), 1.0);
        assert_eq!(number(metric.loc.lloc()), 2.0);
        assert_eq!(number(metric.loc.cloc()), 5.0);
        assert_eq!(signed(metric.loc.blank()), 0.0);
        assert_eq!(value(metric.loc.sloc_average()), Some(5.0));
        assert_eq!(value(metric.loc.ploc_average()), Some(1.0));
        assert_eq!(value(metric.loc.lloc_average()), Some(2.0));
        assert_eq!(value(metric.loc.cloc_average()), Some(5.0));
        assert_eq!(signed_value(metric.loc.blank_average()), Some(0.0));
        assert_eq!(min_of(metric.loc.sloc_min()), Some(5.0));
        assert_eq!(number(metric.loc.sloc_max()), 5.0);
        assert_eq!(min_of(metric.loc.cloc_min()), Some(5.0));
        assert_eq!(number(metric.loc.cloc_max()), 5.0);
        assert_eq!(min_of(metric.loc.ploc_min()), Some(1.0));
        assert_eq!(number(metric.loc.ploc_max()), 1.0);
        assert_eq!(min_of(metric.loc.lloc_min()), Some(2.0));
        assert_eq!(number(metric.loc.lloc_max()), 2.0);
        assert_eq!(min_of(metric.loc.blank_min()), Some(0.0));
        assert_eq!(number(metric.loc.blank_max()), 0.0);
    });
}

#[test]
fn rust_cloc() {
    check_metrics(LANG::Rust, "/*Block comment
            Block Comment*/
            //Line Comment
            /*Block Comment*/ let a = 42; // Line Comment", "foo.rs", |metric| {
        // Spaces: 1
        assert_eq!(number(metric.loc.sloc()), 4.0);
        assert_eq!(number(metric.loc.ploc()), 1.0);
        assert_eq!(number(metric.loc.lloc()), 1.0);
        assert_eq!(number(metric.loc.cloc()), 5.0);
        assert_eq!(signed(metric.loc.blank()), 0.0);
        assert_eq!(value(metric.loc.sloc_average()), Some(4.0));
        assert_eq!(value(metric.loc.ploc_average()), Some(1.0));
        assert_eq!(value(metric.loc.lloc_average()), Some(1.0));
        assert_eq!(value(metric.loc.cloc_average()), Some(5.0));
        assert_eq!(signed_value(metric.loc.blank_average()), Some(0.0));
        assert_eq!(min_of(metric.loc.sloc_min()), Some(4.0));
        assert_eq!(number(metric.loc.sloc_max()), 4.0);
        assert_eq!(min_of(metric.loc.cloc_min()), Some(5.0));
        assert_eq!(number(metric.loc.cloc_max()), 5.0);
        assert_eq!(min_of(metric.loc.ploc_min()), Some(1.0));
        assert_eq!(number(metric.loc.ploc_max()), 1.0);
        assert_eq!(min_of(metric.loc.lloc_min()), Some(1.0));
        assert_eq!(number(metric.loc.lloc_max()), 1.0);
        assert_eq!(min_of(metric.loc.blank_min()), Some(0.0));
        assert_eq!(number(metric.loc.blank_max()), 0.0);
    });
}

#[test]
fn python_lloc() {
    check_metrics(LANG::Python, "for x in range(0,42):
                if x % 2 == 0:
                    print(x)", "foo.py", |metric| {
        // Spaces: 1
        assert_eq!(number(metric.loc.sloc()), 3.0);
        assert_eq!(number(metric.loc.ploc()), 3.0);
        assert_eq!(number(metric.loc.lloc()), 3.0);
        assert_eq!(number(metric.loc.cloc()), 0.0);
        assert_eq!(signed(metric.loc.blank()), 0.0);
        assert_eq!(value(metric.loc.sloc_average()), Some(3.0));
        assert_eq!(value(metric.loc.ploc_average()), Some(3.0));
        assert_eq!(value(metric.loc.lloc_average()), Some(3.0));
        assert_eq!(value(metric.loc.cloc_average()), Some(0.0));
        assert_eq!(signed_value(metric.loc.blank_average()), Some(0.0));
        assert_eq!(min_of(metric.loc.sloc_min()), Some(3.0));
        assert_eq!(number(metric.loc.sloc_max()), 3.0);
        assert_eq!(min_of(metric.loc.cloc_min()), Some(0.0));
        assert_eq!(number(metric.loc.cloc_max()), 0.0);
        assert_eq!(min_of(metric.loc.ploc_min()), Some(3.0));
        assert_eq!(number(metric.loc.ploc_max()), 3.0);
        assert_eq!(min_of(metric.loc.lloc_min()), Some(3.0));
        assert_eq!(number(metric.loc.lloc_max()), 3.0);
        assert_eq!(min_of(metric.loc.blank_min()), Some(0.0));
        assert_eq!(number(metric.loc.blank_max()), 0.0);
    });
}

#[test]
fn rust_lloc() {
    check_metrics(LANG::Rust, "for x in 0..42 {
                if x % 2 == 0 {
                    println!(\"{}\", x);
                }
             }", "foo.rs", |metric| {
        // Spaces: 1
        assert_eq!(number(metric.loc.sloc()), 5.0);
        assert_eq!(number(metric.loc.ploc()), 5.0);
        assert_eq!(number(metric.loc.lloc()), 3.0);
        assert_eq!(number(metric.loc.cloc()), 0.0);
        assert_eq!(signed(metric.loc.blank()), 0.0);
        assert_eq!(value(metric.loc.sloc_average()), Some(5.0));
        assert_eq!(value(metric.loc.ploc_average()), Some(5.0));
        assert_eq!(value(metric.loc.lloc_average()), Some(3.0));
        assert_eq!(value(metric.loc.cloc_average()), Some(0.0));
        assert_eq!(signed_value(metric.loc.blank_average()), Some(0.0));
        assert_eq!(min_of(metric.loc.sloc_min()), Some(5.0));
        assert_eq!(number(metric.loc.sloc_max()), 5.0);
        assert_eq!(min_of(metric.loc.cloc_min()), Some(0.0));
        assert_eq!(number(metric.loc.cloc_max()), 0.0);
        assert_eq!(min_of(metric.loc.ploc_min()), Some(5.0));
        assert_eq!(number(metric.loc.ploc_max()), 5.0);
        assert_eq!(min_of(metric.loc.lloc_min()), Some(3.0));
        assert_eq!(number(metric.loc.lloc_max()), 3.0);
        assert_eq!(min_of(metric.loc.blank_min()), Some(0.0));
        assert_eq!(number(metric.loc.blank_max()), 0.0);
    });
    check_metrics(LANG::Rust, "let a = 42;
             if true {
                42
             } else {
                43
             };", "foo.rs", |metric| {
        // Spaces: 1
        assert_eq!(number(metric.loc.sloc()), 6.0);
        assert_eq!(number(metric.loc.ploc()), 6.0);
        assert_eq!(number(metric.loc.lloc()), 3.0);
        assert_eq!(number(metric.loc.cloc()), 0.0);
        assert_eq!(signed(metric.loc.blank()), 0.0);
        assert_eq!(value(metric.loc.sloc_average()), Some(6.0));
        assert_eq!(value(metric.loc.ploc_average()), Some(6.0));
        assert_eq!(value(metric.loc.lloc_average()), Some(3.0));
        assert_eq!(value(metric.loc.cloc_average()), Some(0.0));
        assert_eq!(signed_value(metric.loc.blank_average()), Some(0.0));
        assert_eq!(min_of(metric.loc.sloc_min()), Some(6.0));
        assert_eq!(number(metric.loc.sloc_max()), 6.0);
        assert_eq!(min_of(metric.loc.cloc_min()), Some(0.0));
        assert_eq!(number(metric.loc.cloc_max()), 0.0);
        assert_eq!(min_of(metric.loc.ploc_min()), Some(6.0));
        assert_eq!(number(metric.loc.ploc_max()), 6.0);
        assert_eq!(min_of(metric.loc.lloc_min()), Some(3.0));
        assert_eq!(number(metric.loc.lloc_max()), 3.0);
        assert_eq!(min_of(metric.loc.blank_min()), Some(0.0));
        assert_eq!(number(metric.loc.blank_max()), 0.0);
    });
}

#[test]
fn python_string_on_new_line() {
    check_metrics(LANG::Python, "capabilities[\"goog:chromeOptions\"][\"androidPackage\"] = \\
                \"org.chromium.weblayer.shell\"", "foo.py", |metric| {
        // Spaces: 1
        assert_eq!(number(metric.loc.sloc()), 2.0);
        assert_eq!(number(metric.loc.ploc()), 2.0);
        assert_eq!(number(metric.loc.lloc()), 1.0);
        assert_eq!(number(metric.loc.cloc()), 0.0);
        assert_eq!(signed(metric.loc.blank()), 0.0);
        assert_eq!(value(metric.loc.sloc_average()), Some(2.0));
        assert_eq!(value(metric.loc.ploc_average()), Some(2.0));
        assert_eq!(value(metric.loc.lloc_average()), Some(1.0));
        assert_eq!(value(metric.loc.cloc_average()), Some(0.0));
        assert_eq!(signed_value(metric.loc.blank_average()), Some(0.0));
        assert_eq!(min_of(metric.loc.sloc_min()), Some(2.0));
        assert_eq!(number(metric.loc.sloc_max()), 2.0);
        assert_eq!(min_of(metric.loc.cloc_min()), Some(0.0));
        assert_eq!(number(metric.loc.cloc_max()), 0.0);
        assert_eq!(min_of(metric.loc.ploc_min()), Some(2.0));
        assert_eq!(number(metric.loc.ploc_max()), 2.0);
        assert_eq!(min_of(metric.loc.lloc_min()), Some(1.0));
        assert_eq!(number(metric.loc.lloc_max()), 1.0);
        assert_eq!(min_of(metric.loc.blank_min()), Some(0.0));
        assert_eq!(number(metric.loc.blank_max()), 0.0);
    });
}

#[test]
fn rust_no_field_expression_lloc() {
    check_metrics(LANG::Rust, "struct Foo {
                field: usize,
             }
             let foo = Foo { 42 };
             foo.field;", "foo.rs", |metric| {
        // Spaces: 1
        assert_eq!(number(metric.loc.sloc()), 5.0);
        assert_eq!(number(metric.loc.ploc()), 5.0);
        assert_eq!(number(metric.loc.lloc()), 2.0);
        assert_eq!(number(metric.loc.cloc()), 0.0);
        assert_eq!(signed(metric.loc.blank()), 0.0);
        assert_eq!(value(metric.loc.sloc_average()), Some(5.0));
        assert_eq!(value(metric.loc.ploc_average()), Some(5.0));
        assert_eq!(value(metric.loc.lloc_average()), Some(2.0));
        assert_eq!(value(metric.loc.cloc_average()), Some(0.0));
        assert_eq!(signed_value(metric.loc.blank_average()), Some(0.0));
        assert_eq!(min_of(metric.loc.sloc_min()), Some(5.0));
        assert_eq!(number(metric.loc.sloc_max()), 5.0);
        assert_eq!(min_of(metric.loc.cloc_min()), Some(0.0));
        assert_eq!(number(metric.loc.cloc_max()), 0.0);
        assert_eq!(min_of(metric.loc.ploc_min()), Some(5.0));
        assert_eq!(number(metric.loc.ploc_max()), 5.0);
        assert_eq!(min_of(metric.loc.lloc_min()), Some(2.0));
        assert_eq!(number(metric.loc.lloc_max()), 2.0);
        assert_eq!(min_of(metric.loc.blank_min()), Some(0.0));
        assert_eq!(number(metric.loc.blank_max()), 0.0);
    });
}

#[test]
fn rust_no_parenthesized_expression_lloc() {
    check_metrics(LANG::Rust, "let a = (42 + 0);", "foo.rs", |metric| {
        // Spaces: 1
        assert_eq!(number(metric.loc.sloc()), 1.0);
        assert_eq!(number(metric.loc.ploc()), 1.0);
        assert_eq!(number(metric.loc.lloc()), 1.0);
        assert_eq!(number(metric.loc.cloc()), 0.0);
        assert_eq!(signed(metric.loc.blank()), 0.0);
        assert_eq!(value(metric.loc.sloc_average()), Some(1.0));
        assert_eq!(value(metric.loc.ploc_average()), Some(1.0));
        assert_eq!(value(metric.loc.lloc_average()), Some(1.0));
        assert_eq!(value(metric.loc.cloc_average()), Some(0.0));
        assert_eq!(signed_value(metric.loc.blank_average()), Some(0.0));
        assert_eq!(min_of(metric.loc.sloc_min()), Some(1.0));
        assert_eq!(number(metric.loc.sloc_max()), 1.0);
        assert_eq!(min_of(metric.loc.cloc_min()), Some(0.0));
        assert_eq!(number(metric.loc.cloc_max()), 0.0);
        assert_eq!(min_of(metric.loc.ploc_min()), Some(1.0));
        assert_eq!(number(metric.loc.ploc_max()), 1.0);
        assert_eq!(min_of(metric.loc.lloc_min()), Some(1.0));
        assert_eq!(number(metric.loc.lloc_max()), 1.0);
        assert_eq!(min_of(metric.loc.blank_min()), Some(0.0));
        assert_eq!(number(metric.loc.blank_max()), 0.0);
    });
}

#[test]
fn rust_no_array_expression_lloc() {
    check_metrics(LANG::Rust, "let a = [0; 42];", "foo.rs", |metric| {
        // Spaces: 1
        assert_eq!(number(metric.loc.sloc()), 1.0);
        assert_eq!(number(metric.loc.ploc()), 1.0);
        assert_eq!(number(metric.loc.lloc()), 1.0);
        assert_eq!(number(metric.loc.cloc()), 0.0);
        assert_eq!(signed(metric.loc.blank()), 0.0);
        assert_eq!(value(metric.loc.sloc_average()), Some(1.0));
        assert_eq!(value(metric.loc.ploc_average()), Some(1.0));
        assert_eq!(value(metric.loc.lloc_average()), Some(1.0));
        assert_eq!(value(metric.loc.cloc_average()), Some(0.0));
        assert_eq!(signed_value(metric.loc.blank_average()), Some(0.0));
        assert_eq!(min_of(metric.loc.sloc_min()), Some(1.0));
        assert_eq!(number(metric.loc.sloc_max()), 1.0);
        assert_eq!(min_of(metric.loc.cloc_min()), Some(0.0));
        assert_eq!(number(metric.loc.cloc_max()), 0.0);
        assert_eq!(min_of(metric.loc.ploc_min()), Some(1.0));
        assert_eq!(number(metric.loc.ploc_max()), 1.0);
        assert_eq!(min_of(metric.loc.lloc_min()), Some(1.0));
        assert_eq!(number(metric.loc.lloc_max()), 1.0);
        assert_eq!(min_of(metric.loc.blank_min()), Some(0.0));
        assert_eq!(number(metric.loc.blank_max()), 0.0);
    });
}

#[test]
fn rust_no_tuple_expression_lloc() {
    check_metrics(LANG::Rust, "let a = (0, 42);", "foo.rs", |metric| {
        // Spaces: 1
        assert_eq!(number(metric.loc.sloc()), 1.0);
        assert_eq!(number(metric.loc.ploc()), 1.0);
        assert_eq!(number(metric.loc.lloc()), 1.0);
        assert_eq!(number(metric.loc.cloc()), 0.0);
        assert_eq!(signed(metric.loc.blank()), 0.0);
        assert_eq!(value(metric.loc.sloc_average()), Some(1.0));
        assert_eq!(value(metric.loc.ploc_average()), Some(1.0));
        assert_eq!(value(metric.loc.lloc_average()), Some(1.0));
        assert_eq!(value(metric.loc.cloc_average()), Some(0.0));
        assert_eq!(signed_value(metric.loc.blank_average()), Some(0.0));
        assert_eq!(min_of(metric.loc.sloc_min()), Some(1.0));
        assert_eq!(number(metric.loc.sloc_max()), 1.0);
        assert_eq!(min_of(metric.loc.cloc_min()), Some(0.0));
        assert_eq!(number(metric.loc.cloc_max()), 0.0);
        assert_eq!(min_of(metric.loc.ploc_min()), Some(1.0));
        assert_eq!(number(metric.loc.ploc_max()), 1.0);
        assert_eq!(min_of(metric.loc.lloc_min()), Some(1.0));
        assert_eq!(number(metric.loc.lloc_max()), 1.0);
        assert_eq!(min_of(metric.loc.blank_min()), Some(0.0));
        assert_eq!(number(metric.loc.blank_max()), 0.0);
    });
}

#[test]
fn rust_no_unit_expression_lloc() {
    check_metrics(LANG::Rust, "let a = ();", "foo.rs", |metric| {
        // Spaces: 1
        assert_eq!(number(metric.loc.sloc()), 1.0);
        assert_eq!(number(metric.loc.ploc()), 1.0);
        assert_eq!(number(metric.loc.lloc()), 1.0);
        assert_eq!(number(metric.loc.cloc()), 0.0);
        assert_eq!(signed(metric.loc.blank()), 0.0);
        assert_eq!(value(metric.loc.sloc_average()), Some(1.0));
        assert_eq!(value(metric.loc.ploc_average()), Some(1.0));
        assert_eq!(value(metric.loc.lloc_average()), Some(1.0));
        assert_eq!(value(metric.loc.cloc_average()), Some(0.0));
        assert_eq!(signed_value(metric.loc.blank_average()), Some(0.0));
        assert_eq!(min_of(metric.loc.sloc_min()), Some(1.0));
        assert_eq!(number(metric.loc.sloc_max()), 1.0);
        assert_eq!(min_of(metric.loc.cloc_min()), Some(0.0));
        assert_eq!(number(metric.loc.cloc_max()), 0.0);
        assert_eq!(min_of(metric.loc.ploc_min()), Some(1.0));
        assert_eq!(number(metric.loc.ploc_max()), 1.0);
        assert_eq!(min_of(metric.loc.lloc_min()), Some(1.0));
        assert_eq!(number(metric.loc.lloc_max()), 1.0);
        assert_eq!(min_of(metric.loc.blank_min()), Some(0.0));
        assert_eq!(number(metric.loc.blank_max()), 0.0);
    });
}

#[test]
fn rust_call_function_lloc() {
    check_metrics(LANG::Rust, "let a = foo(); // +1
             foo(); // +1
             k!(foo()); // +1", "foo.rs", |metric| {
        // Spaces: 1
        assert_eq!(number(metric.loc.sloc()), 3.0);
        assert_eq!(number(metric.loc.ploc()), 3.0);
        assert_eq!(number(metric.loc.lloc()), 3.0);
        assert_eq!(number(metric.loc.cloc()), 3.0);
        assert_eq!(signed(metric.loc.blank()), 0.0);
        assert_eq!(value(metric.loc.sloc_average()), Some(3.0));
        assert_eq!(value(metric.loc.ploc_average()), Some(3.0));
        assert_eq!(value(metric.loc.lloc_average()), Some(3.0));
        assert_eq!(value(metric.loc.cloc_average()), Some(3.0));
        assert_eq!(signed_value(metric.loc.blank_average()), Some(0.0));
        assert_eq!(min_of(metric.loc.sloc_min()), Some(3.0));
        assert_eq!(number(metric.loc.sloc_max()), 3.0);
        assert_eq!(min_of(metric.loc.cloc_min()), Some(3.0));
        assert_eq!(number(metric.loc.cloc_max()), 3.0);
        assert_eq!(min_of(metric.loc.ploc_min()), Some(3.0));
        assert_eq!(number(metric.loc.ploc_max()), 3.0);
        assert_eq!(min_of(metric.loc.lloc_min()), Some(3.0));
        assert_eq!(number(metric.loc.lloc_max()), 3.0);
        assert_eq!(min_of(metric.loc.blank_min()), Some(0.0));
        assert_eq!(number(metric.loc.blank_max()), 0.0);
    });
}

#[test]
fn rust_macro_invocation_lloc() {
    check_metrics(LANG::Rust, "let a = foo!(); // +1
             foo!(); // +1
             k(foo!()); // +1", "foo.rs", |metric| {
        // Spaces: 1
        assert_eq!(number(metric.loc.sloc()), 3.0);
        assert_eq!(number(metric.loc.ploc()), 3.0);
        assert_eq!(number(metric.loc.lloc()), 3.0);
        assert_eq!(number(metric.loc.cloc()), 3.0);
        assert_eq!(signed(metric.loc.blank()), 0.0);
        assert_eq!(value(metric.loc.sloc_average()), Some(3.0));
        assert_eq!(value(metric.loc.ploc_average()), Some(3.0));
        assert_eq!(value(metric.loc.lloc_average()), Some(3.0));
        assert_eq!(value(metric.loc.cloc_average()), Some(3.0));
        assert_eq!(signed_value(metric.loc.blank_average()), Some(0.0));
        assert_eq!(min_of(metric.loc.sloc_min()), Some(3.0));
        assert_eq!(number(metric.loc.sloc_max()), 3.0);
        assert_eq!(min_of(metric.loc.cloc_min()), Some(3.0));
        assert_eq!(number(metric.loc.cloc_max()), 3.0);
        assert_eq!(min_of(metric.loc.ploc_min()), Some(3.0));
        assert_eq!(number(metric.loc.ploc_max()), 3.0);
        assert_eq!(min_of(metric.loc.lloc_min()), Some(3.0));
        assert_eq!(number(metric.loc.lloc_max()), 3.0);
        assert_eq!(min_of(metric.loc.blank_min()), Some(0.0));
        assert_eq!(number(metric.loc.blank_max()), 0.0);
    });
}

#[test]
fn rust_function_in_loop_lloc() {
    check_metrics(LANG::Rust, "for (a, b) in c.iter().enumerate() {} // +1
             while (a, b) in c.iter().enumerate() {} // +1
             while let Some(a) = c.strip_prefix(\"hi\") {} // +1", "foo.rs", |metric| {
        // Spaces: 1
        assert_eq!(number(metric.loc.sloc()), 3.0);
        assert_eq!(number(metric.loc.ploc()), 3.0);
        assert_eq!(number(metric.loc.lloc()), 3.0);
        assert_eq!(number(metric.loc.cloc()), 3.0);
        assert_eq!(signed(metric.loc.blank()), 0.0);
        assert_eq!(value(metric.loc.sloc_average()), Some(3.0));
        assert_eq!(value(metric.loc.ploc_average()), Some(3.0));
        assert_eq!(value(metric.loc.lloc_average()), Some(3.0));
        assert_eq!(value(metric.loc.cloc_average()), Some(3.0));
        assert_eq!(signed_value(metric.loc.blank_average()), Some(0.0));
        assert_eq!(min_of(metric.loc.sloc_min()), Some(3.0));
        assert_eq!(number(metric.loc.sloc_max()), 3.0);
        assert_eq!(min_of(metric.loc.cloc_min()), Some(3.0));
        assert_eq!(number(metric.loc.cloc_max()), 3.0);
        assert_eq!(min_of(metric.loc.ploc_min()), Some(3.0));
        assert_eq!(number(metric.loc.ploc_max()), 3.0);
        assert_eq!(min_of(metric.loc.lloc_min()), Some(3.0));
        assert_eq!(number(metric.loc.lloc_max()), 3.0);
        assert_eq!(min_of(metric.loc.blank_min()), Some(0.0));
        assert_eq!(number(metric.loc.blank_max()), 0.0);
    });
}

#[test]
fn rust_function_in_if_lloc() {
    check_metrics(LANG::Rust, "if foo() {} // +1
             if let Some(a) = foo() {} // +1", "foo.rs", |metric| {
        // Spaces: 1
        assert_eq!(number(metric.loc.sloc()), 2.0);
        assert_eq!(number(metric.loc.ploc()), 2.0);
        assert_eq!(number(metric.loc.lloc()), 2.0);
        assert_eq!(number(metric.loc.cloc()), 2.0);
        assert_eq!(signed(metric.loc.blank()), 0.0);
        assert_eq!(value(metric.loc.sloc_average()), Some(2.0));
        assert_eq!(value(metric.loc.ploc_average()), Some(2.0));
        assert_eq!(value(metric.loc.lloc_average()), Some(2.0));
        assert_eq!(value(metric.loc.cloc_average()), Some(2.0));
        assert_eq!(signed_value(metric.loc.blank_average()), Some(0.0));
        assert_eq!(min_of(metric.loc.sloc_min()), Some(2.0));
        assert_eq!(number(metric.loc.sloc_max()), 2.0);
        assert_eq!(min_of(metric.loc.cloc_min()), Some(2.0));
        assert_eq!(number(metric.loc.cloc_max()), 2.0);
        assert_eq!(min_of(metric.loc.ploc_min()), Some(2.0));
        assert_eq!(number(metric.loc.ploc_max()), 2.0);
        assert_eq!(min_of(metric.loc.lloc_min()), Some(2.0));
        assert_eq!(number(metric.loc.lloc_max()), 2.0);
        assert_eq!(min_of(metric.loc.blank_min()), Some(0.0));
        assert_eq!(number(metric.loc.blank_max()), 0.0);
    });
}

#[test]
fn rust_function_in_return_lloc() {
    check_metrics(LANG::Rust, "return foo();
             await foo();", "foo.rs", |metric| {
        // Spaces: 1
        assert_eq!(number(metric.loc.sloc()), 2.0);
        assert_eq!(number(metric.loc.ploc()), 2.0);
        assert_eq!(number(metric.loc.lloc()), 2.0);
        assert_eq!(number(metric.loc.cloc()), 0.0);
        assert_eq!(signed(metric.loc.blank()), 0.0);
        assert_eq!(value(metric.loc.sloc_average()), Some(2.0));
        assert_eq!(value(metric.loc.ploc_average()), Some(2.0));
        assert_eq!(value(metric.loc.lloc_average()), Some(2.0));
        assert_eq!(value(metric.loc.cloc_average()), Some(0.0));
        assert_eq!(signed_value(metric.loc.blank_average()), Some(0.0));
        assert_eq!(min_of(metric.loc.sloc_min()), Some(2.0));
        assert_eq!(number(metric.loc.sloc_max()), 2.0);
        assert_eq!(min_of(metric.loc.cloc_min()), Some(0.0));
        assert_eq!(number(metric.loc.cloc_max()), 0.0);
        assert_eq!(min_of(metric.loc.ploc_min()), Some(2.0));
        assert_eq!(number(metric.loc.ploc_max()), 2.0);
        assert_eq!(min_of(metric.loc.lloc_min()), Some(2.0));
        assert_eq!(number(metric.loc.lloc_max()), 2.0);
        assert_eq!(min_of(metric.loc.blank_min()), Some(0.0));
        assert_eq!(number(metric.loc.blank_max()), 0.0);
    });
}

#[test]
fn rust_closure_expression_lloc() {
    check_metrics(LANG::Rust, "let a = |i: i32| -> i32 { i + 1 }; // +1
             a(42); // +1
             k(b.iter().map(|n| n.parse.ok().unwrap_or(42))); // +1", "foo.rs", |metric| {
        // Spaces: 3
        assert_eq!(number(metric.loc.sloc()), 3.0);
        assert_eq!(number(metric.loc.ploc()), 3.0);
        assert_eq!(number(metric.loc.lloc()), 3.0);
        assert_eq!(number(metric.loc.cloc()), 3.0);
        assert_eq!(signed(metric.loc.blank()), 0.0);
        assert_eq!(value(metric.loc.sloc_average()), Some(1.0));
        assert_eq!(value(metric.loc.ploc_average()), Some(1.0));
        assert_eq!(value(metric.loc.lloc_average()), Some(1.0));
        assert_eq!(value(metric.loc.cloc_average()), Some(1.0));
        assert_eq!(signed_value(metric.loc.blank_average()), Some(0.0));
        assert_eq!(min_of(metric.loc.sloc_min()), Some(1.0));
        assert_eq!(number(metric.loc.sloc_max()), 3.0);
        assert_eq!(min_of(metric.loc.cloc_min()), Some(0.0));
        assert_eq!(number(metric.loc.cloc_max()), 3.0);
        assert_eq!(min_of(metric.loc.ploc_min()), Some(1.0));
        assert_eq!(number(metric.loc.ploc_max()), 3.0);
        assert_eq!(min_of(metric.loc.lloc_min()), Some(0.0));
        assert_eq!(number(metric.loc.lloc_max()), 3.0);
        assert_eq!(min_of(metric.loc.blank_min()), Some(0.0));
        assert_eq!(number(metric.loc.blank_max()), 0.0);
    });
}

#[test]
fn python_general_loc() {
    check_metrics(LANG::Python, "def func(a,
                      b,
                      c):
                 print(a)
                 print(b)
                 print(c)", "foo.py", |metric| {
        // Spaces: 2
        assert_eq!(number(metric.loc.sloc()), 6.0);
        assert_eq!(number(metric.loc.ploc()), 6.0);
        assert_eq!(number(metric.loc.lloc()), 3.0);
        assert_eq!(number(metric.loc.cloc()), 0.0);
        assert_eq!(signed(metric.loc.blank()), 0.0);
        assert_eq!(value(metric.loc.sloc_average()), Some(3.0));
        assert_eq!(value(metric.loc.ploc_average()), Some(3.0));
        assert_eq!(value(metric.loc.lloc_average()), Some(1.5));
        assert_eq!(value(metric.loc.cloc_average()), Some(0.0));
        assert_eq!(signed_value(metric.loc.blank_average()), Some(0.0));
        assert_eq!(min_of(metric.loc.sloc_min()), Some(6.0));
        assert_eq!(number(metric.loc.sloc_max()), 6.0);
        assert_eq!(min_of(metric.loc.cloc_min()), Some(0.0));
        assert_eq!(number(metric.loc.cloc_max()), 0.0);
        assert_eq!(min_of(metric.loc.ploc_min()), Some(6.0));
        assert_eq!(number(metric.loc.ploc_max()), 6.0);
        assert_eq!(min_of(metric.loc.lloc_min()), Some(3.0));
        assert_eq!(number(metric.loc.lloc_max()), 3.0);
        assert_eq!(min_of(metric.loc.blank_min()), Some(0.0));
        assert_eq!(number(metric.loc.blank_max()), 0.0);
    });
}

#[test]
fn python_real_loc() {
    check_metrics(LANG::Python, "def web_socket_transfer_data(request):
                while True:
                    line = request.ws_stream.receive_message()
                    if line is None:
                        return
                    code, reason = line.split(' ', 1)
                    if code is None or reason is None:
                        return
                    request.ws_stream.close_connection(int(code), reason)
                    # close_connection() initiates closing handshake. It validates code
                    # and reason. If you want to send a broken close frame for a test,
                    # following code will be useful.
                    # > data = struct.pack('!H', int(code)) + reason.encode('UTF-8')
                    # > request.connection.write(stream.create_close_frame(data))
                    # > # Suppress to re-respond client responding close frame.
                    # > raise Exception(\"customized server initiated closing handshake\")", "foo.py", |metric| {
        // Spaces: 2
        assert_eq!(number(metric.loc.sloc()), 16.0);
        assert_eq!(number(metric.loc.ploc()), 9.0);
        assert_eq!(number(metric.loc.lloc()), 8.0);
        assert_eq!(number(metric.loc.cloc()), 7.0);
        assert_eq!(signed(metric.loc.blank()), 0.0);
        assert_eq!(value(metric.loc.sloc_average()), Some(8.0));
        assert_eq!(value(metric.loc.ploc_average()), Some(4.5));
        assert_eq!(value(metric.loc.lloc_average()), Some(4.0));
        assert_eq!(value(metric.loc.cloc_average()), Some(3.5));
        assert_eq!(signed_value(metric.loc.blank_average()), Some(0.0));
        assert_eq!(min_of(metric.loc.sloc_min()), Some(16.0));
        assert_eq!(number(metric.loc.sloc_max()), 16.0);
        assert_eq!(min_of(metric.loc.cloc_min()), Some(7.0));
        assert_eq!(number(metric.loc.cloc_max()), 7.0);
        assert_eq!(min_of(metric.loc.ploc_min()), Some(9.0));
        assert_eq!(number(metric.loc.ploc_max()), 9.0);
        assert_eq!(min_of(metric.loc.lloc_min()), Some(8.0));
        assert_eq!(number(metric.loc.lloc_max()), 8.0);
        assert_eq!(min_of(metric.loc.blank_min()), Some(0.0));
        assert_eq!(number(metric.loc.blank_max()), 0.0);
    });
}

#[test]
fn go_sloc() {
    check_metrics(LANG::Go, "package main

            // A comment
            func main() {
                x := 1
            }
            ", "foo.go", |metric| {
        assert_eq!(number(metric.loc.sloc()), 6.0);
        assert_eq!(number(metric.loc.ploc()), 4.0);
        assert_eq!(number(metric.loc.lloc()), 1.0);
        assert_eq!(number(metric.loc.cloc()), 1.0);
        assert_eq!(signed(metric.loc.blank()), 1.0);
        assert_eq!(value(metric.loc.sloc_average()), Some(3.0));
        assert_eq!(value(metric.loc.ploc_average()), Some(2.0));
        assert_eq!(value(metric.loc.lloc_average()), Some(0.5));
        assert_eq!(value(metric.loc.cloc_average()), Some(0.5));
        assert_eq!(signed_value(metric.loc.blank_average()), Some(0.5));
        assert_eq!(min_of(metric.loc.sloc_min()), Some(3.0));
        assert_eq!(number(metric.loc.sloc_max()), 6.0);
        assert_eq!(min_of(metric.loc.cloc_min()), Some(0.0));
        assert_eq!(number(metric.loc.cloc_max()), 1.0);
        assert_eq!(min_of(metric.loc.ploc_min()), Some(3.0));
        assert_eq!(number(metric.loc.ploc_max()), 4.0);
        assert_eq!(min_of(metric.loc.lloc_min()), Some(1.0));
        assert_eq!(number(metric.loc.lloc_max()), 1.0);
        assert_eq!(min_of(metric.loc.blank_min()), Some(0.0));
        assert_eq!(number(metric.loc.blank_max()), 1.0);
    });
}

#[test]
fn go_lloc() {
    check_metrics(LANG::Go, "package main

            func main() {
                x := 1
                y := 2
                if x > y {
                    return
                }
            }", "foo.go", |metric| {
        assert_eq!(number(metric.loc.sloc()), 9.0);
        assert_eq!(number(metric.loc.ploc()), 8.0);
        assert_eq!(number(metric.loc.lloc()), 4.0);
        assert_eq!(number(metric.loc.cloc()), 0.0);
        assert_eq!(signed(metric.loc.blank()), 1.0);
        assert_eq!(value(metric.loc.sloc_average()), Some(4.5));
        assert_eq!(value(metric.loc.ploc_average()), Some(4.0));
        assert_eq!(value(metric.loc.lloc_average()), Some(2.0));
        assert_eq!(value(metric.loc.cloc_average()), Some(0.0));
        assert_eq!(signed_value(metric.loc.blank_average()), Some(0.5));
        assert_eq!(min_of(metric.loc.sloc_min()), Some(7.0));
        assert_eq!(number(metric.loc.sloc_max()), 9.0);
        assert_eq!(min_of(metric.loc.cloc_min()), Some(0.0));
        assert_eq!(number(metric.loc.cloc_max()), 0.0);
        assert_eq!(min_of(metric.loc.ploc_min()), Some(7.0));
        assert_eq!(number(metric.loc.ploc_max()), 8.0);
        assert_eq!(min_of(metric.loc.lloc_min()), Some(4.0));
        assert_eq!(number(metric.loc.lloc_max()), 4.0);
        assert_eq!(min_of(metric.loc.blank_min()), Some(0.0));
        assert_eq!(number(metric.loc.blank_max()), 1.0);
    });
}

#[test]
fn python_nom() {
    check_metrics(LANG::Python, "def a():
                 pass
             def b():
                 pass
             def c():
                 pass
             x = lambda a : a + 42", "foo.py", |metric| {
        // Number of spaces = 4
        assert_eq!(number(metric.nom.functions_sum()), 3.0);
        assert_eq!(number(metric.nom.closures_sum()), 1.0);
        assert_eq!(value(metric.nom.functions_average()), Some(0.75));
        assert_eq!(value(metric.nom.closures_average()), Some(0.25));
        assert_eq!(wide(metric.nom.total()), 4.0);
        assert_eq!(value(metric.nom.average()), Some(1.0));
        assert_eq!(min_of(metric.nom.functions_min()), Some(0.0));
        assert_eq!(number(metric.nom.functions_max()), 1.0);
        assert_eq!(min_of(metric.nom.closures_min()), Some(0.0));
        assert_eq!(number(metric.nom.closures_max()), 1.0);
    });
}

#[test]
fn rust_nom() {
    check_metrics(LANG::Rust, "mod A { fn foo() {}}
             mod B { fn foo() {}}
             let closure = |i: i32| -> i32 { i + 42 };", "foo.rs", |metric| {
        // Number of spaces = 4
        assert_eq!(number(metric.nom.functions_sum()), 2.0);
        assert_eq!(number(metric.nom.closures_sum()), 1.0);
        assert_eq!(value(metric.nom.functions_average()), Some(0.5));
        assert_eq!(value(metric.nom.closures_average()), Some(0.25));
        assert_eq!(wide(metric.nom.total()), 3.0);
        assert_eq!(value(metric.nom.average()), Some(0.75));
        assert_eq!(min_of(metric.nom.functions_min()), Some(0.0));
        assert_eq!(number(metric.nom.functions_max()), 1.0);
        assert_eq!(min_of(metric.nom.closures_min()), Some(0.0));
        assert_eq!(number(metric.nom.closures_max()), 1.0);
    });
}

#[test]
fn blank_lines_are_source_lines_without_code_or_comment() {
    check_metrics(LANG::Python, "a = 1\n\nb = 2\n", "foo.py", |metric| {
        assert_eq!(metric.loc.sloc(), 3);
        assert_eq!(metric.loc.ploc(), 2);
        assert_eq!(metric.loc.blank(), 1);
    });
}

#[test]
fn anonymous_function_takes_the_name_of_its_variable() {
    check_func_space(LANG::Typescript, "const f = function() {}", "foo.ts", |space| {
        assert_eq!(space.spaces.len(), 1);
        assert_eq!(space.spaces[0].kind, SpaceKind::Function);
        assert_eq!(space.spaces[0].name.as_deref(), Some("f"));
        assert_eq!(space.spaces[0].display_name(), "f");
    });
}

#[test]
fn anonymous_function_takes_the_key_of_its_pair() {
    check_func_space(LANG::Tsx, "const o = { run: function() {} }", "foo.tsx", |space| {
        assert_eq!(space.spaces.len(), 1);
        assert_eq!(space.spaces[0].name.as_deref(), Some("run"));
    });
}

#[test]
fn function_without_a_name_is_shown_as_anonymous() {
    check_func_space(LANG::Typescript, "call(function() {})", "foo.ts", |space| {
        assert_eq!(space.spaces.len(), 1);
        assert_eq!(space.spaces[0].name, None);
        assert_eq!(space.spaces[0].display_name(), "<anonymous>");
    });
}

#[test]
fn rust_impl_is_named_by_its_type() {
    check_func_space(LANG::Rust, "impl Foo { fn bar() {} }", "foo.rs", |space| {
        assert_eq!(space.name.as_deref(), Some("foo.rs"));
        assert_eq!(space.kind, SpaceKind::Unit);
        assert_eq!(space.spaces.len(), 1);
        assert_eq!(space.spaces[0].kind, SpaceKind::Impl);
        assert_eq!(space.spaces[0].name.as_deref(), Some("Foo"));
        assert_eq!(space.spaces[0].spaces[0].name.as_deref(), Some("bar"));
        assert_eq!(space.spaces[0].spaces[0].start_line, 1);
        assert_eq!(space.spaces[0].spaces[0].end_line, 1);
    });
}

#[test]
fn method_of_a_class_counts_for_the_class_alone() {
    check_func_space(
        LANG::Python,
        "class A:\n    def f(self):\n        if a:\n            pass\ndef g():\n    def h():\n        if b:\n            pass\n",
        "foo.py",
        |space| {
            assert_eq!(space.spaces.len(), 2);
            let class = &space.spaces[0];
            assert_eq!(class.kind, SpaceKind::Class);
            assert_eq!(class.spaces[0].metrics.cyclomatic.cyclomatic_sum(), 2);
            assert_eq!(class.metrics.wmc.class_wmc(), 2);
            assert_eq!(class.metrics.wmc.class_wmc_sum(), 2);
            assert!(!class.metrics.wmc.is_disabled());
            let outer = &space.spaces[1];
            assert_eq!(outer.kind, SpaceKind::Function);
            assert_eq!(outer.metrics.wmc.class_wmc(), 0);
            assert_eq!(outer.metrics.wmc.class_wmc_sum(), 0);
            assert!(outer.metrics.wmc.is_disabled());
            assert_eq!(space.metrics.wmc.class_wmc(), 0);
            assert_eq!(space.metrics.wmc.class_wmc_sum(), 2);
            assert_eq!(space.metrics.wmc.interface_wmc_sum(), 0);
            assert_eq!(space.metrics.wmc.total_wmc(), 2);
        },
    );
}

#[test]
fn cyclomatic_of_a_file_and_its_function() {
    check_func_space(
        LANG::Python,
        "def f(a, b):\n    if a and b:\n        return 1\n    if c and d:\n        return 1",
        "foo.py",
        |space| {
            assert_eq!(space.metrics.cyclomatic.cyclomatic(), 1);
            assert_eq!(space.metrics.cyclomatic.cyclomatic_sum(), 6);
            assert_eq!(space.metrics.cyclomatic.cyclomatic_min(), Some(1));
            assert_eq!(space.metrics.cyclomatic.cyclomatic_max(), 5);
            assert_eq!(space.spaces.len(), 1);
            assert_eq!(space.spaces[0].metrics.cyclomatic.cyclomatic(), 5);
            assert_eq!(space.spaces[0].metrics.cyclomatic.cyclomatic_sum(), 5);
        },
    );
}

#[test]
fn scope_without_branches_has_complexity_one() {
    check_func_space(LANG::Go, "package main\n\nfunc f() {\n    x := 1\n}\n", "foo.go", |space| {
        assert_eq!(space.metrics.cyclomatic.cyclomatic(), 1);
        assert_eq!(space.spaces[0].metrics.cyclomatic.cyclomatic(), 1);
    });
}

#[test]
fn else_of_a_loop_is_a_branch_and_else_of_an_if_is_none() {
    check_metrics(LANG::Python, "for i in x:\n    pass\nelse:\n    pass\n", "foo.py", |metric| {
        // +1 unit, +1 for, +1 else
        assert_eq!(metric.cyclomatic.cyclomatic(), 3);
    });
    check_metrics(LANG::Python, "if a:\n    pass\nelse:\n    pass\n", "foo.py", |metric| {
        // +1 unit, +1 if
        assert_eq!(metric.cyclomatic.cyclomatic(), 2);
    });
}

fn sums_hold(space: &FuncSpace) {
    let m = &space.metrics;
    let inner = &space.spaces;
    assert_eq!(
        m.cyclomatic.cyclomatic_sum(),
        m.cyclomatic.cyclomatic()
            + inner.iter().map(|s| s.metrics.cyclomatic.cyclomatic_sum()).sum::<u64>()
    );
    assert_eq!(
        m.nexits.exit_sum(),
        m.nexits.exit() + inner.iter().map(|s| s.metrics.nexits.exit_sum()).sum::<u64>()
    );
    assert_eq!(
        m.nom.functions_sum(),
        m.nom.functions() + inner.iter().map(|s| s.metrics.nom.functions_sum()).sum::<u64>()
    );
    assert_eq!(
        m.nom.closures_sum(),
        m.nom.closures() + inner.iter().map(|s| s.metrics.nom.closures_sum()).sum::<u64>()
    );
    assert_eq!(
        m.wmc.class_wmc_sum(),
        m.wmc.class_wmc() + inner.iter().map(|s| s.metrics.wmc.class_wmc_sum()).sum::<u64>()
    );
    for s in inner {
        sums_hold(s);
    }
}

#[test]
fn every_sum_is_own_value_plus_sums_inside() {
    check_func_space(
        LANG::Python,
        "class A:\n    def f(self):\n        if a:\n            return 1\n        return lambda x: x\ndef g():\n    def h():\n        if b and c:\n            return 2\n    return h\n",
        "foo.py",
        |space| {
            assert_eq!(space.metrics.cyclomatic.cyclomatic_sum(), 8);
            assert_eq!(space.metrics.nexits.exit_sum(), 4);
            assert_eq!(space.metrics.nom.functions_sum(), 3);
            assert_eq!(space.metrics.nom.closures_sum(), 1);
            sums_hold(&space);
        },
    );
}

fn fingerprint(space: &FuncSpace) -> String {
    let m = &space.metrics;
    let mut lines: Vec<usize> = m.loc.ploc.lines.iter().copied().collect();
    lines.sort();
    let inner: Vec<String> = space.spaces.iter().map(fingerprint).collect();
    format!(
        "{:?} {:?} {} {} {:?} {:?} {:?} {:?} {:?} {:?} {:?} {:?} {:?} {:?} {:?} {} {:?} {:?} {:?}",
        space.name,
        space.kind,
        space.start_line,
        space.end_line,
        m.cyclomatic,
        m.halstead,
        m.nom,
        m.nexits,
        m.abc,
        m.npm,
        m.npa,
        m.wmc,
        m.loc.sloc,
        m.loc.cloc,
        m.loc.lloc,
        m.loc.space_count,
        (m.loc.ploc.ploc_min, m.loc.ploc.ploc_max, m.loc.blank_min, m.loc.blank_max),
        lines,
        inner
    )
}

#[test]
fn same_input_gives_the_same_tree() {
    let code = b"fn main() { let a = |x: u8| x + 1; if a(1) > 1 { return; } }\n".to_vec();
    let first = metrics(LANG::Rust, &parse(LANG::Rust, &code), &code, "foo.rs").unwrap();
    let second = metrics(LANG::Rust, &parse(LANG::Rust, &code), &code, "foo.rs").unwrap();
    assert_eq!(fingerprint(&first), fingerprint(&second));
    assert_eq!(first.spaces.len(), 1);
    assert_eq!(first.spaces[0].spaces.len(), 1);
}

#[test]
fn halstead_without_operands() {
    check_metrics(LANG::Python, "pass\n", "foo.py", |metric| {
        assert_eq!(metric.halstead.u_operators(), 1);
        assert_eq!(metric.halstead.operators(), 1);
        assert_eq!(metric.halstead.u_operands(), 0);
        assert_eq!(metric.halstead.operands(), 0);
        assert_eq!(metric.halstead.length(), 1);
        assert_eq!(metric.halstead.vocabulary(), 1);
        assert!(!metric.halstead.has_estimated_program_length());
        assert!(!metric.halstead.has_purity_ratio());
        assert!(metric.halstead.has_volume());
        assert!(!metric.halstead.has_effort());
        assert_eq!(metric.halstead.difficulty(), None);
        assert_eq!(metric.halstead.level(), None);
        assert_eq!(estimated_program_length(&metric.halstead), None);
        assert_eq!(purity_ratio(&metric.halstead), None);
        assert_eq!(volume(&metric.halstead), Some(0.0));
        assert_eq!(effort(&metric.halstead), None);
        assert_eq!(time(&metric.halstead), None);
        assert_eq!(bugs(&metric.halstead), None);
    });
}

#[test]
fn halstead_without_operators() {
    let s = HalsteadStats { u_operators: 0, operators: 0, u_operands: 2, operands: 3 };
    assert_eq!(s.length(), 3);
    assert_eq!(s.vocabulary(), 2);
    assert_eq!(estimated_program_length(&s), None);
    assert_eq!(volume(&s), Some(3.0));
    assert_eq!(s.difficulty(), Some(Ratio { num: 0, den: 4 }));
    assert_eq!(s.level(), None);
    assert_eq!(effort(&s), Some(0.0));
    let none = HalsteadStats::default();
    assert!(!none.has_estimated_program_length());
    assert!(!none.has_volume());
    assert!(!none.has_effort());
    assert_eq!(none.difficulty(), None);
    assert_eq!(none.level(), None);
    assert_eq!((none.length(), none.vocabulary()), (0, 0));
}

#[test]
fn halstead_difficulty_is_an_exact_quotient() {
    check_metrics(
        LANG::Rust,
        "fn main() {
              let a = 5; let b = 5; let c = 5;
              let avg = (a + b + c) / 3;
              println!(\"{}\", avg);
            }",
        "foo.rs",
        |metric| {
            assert_eq!(metric.halstead.difficulty(), Some(Ratio { num: 150, den: 18 }));
            assert_eq!(metric.halstead.level(), Some(Ratio { num: 18, den: 150 }));
        },
    );
}

#[test]
fn operand_that_is_no_text_is_passed_over() {
    let code = b"a = \"\xff\"\n".to_vec();
    let tree = parse(LANG::Python, &code);
    let space = metrics(LANG::Python, &tree, &code, "foo.py").unwrap();
    // `a` counts; the string, which is no well-formed UTF-8, does not
    assert_eq!(space.metrics.halstead.operands(), 1);
    assert_eq!(space.metrics.halstead.operators(), 1);
}

#[test]
fn tree_that_does_not_start_a_file_gives_no_scopes() {
    let nodes = vec![Node {
        kind_id: mehen::languages::language_python::IDENTIFIER,
        start_row: 0,
        end_row: 0,
        start_byte: 0,
        end_byte: 1,
        field: Field::Unnamed,
        parent: None,
        end: 1,
    }];
    let tree = Tree::new(nodes).unwrap();
    assert!(metrics(LANG::Python, &tree, b"a", "foo.py").is_none());
}

#[test]
fn malformed_node_lists_are_no_trees() {
    let node = Node {
        kind_id: 1,
        start_row: 0,
        end_row: 0,
        start_byte: 0,
        end_byte: 1,
        field: Field::Unnamed,
        parent: None,
        end: 1,
    };
    assert!(Tree::new(vec![]).is_none());
    assert!(Tree::new(vec![node]).is_some());
    // the root must span the whole list
    assert!(Tree::new(vec![node, Node { parent: Some(0), end: 2, ..node }]).is_none());
    let root = Node { end: 2, ..node };
    assert!(Tree::new(vec![root, Node { parent: Some(0), end: 2, ..node }]).is_some());
    // a child must name its parent
    assert!(Tree::new(vec![root, Node { parent: None, end: 2, ..node }]).is_none());
    // rows and bytes must be in order
    assert!(Tree::new(vec![Node { start_row: 1, ..node }]).is_none());
    assert!(Tree::new(vec![Node { start_byte: 2, ..node }]).is_none());
    let tree = Tree::new(vec![root, Node { parent: Some(0), end: 2, field: Field::Name, ..node }])
        .unwrap();
    assert_eq!(tree.len(), 2);
    assert!(tree.fits(1));
    assert!(!tree.fits(0));
    assert_eq!(tree.child_count(0), 1);
    assert_eq!(tree.child_count(1), 0);
    assert_eq!(tree.parent(1), Some(0));
    assert_eq!(tree.child_by_field(0, Field::Name), Some(1));
    assert_eq!(tree.child_by_field(0, Field::Key), None);
    assert!(tree.is_child(0, 1));
    assert!(!tree.is_child(0, 2));
}

#[test]
fn merge_gives_the_same_in_either_order() {
    let a = CyclomaticStats { cyclomatic_sum: 5, cyclomatic: 5, n: 1, cyclomatic_max: 5, cyclomatic_min: 5 };
    let b = CyclomaticStats { cyclomatic_sum: 3, cyclomatic: 2, n: 2, cyclomatic_max: 2, cyclomatic_min: 1 };
    let mut first = CyclomaticStats::default();
    first.merge(&a);
    first.merge(&b);
    let mut second = CyclomaticStats::default();
    second.merge(&b);
    second.merge(&a);
    assert_eq!(format!("{:?}", first), format!("{:?}", second));
    assert_eq!(first.cyclomatic_sum(), 8);
    assert_eq!(first.cyclomatic_min(), Some(1));
    assert_eq!(first.cyclomatic_max(), 5);
    assert_eq!(value(first.cyclomatic_average()), Some(2.0));
    let first_maps = || {
        let mut maps = mehen::metrics::halstead::HalsteadMaps::new();
        maps.record_operator(7);
        maps.record_operand(b"x");
        maps
    };
    let second_maps = || {
        let mut other = mehen::metrics::halstead::HalsteadMaps::new();
        other.record_operator(7);
        other.record_operator(8);
        other.record_operand(b"y");
        other
    };
    let mut left = first_maps();
    left.merge(&second_maps());
    let mut right = second_maps();
    right.merge(&first_maps());
    let mut l = HalsteadStats::default();
    let mut r = HalsteadStats::default();
    left.finalize(&mut l);
    right.finalize(&mut r);
    assert_eq!(format!("{:?}", l), format!("{:?}", r));
    assert_eq!((l.u_operators(), l.operators(), l.u_operands(), l.operands()), (2, 3, 2, 2));
}

#[test]
fn minimum_is_undefined_until_a_scope_is_sealed() {
    let stats = mehen::metrics::exit::Stats::default();
    assert_eq!(stats.exit_min(), None);
    assert_eq!(stats.exit_max(), 0);
    let mut sealed = stats;
    sealed.compute_minmax();
    assert_eq!(sealed.exit_min(), Some(0));
}

#[test]
fn interface_with_only_public_members_has_accessibility_one() {
    let mut s = NpaStats::default();
    s.interface_npa = 3;
    s.interface_na = 3;
    s.class_npa = 1;
    s.class_na = 4;
    s.compute_sum();
    assert_eq!(s.interface_cda(), Some(Ratio { num: 1, den: 1 }));
    assert_eq!(s.class_cda(), Some(Ratio { num: 1, den: 4 }));
    assert_eq!(s.total_cda(), Some(Ratio { num: 4, den: 7 }));
    assert_eq!(NpaStats::default().class_cda(), None);
    assert_eq!(NpaStats::default().interface_cda(), None);
    assert_eq!(NpaStats::default().total_cda(), None);
    assert!(NpaStats::default().is_disabled());
}

#[test]
fn operators_are_shown_by_their_text() {
    assert_eq!(get_operator_id_as_str(LANG::Rust, language_rust::LPAREN), "()");
    assert_eq!(get_operator_id_as_str(LANG::Rust, language_rust::LBRACK), "[]");
    assert_eq!(get_operator_id_as_str(LANG::Typescript, language_typescript::LBRACE), "{}");
    assert_eq!(get_operator_id_as_str(LANG::Rust, language_rust::PLUSEQ), "+=");
    assert_eq!(get_operator_id_as_str(LANG::Python, language_python::IF), "if");
    assert_eq!(get_operator_id_as_str(LANG::Rust, 65000), "");
}

#[test]
fn rust_doc_markers_are_no_operators() {
    check_metrics(LANG::Rust, "//! doc\n/// more\nfn f() {}\n", "foo.rs", |metric| {
        // fn, (), {}
        assert_eq!(metric.halstead.u_operators(), 3);
        assert_eq!(metric.halstead.operators(), 3);
        assert_eq!(metric.loc.cloc(), 2);
    });
}

#[test]
fn python_docstring_is_a_comment_and_no_operand() {
    check_metrics(LANG::Python, "def f():\n    \"\"\"doc\"\"\"\n    return \"x\"\n", "foo.py", |metric| {
        // f, "x"
        assert_eq!(metric.halstead.u_operands(), 2);
        assert_eq!(metric.loc.cloc(), 1);
    });
}

#[test]
fn function_spans_are_listed_in_source_order() {
    let code = b"def a():\n    pass\n\ndef b():\n    def c():\n        pass\n".to_vec();
    let tree = parse(LANG::Python, &code);
    let spans = mehen::function::function(LANG::Python, &tree, &code);
    let found: Vec<(String, usize, usize, bool)> =
        spans.into_iter().map(|s| (s.name, s.start_line, s.end_line, s.error)).collect();
    assert_eq!(
        found,
        vec![
            ("a".to_string(), 1, 2, false),
            ("b".to_string(), 4, 6, false),
            ("c".to_string(), 5, 6, false),
        ]
    );
}

#[test]
fn rust_function_with_return_type_has_an_exit() {
    check_metrics(LANG::Rust, "fn f() -> u8 { 1 }\nfn g() { }\n", "foo.rs", |metric| {
        assert_eq!(metric.nexits.exit_sum(), 1);
        assert_eq!(metric.nexits.exit_max(), 1);
        assert_eq!(metric.nexits.exit_min(), Some(0));
    });
}

#[test]
fn typescript_functions_and_closures() {
    check_func_space(
        LANG::Typescript,
        "function a() {}\nclass C { m() {} }\nconst f = () => 1;\nconst g = function() {};\nfunction* gen() {}\ninterface I { x: number }\n",
        "foo.ts",
        |space| {
            assert_eq!(space.metrics.nom.functions_sum(), 2);
            assert_eq!(space.metrics.nom.closures_sum(), 3);
            assert_eq!(space.metrics.nom.total(), 5);
            let kinds: Vec<SpaceKind> = space.spaces.iter().map(|s| s.kind).collect();
            assert_eq!(
                kinds,
                vec![
                    SpaceKind::Function,
                    SpaceKind::Class,
                    SpaceKind::Function,
                    SpaceKind::Function,
                    SpaceKind::Function,
                    SpaceKind::Interface,
                ]
            );
            assert_eq!(space.spaces[1].name.as_deref(), Some("C"));
            assert_eq!(space.spaces[1].spaces[0].name.as_deref(), Some("m"));
            assert_eq!(space.spaces[2].name.as_deref(), Some("f"));
            assert_eq!(space.spaces[3].name.as_deref(), Some("g"));
            assert_eq!(space.spaces[5].name.as_deref(), Some("I"));
            // the method of the class weighs on the class
            assert_eq!(space.spaces[1].metrics.wmc.class_wmc(), 1);
            assert_eq!(space.metrics.wmc.class_wmc_sum(), 1);
        },
    );
}

#[test]
fn rust_scopes_have_their_kinds() {
    check_func_space(
        LANG::Rust,
        "trait T { fn f(&self); }\nimpl T for u8 { fn f(&self) {} }\nfn g() { let c = || 1; }\n",
        "foo.rs",
        |space| {
            let kinds: Vec<SpaceKind> = space.spaces.iter().map(|s| s.kind).collect();
            assert_eq!(kinds, vec![SpaceKind::Trait, SpaceKind::Impl, SpaceKind::Function]);
            assert_eq!(space.spaces[0].name.as_deref(), Some("T"));
            assert_eq!(space.spaces[2].spaces.len(), 1);
            assert_eq!(space.spaces[2].spaces[0].name, None);
            assert_eq!(space.metrics.nom.functions_sum(), 2);
            assert_eq!(space.metrics.nom.closures_sum(), 1);
            assert_eq!(space.metrics.loc.sloc(), 3);
            assert_eq!(space.spaces[2].metrics.loc.sloc(), 1);
        },
    );
}

#[test]
fn comment_before_code_on_one_line_is_no_comment_line() {
    check_metrics(LANG::Rust, "/* a */ let x = 1;\n// b\nlet y = 2; // c\n", "foo.rs", |metric| {
        assert_eq!(metric.loc.sloc(), 3);
        assert_eq!(metric.loc.ploc(), 2);
        assert_eq!(metric.loc.cloc(), 3);
        assert_eq!(metric.loc.blank(), 0);
        assert_eq!(metric.loc.lloc(), 2);
    });
}

#[test]
fn function_nested_in_a_method_weighs_on_no_class() {
    check_func_space(
        LANG::Python,
        "class A:\n    def f(self):\n        def g():\n            if a:\n                pass\n        pass\n",
        "foo.py",
        |space| {
            let class = &space.spaces[0];
            let method = &class.spaces[0];
            let nested = &method.spaces[0];
            assert_eq!(method.metrics.cyclomatic.cyclomatic(), 1);
            assert_eq!(nested.metrics.cyclomatic.cyclomatic(), 2);
            assert_eq!(method.metrics.cyclomatic.cyclomatic_sum(), 3);
            // the method weighs with its own complexity alone
            assert_eq!(class.metrics.wmc.class_wmc(), 1);
            assert_eq!(class.metrics.wmc.class_wmc_sum(), 1);
            assert_eq!(method.metrics.wmc.class_wmc(), 0);
            assert_eq!(space.metrics.wmc.class_wmc_sum(), 1);
            assert_eq!(space.metrics.wmc.total_wmc(), 1);
        },
    );
}

fn own_counts(space: &FuncSpace, acc: &mut Vec<[u64; 6]>) {
    let m = &space.metrics;
    acc.push([
        m.loc.sloc(),
        m.loc.ploc(),
        m.loc.cloc(),
        m.loc.lloc(),
        m.loc.blank_floor(),
        m.cyclomatic.cyclomatic(),
    ]);
    for s in &space.spaces {
        own_counts(s, acc);
    }
}

fn extremes_hold(space: &FuncSpace) {
    let mut acc = Vec::new();
    own_counts(space, &mut acc);
    let least = |k: usize| acc.iter().map(|a| a[k]).min();
    let most = |k: usize| acc.iter().map(|a| a[k]).max().unwrap();
    let m = &space.metrics;
    assert_eq!((m.loc.sloc_min(), m.loc.sloc_max()), (least(0), most(0)));
    assert_eq!((m.loc.ploc_min(), m.loc.ploc_max()), (least(1), most(1)));
    assert_eq!((m.loc.cloc_min(), m.loc.cloc_max()), (least(2), most(2)));
    assert_eq!((m.loc.lloc_min(), m.loc.lloc_max()), (least(3), most(3)));
    assert_eq!((m.loc.blank_min(), m.loc.blank_max()), (least(4), most(4)));
    assert_eq!(
        (m.cyclomatic.cyclomatic_min(), m.cyclomatic.cyclomatic_max()),
        (least(5), most(5))
    );
    for s in &space.spaces {
        extremes_hold(s);
    }
}

#[test]
fn extremes_cover_the_scope_and_all_scopes_inside_it() {
    check_func_space(
        LANG::Python,
        "# a file\n\ndef f():\n    # comment\n    def g():\n        return 1\n\n    return g\n\nx = 1\ny = 2\n",
        "foo.py",
        |space| {
            let f = &space.spaces[0];
            let g = &f.spaces[0];
            assert_eq!(space.metrics.loc.sloc(), 11);
            assert_eq!(f.metrics.loc.sloc(), 6);
            assert_eq!(g.metrics.loc.sloc(), 2);
            // the file's own count is the largest, the innermost function's the smallest
            assert_eq!(space.metrics.loc.sloc_max(), 11);
            assert_eq!(space.metrics.loc.sloc_min(), Some(2));
            assert_eq!(f.metrics.loc.sloc_max(), 6);
            assert_eq!(f.metrics.loc.sloc_min(), Some(2));
            assert_eq!(g.metrics.loc.sloc_max(), 2);
            assert_eq!(g.metrics.loc.sloc_min(), Some(2));
            extremes_hold(&space);
        },
    );
    check_func_space(
        LANG::Go,
        "package main\n\n// doc\nfunc f() int {\n    return 1\n}\n\nvar x = 2\n",
        "foo.go",
        |space| {
            assert_eq!(space.metrics.loc.sloc_max(), 8);
            assert_eq!(space.metrics.loc.sloc_min(), Some(3));
            extremes_hold(&space);
        },
    );
}

#[test]
fn anonymous_function_in_tsx_takes_the_name_of_its_variable() {
    check_func_space(LANG::Tsx, "const f = function() {}", "foo.tsx", |space| {
        assert_eq!(space.spaces.len(), 1);
        assert_eq!(space.spaces[0].kind, SpaceKind::Function);
        assert_eq!(space.spaces[0].name.as_deref(), Some("f"));
        assert_eq!(space.spaces[0].display_name(), "f");
    });
}

#[test]
fn rows_of_code_are_kept_once() {
    let mut a = mehen::metrics::loc::Ploc::default();
    a.insert(3);
    a.insert(5);
    a.insert(3);
    assert_eq!(a.ploc(), 2);
    assert!(a.contains(5));
    assert!(!a.contains(4));
    let mut b = mehen::metrics::loc::Ploc::default();
    b.insert(5);
    b.insert(9);
    b.compute_minmax();
    assert_eq!((b.ploc_min(), b.ploc_max()), (Some(2), 2));
    a.merge(&b);
    assert_eq!(a.ploc(), 3);
    assert!(a.contains(9));
    // the extremes of the scope merged in enter; the own count enters on sealing
    assert_eq!((a.ploc_min(), a.ploc_max()), (Some(2), 2));
    a.compute_minmax();
    assert_eq!((a.ploc_min(), a.ploc_max()), (Some(2), 3));
}

#[test]
fn operators_are_counted_by_kind() {
    let mut maps = mehen::metrics::halstead::HalsteadMaps::new();
    maps.record_operator(4);
    maps.record_operator(9);
    maps.record_operator(4);
    maps.record_operand(b"x");
    maps.record_operand(b"x");
    let mut inner = mehen::metrics::halstead::HalsteadMaps::new();
    inner.record_operator(9);
    inner.record_operator(11);
    inner.record_operand(b"y");
    maps.merge(&inner);
    let mut stats = HalsteadStats::default();
    maps.finalize(&mut stats);
    assert_eq!((stats.u_operators(), stats.operators()), (3, 5));
    assert_eq!((stats.u_operands(), stats.operands()), (2, 3));
}
