//! The supported languages.

use vstd::prelude::*;
use crate::tools::str_eq;

verus! {

/// A language the analysis knows.
#[derive(Clone, Copy, Debug, PartialEq, Eq, Structural)]
pub enum LANG {
    /// The `Rust` language
    Rust,
    /// The `Python` language
    Python,
    /// The `Tsx` language incorporates the `JSX` syntax inside `TypeScript`
    Tsx,
    /// The `TypeScript` language
    Typescript,
    /// The `Go` language
    Go,
}

/// The language files with the extension `ext` are written in.
pub open spec fn lang_of_ext(ext: Seq<char>) -> Option<LANG> {
    if ext == "rs"@ {
        Some(LANG::Rust)
    } else if ext == "py"@ {
        Some(LANG::Python)
    } else if ext == "tsx"@ {
        Some(LANG::Tsx)
    } else if ext == "ts"@ || ext == "jsw"@ || ext == "jsmw"@ {
        Some(LANG::Typescript)
    } else if ext == "go"@ {
        Some(LANG::Go)
    } else {
        None
    }
}

/// The language an editor mode stands for.
pub open spec fn lang_of_mode(mode: Seq<char>) -> Option<LANG> {
    if mode == "rust"@ {
        Some(LANG::Rust)
    } else if mode == "python"@ {
        Some(LANG::Python)
    } else if mode == "typescript"@ {
        Some(LANG::Typescript)
    } else if mode == "go"@ {
        Some(LANG::Go)
    } else {
        None
    }
}

/// The name a language is shown under.
pub open spec fn lang_name(lang: LANG) -> Seq<char> {
    match lang {
        LANG::Rust => "rust"@,
        LANG::Python => "python"@,
        LANG::Tsx => "typescript"@,
        LANG::Typescript => "typescript"@,
        LANG::Go => "go"@,
    }
}

impl LANG {
    /// Returns the name of a language
    pub fn get_name(&self) -> (r: &'static str)
        ensures
            r@ == lang_name(*self),
    {
        match self {
            LANG::Rust => "rust",
            LANG::Python => "python",
            LANG::Tsx => "typescript",
            LANG::Typescript => "typescript",
            LANG::Go => "go",
        }
    }
}

/// Detects the language of a file from its extension.
pub fn get_from_ext(ext: &str) -> (r: Option<LANG>)
    ensures
        r == lang_of_ext(ext@),
{
    if str_eq(ext, "rs") {
        Some(LANG::Rust)
    } else if str_eq(ext, "py") {
        Some(LANG::Python)
    } else if str_eq(ext, "tsx") {
        Some(LANG::Tsx)
    } else if str_eq(ext, "ts") || str_eq(ext, "jsw") || str_eq(ext, "jsmw") {
        Some(LANG::Typescript)
    } else if str_eq(ext, "go") {
        Some(LANG::Go)
    } else {
        None
    }
}

/// Detects the language of a file from the editor mode written in it.
pub fn get_from_emacs_mode(mode: &str) -> (r: Option<LANG>)
    ensures
        r == lang_of_mode(mode@),
{
    if str_eq(mode, "rust") {
        Some(LANG::Rust)
    } else if str_eq(mode, "python") {
        Some(LANG::Python)
    } else if str_eq(mode, "typescript") {
        Some(LANG::Typescript)
    } else if str_eq(mode, "go") {
        Some(LANG::Go)
    } else {
        None
    }
}

} // verus!
