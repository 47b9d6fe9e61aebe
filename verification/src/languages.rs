//! Node kinds of the supported grammars.

pub mod language_go;
pub mod language_python;
pub mod language_rust;
pub mod language_tsx;
pub mod language_typescript;
