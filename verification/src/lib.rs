pub mod issue;
pub mod logging;
pub mod options;
pub mod position;
pub mod tokens;
pub mod impls;
pub mod traits;
pub mod typecheck;
pub mod types;
pub mod structs;
pub mod objects;
pub mod preprocessor;
pub mod parser;
pub mod linter;
pub mod codegen;
pub mod context;
