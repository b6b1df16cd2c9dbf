//! Keyword arguments for Rust functions.
//!
//! A function whose last parameter is `_: keywords! { name: Type, ... }` is
//! described by a [`KwargsFn`]; from it the library derives the declaration
//! of a builder type (one setter per keyword argument and a terminal `call`)
//! and a stub that replaces the function and returns that builder.
mod builder;
mod func;
mod keyarg;
mod run;
mod syntax;

pub use builder::{builder_ident, BuilderDecl, Setter, Stub};
pub use func::{KwError, KwargsFn};
pub use keyarg::KeyArgs;
pub use run::{Bindings, BuilderRun};
pub use syntax::{Arg, Attr, Field, FnDecl, FnParam, GenericParam, MarkerItem, Pattern, TypeExpr};
