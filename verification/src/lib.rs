//! Source-to-source transformer that lets a function declare persistent
//! slots: values that survive across invocations of that function without
//! global state.  A function body is rewritten into three artifacts: a
//! context type listing every slot's declared type, an initializer that
//! builds the first context value, and an entry function that takes the
//! context by mutable reference and reads slots as indexed fields.
//!
//! The crate works on its own abstract syntax tree ([`ast`]); parsing the
//! host language into this tree and printing the results back out are the
//! business of an ordinary parser library around this crate.

pub mod ast;
pub mod collect;
pub mod expand;
pub mod mangle;
pub mod transform;
