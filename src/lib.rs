use vstd::prelude::*;

pub mod arch;
pub mod types;
pub mod text;
pub mod store;
pub mod assemble;
pub mod names;
pub mod emit_basic;
pub mod order;
pub mod templates;
pub mod tag_union;
pub mod tag_impls;
pub mod nullable;
pub mod driver;
pub mod laws;

