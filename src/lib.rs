use vstd::prelude::*;

pub mod assembly;
pub mod ast;
pub mod builder;
pub mod config;
pub mod environement;
pub mod function;
pub mod label;
pub mod meta;
pub mod module;
pub mod opti;
pub mod regalloc;
pub mod size;
pub mod statements;
pub mod stringify;
pub mod text;
pub mod types;
pub mod util;
pub mod values;

verus! {

} // verus!
