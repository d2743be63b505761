//! Translation of Objective-C interface declarations into binding
//! declarations: a classifier and builder from the frontend's declaration
//! tree to a small set of statements, and a renderer from statements to text.
use vstd::prelude::*;

pub mod compare;
pub mod config;
pub mod decl;
pub mod encode;
pub mod id;
pub mod ir;
pub mod laws;
pub mod node;
pub mod render;
pub mod stmt;
pub mod text;
pub mod value;

verus! {

} // verus!
