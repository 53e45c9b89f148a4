//! Input-embedding bookkeeping of a RoBERTa-style encoder: which embedding
//! source is used, which position and segment ids enter the lookups, and the
//! shape of what comes out. The dense arithmetic itself belongs to the tensor
//! runtime of the caller.
use vstd::prelude::*;

pub mod embeddings;
pub mod id_matrix;

verus! {

/// The reserved index of padding tokens, shared by the token and position tables.
pub const PADDING_INDEX: i64 = 1;

} // verus!
