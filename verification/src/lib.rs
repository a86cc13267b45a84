//! Core logic of a GPU cube renderer: the static cube mesh and its
//! well-formedness proofs, the vertex memory layout, the fixed graphics
//! pipeline configuration, presentation-surface configuration and resize
//! handling, and the per-frame render/present decision machine.
//!
//! The GPU and windowing calls themselves live outside this crate; the
//! functions here compute every decision those calls depend on, over plain
//! values, and are verified.

pub mod events;
pub mod frame;
pub mod layout;
pub mod mesh;
pub mod pipeline;
pub mod surface;
pub mod upload;
