//! A verified marshalling core for driving a TensorFlow-style computation
//! engine.
//!
//! The engine itself — graph construction, kernels, device placement — lives
//! behind a foreign call boundary and is not part of this crate. What this
//! crate owns, and what is verified, is the data-interchange discipline around
//! that boundary:
//!
//! * [`Memory`]: a dual-mode element buffer that is either caller-owned or
//!   engine-owned, with extraction that never frees foreign storage twice;
//! * [`Tensor`]: a typed, dimensioned array built on [`Memory`], the unit
//!   exchanged with the engine;
//! * [`Session`]: the run protocol — validating named inputs up front,
//!   acquiring one engine tensor handle per input, executing exactly one
//!   batch call, adopting the results, and releasing every handle this side
//!   acquired when the engine reports failure.
//!
//! The engine boundary is represented by plain values: an embedder (or a test
//! double) performs the foreign calls and feeds their outcomes back in as
//! [`EngineStatus`], [`Handle`] and [`RawTensor`] values. Every decision the
//! protocol makes — which inputs are rejected, which handles must be released,
//! which results a caller may extract — is made here and carries a proof.

mod buffer;
mod definition;
mod engine;
mod error;
mod graph;
mod memory;
mod kind;
mod session;
mod status;
mod tensor;
mod value;

pub use buffer::Buffer;
pub use definition::Definition;
pub use engine::{spec_product_i64, spec_raw_count, Handle, RawTensor, RunReply, TensorContent};
pub use error::Error;
pub use graph::Graph;
pub use kind::Type;
pub use memory::Memory;
pub use session::{name_bytes, spec_displaced, spec_first_unbound, lemma_first_unbound_none, Input, Output, RunCall, Session, Target};
pub use status::{Code, EngineStatus, Status};
pub use tensor::{spec_content_of, spec_needed, spec_product, AnyTensor, Tensor};
pub use value::{Elements, Float32, Float64, Value};
