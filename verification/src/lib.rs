//! Block-query adapter for a batch-oriented ledger.
//!
//! The ledger groups transactions into batches inside blocks and has no
//! native notion of several fields the external block-query wire protocol
//! requires (nonce, uncle hashes, log bloom, difficulty, gas limit). This
//! library resolves a block identifier, aggregates per-transaction
//! execution receipts, and assembles a wire-protocol block object in which
//! the missing fields are emitted as fixed zero-valued placeholders.
//!
//! All ledger round-trips are performed by the caller; the library exposes
//! a step-by-step render session ([`render::BlockRender`]) whose contracts
//! pin down exactly what each lookup outcome leads to.

pub mod codec;
pub mod count;
pub mod entry;
pub mod render;
pub mod types;
