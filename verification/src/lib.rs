//! Client-side engine of an artifact-identification application.
//!
//! The engine sequences a partially failable remote workflow — upload an
//! image, request inference, derive metadata, persist the result — and keeps
//! a locally cached collection in step with a remote store.  All decision
//! logic lives here, verified; network, file and database traffic is left to
//! the surrounding application, which feeds outcomes back into the engine.

pub mod accounts;
pub mod domain;
pub mod encode;
pub mod pipeline;
pub mod state;
pub mod sync;
pub mod tags;
pub mod text;
