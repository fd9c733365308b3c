//! A minimal host runtime for compiled bytecode modules.
//!
//! The runtime loads a binary module, resolves the module's declared imports
//! against host capabilities, instantiates the module, and invokes exported
//! functions across the host/guest boundary in both directions.  The
//! instruction-level execution of guest code is delegated to an underlying
//! bytecode engine; everything around it — the value model, signature
//! checking, name-to-capability resolution, index-keyed dispatch, import
//! binding and typed export invocation — is this crate's own logic.

pub mod values;
pub mod signature;
pub mod errors;
pub mod leap;
pub mod clock;
pub mod capability;
pub mod resolver;
pub mod dispatcher;
pub mod engine;
pub mod module;
pub mod instance;
