//! A mocking engine.
//!
//! A substitutable object is either the real value or a registry of stubs,
//! one per method. Calling a method of a real object calls the real
//! implementation; calling it on a mocked object invokes the stub that was
//! registered for the method, and fails where there is none.
//!
//! - [`mock_store`] holds the registry, the object and the dispatch between
//!   the real implementation and the stubs.
//! - [`mock`] holds a stub made of a function.
//! - [`identity`] gives every method the key of its stub.
//! - [`self_type`] names the wrappers in which an object may be held, and
//!   [`wrap`] makes an object of what a real constructor returned, in each
//!   of them.
//! - [`morphed`] plans the methods of a substitutable type from their
//!   declarations, which [`syntax`] describes.
//! - [`text`] finds one sequence in another: a text in a message, a run of
//!   tokens in the tokens of a declaration.

pub mod identity;
pub mod mock;
pub mod mock_store;
pub mod morphed;
pub mod self_type;
pub mod syntax;
pub mod text;
pub mod wrap;
