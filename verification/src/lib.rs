//! Rust subclasses of foreign base classes: the ownership-lifecycle core.
//!
//! A logical entity is split into two halves that live under different
//! lifetime disciplines: a *managed* half under shared, reference-counted
//! ownership with single-writer interior mutability, and a *peer* half under
//! exclusive, manually released ownership. This crate verifies the part that
//! decides who owns whom: the holder types that track the link between the
//! halves, the three supported ownership topologies, the construction
//! protocol that wires a fresh pair together, and the self-ownership and
//! deletion protocol.
//!
//! Both disciplines are modelled explicitly, independent of any particular
//! memory-management primitive: the managed half carries its strong-reference
//! count and a single-writer borrow flag as plain state, and the peer half
//! lives in an address-stable slot whose exclusive ownership is an affine
//! token. Destruction is therefore an explicit, contract-checked operation,
//! and every lifecycle claim (who keeps whom alive, when a weak holder stops
//! resolving, when the self-owned cycle collapses) is proved rather than
//! inherited from a runtime.

pub mod holders;
pub mod laws;
pub mod managed;
pub mod subclass;
