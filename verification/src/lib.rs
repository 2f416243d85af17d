//! References to trait objects whose trait is decided at run time.
//!
//! A `&dyn Trait` fixes the trait in its type. The types here carry the
//! trait beside the reference instead, as a [`DynTypeId`], so that one
//! collection can hold references seen through different traits and a caller
//! can later ask each one whether it is a reference through the trait the
//! caller has in mind.
//!
//! The crate works on the two machine words that make up such a reference,
//! held in a [`RawParts`]: the address of the instance and the word that
//! selects how calls on it are dispatched. It never reads or follows either
//! word. What it decides, and what is proved of it, is when the words are
//! handed back: an [`AnyDynPtr`] gives them out only to a caller that names
//! the trait they were erased under. Splitting a reference into its words
//! and putting it together again is left to the caller.
//!
//! [`traitcast`] builds a small trait-to-trait casting protocol on top.
pub mod identity;
pub mod parts;
pub mod ptr;
pub mod refs;
pub mod traitcast;

pub use crate::identity::DynTypeId;
pub use crate::parts::RawParts;
pub use crate::ptr::AnyDynPtr;
pub use crate::refs::AnyDyn;
pub use crate::refs::AnyDynMut;
