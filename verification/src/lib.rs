//! Type-erased objects with pluggable backing storage.
//!
//! An erased object is held as its object representation: the bytes of a value
//! whose concrete type is known only through a dispatch table. A storage places
//! those bytes inline or on the heap, a dispatch table records how large they
//! are, how to destroy them and how to run each capability on them, and a
//! container pairs one storage with one table and tears both down exactly once.

pub mod layout;
pub mod object;
pub mod private;
pub mod storage;
pub mod try_sync;
pub mod vtables;

pub use layout::Layout;
pub use object::DynObject;
pub use storage::{DefaultStorage, DynStorage, Storage};
pub use try_sync::TrySync;
