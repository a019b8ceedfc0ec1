//! A process-wide, type-indexed registry of mutable shared state.
//!
//! A `States` registry holds at most one canonical instance per state
//! type.  Subsystems obtain a cloneable `Handle` to an instance, begin a
//! runtime-checked exclusive view on it with `States::take`, mutate the
//! value, and release the view with `States::put`; every holder of a
//! handle to the same instance observes the mutation, because the registry
//! keeps a single backing cell per instance.

mod builtin;
mod states;

pub use builtin::Chunks;
pub use builtin::Events;
pub use builtin::Time;
pub use states::Custom;
pub use states::FromState;
pub use states::Handle;
pub use states::State;
pub use states::StateError;
pub use states::States;
pub use states::Store;
pub use states::StoreModel;
pub use states::Stored;
