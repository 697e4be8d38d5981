//! A spaced-repetition flashcard engine.
//!
//! The engine tracks a collection of term/definition pairs ("facts"), decides
//! which facts are due for review at a given instant, records review outcomes,
//! and hands the whole dataset to a pluggable storage backend at load and save
//! points.  Scheduling and selection are injected strategies, so alternative
//! spacing algorithms can be substituted without touching the store or the
//! controller.

mod clock;
pub mod controller;
pub mod either;
pub mod fact;
pub mod policy;
pub mod select;
pub mod storage;
pub mod store;

pub use controller::EngineError;
pub use controller::SessionController;
pub use controller::SessionState;
pub use either::Either;
pub use fact::Fact;
pub use fact::FactView;
pub use fact::SchedState;
pub use policy::DefaultPolicy;
pub use policy::SchedulingPolicy;
pub use select::InsertionOrderSelect;
pub use select::SelectionStrategy;
pub use storage::MemStorage;
pub use storage::MemStorageError;
pub use storage::Storage;
pub use store::FactStore;
