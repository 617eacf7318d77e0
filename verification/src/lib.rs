//! A minimal periodic-task scheduler primitive.
//!
//! A background loop repeatedly dispatches a callback at a fixed interval,
//! self-correcting for the time its own iterations consume, until a shared
//! stop flag is raised through a cancellation handle.
//!
//! This crate holds the verified control logic of that loop: the stop flag's
//! one-way lifecycle (`flag`), the per-iteration decisions — how long to
//! sleep, when to re-anchor, whether to dispatch or exit (`scheduler`) —
//! an idealized run of the whole loop on an exact clock (`sim`), and the
//! proof that the self-correcting schedule does not accumulate drift
//! (`drift`). All times are nanoseconds on a monotonic clock, held as `u64`.

pub mod drift;
pub mod flag;
pub mod scheduler;
pub mod sim;
