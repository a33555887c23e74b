//! Control core of a telephone-shaped interactive installation: dial, pick-up
//! and hang-up events walk a graph of states, and every state drives a set of
//! actuators that never block the control loop.
//!
//! Nothing in here touches a clock or a playback device. Time comes in as
//! nanoseconds on the caller's monotonic clock. The condition of a playback
//! backend comes in as an [`acts::Reading`], what should happen to it goes
//! out as [`acts::Command`] values, and what became of each command comes
//! back through `performed`.
//!
//! - [`senses`]: the inputs a phone can give.
//! - [`states`]: one node of the graph and the order of its transition rules.
//! - [`books`]: graphs whose transitions all lead to states of the graph.
//! - [`engine`]: a run through a graph, tick by tick.
//! - [`acts`]: sound playback with re-entry and the latency-compensating
//!   player underneath it.
//! - [`serve`]: requests of a controlling application.

pub mod acts;
pub mod books;
pub mod engine;
pub mod error;
pub mod senses;
pub mod serve;
pub mod states;
