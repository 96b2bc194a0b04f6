//! Core of a terminal dashboard that introspects running distributed-system
//! processes: fiber schedulers and connection-pool metrics.
//!
//! This crate holds the verified logic: rolling metric windows, forest
//! reconstruction and tree-art rendering of flat parent-linked records, the
//! fetch-worker state machine with its permanent degraded mode, and the
//! tab/navigation state machines of the dashboard itself.  The wire-level
//! protocol clients and the terminal rendering around it live outside.
//!
//! Two monitors are built in: the fiber tab and the pool tab.  The tree
//! builder is written over any parent-linked record family, so a further
//! hierarchy source (an actor tree, say) would reuse it unchanged.

pub mod dashboard;
pub mod fetch;
pub mod list;
pub mod model;
pub mod slick;
pub mod text;
pub mod tabs;
pub mod tree;
pub mod window;
pub mod zmx;
