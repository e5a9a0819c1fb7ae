//! Core of a terminal dashboard that invokes a remote endpoint on a schedule:
//! a wall-clock trigger scheduler with two policies (a fixed daily time and a
//! repeating countdown), a single-consumer event orchestrator, and a bounded,
//! scroll-aware log buffer. All I/O (terminal, network, disk) lives outside
//! this crate; the functions here decide, from plain values, when to fire,
//! how state changes on each event, and what each log line says.

pub mod app;
pub mod clock;
pub mod config;
pub mod invoke;
pub mod logring;
pub mod text;
