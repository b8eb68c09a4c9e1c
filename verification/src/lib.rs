//! A reactive WebSocket client wrapper: it turns an event-driven network
//! connection into observable values — the ready state, the last received
//! text and binary frames, an append-only event log and a stream of change
//! notifications — that any consumer can read without wiring callbacks.
//!
//! The library holds the logic only: lifecycle management, send gating,
//! inbound message capture and change notification, each stated and proved
//! as an exact function of the previous observable state. The network
//! transport itself lives outside; it performs the [`controller::Action`]
//! values the controller hands out and feeds the transport's events back in.

pub mod address;
pub mod controller;
pub mod laws;
pub mod state;
