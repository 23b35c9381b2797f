//! State-and-dispatch core of an interactive terminal chat client.
//!
//! The crate decides which full-screen view is drawn and which view receives
//! an input event, keeps the resources that the views share, and drives the
//! search-and-select widget through its focus, fetch and commit protocol.
//! Rendering, file access and network traffic belong to the caller: every
//! function here takes plain values and hands plain values back.

pub mod state;
pub mod events;
pub mod action;
pub mod config;
pub mod data;
pub mod layout;
pub mod search;
pub mod search_laws;
pub mod following;
pub mod components;
pub mod app;
