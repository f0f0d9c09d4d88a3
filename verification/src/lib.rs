//! Monitoring core for a floating llama.cpp / vLLM / Ollama status widget.
//!
//! The library holds the data model of the monitor, the adapters that turn
//! what an inference server reports into that model, the calculator that
//! decides the connection status, and the small text formats the monitor
//! reads and writes. Everything that talks to the network, the disk, the
//! clock or the window system lives in the application around it.
pub mod adapters;
pub mod api;
pub mod calculator;
pub mod config;
pub mod lan;
pub mod logging;
pub mod metrics;
pub mod monitoring;
pub mod text;
pub mod types;

use vstd::prelude::*;

verus! {

} // verus!
