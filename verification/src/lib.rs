//! Rusty Renderer - the verified core of a multi-backend 3D renderer.
//!
//! Holds the backend-agnostic descriptions (resources, bindings, vertex
//! formats, capabilities) and each backend's decisions, the render graph and
//! its passes, the pipeline factory, the configuration rules and the
//! application's run and event-loop decisions.

pub mod application;
pub mod backends;
pub mod camera;
pub mod config;
pub mod passes;
pub mod pipelines;
pub mod render_graph;
pub mod words;
