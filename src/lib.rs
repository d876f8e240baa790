//! An animated terminal scene of a house under the current weather:
//! a double-buffered character grid, the static scene, the airplane
//! population, and the orchestrator that picks effects from the weather.
pub mod animation;
pub mod app;
pub mod animation_manager;
pub mod app_state;
pub mod config;
pub mod geolocation;
pub mod onboard;
pub mod render;
pub mod scene;
pub mod text;
pub mod weather;
