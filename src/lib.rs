//! An interception layer between an OpenXR application and the runtime below
//! it: handle registries, generation-safe arenas for layer-issued handles,
//! the instance / session / action lifecycle, poison-on-fault containment,
//! and the translation of OpenXR actions into an input-abstraction runtime.
pub mod action;
pub mod action_set;
pub mod arena;
pub mod codes;
pub mod dispatch;
pub mod input_actions;
pub mod instance;
pub mod laws;
pub mod layer;
pub mod lifecycle;
pub mod negotiate;
pub mod registry;
pub mod session;
pub mod table;
pub mod text;
