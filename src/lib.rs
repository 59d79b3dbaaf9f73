//! Core of a desktop notification aggregator: the notification model, the
//! rendering of inline markup, the choice of an image source, the registry of
//! notifications on screen, and the rules that reconcile incoming requests
//! with it.
pub mod closure;
pub mod content;
pub mod engine;
pub mod image;
pub mod layout;
pub mod markup;
pub mod notification;
pub mod registry;
