//! Event distribution and reaction logic for a virtual-desktop indicator:
//! classification of desktop-manager notifications, the subscription
//! protocol of the signal hub, icon selection, and hotkey dispatch decisions.
pub mod config;
pub mod desktop;
pub mod hub;
pub mod icon;
pub mod shortcuts;
