//! `.driver` bundle support: the `Info.plist` a bundle ships.

pub mod plist;

pub use plist::{generate, BundleConfig, AUDIO_SERVER_PLUGIN_TYPE_UUID};
