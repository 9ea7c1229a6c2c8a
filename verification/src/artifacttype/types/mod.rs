//! The artifact types that come with the library.
pub mod flathub;
pub mod flatpak;
pub mod github;
pub mod mac64;
pub mod mac_arm64;
pub mod pypi;
pub mod win32;
