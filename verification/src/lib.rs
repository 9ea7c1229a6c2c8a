//! Artifact resolution and caching for a release and download portal.
pub mod artifacttype;
pub mod cache;
pub mod config;
pub mod endpoints_env;
pub mod geoip;
pub mod github;
pub mod markdown;
pub mod nightly;
pub mod ordered_map;
pub mod pre_release;
pub mod release_map;
pub mod routes;
pub mod settings;
pub mod sorted_map;
pub mod sorting;
pub mod storage;
pub mod templates;
pub mod text;
pub mod translate;
pub mod version_order;
