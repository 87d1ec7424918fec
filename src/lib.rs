//! Deploys dotfiles kept in source repositories onto per-OS locations with
//! symbolic links.
//!
//! The library holds the logic: template path expansion, the classification of
//! a deploy entry, the per-entry decisions of deploy and undeploy, and the
//! resolution of deploy targets. Filesystem access, version control and the
//! command line live in the application around it.
pub mod text;
pub mod path;
pub mod deploy_status;
pub mod reconcile;
pub mod config;
pub mod targets;
