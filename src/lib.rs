//! Rootless container support: decides whether a container runs inside a user
//! namespace owned by an unprivileged host user, checks that its configuration
//! is safe for that, and plans the writes of its UID/GID mappings.
pub mod model;
pub mod mapping;
pub mod error;
pub mod validate;
pub mod writer;
pub mod locate;
pub mod rootless;
pub mod sysctl;
