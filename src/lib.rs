//! Platform-aware acquisition of a pinned toolchain or a prebuilt binary,
//! and the decisions of a two-stage native-then-secondary build: which
//! artifact a platform needs, when to fetch it, which commands to run in
//! which order, which objects to archive and what to tell the linker.
pub mod text;
pub mod platform;
pub mod acquire;
pub mod orchestrate;
pub mod aggregate;
pub mod link;
pub mod launcher;
