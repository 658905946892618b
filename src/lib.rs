//! Rewrites a structure and its method block into a thread-safe wrapper that
//! forwards every call to a shared, lock-guarded base instance.
pub mod syntax;
pub mod extract;
pub mod rewrite;
pub mod emit;
pub mod parse;
pub mod shared;
