//! Build orchestration for the Android shared-library artifacts of the
//! `dengine` native module.
//!
//! The library holds the decision logic of the orchestration: which
//! architectures a prefix filter selects, whether the NDK toolchain must be
//! fetched, which environment a build invocation needs, and what the
//! packaging step copies. A thin driver performs the filesystem and
//! subprocess work that these decisions call for.

pub mod arch;
pub mod ndk;
pub mod orchestrator;
pub mod pack;
pub mod text;
