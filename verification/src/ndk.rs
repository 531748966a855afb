//! The NDK toolchain: version constants, download location, the acquisition
//! decision, and the per-target build environment.
//!
//! Acquisition is decided from what the driver observed on the machine: if
//! the versioned NDK subdirectory is present for every selected
//! architecture, nothing is done; otherwise an environment override that
//! names an existing directory is used as-is; only when neither holds is the
//! pinned archive downloaded (unless already on disk) and extracted.

use vstd::prelude::*;
use crate::text::path_join;
use vstd::string::StringExecFns;

verus! {

/// The pinned NDK release name.
pub open spec fn spec_ndk_version() -> Seq<char> {
    "android-ndk-r26"@
}

/// The pinned NDK release name.
pub fn ndk_version() -> (r: &'static str)
    ensures
        r@ == spec_ndk_version(),
{
    "android-ndk-r26"
}

/// The Android API level the toolchain binaries are selected for.
pub open spec fn spec_api_level() -> Seq<char> {
    "34"@
}

/// The Android API level the toolchain binaries are selected for.
pub fn api_level() -> (r: &'static str)
    ensures
        r@ == spec_api_level(),
{
    "34"
}

/// The download location of the pinned NDK archive.
pub open spec fn spec_ndk_url() -> Seq<char> {
    "http://dl.google.com/android/repository/"@ + spec_ndk_version() + "-linux.zip"@
}

/// The download location of the pinned NDK archive.
pub fn ndk_url() -> (r: String)
    ensures
        r@ == spec_ndk_url(),
{
    let mut s = String::from_str("http://dl.google.com/android/repository/");
    s.append(ndk_version());
    s.append("-linux.zip");
    s
}

/// The file name of the pinned NDK archive: the last segment of its URL.
pub open spec fn spec_ndk_zip_name() -> Seq<char> {
    spec_ndk_version() + "-linux.zip"@
}

/// The file name of the pinned NDK archive.
pub fn ndk_zip_name() -> (r: String)
    ensures
        r@ == spec_ndk_zip_name(),
{
    let mut s = String::from_str("android-ndk-r26");
    s.append("-linux.zip");
    s
}

/// What the driver observed on the machine before deciding how to obtain
/// the NDK.
pub struct NdkProbe {
    /// For each selected architecture, whether its subdirectory of the
    /// standalone NDK tree exists.
    pub arch_present: Vec<bool>,
    /// The value of the toolchain-home override variable, if set.
    pub env_home: Option<String>,
    /// Whether the directory the override names exists.
    pub env_home_exists: bool,
    /// Whether the pinned archive is already on disk.
    pub zip_exists: bool,
}

/// What the driver must do to make the NDK available.
#[derive(PartialEq, Eq, Structural, Clone, Copy, Debug)]
pub enum NdkPlan {
    /// Every selected architecture already has its NDK subdirectory:
    /// nothing to do.
    AlreadyPresent,
    /// The override variable names an existing directory: use it, neither
    /// downloading nor extracting.
    UseEnvHome,
    /// Extract the archive, downloading it first exactly when it is not
    /// already on disk.
    Acquire { download: bool },
}

/// Whether every selected architecture's NDK subdirectory is present.
pub open spec fn all_present(flags: Seq<bool>) -> bool {
    forall|i: int| 0 <= i < flags.len() ==> flags[i]
}

/// Whether the override variable names an existing directory.
pub open spec fn env_home_usable(probe: NdkProbe) -> bool {
    probe.env_home is Some && probe.env_home_exists
}

/// The acquisition decision, in order of precedence: all present, usable
/// override, acquire.
pub open spec fn spec_ndk_plan(probe: NdkProbe) -> NdkPlan {
    if all_present(probe.arch_present@) {
        NdkPlan::AlreadyPresent
    } else if env_home_usable(probe) {
        NdkPlan::UseEnvHome
    } else {
        NdkPlan::Acquire { download: !probe.zip_exists }
    }
}

/// Decides how the NDK is to be obtained, from what the driver observed.
pub fn ndk_plan(probe: &NdkProbe) -> (p: NdkPlan)
    ensures
        p == spec_ndk_plan(*probe),
{
    let mut all = true;
    let mut i: usize = 0;
    while i < probe.arch_present.len()
        invariant
            i <= probe.arch_present@.len(),
            all == all_present(probe.arch_present@.subrange(0, i as int)),
        decreases probe.arch_present@.len() - i,
    {
        let flag = probe.arch_present[i];
        proof {
            let pre = probe.arch_present@.subrange(0, i as int);
            let post = probe.arch_present@.subrange(0, i + 1);
            assert(post =~= pre.push(probe.arch_present@[i as int]));
            assert(post[i as int] == flag);
            if !flag {
                assert(!all_present(post));
            } else if all {
                assert forall|j: int| 0 <= j < post.len() implies #[trigger] post[j] by {
                    if j < i {
                        assert(pre[j]);
                    }
                }
            } else {
                let k = choose|k: int| 0 <= k < pre.len() && !pre[k];
                assert(!post[k]);
            }
        }
        if !flag {
            all = false;
        }
        i += 1;
    }
    proof {
        assert(probe.arch_present@.subrange(0, probe.arch_present@.len() as int) =~= probe
            .arch_present@);
    }
    if all {
        return NdkPlan::AlreadyPresent;
    }
    let usable = match &probe.env_home {
        Some(_) => probe.env_home_exists,
        None => false,
    };
    if usable {
        return NdkPlan::UseEnvHome;
    }
    NdkPlan::Acquire { download: !probe.zip_exists }
}

/// Law: when the override variable names an existing directory, the plan
/// never downloads or extracts.
pub proof fn lemma_env_override_skips_acquisition(probe: NdkProbe)
    requires
        env_home_usable(probe),
    ensures
        !(spec_ndk_plan(probe) matches NdkPlan::Acquire { .. }),
{
}

/// Law: when the versioned NDK subdirectory exists for every selected
/// architecture, no action is taken at all.
pub proof fn lemma_all_present_no_acquisition(probe: NdkProbe)
    requires
        all_present(probe.arch_present@),
    ensures
        spec_ndk_plan(probe) == NdkPlan::AlreadyPresent,
{
}

/// The per-target build environment: the paths of the toolchain binaries a
/// build invocation is given.
pub struct ToolchainEnv {
    /// Root of the prebuilt toolchain inside the NDK tree.
    pub toolchain: String,
    /// Target API level.
    pub api: String,
    /// Archiver.
    pub ar: String,
    /// Archive indexer.
    pub ranlib: String,
    /// Symbol stripper.
    pub strip_tool: String,
    /// Linker.
    pub ld: String,
    /// C compiler for the target triple and API level.
    pub cc: String,
    /// C++ compiler for the target triple and API level.
    pub cxx: String,
}

/// Root of the prebuilt toolchain inside the NDK tree under `lib_dir`.
pub open spec fn spec_toolchain_dir(lib_dir: Seq<char>) -> Seq<char> {
    lib_dir + "/"@ + spec_ndk_version() + "/toolchains/llvm/prebuilt/linux-x86_64"@
}

/// Path of the C compiler for a target triple.
pub open spec fn spec_cc_path(lib_dir: Seq<char>, target: Seq<char>) -> Seq<char> {
    spec_toolchain_dir(lib_dir) + "/bin/"@ + target + spec_api_level() + "-clang"@
}

/// Path of the C++ compiler for a target triple.
pub open spec fn spec_cxx_path(lib_dir: Seq<char>, target: Seq<char>) -> Seq<char> {
    spec_toolchain_dir(lib_dir) + "/bin/"@ + target + spec_api_level() + "-clang++"@
}

/// The build environment for one target triple: every path points into the
/// prebuilt toolchain of the pinned NDK under `lib_dir`.
pub fn toolchain_env(lib_dir: &str, target: &str) -> (e: ToolchainEnv)
    ensures
        e.toolchain@ == spec_toolchain_dir(lib_dir@),
        e.api@ == spec_api_level(),
        e.ar@ == spec_toolchain_dir(lib_dir@) + "/bin/llvm-ar"@,
        e.ranlib@ == spec_toolchain_dir(lib_dir@) + "/bin/llvm-ranlib"@,
        e.strip_tool@ == spec_toolchain_dir(lib_dir@) + "/bin/llvm-strip"@,
        e.ld@ == spec_toolchain_dir(lib_dir@) + "/bin/ld"@,
        e.cc@ == spec_cc_path(lib_dir@, target@),
        e.cxx@ == spec_cxx_path(lib_dir@, target@),
{
    let toolchain = path_join(lib_dir, ndk_version()).concat(
        "/toolchains/llvm/prebuilt/linux-x86_64",
    );
    let mut cc = toolchain.clone();
    cc.append("/bin/");
    cc.append(target);
    cc.append(api_level());
    cc.append("-clang");
    let mut cxx = toolchain.clone();
    cxx.append("/bin/");
    cxx.append(target);
    cxx.append(api_level());
    cxx.append("-clang++");
    ToolchainEnv {
        api: String::from_str(api_level()),
        ar: toolchain.clone().concat("/bin/llvm-ar"),
        ranlib: toolchain.clone().concat("/bin/llvm-ranlib"),
        strip_tool: toolchain.clone().concat("/bin/llvm-strip"),
        ld: toolchain.clone().concat("/bin/ld"),
        cc,
        cxx,
        toolchain,
    }
}

} // verus!
