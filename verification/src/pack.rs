//! Packaging of built artifacts: where a build leaves the shared library,
//! where the packaging tree wants it, and whether it is copied at all.
//!
//! A missing artifact is a soft skip, not an error: the plan for that
//! architecture carries no copy, and the run goes on with the rest.

use vstd::prelude::*;
use crate::arch::Arch;
use crate::text::path_join;
use vstd::string::StringExecFns;

verus! {

/// File name of the shared-library artifact.
pub open spec fn spec_lib_file() -> Seq<char> {
    "libdengine.so"@
}

/// File name of the shared-library artifact.
pub fn lib_file() -> (r: &'static str)
    ensures
        r@ == spec_lib_file(),
{
    "libdengine.so"
}

/// Where a release build for a target triple leaves the artifact.
pub open spec fn spec_artifact_path(target_dir: Seq<char>, target: Seq<char>) -> Seq<char> {
    target_dir + "/"@ + target + "/release/"@ + spec_lib_file()
}

/// Where a release build for a target triple leaves the artifact.
pub fn artifact_path(target_dir: &str, target: &str) -> (r: String)
    ensures
        r@ == spec_artifact_path(target_dir@, target@),
{
    let mut s = path_join(target_dir, target);
    s.append("/release/");
    s.append(lib_file());
    s
}

/// The per-ABI output directory of the packaging tree.
pub open spec fn spec_abi_out_dir(package_dir: Seq<char>, jni: Seq<char>) -> Seq<char> {
    package_dir + "/src/main/jniLibs/"@ + jni
}

/// The artifact's path relative to the package root, used when publishing.
pub open spec fn spec_publish_rel(jni: Seq<char>) -> Seq<char> {
    "src/main/jniLibs/"@ + jni + "/"@ + spec_lib_file()
}

/// The version-templated artifact name a copy is published under.
pub open spec fn spec_publish_name(target: Seq<char>) -> Seq<char> {
    "dengine_{v}_react_native_"@ + target
}

/// A copy the packaging step performs, with the name the copy is published
/// under.
pub struct CopyStep {
    /// The artifact the build produced.
    pub src: String,
    /// Its place in the packaging tree.
    pub dest: String,
    /// Its path relative to the package root.
    pub publish_rel: String,
    /// The version-templated artifact name.
    pub publish_name: String,
}

/// The packaging plan for one architecture: the ABI directory is always
/// created; the copy happens exactly when the artifact exists.
pub struct PackagePlan {
    /// The per-ABI output directory, created in every case.
    pub out_dir: String,
    /// The copy to perform, present exactly when the artifact exists.
    pub copy: Option<CopyStep>,
}

/// The packaging plan for one architecture. The artifact is copied if and
/// only if it exists; a missing artifact yields a plan with no copy and no
/// error.
pub fn package_plan(package_dir: &str, target_dir: &str, arch: &Arch, artifact_exists: bool) -> (p:
    PackagePlan)
    ensures
        p.out_dir@ == spec_abi_out_dir(package_dir@, arch@.jni),
        p.copy is Some <==> artifact_exists,
        p.copy matches Some(c) ==> c.src@ == spec_artifact_path(target_dir@, arch@.target),
        p.copy matches Some(c) ==> c.dest@ == spec_abi_out_dir(package_dir@, arch@.jni) + "/"@
            + spec_lib_file(),
        p.copy matches Some(c) ==> c.publish_rel@ == spec_publish_rel(arch@.jni),
        p.copy matches Some(c) ==> c.publish_name@ == spec_publish_name(arch@.target),
{
    let mut out_dir = String::from_str(package_dir);
    out_dir.append("/src/main/jniLibs/");
    out_dir.append(arch.jni);
    let copy = if artifact_exists {
        let mut publish_rel = String::from_str("src/main/jniLibs/");
        publish_rel.append(arch.jni);
        publish_rel.append("/");
        publish_rel.append(lib_file());
        let mut publish_name = String::from_str("dengine_{v}_react_native_");
        publish_name.append(arch.target);
        Some(
            CopyStep {
                src: artifact_path(target_dir, arch.target),
                dest: path_join(out_dir.as_str(), lib_file()),
                publish_rel,
                publish_name,
            },
        )
    } else {
        None
    };
    PackagePlan { out_dir, copy }
}

} // verus!
