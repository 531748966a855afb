//! Packaging plans: paths, publication names, and the skip on a missing
//! artifact.

use ndk_build::arch::select_archs;
use ndk_build::pack::{lib_file, package_plan};

#[test]
fn existing_artifact_is_copied_to_the_abi_dir() {
    let sel = select_archs("a");
    let plan = package_plan("/pkg", "/target", &sel[0], true);
    assert_eq!(plan.out_dir, "/pkg/src/main/jniLibs/arm64-v8a");
    let copy = plan.copy.expect("artifact exists, so the plan must copy");
    assert_eq!(copy.src, "/target/aarch64-linux-android/release/libdengine.so");
    assert_eq!(copy.dest, "/pkg/src/main/jniLibs/arm64-v8a/libdengine.so");
    assert_eq!(copy.publish_rel, "src/main/jniLibs/arm64-v8a/libdengine.so");
    assert_eq!(
        copy.publish_name,
        "dengine_{v}_react_native_aarch64-linux-android"
    );
}

#[test]
fn second_arm_row_goes_to_armeabi_v7a() {
    let sel = select_archs("a");
    let plan = package_plan("/pkg", "/target", &sel[1], true);
    let copy = plan.copy.unwrap();
    assert_eq!(copy.dest, "/pkg/src/main/jniLibs/armeabi-v7a/libdengine.so");
    assert_eq!(
        copy.src,
        "/target/armv7-linux-androideabi/release/libdengine.so"
    );
}

#[test]
fn missing_artifact_is_skipped_without_error() {
    let sel = select_archs("i686");
    let plan = package_plan("/pkg", "/target", &sel[0], false);
    assert_eq!(plan.out_dir, "/pkg/src/main/jniLibs/x86");
    assert!(plan.copy.is_none());
}

#[test]
fn artifact_file_name() {
    assert_eq!(lib_file(), "libdengine.so");
}
