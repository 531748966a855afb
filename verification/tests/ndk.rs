//! The NDK constants, the acquisition decision, and the build environment.

use ndk_build::ndk::{
    api_level, ndk_plan, ndk_url, ndk_version, ndk_zip_name, toolchain_env, NdkPlan, NdkProbe,
};

#[test]
fn url_is_the_pinned_archive() {
    assert_eq!(
        ndk_url(),
        "http://dl.google.com/android/repository/android-ndk-r26-linux.zip"
    );
}

#[test]
fn zip_name_is_the_last_url_segment() {
    assert_eq!(ndk_zip_name(), "android-ndk-r26-linux.zip");
    assert_eq!(ndk_url().split('/').last().unwrap(), ndk_zip_name());
}

#[test]
fn version_and_api() {
    assert_eq!(ndk_version(), "android-ndk-r26");
    assert_eq!(api_level(), "34");
}

#[test]
fn all_present_means_no_action() {
    let probe = NdkProbe {
        arch_present: vec![true, true],
        env_home: Some("/opt/ndk".to_string()),
        env_home_exists: true,
        zip_exists: false,
    };
    assert_eq!(ndk_plan(&probe), NdkPlan::AlreadyPresent);
}

#[test]
fn no_archs_selected_means_no_action() {
    let probe = NdkProbe {
        arch_present: vec![],
        env_home: None,
        env_home_exists: false,
        zip_exists: false,
    };
    assert_eq!(ndk_plan(&probe), NdkPlan::AlreadyPresent);
}

#[test]
fn env_override_wins_over_download() {
    let probe = NdkProbe {
        arch_present: vec![true, false],
        env_home: Some("/opt/ndk".to_string()),
        env_home_exists: true,
        zip_exists: false,
    };
    assert_eq!(ndk_plan(&probe), NdkPlan::UseEnvHome);
}

#[test]
fn env_override_naming_nothing_is_ignored() {
    let probe = NdkProbe {
        arch_present: vec![false],
        env_home: Some("/nowhere".to_string()),
        env_home_exists: false,
        zip_exists: true,
    };
    assert_eq!(ndk_plan(&probe), NdkPlan::Acquire { download: false });
}

#[test]
fn missing_zip_is_downloaded_then_extracted() {
    let probe = NdkProbe {
        arch_present: vec![false, true],
        env_home: None,
        env_home_exists: false,
        zip_exists: false,
    };
    assert_eq!(ndk_plan(&probe), NdkPlan::Acquire { download: true });
}

#[test]
fn toolchain_env_points_into_the_prebuilt_tree() {
    let e = toolchain_env("/work/lib", "aarch64-linux-android");
    let root = "/work/lib/android-ndk-r26/toolchains/llvm/prebuilt/linux-x86_64";
    assert_eq!(e.toolchain, root);
    assert_eq!(e.api, "34");
    assert_eq!(e.ar, format!("{root}/bin/llvm-ar"));
    assert_eq!(e.ranlib, format!("{root}/bin/llvm-ranlib"));
    assert_eq!(e.strip_tool, format!("{root}/bin/llvm-strip"));
    assert_eq!(e.ld, format!("{root}/bin/ld"));
    assert_eq!(e.cc, format!("{root}/bin/aarch64-linux-android34-clang"));
    assert_eq!(e.cxx, format!("{root}/bin/aarch64-linux-android34-clang++"));
}

#[test]
fn toolchain_env_embeds_the_target_triple() {
    let e = toolchain_env("/l", "armv7-linux-androideabi");
    assert!(e.cc.ends_with("/bin/armv7-linux-androideabi34-clang"));
    assert!(e.cxx.ends_with("/bin/armv7-linux-androideabi34-clang++"));
}
