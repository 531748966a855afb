//! The prefix filter over the architecture table.

use ndk_build::arch::{all_archs, missing_targets, select_archs};

#[test]
fn table_has_four_rows_in_order() {
    let archs = all_archs();
    assert_eq!(archs.len(), 4);
    assert_eq!(archs[0].target, "x86_64-linux-android");
    assert_eq!(archs[0].jni, "x86_64");
    assert_eq!(archs[0].ndk, "x86_64");
    assert_eq!(archs[1].target, "i686-linux-android");
    assert_eq!(archs[1].jni, "x86");
    assert_eq!(archs[1].ndk, "x86");
    assert_eq!(archs[2].target, "aarch64-linux-android");
    assert_eq!(archs[2].jni, "arm64-v8a");
    assert_eq!(archs[2].ndk, "arm64");
    assert_eq!(archs[3].target, "armv7-linux-androideabi");
    assert_eq!(archs[3].jni, "armeabi-v7a");
    assert_eq!(archs[3].ndk, "arm");
}

#[test]
fn empty_prefix_selects_all_four() {
    let sel = select_archs("");
    assert_eq!(sel.len(), 4);
    assert_eq!(sel[0].target, "x86_64-linux-android");
    assert_eq!(sel[1].target, "i686-linux-android");
    assert_eq!(sel[2].target, "aarch64-linux-android");
    assert_eq!(sel[3].target, "armv7-linux-androideabi");
}

#[test]
fn a_prefix_selects_the_two_arm_rows() {
    let sel = select_archs("a");
    assert_eq!(sel.len(), 2);
    assert_eq!(sel[0].target, "aarch64-linux-android");
    assert_eq!(sel[0].jni, "arm64-v8a");
    assert_eq!(sel[1].target, "armv7-linux-androideabi");
    assert_eq!(sel[1].jni, "armeabi-v7a");
}

#[test]
fn arm_prefix_selects_only_the_v7_row() {
    // Selection goes by the target triple, so "arm" does not match
    // "aarch64-linux-android".
    let sel = select_archs("arm");
    assert_eq!(sel.len(), 1);
    assert_eq!(sel[0].target, "armv7-linux-androideabi");
    assert_eq!(sel[0].jni, "armeabi-v7a");
}

#[test]
fn x86_prefix_selects_one_row() {
    // "i686-linux-android" does not start with "x86".
    let sel = select_archs("x86");
    assert_eq!(sel.len(), 1);
    assert_eq!(sel[0].target, "x86_64-linux-android");
}

#[test]
fn i686_prefix_selects_one_row() {
    let sel = select_archs("i686");
    assert_eq!(sel.len(), 1);
    assert_eq!(sel[0].target, "i686-linux-android");
}

#[test]
fn unmatched_prefix_selects_nothing() {
    let sel = select_archs("mips");
    assert_eq!(sel.len(), 0);
}

#[test]
fn whole_triple_selects_itself() {
    let sel = select_archs("armv7-linux-androideabi");
    assert_eq!(sel.len(), 1);
    assert_eq!(sel[0].jni, "armeabi-v7a");
}

#[test]
fn missing_targets_reports_only_uninstalled() {
    let installed = vec![
        "aarch64-linux-android".to_string(),
        "x86_64-unknown-linux-gnu".to_string(),
    ];
    let sel = select_archs("a");
    let missing = missing_targets(&installed, &sel);
    assert_eq!(missing.len(), 1);
    assert_eq!(missing[0].target, "armv7-linux-androideabi");
}

#[test]
fn missing_targets_empty_when_all_installed() {
    let installed = vec![
        "aarch64-linux-android".to_string(),
        "armv7-linux-androideabi".to_string(),
    ];
    let sel = select_archs("a");
    let missing = missing_targets(&installed, &sel);
    assert_eq!(missing.len(), 0);
}
