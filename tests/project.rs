use kythe_indexer::project::{
    ExtractionInfo, RustProject, RustProjectCrate, RustProjectCrateDep, RustProjectCrateSource,
};
use std::collections::HashMap;
use std::path::PathBuf;

#[test]
fn create_crate_from_extraction_info() {
    let info = ExtractionInfo {
        arguments: None,
        cfg: vec!["feature=\"surprise\"".to_string()],
        crate_type: "proc-macro".to_string(),
        deps: vec![],
        edition: "2021".to_string(),
        name: "kythe_test".to_string(),
        out_dir_path: None,
        output: None,
        relevant_srcs: vec![PathBuf::from("src/main.rs"), PathBuf::from("src/util.rs")],
        root: PathBuf::from("src/main.rs"),
        target: "x86_64-unknown-linux-gnu".to_string(),
    };
    let expected = RustProjectCrate {
        display_name: "kythe_test".to_string(),
        root_module: PathBuf::from("src/main.rs"),
        edition: "2021".to_string(),
        deps: vec![],
        is_workspace_member: false,
        source: None,
        cfg: vec!["feature=\"surprise\"".to_string()],
        target: "x86_64-unknown-linux-gnu".to_string(),
        env: None,
        is_proc_macro: true,
        proc_macro_dylib_path: None,
    };

    let result = RustProjectCrate::from(&info);
    assert_eq!(expected, result);
}

#[test]
fn create_crate_from_extraction_info_with_out_dir_path() {
    let info = ExtractionInfo {
        arguments: None,
        cfg: vec!["feature=\"surprise\"".to_string()],
        crate_type: "rlib".to_string(),
        deps: vec![],
        edition: "2021".to_string(),
        name: "kythe_test".to_string(),
        out_dir_path: Some("bazel-out/kythe_test_build_script.out_dir".to_string()),
        output: None,
        relevant_srcs: vec![PathBuf::from("src/main.rs"), PathBuf::from("src/util.rs")],
        root: PathBuf::from("src/main.rs"),
        target: "x86_64-unknown-linux-gnu".to_string(),
    };
    let expected = RustProjectCrate {
        display_name: "kythe_test".to_string(),
        root_module: PathBuf::from("src/main.rs"),
        edition: "2021".to_string(),
        deps: vec![],
        is_workspace_member: false,
        source: Some(RustProjectCrateSource {
            include_dirs: vec![
                PathBuf::from("src/"),
                PathBuf::from("bazel-out/kythe_test_build_script.out_dir/"),
            ],
            exclude_dirs: vec![],
        }),
        cfg: vec!["feature=\"surprise\"".to_string()],
        target: "x86_64-unknown-linux-gnu".to_string(),
        env: Some(HashMap::from([(
            "OUT_DIR".to_string(),
            "bazel-out/kythe_test_build_script.out_dir".to_string(),
        )])),
        is_proc_macro: false,
        proc_macro_dylib_path: None,
    };

    let result = RustProjectCrate::from(&info);
    assert_eq!(expected, result);
}

#[test]
fn create_project_from_extraction_info() {
    let dep = ExtractionInfo {
        arguments: None,
        cfg: vec![],
        crate_type: "rlib".to_string(),
        deps: vec![],
        edition: "2021".to_string(),
        name: "kythe_test_dep".to_string(),
        out_dir_path: None,
        output: None,
        relevant_srcs: vec![PathBuf::from("src/lib.rs")],
        root: PathBuf::from("src/lib.rs"),
        target: "x86_64-unknown-linux-gnu".to_string(),
    };
    let info = ExtractionInfo {
        arguments: None,
        cfg: vec![],
        crate_type: "rlib".to_string(),
        deps: vec![dep],
        edition: "2021".to_string(),
        name: "kythe_test".to_string(),
        out_dir_path: None,
        output: None,
        relevant_srcs: vec![PathBuf::from("src/bin/main.rs")],
        root: PathBuf::from("src/bin/main.rs"),
        target: "x86_64-unknown-linux-gnu".to_string(),
    };

    let expected_crate_1 = RustProjectCrate {
        display_name: "kythe_test_dep".to_string(),
        root_module: PathBuf::from("src/lib.rs"),
        edition: "2021".to_string(),
        deps: vec![],
        is_workspace_member: false,
        source: None,
        cfg: vec![],
        target: "x86_64-unknown-linux-gnu".to_string(),
        env: None,
        is_proc_macro: false,
        proc_macro_dylib_path: None,
    };
    let expected_crate_2 = RustProjectCrate {
        display_name: "kythe_test".to_string(),
        root_module: PathBuf::from("src/bin/main.rs"),
        edition: "2021".to_string(),
        deps: vec![RustProjectCrateDep { krate: 0, name: "kythe_test_dep".to_string() }],
        is_workspace_member: true,
        source: None,
        cfg: vec![],
        target: "x86_64-unknown-linux-gnu".to_string(),
        env: None,
        is_proc_macro: false,
        proc_macro_dylib_path: None,
    };
    let expected =
        RustProject { sysroot_src: None, crates: vec![expected_crate_1, expected_crate_2] };

    let result = RustProject::from(&info);
    assert_eq!(expected, result);
}
