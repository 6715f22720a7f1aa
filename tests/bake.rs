use std::collections::HashMap;

use risczero_bake::digest::{Digest, ImageIdKind};
use risczero_bake::error::BakeError;
use risczero_bake::layout::{
    dir_prefix_of, elfs_dir_of, file_name_of, file_stem_of, guest_target_dir, is_valid_file_name,
    join,
};
use risczero_bake::options::BakeCommand;
use risczero_bake::package::{select_packages, PackageInfo, Target, TargetKind};
use risczero_bake::publish::{publish_guest, publish_guests, BuiltGuest, FileOp};

fn package(name: &str, annotated: bool, kinds: Vec<Vec<TargetKind>>) -> PackageInfo {
    PackageInfo {
        name: name.to_string(),
        manifest_path: format!("/ws/{}/Cargo.toml", name),
        has_guest_metadata: annotated,
        targets: kinds.into_iter().map(|k| Target { kinds: k }).collect(),
    }
}

fn digest(fill: u8) -> Digest {
    Digest { bytes: [fill; 32] }
}

fn guest(path: &str, legacy: Digest, v2: ImageIdKind) -> BuiltGuest {
    BuiltGuest { path: path.to_string(), image_id: legacy, v2_image_id: v2 }
}

fn describe(op: &FileOp) -> String {
    match op {
        FileOp::CreateDirAll { path } => format!("mkdir {}", path),
        FileOp::Copy { from, to } => format!("copy {} {}", from, to),
        FileOp::Write { path, bytes } => format!("write {} {:?}", path, bytes),
    }
}

/// Runs a plan against an in-memory file map, as the filesystem would.
fn run_plan(files: &mut HashMap<String, Vec<u8>>, ops: &[FileOp]) {
    for op in ops {
        match op {
            FileOp::CreateDirAll { .. } => {}
            FileOp::Copy { from, to } => {
                let bytes = files.get(from).expect("source exists").clone();
                files.insert(to.clone(), bytes);
            }
            FileOp::Write { path, bytes } => {
                files.insert(path.clone(), bytes.clone());
            }
        }
    }
}

#[test]
fn unannotated_package_excluded_whatever_its_targets() {
    let pkgs = vec![
        package("a", false, vec![vec![TargetKind::Bin]]),
        package("b", false, vec![vec![TargetKind::Lib], vec![TargetKind::Bin, TargetKind::Other]]),
    ];
    assert_eq!(select_packages(&pkgs), Vec::<usize>::new());
}

#[test]
fn annotated_package_without_binary_excluded() {
    let pkgs = vec![
        package("a", true, vec![vec![TargetKind::Lib]]),
        package("b", true, vec![]),
        package("c", true, vec![vec![TargetKind::Other, TargetKind::Lib]]),
    ];
    assert_eq!(select_packages(&pkgs), Vec::<usize>::new());
}

#[test]
fn eligible_packages_keep_workspace_order() {
    let pkgs = vec![
        package("a", true, vec![vec![TargetKind::Lib], vec![TargetKind::Bin]]),
        package("b", false, vec![vec![TargetKind::Bin]]),
        package("c", true, vec![vec![TargetKind::Bin]]),
    ];
    assert_eq!(select_packages(&pkgs), vec![0, 2]);
    assert!(pkgs[0].is_eligible());
    assert!(!pkgs[1].is_eligible());
}

#[test]
fn only_annotated_binary_package_is_processed() {
    let pkgs = vec![
        package("a", true, vec![vec![TargetKind::Bin]]),
        package("b", false, vec![vec![TargetKind::Bin]]),
    ];
    let selected = select_packages(&pkgs);
    assert_eq!(selected, vec![0]);
    let g = guest("/ws/target/guest/a/a_guest", digest(1), ImageIdKind::User(digest(2)));
    let ops = publish_guest(&pkgs[0].manifest_path, &g).ok().unwrap();
    for op in &ops {
        assert!(describe(op).contains("/ws/a/elfs"));
        assert!(!describe(op).contains("/ws/b/"));
    }
}

#[test]
fn zero_legacy_and_kernel_id_write_elf_and_kid_only() {
    let k = Digest { bytes: core::array::from_fn(|i| i as u8) };
    let g = guest("/ws/target/guest/a/release/method", digest(0), ImageIdKind::Kernel(k));
    let ops = publish_guest("/ws/a/Cargo.toml", &g).ok().unwrap();
    let got: Vec<String> = ops.iter().map(describe).collect();
    let k_bytes: Vec<u8> = (0u8..32).collect();
    assert_eq!(
        got,
        vec![
            "mkdir /ws/a/elfs".to_string(),
            "copy /ws/target/guest/a/release/method /ws/a/elfs/method.elf".to_string(),
            format!("write /ws/a/elfs/method.kid {:?}", k_bytes),
        ]
    );
    let mut files = HashMap::new();
    files.insert("/ws/target/guest/a/release/method".to_string(), vec![7u8, 8, 9]);
    run_plan(&mut files, &ops);
    assert_eq!(files.get("/ws/a/elfs/method.elf"), Some(&vec![7u8, 8, 9]));
    assert_eq!(files.get("/ws/a/elfs/method.kid"), Some(&k_bytes));
    assert!(!files.contains_key("/ws/a/elfs/method.iid"));
    assert!(!files.contains_key("/ws/a/elfs/method.uid"));
}

#[test]
fn nonzero_legacy_and_user_id_write_iid_and_uid() {
    let g = guest("/t/guest/m.bin", digest(3), ImageIdKind::User(digest(4)));
    let ops = publish_guest("/p/Cargo.toml", &g).ok().unwrap();
    let got: Vec<String> = ops.iter().map(describe).collect();
    assert_eq!(
        got,
        vec![
            "mkdir /p/elfs".to_string(),
            "copy /t/guest/m.bin /p/elfs/m.elf".to_string(),
            format!("write /p/elfs/m.iid {:?}", vec![3u8; 32]),
            format!("write /p/elfs/m.uid {:?}", vec![4u8; 32]),
        ]
    );
}

#[test]
fn legacy_id_with_one_nonzero_byte_is_written() {
    let mut legacy = digest(0);
    legacy.bytes[31] = 1;
    assert!(!legacy.is_zero());
    assert!(digest(0).is_zero());
    let g = guest("/t/x", legacy, ImageIdKind::User(digest(0)));
    let ops = publish_guest("/p/Cargo.toml", &g).ok().unwrap();
    assert_eq!(ops.len(), 4);
    assert!(describe(&ops[2]).starts_with("write /p/elfs/x.iid"));
}

#[test]
fn guest_path_without_file_name_is_rejected() {
    for path in ["/t/guest/", "/t/..", "", "."] {
        let g = guest(path, digest(0), ImageIdKind::User(digest(1)));
        match publish_guest("/p/Cargo.toml", &g) {
            Err(BakeError::InvalidGuestPath(p)) => assert_eq!(p, path),
            _ => panic!("expected an invalid path error for {:?}", path),
        }
    }
}

#[test]
fn publishing_twice_gives_identical_files() {
    let guests = vec![
        guest("/t/guest/one", digest(5), ImageIdKind::User(digest(6))),
        guest("/t/guest/two", digest(0), ImageIdKind::Kernel(digest(7))),
    ];
    let ops = publish_guests("/w/pkg/Cargo.toml", &guests).ok().unwrap();
    assert_eq!(ops.len(), 7);
    let mut files = HashMap::new();
    files.insert("/t/guest/one".to_string(), vec![1u8]);
    files.insert("/t/guest/two".to_string(), vec![2u8, 2]);
    run_plan(&mut files, &ops);
    let once = files.clone();
    let again = publish_guests("/w/pkg/Cargo.toml", &guests).ok().unwrap();
    run_plan(&mut files, &again);
    assert_eq!(files, once);
    assert_eq!(files.get("/w/pkg/elfs/one.elf"), Some(&vec![1u8]));
    assert_eq!(files.get("/w/pkg/elfs/two.elf"), Some(&vec![2u8, 2]));
    assert_eq!(files.get("/w/pkg/elfs/one.iid"), Some(&vec![5u8; 32]));
    assert_eq!(files.len(), 2 + 5);
}

#[test]
fn publishing_stops_at_first_invalid_guest() {
    let guests = vec![
        guest("/t/guest/one", digest(5), ImageIdKind::User(digest(6))),
        guest("/t/guest/", digest(0), ImageIdKind::Kernel(digest(7))),
    ];
    match publish_guests("/w/Cargo.toml", &guests) {
        Err(BakeError::InvalidGuestPath(p)) => assert_eq!(p, "/t/guest/"),
        _ => panic!("expected an invalid path error"),
    }
}

#[test]
fn docker_options_present_only_when_requested() {
    let cmd = BakeCommand { features: vec!["f1".to_string(), "f2".to_string()], docker: true };
    let opts = cmd.guest_options(Some("/cwd".to_string())).ok().unwrap();
    assert_eq!(opts.features, vec!["f1".to_string(), "f2".to_string()]);
    assert_eq!(opts.use_docker.map(|d| d.root_dir), Some("/cwd".to_string()));

    let plain = BakeCommand { features: vec![], docker: false };
    let opts = plain.guest_options(Some("/cwd".to_string())).ok().unwrap();
    assert!(opts.use_docker.is_none());
    assert!(opts.features.is_empty());
    let opts = plain.guest_options(None).ok().unwrap();
    assert!(opts.use_docker.is_none());
}

#[test]
fn docker_without_working_directory_fails() {
    let cmd = BakeCommand { features: vec![], docker: true };
    assert!(matches!(cmd.guest_options(None), Err(BakeError::MissingWorkingDirectory)));
}

#[test]
fn path_helpers() {
    assert_eq!(dir_prefix_of("/a/b/Cargo.toml"), "/a/b/");
    assert_eq!(dir_prefix_of("Cargo.toml"), "");
    assert_eq!(file_name_of("/a/b/guest.bin"), "guest.bin");
    assert_eq!(file_name_of("guest"), "guest");
    assert_eq!(file_stem_of("guest.bin"), "guest");
    assert_eq!(file_stem_of("a.b.c"), "a.b");
    assert_eq!(file_stem_of(".hidden"), ".hidden");
    assert_eq!(file_stem_of("plain"), "plain");
    assert!(is_valid_file_name("x"));
    assert!(is_valid_file_name(".x"));
    assert!(is_valid_file_name("..."));
    assert!(!is_valid_file_name(".."));
    assert!(!is_valid_file_name("."));
    assert!(!is_valid_file_name(""));
    assert_eq!(elfs_dir_of("/ws/a/Cargo.toml"), "/ws/a/elfs");
    assert_eq!(elfs_dir_of("Cargo.toml"), "elfs");
    assert_eq!(guest_target_dir("/ws/target"), "/ws/target/guest");
    assert_eq!(guest_target_dir("/ws/target/"), "/ws/target/guest");
    assert_eq!(guest_target_dir(""), "guest");
    assert_eq!(join("a", "b"), "a/b");
}

#[test]
fn digest_bytes_round_trip() {
    let d = Digest { bytes: core::array::from_fn(|i| (i * 3) as u8) };
    let expected: Vec<u8> = (0..32).map(|i| (i * 3) as u8).collect();
    assert_eq!(d.to_bytes(), expected);
}
