use std::cmp::Reverse;

use trashcan::error::Error;
use trashcan::mount_points::{mount_point_of_file, order_mount_points, MountPoint};
use trashcan::trash::{select_trash, Trash};

fn mount(name: &str, prefix: &str) -> MountPoint {
    MountPoint { fs_name: name.into(), fs_path_prefix: prefix.into() }
}

#[test]
fn mount_point_cmp() {
    let first = MountPoint {
        fs_name: "portal".into(),
        fs_path_prefix: "/run/user/1000".into(),
    };

    let second = MountPoint {
        fs_name: "portal".into(),
        fs_path_prefix: "/run/user/1001/doc".into(),
    };

    assert!(first < second);

    assert!(Reverse(first) > Reverse(second))
}

#[test]
fn mount_point_neq() {
    // Same `fs_name` but differing prefix
    let first = MountPoint {
        fs_name: "portal".into(),
        fs_path_prefix: "/run/user/1000/doc".into(),
    };

    let second = MountPoint {
        fs_name: "portal".into(),
        fs_path_prefix: "/run/user/1001/doc".into(),
    };

    assert!(first != second);

    // Differing `fs_name` but same prefix
    let first = MountPoint {
        fs_name: "portal2".into(),
        fs_path_prefix: "/run/user/1000/doc".into(),
    };

    let second = MountPoint {
        fs_name: "portal".into(),
        fs_path_prefix: "/run/user/1000/doc".into(),
    };

    assert!(first != second);

    // Both properties differ
    let first = MountPoint {
        fs_name: "portal2".into(),
        fs_path_prefix: "/run/user/1000/doc".into(),
    };

    let second = MountPoint {
        fs_name: "portal".into(),
        fs_path_prefix: "/run/user/1001/doc".into(),
    };

    assert!(first != second);
}

#[test]
fn equal_mount_points_are_equal() {
    assert!(mount("portal", "/run/user/1000/doc") == mount("portal", "/run/user/1000/doc"));
}

#[test]
fn probing_returns_ordered_mount_points() {
    let mount_points = order_mount_points(vec![
        mount("root", "/"),
        mount("data", "/mnt/data"),
        mount("proc", "/proc"),
        mount("doc", "/run/user/1000/doc"),
        mount("sys", "/sys"),
    ]);
    assert!(mount_points.windows(2).all(|w| w[0] >= w[1]));
    let names: Vec<&str> = mount_points.iter().map(|m| m.fs_name.as_str()).collect();
    // Of two mount points of equal depth, the first in the table stays first.
    assert_eq!(names, vec!["doc", "data", "proc", "sys", "root"]);
}

#[test]
fn ordering_no_mount_points_gives_none() {
    assert!(order_mount_points(Vec::new()).is_empty());
}

#[test]
fn deeper_mount_point_wins() {
    let mount_points = order_mount_points(vec![mount("root", "/"), mount("data", "/mnt/data")]);
    let m = mount_point_of_file(b"/mnt/data/foo", &mount_points).unwrap();
    assert_eq!(m.fs_name, "data");
    let m = mount_point_of_file(b"/mnt/other/foo", &mount_points).unwrap();
    assert_eq!(m.fs_name, "root");
}

#[test]
fn mount_point_matches_whole_components() {
    let mount_points = order_mount_points(vec![mount("root", "/"), mount("data", "/mnt/data")]);
    let m = mount_point_of_file(b"/mnt/database/foo", &mount_points).unwrap();
    assert_eq!(m.fs_name, "root");
    let m = mount_point_of_file(b"/mnt/data", &mount_points).unwrap();
    assert_eq!(m.fs_name, "data");
}

#[test]
fn no_mount_point_for_relative_path() {
    let mount_points = order_mount_points(vec![mount("root", "/"), mount("data", "/mnt/data")]);
    assert!(mount_point_of_file(b"relative/foo", &mount_points).is_none());
    assert!(mount_point_of_file(b"/anything", &Vec::new()).is_none());
}

#[test]
fn home_paths_go_to_home_trash() {
    let mount_points = order_mount_points(vec![mount("root", "/"), mount("home", "/home")]);
    let t = select_trash(b"/home/ana/notes.txt", b"/home/ana", b"/home/ana/.local/share/Trash", &mount_points)
        .unwrap();
    let expected = Trash::new(b"/home/ana/.local/share/Trash");
    assert_eq!(t.files, expected.files);
    assert_eq!(t.info, expected.info);
    assert_eq!(t.directory_sizes, expected.directory_sizes);
}

#[test]
fn other_paths_go_to_mount_trash() {
    let mount_points = order_mount_points(vec![mount("root", "/"), mount("data", "/mnt/data")]);
    let t = select_trash(b"/mnt/data/foo", b"/home/ana", b"/home/ana/.local/share/Trash", &mount_points)
        .unwrap();
    assert_eq!(t.files, b"/mnt/data/.Trash/files".to_vec());
    assert_eq!(t.info, b"/mnt/data/.Trash/info".to_vec());
    assert_eq!(t.directory_sizes, b"/mnt/data/.Trash/directorysizes".to_vec());
    let t = select_trash(b"/tmp/x/dummy", b"/home/ana", b"/home/ana/.local/share/Trash", &mount_points)
        .unwrap();
    assert_eq!(t.files, b"/.Trash/files".to_vec());
}

#[test]
fn unmounted_path_is_an_error() {
    let mount_points = order_mount_points(vec![mount("data", "/mnt/data")]);
    let r = select_trash(b"/tmp/x", b"/home/ana", b"/home/ana/.local/share/Trash", &mount_points);
    assert_eq!(r.unwrap_err(), Error::MountPointNotFound(b"/tmp/x".to_vec()));
}
