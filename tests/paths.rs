use trashcan::decimal::decimal_bytes;
use trashcan::home::home_trash_path;
use trashcan::info_file::{build_info_file, make_info_file_path};
use trashcan::path::{file_name, join, starts_with};
use trashcan::stat::Stat;
use trashcan::trash::{directory_size, make_unique_file_name, total_block_count, Trash};
use trashcan::error::Error;

fn names(list: &[&str]) -> Vec<Vec<u8>> {
    list.iter().map(|n| n.as_bytes().to_vec()).collect()
}

#[test]
fn test_make_unique_file_name() {
    let mut dir = names(&["foo"]);

    let new_file_name = make_unique_file_name(b"foo", &dir);
    assert_eq!(new_file_name, b"foo-1".to_vec());

    dir.push(b"foo-1".to_vec());

    let new_file_name = make_unique_file_name(b"foo", &dir);
    assert_eq!(new_file_name, b"foo-2".to_vec());

    println!("{:?}", new_file_name);
}

#[test]
fn free_name_is_kept() {
    assert_eq!(make_unique_file_name(b"foo", &names(&["bar", "foo-1"])), b"foo".to_vec());
    assert_eq!(make_unique_file_name(b"foo", &Vec::new()), b"foo".to_vec());
}

#[test]
fn long_chain_of_names() {
    let mut dir = names(&["foo"]);
    for i in 1..=12 {
        dir.push(format!("foo-{}", i).into_bytes());
    }
    assert_eq!(make_unique_file_name(b"foo", &dir), b"foo-13".to_vec());
}

#[test]
fn gap_in_chain_is_filled() {
    let dir = names(&["foo", "foo-1", "foo-3"]);
    assert_eq!(make_unique_file_name(b"foo", &dir), b"foo-2".to_vec());
}

#[test]
fn suffix_goes_after_extension() {
    let dir = names(&["notes.txt"]);
    assert_eq!(make_unique_file_name(b"notes.txt", &dir), b"notes.txt-1".to_vec());
}

#[test]
fn decimal_numerals() {
    assert_eq!(decimal_bytes(0), b"0".to_vec());
    assert_eq!(decimal_bytes(7), b"7".to_vec());
    assert_eq!(decimal_bytes(10), b"10".to_vec());
    assert_eq!(decimal_bytes(4096), b"4096".to_vec());
    assert_eq!(decimal_bytes(u64::MAX as u128), u64::MAX.to_string().into_bytes());
}

#[test]
fn joining_paths() {
    assert_eq!(join(b"/tmp", b"files"), b"/tmp/files".to_vec());
    assert_eq!(join(b"/tmp/", b"files"), b"/tmp/files".to_vec());
    assert_eq!(join(b"", b"files"), b"files".to_vec());
    assert_eq!(join(b"/tmp", b"/etc"), b"/etc".to_vec());
}

#[test]
fn file_names() {
    assert_eq!(file_name(b"/tmp/x/dummy"), Some(b"dummy".to_vec()));
    assert_eq!(file_name(b"/tmp/x/"), Some(b"x".to_vec()));
    assert_eq!(file_name(b"dummy"), Some(b"dummy".to_vec()));
    assert_eq!(file_name(b"/"), None);
    assert_eq!(file_name(b""), None);
    assert_eq!(file_name(b"/tmp/.."), None);
}

#[test]
fn prefixes_by_component() {
    assert!(starts_with(b"/home/ana/x", b"/home/ana"));
    assert!(starts_with(b"/home/ana", b"/home/ana"));
    assert!(starts_with(b"/home/ana", b"/"));
    assert!(!starts_with(b"/home/anabel", b"/home/ana"));
    assert!(!starts_with(b"/home", b"/home/ana"));
}

#[test]
fn trash_layout() {
    let t = Trash::new(b"/home/ana/.local/share/Trash");
    assert_eq!(t.files, b"/home/ana/.local/share/Trash/files".to_vec());
    assert_eq!(t.directory_sizes, b"/home/ana/.local/share/Trash/directorysizes".to_vec());
    assert_eq!(t.info, b"/home/ana/.local/share/Trash/info".to_vec());
}

#[test]
fn home_trash_root() {
    assert_eq!(home_trash_path(None, b"/home/ana"), b"/home/ana/.local/share/Trash".to_vec());
    assert_eq!(home_trash_path(Some(&b"/data"[..]), b"/home/ana"), b"/data/Trash".to_vec());
    assert_eq!(home_trash_path(Some(&b""[..]), b"/home/ana"), b"/home/ana/.local/share/Trash".to_vec());
}

#[test]
fn info_file_path_and_contents() {
    let t = Trash::new(b"/tmp/trash");
    assert_eq!(make_info_file_path(b"dummy", &t.info), b"/tmp/trash/info/dummy.trashinfo".to_vec());
    let info = build_info_file(b"/tmp/x/dummy", b"dummy", &t, b"2021-03-04T05:06:07");
    assert_eq!(info.path, b"/tmp/trash/info/dummy.trashinfo".to_vec());
    assert_eq!(
        String::from_utf8(info.contents).unwrap(),
        "[Trash Info]\nPath=/tmp/x/dummy\nDeletionDate=2021-03-04T05:06:07\n"
    );
}

#[test]
fn directory_sizes_add_blocks() {
    let entries = vec![
        Stat::new(0o040755, 8, 0, 0),
        Stat::new(0o100644, 16, 0, 0),
        Stat::new(0o100644, 0, 0, 0),
        Stat::new(0o100644, 24, 0, 0),
    ];
    assert_eq!(directory_size(b"/d", true, &entries), Ok(48));
    assert_eq!(directory_size(b"/d", true, &Vec::new()), Ok(0));
    assert_eq!(directory_size(b"/f", false, &entries), Err(Error::NotADirectory(b"/f".to_vec())));
}

#[test]
fn block_sum_saturates() {
    let entries = vec![Stat::new(0o100644, i64::MAX, 0, 0), Stat::new(0o100644, i64::MAX, 0, 0), Stat::new(0o100644, 2, 0, 0)];
    assert_eq!(total_block_count(&entries), u64::MAX);
    let entries = vec![Stat::new(0o100644, -5, 0, 0), Stat::new(0o100644, 3, 0, 0)];
    assert_eq!(total_block_count(&entries), 3);
}

#[test]
fn stat_fields() {
    let s = Stat::new(0o100754, 16, 100, 200);
    assert_eq!(s.mode(), 0o100754);
    assert_eq!(s.blocks(), 16);
    assert_eq!(s.accessed(), 100);
    assert_eq!(s.modified(), 200);
    assert_eq!(s.permission_bits(), 0o754);
    assert!(!s.is_dir());
    assert!(Stat::new(0o041777, 8, 0, 0).is_dir());
    assert_eq!(Stat::new(0o041777, 8, 0, 0).permission_bits(), 0o1777);
}

