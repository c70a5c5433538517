use rocker::error::RuntimeError;
use rocker::image::info::{default_tag, ImageInfo};
use rocker::image::store::ImageStore;
use std::hash::{Hash, Hasher};

#[test]
fn test_image_info() {
    let info = ImageInfo::new("busybox".to_string(), "latest".to_string(), 1024);

    assert_eq!(info.name, "busybox");
    assert_eq!(info.tag, "latest");
    assert_eq!(info.size, 1024);
    assert_eq!(info.full_name(), "busybox:latest");
    assert!(!info.id.is_empty());
}

#[test]
fn test_generate_id() {
    let id1 = ImageInfo::generate_id("busybox", "latest");
    let id2 = ImageInfo::generate_id("busybox", "latest");
    let id3 = ImageInfo::generate_id("alpine", "latest");

    assert_eq!(id1, id2); // Same name:tag should produce same ID
    assert_ne!(id1, id3); // Different name should produce different ID
    assert_eq!(id1.len(), 12); // ID should be 12 characters
}

#[test]
fn test_format_size() {
    assert_eq!(ImageStore::format_size(500), "500B");
    assert_eq!(ImageStore::format_size(2048), "2.0KB");
    assert_eq!(ImageStore::format_size(2_621_440), "2.5MB");
    assert_eq!(ImageStore::format_size(1_073_741_824), "1.0GB");
}

#[test]
fn format_size_edges() {
    assert_eq!(ImageStore::format_size(0), "0B");
    assert_eq!(ImageStore::format_size(1), "1B");
    assert_eq!(ImageStore::format_size(1023), "1023B");
    assert_eq!(ImageStore::format_size(1024), "1.0KB");
    assert_eq!(ImageStore::format_size(1536), "1.5KB");
    assert_eq!(ImageStore::format_size(1_048_575), "1024.0KB");
    assert_eq!(ImageStore::format_size(1_048_576), "1.0MB");
    assert_eq!(ImageStore::format_size(1_073_741_823), "1024.0MB");
    assert_eq!(ImageStore::format_size(5_368_709_120), "5.0GB");
    assert_eq!(ImageStore::format_size(u64::MAX), "17179869184.0GB");
}

#[test]
fn format_size_rounds_to_the_nearest_tenth() {
    assert_eq!(ImageStore::format_size(1075), "1.0KB");
    assert_eq!(ImageStore::format_size(1076), "1.1KB");
    // 1.25 KB and 1.75 KB lie between two tenths: the even one is taken
    assert_eq!(ImageStore::format_size(1280), "1.2KB");
    assert_eq!(ImageStore::format_size(1792), "1.8KB");
    assert_eq!(ImageStore::format_size(1100), "1.1KB");
    assert_eq!(ImageStore::format_size(10 * 1024 + 51), "10.0KB");
    assert_eq!(ImageStore::format_size(10 * 1024 + 52), "10.1KB");
}

#[test]
fn image_id_is_twelve_hex_digits() {
    for (name, tag) in [("busybox", "latest"), ("alpine", "3.19"), ("", ""), ("名前", "タグ")] {
        let id = ImageInfo::generate_id(name, tag);
        assert_eq!(id.chars().count(), 12);
        assert!(id.chars().all(|c| c.is_ascii_digit() || ('a'..='f').contains(&c)));
    }
    // the id is made from the full name
    assert_eq!(ImageInfo::generate_id("a:b", "c"), ImageInfo::generate_id("a", "b:c"));
    assert_ne!(ImageInfo::generate_id("busybox", "latest"), ImageInfo::generate_id("busybox", "1"));
}

#[test]
fn image_id_follows_the_standard_hasher() {
    let mut hasher = std::collections::hash_map::DefaultHasher::new();
    "busybox:latest".to_string().hash(&mut hasher);
    let expected = format!("{:012x}", hasher.finish() & 0xffff_ffff_ffff);
    assert_eq!(ImageInfo::generate_id("busybox", "latest"), expected);
}

#[test]
fn image_record_fields() {
    let info = ImageInfo::with_time(
        "alpine".to_string(),
        "3.19".to_string(),
        7,
        "2024-01-01 12:00:00".to_string(),
    );
    assert_eq!(info.name, "alpine");
    assert_eq!(info.tag, "3.19");
    assert_eq!(info.size, 7);
    assert_eq!(info.created_time, "2024-01-01 12:00:00");
    assert_eq!(info.id, ImageInfo::generate_id("alpine", "3.19"));
    assert_eq!(info.to_string(), "alpine:3.19");
    let copy = info.duplicate();
    assert_eq!(copy.full_name(), "alpine:3.19");
    assert_eq!(copy.id, info.id);
    assert_eq!(ImageInfo::current_time().len(), 19);
}

#[test]
fn missing_tag_is_latest() {
    assert_eq!(default_tag(), "latest");
    assert_eq!(
        ImageInfo::parse_reference("busybox"),
        ("busybox".to_string(), "latest".to_string())
    );
    assert_eq!(ImageInfo::parse_reference(""), ("".to_string(), "latest".to_string()));
    assert_eq!(
        ImageInfo::parse_reference("busybox:1.36"),
        ("busybox".to_string(), "1.36".to_string())
    );
    assert_eq!(ImageInfo::parse_reference("busybox:"), ("busybox".to_string(), "".to_string()));
    assert_eq!(ImageInfo::parse_reference(":x"), ("".to_string(), "x".to_string()));
    assert_eq!(ImageInfo::parse_reference("a:b:c"), ("a".to_string(), "b:c".to_string()));
}

#[test]
fn image_paths() {
    assert_eq!(ImageStore::image_dir("busybox", "latest"), "/var/lib/rocker/images/busybox/latest");
    assert_eq!(
        ImageStore::rootfs_dir("busybox", "latest"),
        "/var/lib/rocker/images/busybox/latest/rootfs"
    );
    assert_eq!(
        ImageStore::metadata_path("busybox", "latest"),
        "/var/lib/rocker/images/busybox/latest/image.json"
    );
    assert_eq!(
        ImageStore::rootfs_path("busybox", "latest", true).unwrap(),
        "/var/lib/rocker/images/busybox/latest/rootfs"
    );
    match ImageStore::rootfs_path("busybox", "latest", false) {
        Err(RuntimeError::MetadataNotFound { name }) => assert_eq!(name, "busybox:latest"),
        _ => panic!("a file tree that is not there is not found"),
    }
}

#[test]
fn images_with_other_names_have_other_directories() {
    let all = [("a", "b"), ("a", "c"), ("b", "a"), ("ab", "c"), ("a", "bc")];
    for (i, (name, tag)) in all.iter().enumerate() {
        for (j, (other_name, other_tag)) in all.iter().enumerate() {
            assert_eq!(
                ImageStore::image_dir(name, tag) == ImageStore::image_dir(other_name, other_tag),
                i == j
            );
        }
    }
}

#[test]
fn image_load_and_delete() {
    let info = ImageInfo::with_time("a".to_string(), "b".to_string(), 1, "t".to_string());
    assert_eq!(ImageStore::load("a", "b", Some(info)).unwrap().full_name(), "a:b");
    assert!(matches!(
        ImageStore::load("a", "b", None),
        Err(RuntimeError::MetadataNotFound { name }) if name == "a:b"
    ));
    let plan = ImageStore::delete("a", "b", true).unwrap();
    assert_eq!(plan.image_dir, "/var/lib/rocker/images/a/b");
    assert_eq!(plan.name_dir, "/var/lib/rocker/images/a");
    assert!(matches!(
        ImageStore::delete("a", "b", false),
        Err(RuntimeError::MetadataNotFound { name }) if name == "a:b"
    ));
}

#[test]
fn import_plan() {
    let plan = ImageStore::import("busybox.tar", "busybox", "latest", true).unwrap();
    assert_eq!(plan.image_dir, "/var/lib/rocker/images/busybox/latest");
    assert_eq!(plan.rootfs_dir, "/var/lib/rocker/images/busybox/latest/rootfs");
    assert_eq!(
        plan.tar_args,
        vec!["-xf", "busybox.tar", "-C", "/var/lib/rocker/images/busybox/latest/rootfs"]
    );
    assert_eq!(plan.metadata_path, "/var/lib/rocker/images/busybox/latest/image.json");
    match ImageStore::import("busybox.tar", "busybox", "latest", false) {
        Err(RuntimeError::FileNotFound { path }) => assert_eq!(path, "busybox.tar"),
        _ => panic!("an archive that is not there cannot be imported"),
    }
    assert!(ImageStore::extracted(true, "").is_ok());
    match ImageStore::extracted(false, "tar: short read") {
        Err(RuntimeError::TarFailed { stderr }) => assert_eq!(stderr, "tar: short read"),
        _ => panic!("a failed run of the archive tool fails the import"),
    }
}

#[test]
fn import_then_list_shows_the_image() {
    let plan = ImageStore::import("busybox.tar", "busybox", "latest", true).unwrap();
    assert!(plan.rootfs_dir.ends_with("/busybox/latest/rootfs"));
    let info = ImageStore::imported_record("busybox", "latest", &vec![1_000_000, 200_000, 50]);
    assert_eq!(info.size, 1_200_050);
    assert_eq!(info.id, ImageInfo::generate_id("busybox", "latest"));
    let listed = ImageStore::list_all(vec![info]);
    assert_eq!(listed.len(), 1);
    assert_eq!(listed[0].name, "busybox");
    assert_eq!(listed[0].tag, "latest");
    assert!(listed[0].size > 0);
    assert_eq!(ImageStore::format_size(listed[0].size), "1.1MB");
}

#[test]
fn dir_size_is_the_sum() {
    assert_eq!(ImageStore::calculate_dir_size(&vec![]), 0);
    assert_eq!(ImageStore::calculate_dir_size(&vec![0]), 0);
    assert_eq!(ImageStore::calculate_dir_size(&vec![1, 2, 3]), 6);
    assert_eq!(ImageStore::calculate_dir_size(&vec![u64::MAX - 1, 1]), u64::MAX);
    assert_eq!(ImageStore::calculate_dir_size(&vec![u64::MAX, 1, 5]), u64::MAX);
}

fn made(name: &str, time: &str) -> ImageInfo {
    ImageInfo::with_time(name.to_string(), "latest".to_string(), 0, time.to_string())
}

#[test]
fn images_are_listed_newest_first() {
    let found = vec![
        made("b", "2024-01-02 00:00:00"),
        made("a", "2024-01-01 00:00:00"),
        made("d", "2024-03-01 00:00:00"),
        made("c", "2024-01-02 00:00:00"),
        made("e", "2023-12-31 23:59:59"),
    ];
    let listed = ImageStore::list_all(found);
    let names: Vec<&str> = listed.iter().map(|i| i.name.as_str()).collect();
    // b and c were made at the same time and keep their order
    assert_eq!(names, vec!["d", "b", "c", "a", "e"]);
    assert!(ImageStore::list_all(vec![]).is_empty());
}

#[test]
fn images_made_at_one_time_keep_their_order() {
    let found = vec![made("x", "t"), made("y", "t"), made("z", "t")];
    let listed = ImageStore::list_all(found);
    let names: Vec<&str> = listed.iter().map(|i| i.name.as_str()).collect();
    assert_eq!(names, vec!["x", "y", "z"]);
    // times are ordered as texts: a longer text comes after its own start
    let listed = ImageStore::list_all(vec![made("1", "ab"), made("2", "abc"), made("3", "")]);
    let names: Vec<&str> = listed.iter().map(|i| i.name.as_str()).collect();
    assert_eq!(names, vec!["2", "1", "3"]);
}
