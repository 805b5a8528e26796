use fortify::captcha::ammo_box::{AmmoBox, AmmoBoxConfig, PregenCaptcha};
use fortify::captcha::spool::{free_gigabytes, bytes_before, is_spool_file, load_from_disk, sort_names, spool_file_name, LoadProgress};
use fortify::types::CaptchaDifficulty;
use fortify::routes::get_stats;
use fortify::types::ThreatLevel;
use std::path::Path;

#[test]
fn spool_files_are_named_by_time() {
    assert_eq!(spool_file_name(1_700_000_000_123), "ammo_1700000000123.bin");
    assert_eq!(spool_file_name(0), "ammo_0.bin");
    assert_eq!(spool_file_name(-5), "ammo_-5.bin");
    assert_eq!(spool_file_name(i64::MIN), "ammo_-9223372036854775808.bin");
    assert_eq!(spool_file_name(i64::MAX), "ammo_9223372036854775807.bin");
}

#[test]
fn spool_files_have_the_extension_bin() {
    for name in ["ammo_1.bin", "a.bin", ".bin", "bin", "a.bin.tmp", "a.tmp.bin", "a.", "a..bin", "", ".", "ammo_1.BIN", "x.binx", ".a.bin"] {
        let expected = Path::new(name).extension().is_some_and(|e| e == "bin");
        assert_eq!(is_spool_file(name), expected, "{:?}", name);
    }
}

#[test]
fn names_order_by_bytes() {
    for (a, b) in [("", ""), ("", "a"), ("a", ""), ("a", "a"), ("a", "b"), ("b", "a"), ("ab", "a"), ("a", "ab"), ("é", "z"), ("Z", "a")] {
        assert_eq!(bytes_before(a.as_bytes(), b.as_bytes()), a.as_bytes() <= b.as_bytes(), "{:?} {:?}", a, b);
    }
}

fn names(list: &[&str]) -> Vec<String> {
    list.iter().map(|s| s.to_string()).collect()
}

#[test]
fn names_are_sorted() {
    let input = names(&["ammo_30.bin", "ammo_100.bin", "readme", "ammo_20.bin", "ammo_20.bin", ""]);
    let mut expected = input.clone();
    expected.sort();
    assert_eq!(sort_names(&input), expected);
    assert!(sort_names(&Vec::new()).is_empty());
}

#[test]
fn oldest_spool_files_are_loaded_first() {
    let input = names(&["ammo_3.bin", "notes.txt", "ammo_1.bin", "ammo_2.bin", "ammo_4.bin"]);
    assert_eq!(load_from_disk(&input, 1000), names(&["ammo_1.bin", "ammo_2.bin", "ammo_3.bin", "ammo_4.bin"]));
    assert_eq!(load_from_disk(&input, 2), names(&["ammo_1.bin", "ammo_2.bin"]));
    // The limit counts entries, spool files or not.
    let input = names(&["b.bin", "a.txt", "c.bin"]);
    assert_eq!(load_from_disk(&input, 2), names(&["b.bin"]));
    assert!(load_from_disk(&input, 0).is_empty());
}

fn item(answer: &str) -> PregenCaptcha {
    PregenCaptcha {
        answer: answer.to_string(),
        image_data: String::new(),
        difficulty: CaptchaDifficulty::Medium,
        generated_at: 0,
    }
}

fn batch(from: usize, count: usize) -> Vec<PregenCaptcha> {
    (from..from + count).map(|i| item(&i.to_string())).collect()
}

fn pool(capacity: usize) -> AmmoBox {
    AmmoBox::new(AmmoBoxConfig { ram_capacity: capacity, ..Default::default() }, 0)
}

#[test]
fn loading_stops_at_the_limit() {
    let mut ammo = pool(100);
    let mut progress = LoadProgress::start(5);
    assert_eq!((progress.loaded(), progress.max_count(), progress.room()), (0, 5, 5));
    assert!(progress.goes_on());
    assert_eq!(ammo.load_batch(batch(0, 3), &mut progress), 3);
    assert_eq!((progress.loaded(), progress.room()), (3, 2));
    assert!(progress.goes_on());
    // A file of ten carries the load to the limit and not past it.
    assert_eq!(ammo.load_batch(batch(3, 10), &mut progress), 2);
    assert_eq!((progress.loaded(), progress.room()), (5, 0));
    assert!(!progress.goes_on());
    assert_eq!(ammo.load_batch(batch(13, 4), &mut progress), 0);
    assert_eq!(progress.loaded(), 5);
    assert_eq!(ammo.len(), 5);
    assert_eq!(ammo.get_stats().loaded_from_disk, 5);
    for expected in ["0", "1", "2", "3", "4"] {
        assert_eq!(ammo.pop().unwrap().answer, expected);
    }
    assert!(!LoadProgress::start(0).goes_on());
}

#[test]
fn loading_stops_where_the_pool_is_full() {
    let mut ammo = pool(4);
    assert!(ammo.push(item("x")).is_ok());
    let mut progress = LoadProgress::start(1000);
    assert_eq!(ammo.load_batch(batch(0, 10), &mut progress), 3);
    assert_eq!(progress.loaded(), 3);
    assert_eq!(ammo.len(), 4);
    assert_eq!(ammo.load_batch(batch(10, 2), &mut progress), 0);
    assert_eq!(ammo.get_stats().loaded_from_disk, 3);
    assert_eq!(ammo.disk_cache_path(), "/var/lib/cerberus/ammo");
}

#[test]
fn stats_endpoint() {
    let s = get_stats("node-1", ThreatLevel::new(4));
    assert_eq!((s.node_id.as_str(), s.threat_level, s.version), ("node-1", 4, "0.1.0"));
}

#[test]
fn free_space_is_read_from_the_last_line() {
    let report = "Filesystem     1024-blocks     Used Available Capacity Mounted on\n/dev/sda1        102400000 50000000  52428800      49% /\n";
    assert_eq!(free_gigabytes(report), Some(50));
    assert_eq!(free_gigabytes("a b c 1048575 e f"), Some(0));
    assert_eq!(free_gigabytes("a b c 1048576"), Some(1));
    assert_eq!(free_gigabytes("a b c 18446744073709551615 x"), Some(17592186044415));
    assert_eq!(free_gigabytes(""), None);
    assert_eq!(free_gigabytes("a b c"), None);
    assert_eq!(free_gigabytes("a b c -"), None);
    assert_eq!(free_gigabytes("a b c 7\nshort row"), None);
    assert_eq!(free_gigabytes("a b c 18446744073709551616"), None);
}
