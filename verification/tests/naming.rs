use vps_deploy::clock::ClockReading;
use vps_deploy::config::DeployConfig;
use vps_deploy::plan::{
    backup_file_name, build_apply_command, dump_file_name, file_stem, join_remote, DeployPlan,
};
use vps_deploy::tag::{GenerationTag, TagError, TAG_PATTERN};
use vps_deploy::text::trim_trailing_slashes;

fn tag(text: &str) -> GenerationTag {
    GenerationTag::from_text(text).unwrap()
}

#[test]
fn tag_of_the_epoch() {
    assert_eq!(GenerationTag::mint(0, None).unwrap().as_str(), "19700101_000000");
}

#[test]
fn tag_of_a_known_second() {
    assert_eq!(GenerationTag::mint(1_700_000_000, None).unwrap().as_str(), "20231114_221320");
    assert_eq!(GenerationTag::mint(951_782_399, None).unwrap().as_str(), "20000228_235959");
    assert_eq!(GenerationTag::mint(-1, None).unwrap().as_str(), "19691231_235959");
}

#[test]
fn tag_of_the_same_second_collides() {
    let first = GenerationTag::mint(1_700_000_000, None).unwrap();
    assert_eq!(GenerationTag::mint(1_700_000_000, Some(&first)), Err(TagError::Collision));
    let next = GenerationTag::mint(1_700_000_001, Some(&first)).unwrap();
    assert_eq!(next.as_str(), "20231114_221321");
    assert_ne!(next, first);
}

#[test]
fn tag_of_a_year_with_five_digits_is_malformed() {
    assert_eq!(GenerationTag::mint(253_402_300_800, None), Err(TagError::Malformed));
    assert_eq!(GenerationTag::mint(253_402_300_799, None).unwrap().as_str(), "99991231_235959");
}

#[test]
fn tag_of_a_second_without_a_date_is_out_of_range() {
    assert_eq!(GenerationTag::mint(i64::MAX, None), Err(TagError::OutOfRange));
    assert_eq!(GenerationTag::mint(i64::MIN, None), Err(TagError::OutOfRange));
}

#[test]
fn tag_from_stamp_checks_in_order() {
    let previous = tag("20240131_235959");
    assert_eq!(GenerationTag::from_stamp(None, Some(&previous)), Err(TagError::OutOfRange));
    assert_eq!(
        GenerationTag::from_stamp(Some("2024-01-31".to_string()), Some(&previous)),
        Err(TagError::Malformed)
    );
    assert_eq!(
        GenerationTag::from_stamp(Some("20240131_235959".to_string()), Some(&previous)),
        Err(TagError::Collision)
    );
    assert_eq!(
        GenerationTag::from_stamp(Some("20240131_235959".to_string()), None).unwrap(),
        previous
    );
    assert_eq!(
        GenerationTag::from_stamp(Some("20240201_000000".to_string()), Some(&previous))
            .unwrap()
            .as_str(),
        "20240201_000000"
    );
}

#[test]
fn tag_of_now_is_well_formed() {
    let first = GenerationTag::now(None).unwrap();
    assert!(GenerationTag::is_valid(first.as_str()));
    assert_eq!(first.as_str().len(), 15);
    match GenerationTag::now(Some(&first)) {
        Ok(second) => assert_ne!(second, first),
        Err(error) => assert_eq!(error, TagError::Collision),
    }
}

#[test]
fn tag_shape() {
    assert!(GenerationTag::is_valid("20240131_235959"));
    assert!(GenerationTag::is_valid("00000000_000000"));
    assert!(!GenerationTag::is_valid(""));
    assert!(!GenerationTag::is_valid("20240131_23595"));
    assert!(!GenerationTag::is_valid("20240131_2359590"));
    assert!(!GenerationTag::is_valid("20240131-235959"));
    assert!(!GenerationTag::is_valid("2024013_1235959"));
    assert!(!GenerationTag::is_valid("2024013a_235959"));
    assert!(!GenerationTag::is_valid("20240131_23595/"));
    assert!(!GenerationTag::is_valid("20240131_23595:"));
    assert!(!GenerationTag::is_valid("+0240131_235959"));
    assert!(!GenerationTag::is_valid("２0240131_235959"));
    assert!(GenerationTag::from_text("20240131_235959").is_some());
    assert!(GenerationTag::from_text("yesterday").is_none());
    let copy = tag("20240131_235959").clone();
    assert_eq!(copy.as_str(), "20240131_235959");
}

#[test]
fn dump_and_backup_names() {
    let t = tag("20240131_235959");
    assert_eq!(dump_file_name(&t), "dump_20240131_235959.sql");
    assert_eq!(backup_file_name("database.db", &t), "backup_database_20240131_235959.db");
    assert_eq!(backup_file_name("shop.sqlite", &t), "backup_shop_20240131_235959.db");
    assert_eq!(backup_file_name("old.db.db", &t), "backup_old.db_20240131_235959.db");
    assert_eq!(backup_file_name(".db", &t), "backup_.db_20240131_235959.db");
    assert_eq!(backup_file_name("db", &t), "backup_db_20240131_235959.db");
}

#[test]
fn different_tags_give_different_names() {
    let first = tag("20240131_235959");
    let second = tag("20240201_000000");
    assert_ne!(dump_file_name(&first), dump_file_name(&second));
    assert_ne!(backup_file_name("database.db", &first), backup_file_name("database.db", &second));
    assert!(dump_file_name(&first) < dump_file_name(&second));
}

#[test]
fn remote_paths_are_joined_by_one_slash() {
    assert_eq!(join_remote("/srv/data", "database.db"), "/srv/data/database.db");
    assert_eq!(join_remote("/srv/data/", "database.db"), "/srv/data/database.db");
    assert_eq!(join_remote("/srv/data///", "database.db"), "/srv/data/database.db");
    assert_eq!(join_remote("/", "database.db"), "/database.db");
    assert_eq!(join_remote("", "database.db"), "/database.db");
    assert_eq!(join_remote("data", ""), "data/");
}

#[test]
fn apply_command_enters_the_directory_and_feeds_the_dump() {
    assert_eq!(
        build_apply_command("/srv/data/", "database.db", "dump_20240131_235959.sql"),
        "cd /srv/data && sqlite3 database.db < dump_20240131_235959.sql"
    );
}

#[test]
fn plan_of_an_attempt() {
    let config = DeployConfig::from_settings(
        Some("/home/me/app.db".to_string()),
        Some("/srv/data//".to_string()),
        Some("shop.db".to_string()),
    )
    .unwrap();
    let plan = DeployPlan::new(&config, &tag("20240131_235959"));
    assert_eq!(plan.local_database(), "/home/me/app.db");
    assert_eq!(plan.artifact(), "dump_20240131_235959.sql");
    assert_eq!(plan.live_path(), "/srv/data/shop.db");
    assert_eq!(plan.backup_path(), "/srv/data/backup_shop_20240131_235959.db");
    assert_eq!(plan.remote_dump_path(), "/srv/data/dump_20240131_235959.sql");
    assert_eq!(plan.command(), "cd /srv/data && sqlite3 shop.db < dump_20240131_235959.sql");
    assert_ne!(plan.backup_path(), plan.live_path());
    assert_ne!(plan.backup_path(), plan.remote_dump_path());
    assert_ne!(plan.remote_dump_path(), plan.live_path());
    let later = DeployPlan::new(&config, &tag("20240201_000000"));
    assert_ne!(later.artifact(), plan.artifact());
    assert_ne!(later.backup_path(), plan.backup_path());
    assert_ne!(later.remote_dump_path(), plan.remote_dump_path());
    assert_eq!(later.live_path(), plan.live_path());
}

#[test]
fn trailing_slashes_are_trimmed() {
    assert_eq!(trim_trailing_slashes("/srv/data///"), "/srv/data");
    assert_eq!(trim_trailing_slashes("/srv/data"), "/srv/data");
    assert_eq!(trim_trailing_slashes("///"), "");
    assert_eq!(trim_trailing_slashes(""), "");
    assert_eq!(trim_trailing_slashes("/a/ /"), "/a/ ");
    assert_eq!(trim_trailing_slashes("/dönér/"), "/dönér");
}

#[test]
fn stem_is_the_name_without_its_extension() {
    assert_eq!(file_stem("database.db"), "database");
    assert_eq!(file_stem("shop.sqlite"), "shop");
    assert_eq!(file_stem("archive.tar.gz"), "archive.tar");
    assert_eq!(file_stem("database"), "database");
    assert_eq!(file_stem(".hidden"), ".hidden");
    assert_eq!(file_stem(".hidden.db"), ".hidden");
    assert_eq!(file_stem("trailing."), "trailing");
    assert_eq!(file_stem("a..b"), "a.");
    assert_eq!(file_stem("é.db"), "é");
    assert_eq!(file_stem("."), ".");
    assert_eq!(file_stem(""), "");
    for name in ["database.db", "shop.sqlite", "a.b.c", "plain", ".hidden", ".hidden.db", "x."] {
        let expected = std::path::Path::new(name).file_stem().unwrap().to_str().unwrap();
        assert_eq!(file_stem(name), expected);
    }
}

#[test]
fn a_reading_falls_in_the_second_it_has_begun() {
    assert_eq!(ClockReading::After { secs: 0, nanos: 0 }.unix_second(), 0);
    assert_eq!(ClockReading::After { secs: 1_700_000_000, nanos: 999_999_999 }.unix_second(), 1_700_000_000);
    assert_eq!(ClockReading::Before { secs: 0, nanos: 0 }.unix_second(), 0);
    assert_eq!(ClockReading::Before { secs: 0, nanos: 500_000_000 }.unix_second(), -1);
    assert_eq!(ClockReading::Before { secs: 1, nanos: 0 }.unix_second(), -1);
    assert_eq!(ClockReading::Before { secs: 1, nanos: 1 }.unix_second(), -2);
    assert_eq!(ClockReading::Before { secs: 86_400, nanos: 0 }.unix_second(), -86_400);
}

#[test]
fn a_reading_beyond_the_range_is_given_the_farthest_second() {
    let max = i64::MAX as u64;
    assert_eq!(ClockReading::After { secs: max, nanos: 0 }.unix_second(), i64::MAX);
    assert_eq!(ClockReading::After { secs: max + 1, nanos: 0 }.unix_second(), i64::MAX);
    assert_eq!(ClockReading::After { secs: u64::MAX, nanos: 7 }.unix_second(), i64::MAX);
    assert_eq!(ClockReading::Before { secs: max, nanos: 0 }.unix_second(), -i64::MAX);
    assert_eq!(ClockReading::Before { secs: max, nanos: 1 }.unix_second(), i64::MIN);
    assert_eq!(ClockReading::Before { secs: max + 1, nanos: 0 }.unix_second(), i64::MIN);
    assert_eq!(ClockReading::Before { secs: max + 1, nanos: 1 }.unix_second(), i64::MIN);
    assert_eq!(ClockReading::Before { secs: u64::MAX, nanos: 0 }.unix_second(), i64::MIN);
}

#[test]
fn tag_of_a_reading() {
    let after = ClockReading::After { secs: 1_700_000_000, nanos: 123 };
    assert_eq!(GenerationTag::at(after, None).unwrap().as_str(), "20231114_221320");
    let just_before = ClockReading::Before { secs: 0, nanos: 1 };
    assert_eq!(GenerationTag::at(just_before, None).unwrap().as_str(), "19691231_235959");
    let a_day_before = ClockReading::Before { secs: 86_400, nanos: 0 };
    let tag = GenerationTag::at(a_day_before, None).unwrap();
    assert_eq!(tag.as_str(), "19691231_000000");
    assert_eq!(GenerationTag::at(a_day_before, Some(&tag)), Err(TagError::Collision));
    let far = ClockReading::After { secs: u64::MAX, nanos: 0 };
    assert_eq!(GenerationTag::at(far, None), Err(TagError::OutOfRange));
    let far_back = ClockReading::Before { secs: u64::MAX, nanos: 0 };
    assert_eq!(GenerationTag::at(far_back, None), Err(TagError::OutOfRange));
}

#[test]
fn tag_pattern_writes_date_then_time() {
    assert_eq!(TAG_PATTERN, "%Y%m%d_%H%M%S");
    assert_eq!(GenerationTag::mint(981_173_106, None).unwrap().as_str(), "20010203_040506");
}
