use readlater_sync::minmax::create_min_max;
use readlater_sync::page::build_parameters;
use readlater_sync::render::{backup_path, data_path, param_path, render_i64, render_u64};

#[test]
fn unsigned_numbers_in_decimal() {
    assert_eq!(render_u64(0), "0");
    assert_eq!(render_u64(9), "9");
    assert_eq!(render_u64(10), "10");
    assert_eq!(render_u64(1_704_067_200), "1704067200");
    assert_eq!(render_u64(u64::MAX), "18446744073709551615");
}

#[test]
fn signed_numbers_in_decimal() {
    assert_eq!(render_i64(0), "0");
    assert_eq!(render_i64(-1), "-1");
    assert_eq!(render_i64(i64::MAX), "9223372036854775807");
    assert_eq!(render_i64(i64::MIN), "-9223372036854775808");
}

#[test]
fn rendering_agrees_with_the_standard_formatter() {
    for n in [0u64, 1, 7, 10, 99, 100, 101, 12345, 1 << 32, u64::MAX - 1] {
        assert_eq!(render_u64(n), n.to_string());
        assert_eq!(render_i64(-(n as i64 / 2)), (-(n as i64 / 2)).to_string());
    }
}

#[test]
fn file_paths() {
    assert_eq!(data_path("/var/sync"), "/var/sync/data.json");
    assert_eq!(param_path("/var/sync"), "/var/sync/param.json");
    assert_eq!(data_path(""), "/data.json");
}

#[test]
fn backup_paths_carry_prefix_and_time() {
    assert_eq!(
        backup_path("/var/sync", "data", 1_700_000_000),
        "/var/sync/backup/data_1700000000.json"
    );
    assert_eq!(backup_path("rep", "param", 0), "rep/backup/param_0.json");
    assert_eq!(backup_path("rep", "param", -5), "rep/backup/param_-5.json");
}

#[test]
fn tracker_as_text() {
    let mut m = create_min_max();
    assert_eq!(m.to_text(), "(0,0,true)");
    m.add(7);
    m.add(3);
    assert_eq!(m.to_text(), "(3,7,false)");
    m.add(-12);
    assert_eq!(m.to_text(), "(-12,7,false)");
}

#[test]
fn request_as_text() {
    let p = build_parameters("key", "token", 60, Some(1_700_000_000));
    assert_eq!(
        p.to_text(),
        "detail_type: simple, count: 30, offset: 60, total: 1, sort: oldest, since: Some(1700000000)"
    );
    let p = build_parameters("key", "token", 0, None);
    assert_eq!(
        p.to_text(),
        "detail_type: simple, count: 30, offset: 0, total: 1, sort: oldest, since: None"
    );
}
