use mapfetch::model::Category;
use mapfetch::model::MapInfo;
use mapfetch::paths::category_dir_path;
use mapfetch::paths::map_file_name;
use mapfetch::paths::map_file_path;
use mapfetch::strutil::join_path;
use mapfetch::urls::category_map_urls;
use mapfetch::urls::edition_url;
use mapfetch::urls::editions_url;
use mapfetch::urls::map_download_url;
use mapfetch::u64_dec_str;
use mapfetch::i64_dec_str;

#[test]
fn decimal_rendering() {
    assert_eq!(u64_dec_str(0).as_str(), "0");
    assert_eq!(u64_dec_str(5).as_str(), "5");
    assert_eq!(u64_dec_str(12345).as_str(), "12345");
    assert_eq!(u64_dec_str(u64::MAX).as_str(), "18446744073709551615");
    assert_eq!(i64_dec_str(42).as_str(), "42");
    assert_eq!(i64_dec_str(-7).as_str(), "-7");
    assert_eq!(i64_dec_str(i64::MIN).as_str(), "-9223372036854775808");
}

#[test]
fn editions_url_shape() {
    let url = editions_url("https://example.test/api", "campaign");
    assert_eq!(url.as_str(), "https://example.test/api/event/campaign");
}

#[test]
fn edition_url_shape() {
    let url = edition_url("https://example.test/api", "spring2023", 2);
    assert_eq!(url.as_str(), "https://example.test/api/event/spring2023/2");
}

#[test]
fn map_download_url_shape() {
    let url = map_download_url("https://content.test", 90210);
    assert_eq!(url.as_str(), "https://content.test/maps/download/90210");
    let negative = map_download_url("https://content.test", -3);
    assert_eq!(negative.as_str(), "https://content.test/maps/download/-3");
}

#[test]
fn category_map_urls_follow_category_order() {
    let cat = Category {
        handle: "easy".to_owned(),
        maps: vec![
            MapInfo { mx_id: 11, map_uid: "A".to_owned() },
            MapInfo { mx_id: 22, map_uid: "B".to_owned() },
            MapInfo { mx_id: 33, map_uid: "C".to_owned() },
        ],
    };
    let urls = category_map_urls("https://content.test", &cat);
    assert_eq!(urls.len(), 3);
    assert_eq!(urls[0].as_str(), "https://content.test/maps/download/11");
    assert_eq!(urls[1].as_str(), "https://content.test/maps/download/22");
    assert_eq!(urls[2].as_str(), "https://content.test/maps/download/33");
}

#[test]
fn map_file_name_shape() {
    assert_eq!(map_file_name("XyZ123").as_str(), "XyZ123.Map.Gbx");
}

#[test]
fn map_file_path_is_the_exact_template() {
    let path = map_file_path("out", "campaign", 5, "easy", "XyZ123");
    assert_eq!(path.as_str(), "out/campaign/5/easy/XyZ123.Map.Gbx");
}

#[test]
fn output_root_with_trailing_separator_gains_no_second_one() {
    let path = map_file_path("./", "campaign", 5, "easy", "XyZ123");
    assert_eq!(path.as_str(), "./campaign/5/easy/XyZ123.Map.Gbx");
}

#[test]
fn changing_out_changes_only_the_leading_segment() {
    let a = map_file_path("first", "campaign", 5, "easy", "XyZ123");
    let b = map_file_path("second", "campaign", 5, "easy", "XyZ123");
    let a_tail = a.as_str().strip_prefix("first").unwrap();
    let b_tail = b.as_str().strip_prefix("second").unwrap();
    assert_eq!(a_tail, b_tail);
    assert_eq!(a_tail, "/campaign/5/easy/XyZ123.Map.Gbx");
}

#[test]
fn map_file_lies_in_its_category_directory() {
    let dir = category_dir_path("out", "campaign", 5, "easy");
    assert_eq!(dir.as_str(), "out/campaign/5/easy");
    let file = map_file_path("out", "campaign", 5, "easy", "XyZ123");
    assert_eq!(file, format!("{}/{}", dir, "XyZ123.Map.Gbx"));
}

#[test]
fn join_path_handles_roots() {
    assert_eq!(join_path("", "a/b").as_str(), "a/b");
    assert_eq!(join_path("base/", "a").as_str(), "base/a");
    assert_eq!(join_path("base", "a").as_str(), "base/a");
}
