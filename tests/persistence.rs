use kaenguru::{CalendarDate, Download, Persistence};

fn store(dir: &str) -> Persistence {
    Persistence { path: dir.to_string(), chat_ids_file: "chats.json".to_string() }
}

#[test]
fn chat_ids_file_lies_in_the_data_directory() {
    assert_eq!(store("/var/lib/kaenguru").chat_ids_path(), "/var/lib/kaenguru/chats.json");
    assert_eq!(store("/var/lib/kaenguru/").chat_ids_path(), "/var/lib/kaenguru/chats.json");
    assert_eq!(store("").chat_ids_path(), "chats.json");
    let absolute = Persistence { path: "/data".to_string(), chat_ids_file: "/etc/chats.json".to_string() };
    assert_eq!(absolute.chat_ids_path(), "/etc/chats.json");
}

#[test]
fn comic_file_is_named_after_the_day() {
    let d = CalendarDate::new(2024, 1, 5).unwrap();
    assert_eq!(store("/data").comic_path(&d), "/data/kaenguru_kaenguru_2024-01-05.webp.webp");
}

#[test]
fn different_days_are_cached_apart() {
    let p = store("/data");
    let a = CalendarDate::new(2024, 1, 5).unwrap();
    let b = CalendarDate::new(2024, 5, 1).unwrap();
    let c = CalendarDate::new(2024, 1, 6).unwrap();
    assert_ne!(p.comic_path(&a), p.comic_path(&b));
    assert_ne!(p.comic_path(&a), p.comic_path(&c));
    assert_eq!(p.comic_path(&a), p.comic_path(&a));
}

#[test]
fn comic_url_is_templated_from_the_day() {
    let download = Download {
        base_url: "https://img.zeit.de/administratives/kaenguru-comics".to_string(),
        filename: "original".to_string(),
    };
    let d = CalendarDate::new(2024, 1, 5).unwrap();
    assert_eq!(
        download.comic_url(&d),
        "https://img.zeit.de/administratives/kaenguru-comics/2024-01/05/original"
    );
    let e = CalendarDate::new(2023, 11, 28).unwrap();
    assert_eq!(
        download.comic_url(&e),
        "https://img.zeit.de/administratives/kaenguru-comics/2023-11/28/original"
    );
}
