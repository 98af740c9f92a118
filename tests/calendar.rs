use kaenguru::{next_delivery, CalendarDate, LocalDateTime, TimeOfDay};

fn date(y: i32, m: u32, d: u32) -> CalendarDate {
    CalendarDate::new(y, m, d).unwrap()
}

#[test]
fn dates_that_do_not_exist_are_refused() {
    assert!(CalendarDate::new(2023, 2, 29).is_none());
    assert!(CalendarDate::new(2024, 2, 29).is_some());
    assert!(CalendarDate::new(1900, 2, 29).is_none());
    assert!(CalendarDate::new(2000, 2, 29).is_some());
    assert!(CalendarDate::new(2024, 4, 31).is_none());
    assert!(CalendarDate::new(2024, 13, 1).is_none());
    assert!(CalendarDate::new(2024, 1, 0).is_none());
    assert!(CalendarDate::new(10000, 1, 1).is_none());
    assert!(CalendarDate::new(-1, 1, 1).is_none());
}

#[test]
fn iso_text_is_zero_padded() {
    assert_eq!(date(2024, 3, 5).iso(), "2024-03-05");
    assert_eq!(date(33, 1, 2).iso(), "0033-01-02");
    assert_eq!(date(1999, 12, 31).iso(), "1999-12-31");
}

#[test]
fn next_day_rolls_over() {
    assert_eq!(date(2024, 2, 28).next(), date(2024, 2, 29));
    assert_eq!(date(2023, 2, 28).next(), date(2023, 3, 1));
    assert_eq!(date(2024, 4, 30).next(), date(2024, 5, 1));
    assert_eq!(date(2024, 12, 31).next(), date(2025, 1, 1));
    assert_eq!(date(2024, 6, 3).next(), date(2024, 6, 4));
}

#[test]
fn time_of_day_parses() {
    assert_eq!(TimeOfDay::parse("09:30"), Some(TimeOfDay { hour: 9, minute: 30 }));
    assert_eq!(TimeOfDay::parse("9:05"), Some(TimeOfDay { hour: 9, minute: 5 }));
    assert_eq!(TimeOfDay::parse("23:59"), Some(TimeOfDay { hour: 23, minute: 59 }));
    assert_eq!(TimeOfDay::parse("24:00"), None);
    assert_eq!(TimeOfDay::parse("12:60"), None);
    assert_eq!(TimeOfDay::parse("0930"), None);
    assert_eq!(TimeOfDay::parse("09-30"), None);
    assert_eq!(TimeOfDay::parse("a9:30"), None);
    assert_eq!(TimeOfDay::parse(""), None);
    assert_eq!(TimeOfDay::default_delivery(), TimeOfDay { hour: 9, minute: 30 });
}

#[test]
fn delivery_before_the_time_is_today() {
    let now = LocalDateTime { date: date(2024, 5, 17), second_of_day: 8 * 3600 };
    let at = TimeOfDay::new(9, 30).unwrap();
    let next = next_delivery(now, at);
    assert_eq!(next, LocalDateTime { date: date(2024, 5, 17), second_of_day: 34200 });
}

#[test]
fn delivery_after_the_time_is_tomorrow() {
    let now = LocalDateTime { date: date(2024, 12, 31), second_of_day: 10 * 3600 };
    let at = TimeOfDay::new(9, 30).unwrap();
    let next = next_delivery(now, at);
    assert_eq!(next, LocalDateTime { date: date(2025, 1, 1), second_of_day: 34200 });
}

#[test]
fn delivery_at_the_time_itself_is_tomorrow() {
    let now = LocalDateTime { date: date(2024, 2, 28), second_of_day: 34200 };
    let next = next_delivery(now, TimeOfDay::default_delivery());
    assert_eq!(next, LocalDateTime { date: date(2024, 2, 29), second_of_day: 34200 });
}

#[test]
fn times_of_day_that_do_not_exist_are_refused() {
    assert_eq!(TimeOfDay::new(24, 0), None);
    assert_eq!(TimeOfDay::new(0, 60), None);
    assert_eq!(TimeOfDay::new(0, 0), Some(TimeOfDay { hour: 0, minute: 0 }));
}

#[test]
fn delivery_at_midnight_is_the_next_day() {
    let now = LocalDateTime { date: date(2023, 2, 28), second_of_day: 0 };
    let next = next_delivery(now, TimeOfDay::new(0, 0).unwrap());
    assert_eq!(next, LocalDateTime { date: date(2023, 3, 1), second_of_day: 0 });
}
