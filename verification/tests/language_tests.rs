use desktop_widget_rs::language::{
    format_month_day, format_time, format_weekday_time, get_day_name, get_error_text,
    get_month_name, get_text, AppError, Language, LocalMoment, TextId, Weekday,
};

#[test]
fn language_codes_and_switch() {
    assert_eq!(Language::En.as_str(), "EN");
    assert_eq!(Language::De.as_str(), "DE");
    assert_eq!(Language::En.next(), Language::De);
    assert_eq!(Language::De.next(), Language::En);
    assert_eq!(Language::default(), Language::En);
}

#[test]
fn texts_in_both_languages() {
    assert_eq!(get_text(Language::En, TextId::SettingsTitle), "Settings");
    assert_eq!(get_text(Language::De, TextId::SettingsTitle), "Einstellungen");
    assert_eq!(get_text(Language::En, TextId::WeekDataError), "No quotes found for 1W");
    assert_eq!(get_text(Language::De, TextId::DeleteButton), "Lösch");
    assert_eq!(
        get_text(Language::En, TextId::UpdateBody),
        "Version {} is available.\nClick to open settings."
    );
}

#[test]
fn month_names() {
    assert_eq!(get_month_name(Language::En, 3), "Mar");
    assert_eq!(get_month_name(Language::De, 3), "Mär");
    assert_eq!(get_month_name(Language::De, 12), "Dez");
    assert_eq!(get_month_name(Language::En, 0), "");
    assert_eq!(get_month_name(Language::En, 13), "");
}

#[test]
fn day_names() {
    assert_eq!(get_day_name(Language::En, Weekday::Wed), "Wed");
    assert_eq!(get_day_name(Language::De, Weekday::Wed), "Mi");
    assert_eq!(get_day_name(Language::De, Weekday::Sun), "So");
}

#[test]
fn clock_is_padded_to_two_digits() {
    let m = LocalMoment::new(Weekday::Mon, 1, 5, 7, 3).unwrap();
    assert_eq!(format_time(m), "07:03");
    let late = LocalMoment::new(Weekday::Fri, 12, 31, 23, 59).unwrap();
    assert_eq!(format_time(late), "23:59");
}

#[test]
fn weekday_and_clock() {
    let m = LocalMoment::new(Weekday::Tue, 2, 9, 9, 30).unwrap();
    assert_eq!(format_weekday_time(Language::En, m), "Tue 09:30");
    assert_eq!(format_weekday_time(Language::De, m), "Di 09:30");
}

#[test]
fn month_and_day_in_the_order_of_the_language() {
    let m = LocalMoment::new(Weekday::Tue, 3, 9, 9, 30).unwrap();
    assert_eq!(format_month_day(Language::En, m), "Mar 9");
    assert_eq!(format_month_day(Language::De, m), "9. Mär");
    let end = LocalMoment::new(Weekday::Sat, 10, 31, 0, 0).unwrap();
    assert_eq!(format_month_day(Language::En, end), "Oct 31");
    assert_eq!(format_month_day(Language::De, end), "31. Okt");
}

#[test]
fn moments_out_of_range_are_refused() {
    assert!(LocalMoment::new(Weekday::Mon, 0, 1, 0, 0).is_none());
    assert!(LocalMoment::new(Weekday::Mon, 13, 1, 0, 0).is_none());
    assert!(LocalMoment::new(Weekday::Mon, 1, 0, 0, 0).is_none());
    assert!(LocalMoment::new(Weekday::Mon, 1, 32, 0, 0).is_none());
    assert!(LocalMoment::new(Weekday::Mon, 1, 1, 24, 0).is_none());
    assert!(LocalMoment::new(Weekday::Mon, 1, 1, 0, 60).is_none());
}

#[test]
fn error_texts() {
    assert_eq!(
        get_error_text(Language::En, &AppError::FetchError("timeout".to_string())),
        "Failed to fetch data from Yahoo Finance"
    );
    assert_eq!(get_error_text(Language::En, &AppError::NoQuotesFound), "No quotes found");
    assert_eq!(get_error_text(Language::De, &AppError::NoQuotesFound), "Keine Kurse gefunden");
    assert_eq!(
        get_error_text(Language::De, &AppError::WeekDataError),
        "Keine Kurse für 1W gefunden"
    );
}
