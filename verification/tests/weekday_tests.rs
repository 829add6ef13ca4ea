use koushin::weekday::{airing_day_choices, airing_day_name, airing_day_tag, weekday_from_tags, weekday_named, Weekday};

const ALL: [Weekday; 7] = [
    Weekday::Mon,
    Weekday::Tue,
    Weekday::Wed,
    Weekday::Thu,
    Weekday::Fri,
    Weekday::Sat,
    Weekday::Sun,
];

#[test]
fn days_from_monday() {
    for (i, w) in ALL.iter().enumerate() {
        assert_eq!(w.num_days_from_monday() as usize, i);
    }
}

#[test]
fn short_names() {
    let names: Vec<&str> = ALL.iter().map(|w| w.short_name()).collect();
    assert_eq!(names, vec!["Mon", "Tue", "Wed", "Thu", "Fri", "Sat", "Sun"]);
}

#[test]
fn airing_day_names() {
    assert_eq!(airing_day_name(0), Some("monday"));
    assert_eq!(airing_day_name(2), Some("wednesday"));
    assert_eq!(airing_day_name(6), Some("sunday"));
    assert_eq!(airing_day_name(7), None);
    assert_eq!(airing_day_name(u32::MAX), None);
    assert_eq!(airing_day_tag(Weekday::Thu), "thursday");
}

#[test]
fn names_to_weekdays() {
    assert_eq!(weekday_named("friday"), Some(Weekday::Fri));
    assert_eq!(weekday_named("saturday"), Some(Weekday::Sat));
    assert_eq!(weekday_named("Friday"), None);
    assert_eq!(weekday_named("fri"), None);
    assert_eq!(weekday_named(""), None);
}

#[test]
fn tags_to_weekday() {
    assert_eq!(weekday_from_tags(&vec!["Monday".to_string()]), Some(Weekday::Mon));
    assert_eq!(weekday_from_tags(&vec!["SUNDAY".to_string(), "x".to_string()]), Some(Weekday::Sun));
    assert_eq!(weekday_from_tags(&vec!["tuesday".to_string()]), Some(Weekday::Tue));
    assert_eq!(weekday_from_tags(&vec![]), None);
    assert_eq!(weekday_from_tags(&vec!["rewatch".to_string(), "monday".to_string()]), None);
    assert_eq!(weekday_from_tags(&vec!["".to_string()]), None);
}

#[test]
fn airing_tag_reads_back() {
    for w in ALL.iter() {
        assert_eq!(weekday_from_tags(&vec![airing_day_tag(*w).to_string()]), Some(*w));
    }
}

#[test]
fn airing_day_choices_in_order() {
    assert_eq!(airing_day_choices(), ALL.to_vec());
}
