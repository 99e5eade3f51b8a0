use meteogram::label::{label_text, Label};

#[test]
fn hour_labels_on_the_twelve_hour_clock() {
    assert_eq!(label_text(&Label::Hour(0)), "12A");
    assert_eq!(label_text(&Label::Hour(1)), "1A");
    assert_eq!(label_text(&Label::Hour(9)), "9A");
    assert_eq!(label_text(&Label::Hour(10)), "10A");
    assert_eq!(label_text(&Label::Hour(11)), "11A");
    assert_eq!(label_text(&Label::Hour(12)), "12P");
    assert_eq!(label_text(&Label::Hour(13)), "1P");
    assert_eq!(label_text(&Label::Hour(22)), "10P");
    assert_eq!(label_text(&Label::Hour(23)), "11P");
}

#[test]
fn day_labels_name_the_day_and_the_date() {
    assert_eq!(label_text(&Label::Day { weekday: 0, month: 3, day: 11 }), "Mon 3/11");
    assert_eq!(label_text(&Label::Day { weekday: 1, month: 12, day: 31 }), "Tue 12/31");
    assert_eq!(label_text(&Label::Day { weekday: 2, month: 1, day: 1 }), "Wed 1/1");
    assert_eq!(label_text(&Label::Day { weekday: 3, month: 10, day: 9 }), "Thu 10/9");
    assert_eq!(label_text(&Label::Day { weekday: 4, month: 2, day: 29 }), "Fri 2/29");
    assert_eq!(label_text(&Label::Day { weekday: 5, month: 7, day: 20 }), "Sat 7/20");
    assert_eq!(label_text(&Label::Day { weekday: 6, month: 3, day: 10 }), "Sun 3/10");
}
