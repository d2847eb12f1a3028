use review_panel::decimal::decimal;
use review_panel::enums::effect::Effect;
use review_panel::enums::message::Message;

#[test]
fn decimal_writes_single_digits() {
    let expected = ["0", "1", "2", "3", "4", "5", "6", "7", "8", "9"];
    for (n, text) in expected.iter().enumerate() {
        assert_eq!(decimal(n), *text);
    }
}

#[test]
fn decimal_writes_longer_numbers() {
    assert_eq!(decimal(10), "10");
    assert_eq!(decimal(12), "12");
    assert_eq!(decimal(99), "99");
    assert_eq!(decimal(100), "100");
    assert_eq!(decimal(1005), "1005");
    assert_eq!(decimal(9876543210), "9876543210");
}

#[test]
fn decimal_agrees_with_the_standard_notation() {
    for n in 0..2000usize {
        assert_eq!(decimal(n), n.to_string());
    }
    assert_eq!(decimal(usize::MAX), usize::MAX.to_string());
}

#[test]
fn message_lines() {
    assert_eq!(Message::AcceptAll.describe(), "Accept All");
    assert_eq!(Message::FinishReview.describe(), "Finish Review");
    assert_eq!(Message::ReviewChange(0).describe(), "Review 0");
    assert_eq!(Message::ReviewChange(7).describe(), "Review 7");
    assert_eq!(Message::IgnoreChange(12).describe(), "Ignore 12");
    assert_eq!(Message::RowClicked(3).describe(), "Row 3 clicked");
    assert_eq!(Message::RowClicked(100).describe(), "Row 100 clicked");
}

#[test]
fn message_index() {
    assert_eq!(Message::AcceptAll.index(), None);
    assert_eq!(Message::FinishReview.index(), None);
    assert_eq!(Message::ReviewChange(4).index(), Some(4));
    assert_eq!(Message::IgnoreChange(0).index(), Some(0));
    assert_eq!(Message::RowClicked(9).index(), Some(9));
}

#[test]
fn effect_lines() {
    assert_eq!(Effect::Notify(Message::AcceptAll).describe(), "Accept All");
    assert_eq!(Effect::Notify(Message::IgnoreChange(2)).describe(), "Ignore 2");
    assert_eq!(Effect::StaleIndex(Message::ReviewChange(7)).describe(), "Stale: Review 7");
    assert_eq!(Effect::StaleIndex(Message::RowClicked(40)).describe(), "Stale: Row 40 clicked");
}

#[test]
fn effect_message() {
    assert_eq!(Effect::Notify(Message::FinishReview).message(), Message::FinishReview);
    assert_eq!(Effect::StaleIndex(Message::IgnoreChange(5)).message(), Message::IgnoreChange(5));
}
