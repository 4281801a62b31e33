use ftctui::clock::{get_timestamp_millis, timestamp_millis_of, timestamp_nanos_of};
use ftctui::popup::{InfoPopup, RestartRobotPopup};

#[test]
fn info_popup() {
    let mut p = InfoPopup::new(String::from("Sorry"));
    assert_eq!(p.title(), "Alert (press enter to close)");
    assert_eq!(p.options(), vec![String::from("Ok")]);
    assert_eq!(p.selected_option(), 0);
    p.scroll_up();
    assert_eq!(p.scroll, 0);
    p.scroll_down();
    p.scroll_down();
    assert_eq!(p.scroll, 2);
    p.scroll = u16::MAX;
    p.scroll_down();
    assert_eq!(p.scroll, u16::MAX);
    p.select_next_option();
    p.submit();
    assert_eq!(p.text, "Sorry");
}

#[test]
fn restart_popup() {
    let mut p = RestartRobotPopup { selected_yes: false };
    assert_eq!(p.title(), "Restart Robot?");
    assert_eq!(p.text(), "Are you sure you want to restart the robot?");
    assert_eq!(p.options(), vec![String::from("Yes"), String::from("No")]);
    assert_eq!(p.selected_option(), 1);
    assert!(!p.submit());
    p.select_next_option();
    assert_eq!(p.selected_option(), 0);
    assert!(p.submit());
    p.select_previous_option();
    assert!(!p.selected_yes);
}

#[test]
fn timestamps() {
    assert_eq!(timestamp_millis_of(2_500_000_000), 2500);
    assert_eq!(timestamp_nanos_of(12), 12);
    assert_eq!(timestamp_nanos_of(u128::from(u64::MAX) + 5), 4);
    let start = std::time::Instant::now();
    assert!(get_timestamp_millis(&start) < 10_000);
}
