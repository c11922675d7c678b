use elysium::action::Action;
use elysium::aws::Dataset;
use elysium::components::header::Header;
use elysium::components::top_left::TopLeft;
use elysium::components::top_right::{TopRight, UPDATE_INTERVAL};
use elysium::components::Component;
use elysium::enums::TabsEnum;
use elysium::event::{Event, KeyCode, KeyEvent, KeyModifiers};
use elysium::mode::Mode;

#[test]
fn header_cycles_tabs() {
    let data = Dataset::new();
    let mut header = Header::new();
    assert_eq!(header.tab_index(), 0);
    assert_eq!(
        header.update(&Action::Tab, &data, 0),
        Some(Action::TabChange(TabsEnum::Deployments))
    );
    assert_eq!(header.tab_index(), 1);
    assert_eq!(header.next_tab(), Some(Action::TabChange(TabsEnum::Devices)));
    assert_eq!(header.tab_index(), 0);
}

#[test]
fn header_follows_tab_change() {
    let data = Dataset::new();
    let mut header = Header::new();
    assert_eq!(header.update(&Action::TabChange(TabsEnum::Deployments), &data, 0), None);
    assert_eq!(header.tab_index(), 1);
    assert_eq!(header.update(&Action::TabChange(TabsEnum::Devices), &data, 0), None);
    assert_eq!(header.tab_index(), 0);
    assert_eq!(header.update(&Action::Tick, &data, 0), None);
    assert_eq!(header.update(&Action::ModeChange(Mode::Input), &data, 0), None);
    assert_eq!(header.tab_index(), 0);
}

#[test]
fn header_labels_mark_selected_tab() {
    let data = Dataset::new();
    let mut header = Header::new();
    let labels = header.make_tabs();
    assert_eq!(labels.len(), 2);
    assert_eq!(labels[0].text, "Core Devices ");
    assert!(labels[0].selected);
    assert_eq!(labels[1].text, "Deployments ");
    assert!(!labels[1].selected);
    header.update(&Action::Tab, &data, 0);
    let labels = header.make_tabs();
    assert!(!labels[0].selected);
    assert!(labels[1].selected);
}

#[test]
fn header_ignores_events() {
    let mut header = Header::new();
    assert!(!header.init());
    let key = KeyEvent::new(KeyCode::Tab, KeyModifiers::empty());
    assert_eq!(header.handle_events(Event::Key(key)), None);
    assert_eq!(header.handle_key_events(key), None);
    assert_eq!(header.tab_index(), 0);
}

#[test]
fn top_left_toggles_graph() {
    let data = Dataset::new();
    let mut panel = TopLeft::new();
    assert!(!panel.show_graph());
    assert!(!TopLeft::default().show_graph());
    assert_eq!(panel.update(&Action::GraphToggle, &data, 0), None);
    assert!(panel.show_graph());
    assert_eq!(panel.update(&Action::Tick, &data, 0), None);
    assert!(panel.show_graph());
    assert_eq!(panel.update(&Action::GraphToggle, &data, 0), None);
    assert!(!panel.show_graph());
    assert!(!panel.init());
}

#[test]
fn top_right_notes_time_after_five_seconds() {
    let data = Dataset::new();
    assert_eq!(UPDATE_INTERVAL, 5_000_000_000);
    let mut panel = TopRight::new(1_000);
    panel.app_tick(5_000_000_000);
    assert_eq!(panel.last_update_time(), 1_000);
    panel.app_tick(5_000_001_000);
    assert_eq!(panel.last_update_time(), 1_000);
    panel.app_tick(5_000_001_001);
    assert_eq!(panel.last_update_time(), 5_000_001_001);
    panel.app_tick(10);
    assert_eq!(panel.last_update_time(), 5_000_001_001);
    assert_eq!(panel.update(&Action::Render, &data, u64::MAX), None);
    assert_eq!(panel.last_update_time(), 5_000_001_001);
    assert_eq!(panel.update(&Action::Tick, &data, u64::MAX), None);
    assert_eq!(panel.last_update_time(), u64::MAX);
    assert!(!panel.init());
}
