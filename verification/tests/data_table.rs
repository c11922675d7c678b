use elysium::action::Action;
use elysium::aws::deployments::{Deployment, Deployments};
use elysium::aws::devices::{Device, Devices};
use elysium::aws::Dataset;
use elysium::components::data_table::{
    cursor_column, DataTable, TableFrame, INPUT_SIZE, INPUT_TEXT_WIDTH,
};
use elysium::components::Component;
use elysium::enums::TabsEnum;
use elysium::event::{Event, KeyCode, KeyEvent, KeyModifiers, MouseEvent, MouseEventKind};
use elysium::layout::Rect;
use elysium::mode::Mode;
use elysium::span::Tone;
use tui_input::InputRequest;

fn device(name: &str, status: &str) -> Device {
    Device {
        name: name.to_string(),
        is_connected: false,
        status: status.to_string(),
        last_status_update_timestamp: String::from("2024-01-01T00:00:00Z"),
    }
}

fn three_devices() -> Dataset {
    let mut data = Dataset::new();
    data.devices = Devices::from(vec![
        device("abc-1", "HEALTHY"),
        device("abc-2", "HEALTHY"),
        device("abc-3", "UNHEALTHY"),
    ]);
    data
}

fn typed(c: char) -> KeyEvent {
    KeyEvent::with_edit(KeyCode::Char(c), KeyModifiers::empty(), InputRequest::InsertChar(c))
}

fn enter() -> KeyEvent {
    KeyEvent::new(KeyCode::Enter, KeyModifiers::empty())
}

fn loaded_table(data: &Dataset) -> DataTable {
    let mut table = DataTable::new();
    assert!(table.init());
    assert_eq!(table.update(&Action::DataLoaded, data, 0), None);
    table
}

#[test]
fn new_table_is_idle() {
    let table = DataTable::new();
    assert!(!table.is_loading());
    assert_eq!(table.mode(), Mode::Normal);
    assert_eq!(table.active_tab(), TabsEnum::Devices);
    assert_eq!(table.spinner_index(), 0);
    assert_eq!(table.filter_str(), "");
    assert_eq!(table.input().value(), "");
    assert_eq!(table.loaded_count(), 0);
    assert_eq!(table.list().len(), 0);
}

#[test]
fn init_starts_one_refresh() {
    let mut table = DataTable::new();
    assert!(table.init());
    assert!(table.is_loading());
    assert!(!table.init());
    assert!(!table.load_data());
    assert!(table.is_loading());
}

#[test]
fn input_mode_is_refused_while_loading() {
    let data = Dataset::new();
    let mut table = DataTable::new();
    table.init();
    let answer = table.update(&Action::ModeChange(Mode::Input), &data, 0);
    assert_eq!(answer, Some(Action::ModeChange(Mode::Normal)));
    assert_eq!(table.mode(), Mode::Normal);
}

#[test]
fn input_mode_is_taken_when_idle() {
    let data = Dataset::new();
    let mut table = DataTable::new();
    let answer = table.update(&Action::ModeChange(Mode::Input), &data, 0);
    assert_eq!(answer, None);
    assert_eq!(table.mode(), Mode::Input);
    let answer = table.update(&Action::ModeChange(Mode::Normal), &data, 0);
    assert_eq!(answer, None);
    assert_eq!(table.mode(), Mode::Normal);
}

#[test]
fn normal_mode_is_taken_while_loading() {
    let data = Dataset::new();
    let mut table = DataTable::new();
    table.update(&Action::ModeChange(Mode::Input), &data, 0);
    table.load_data();
    let answer = table.update(&Action::ModeChange(Mode::Normal), &data, 0);
    assert_eq!(answer, None);
    assert_eq!(table.mode(), Mode::Normal);
}

#[test]
fn data_loaded_clears_loading_after_any_ticks() {
    let data = three_devices();
    for ticks in [0usize, 1, 5, 6, 13] {
        let mut table = DataTable::new();
        table.init();
        for _ in 0..ticks {
            assert_eq!(table.update(&Action::Tick, &data, 0), None);
            assert!(table.is_loading());
        }
        assert_eq!(table.spinner_index(), ticks % 6);
        assert_eq!(table.update(&Action::DataLoaded, &data, 0), None);
        assert!(!table.is_loading());
        assert_eq!(table.list().len(), 3);
        assert_eq!(table.loaded_count(), 3);
    }
}

#[test]
fn spinner_rests_when_idle() {
    let data = Dataset::new();
    let mut table = DataTable::new();
    table.update(&Action::Tick, &data, 0);
    table.update(&Action::Tick, &data, 0);
    assert_eq!(table.spinner_index(), 0);
}

#[test]
fn spinner_label_has_glyph_and_word() {
    let data = Dataset::new();
    let mut table = DataTable::new();
    assert_eq!(table.make_spinner(), "⠷loading..");
    table.init();
    let glyphs = ["⠯", "⠟", "⠻", "⠽", "⠾", "⠷"];
    for glyph in glyphs {
        table.update(&Action::Tick, &data, 0);
        assert_eq!(table.make_spinner(), format!("{glyph}loading.."));
    }
}

#[test]
fn up_and_down_move_selection() {
    let data = three_devices();
    let mut table = loaded_table(&data);
    assert_eq!(table.list().selected(), 0);
    table.update(&Action::Down, &data, 0);
    assert_eq!(table.list().selected(), 1);
    table.update(&Action::Down, &data, 0);
    table.update(&Action::Down, &data, 0);
    assert_eq!(table.list().selected(), 0);
    table.update(&Action::Up, &data, 0);
    assert_eq!(table.list().selected(), 2);
    table.previous_in_table();
    assert_eq!(table.list().selected(), 1);
    table.next_in_table();
    assert_eq!(table.list().selected(), 2);
}

#[test]
fn enter_commits_filter_and_asks_for_normal_mode() {
    let data = three_devices();
    let mut table = loaded_table(&data);
    table.update(&Action::ModeChange(Mode::Input), &data, 0);
    assert_eq!(table.handle_key_events(typed('C')), None);
    assert_eq!(table.handle_key_events(typed('-')), None);
    assert_eq!(table.handle_key_events(typed('3')), None);
    assert_eq!(table.input().value(), "C-3");
    assert_eq!(table.filter_str(), "");
    assert_eq!(table.list().len(), 3);
    let answer = table.handle_key_events(enter());
    assert_eq!(answer, Some(Action::ModeChange(Mode::Normal)));
    assert_eq!(table.filter_str(), "C-3");
    assert_eq!(table.list().len(), 1);
    assert_eq!(table.list().row(0)[0], "abc-3");
    assert_eq!(table.mode(), Mode::Input);
}

#[test]
fn keys_are_ignored_in_normal_mode() {
    let data = three_devices();
    let mut table = loaded_table(&data);
    assert_eq!(table.handle_key_events(typed('a')), None);
    assert_eq!(table.handle_key_events(enter()), None);
    assert_eq!(table.input().value(), "");
    assert_eq!(table.filter_str(), "");
    assert_eq!(table.list().len(), 3);
}

#[test]
fn key_without_edit_leaves_input() {
    let data = three_devices();
    let mut table = loaded_table(&data);
    table.update(&Action::ModeChange(Mode::Input), &data, 0);
    table.handle_key_events(typed('a'));
    let answer = table.handle_key_events(KeyEvent::new(KeyCode::F(5), KeyModifiers::empty()));
    assert_eq!(answer, None);
    assert_eq!(table.input().value(), "a");
}

#[test]
fn edit_requests_reach_the_filter_box() {
    let data = three_devices();
    let mut table = loaded_table(&data);
    table.update(&Action::ModeChange(Mode::Input), &data, 0);
    table.handle_key_events(typed('a'));
    table.handle_key_events(typed('b'));
    table.handle_key_events(KeyEvent::with_edit(
        KeyCode::Backspace,
        KeyModifiers::empty(),
        InputRequest::DeletePrevChar,
    ));
    assert_eq!(table.input().value(), "a");
}

#[test]
fn clear_empties_filter_box_and_filter() {
    let data = three_devices();
    let mut table = loaded_table(&data);
    table.update(&Action::ModeChange(Mode::Input), &data, 0);
    table.handle_key_events(typed('3'));
    table.handle_key_events(enter());
    table.update(&Action::ModeChange(Mode::Normal), &data, 0);
    assert_eq!(table.list().len(), 1);
    assert_eq!(table.update(&Action::Clear, &data, 0), None);
    assert_eq!(table.input().value(), "");
    assert_eq!(table.filter_str(), "");
    assert_eq!(table.list().len(), 3);
}

#[test]
fn switch_to_empty_tab_resets_selection_under_filter() {
    let data = three_devices();
    let mut table = loaded_table(&data);
    table.update(&Action::ModeChange(Mode::Input), &data, 0);
    for c in "abc".chars() {
        table.handle_key_events(typed(c));
    }
    table.handle_key_events(enter());
    table.update(&Action::ModeChange(Mode::Normal), &data, 0);
    table.update(&Action::Down, &data, 0);
    table.update(&Action::Down, &data, 0);
    assert_eq!(table.list().selected(), 2);
    assert_eq!(table.update(&Action::TabChange(TabsEnum::Deployments), &data, 0), None);
    assert_eq!(table.active_tab(), TabsEnum::Deployments);
    assert_eq!(table.list().selected(), 0);
    assert_eq!(table.list().len(), 0);
    assert!(table.list().is_empty());
    assert_eq!(table.filter_str(), "abc");
    assert_eq!(table.scrollbar_height(), 0);
}

#[test]
fn tab_change_loads_rows_of_the_tab() {
    let mut data = three_devices();
    data.deployments = Deployments::from(vec![Deployment {
        deployment_name: String::from("rollout"),
        deployment_status: String::from("ACTIVE"),
        creation_timestamp: String::from("2024-02-02"),
    }]);
    let mut table = loaded_table(&data);
    table.tab_changed(TabsEnum::Deployments, &data);
    assert_eq!(table.list().len(), 1);
    assert_eq!(
        table.list().row(0),
        &vec![String::from("rollout"), String::from("ACTIVE"), String::from("2024-02-02")]
    );
    table.update(&Action::TabChange(TabsEnum::Devices), &data, 0);
    assert_eq!(table.active_tab(), TabsEnum::Devices);
    assert_eq!(table.list().len(), 3);
    assert_eq!(table.scrollbar_height(), 2);
}

#[test]
fn other_actions_leave_the_table() {
    let data = three_devices();
    let mut table = loaded_table(&data);
    table.update(&Action::Down, &data, 0);
    for action in [
        Action::Render,
        Action::Resize(10, 10),
        Action::Suspend,
        Action::Resume,
        Action::Quit,
        Action::ClearScreen,
        Action::Error(String::from("x")),
        Action::Help,
        Action::Left,
        Action::Right,
        Action::Tab,
        Action::GraphToggle,
    ] {
        assert_eq!(table.update(&action, &data, 0), None);
        assert_eq!(table.list().selected(), 1);
        assert_eq!(table.list().len(), 3);
        assert_eq!(table.mode(), Mode::Normal);
        assert!(!table.is_loading());
    }
}

#[test]
fn events_reach_the_key_handler() {
    let data = three_devices();
    let mut table = loaded_table(&data);
    table.update(&Action::ModeChange(Mode::Input), &data, 0);
    assert_eq!(table.handle_events(Event::Key(typed('x'))), None);
    assert_eq!(table.input().value(), "x");
    assert_eq!(table.handle_events(Event::Tick), None);
    let mouse = MouseEvent {
        kind: MouseEventKind::ScrollDown,
        column: 0,
        row: 0,
        modifiers: KeyModifiers::empty(),
    };
    assert_eq!(table.handle_events(Event::Mouse(mouse)), None);
    assert_eq!(table.handle_mouse_events(mouse), None);
    assert_eq!(
        table.handle_events(Event::Key(enter())),
        Some(Action::ModeChange(Mode::Normal))
    );
    assert_eq!(table.filter_str(), "x");
}

#[test]
fn table_model_has_title_and_toned_rows() {
    let data = three_devices();
    let mut table = DataTable::new();
    table.init();
    let model = table.make_table();
    let title: Vec<&str> = model.title.iter().map(|s| s.content.as_str()).collect();
    assert_eq!(title, vec!["|", "◉ ", "0", "|", " ⣿(", "0", "/0", ")"]);
    table.update(&Action::DataLoaded, &data, 0);
    let model = table.make_table();
    let title: Vec<&str> = model.title.iter().map(|s| s.content.as_str()).collect();
    assert_eq!(title, vec!["|", "◉ ", "3", "|"]);
    assert_eq!(model.title[2].tone, Tone::Alert);
    assert_eq!(model.header, &["Name", "Status", "Last Status Update"]);
    assert_eq!(model.rows.len(), 3);
    assert_eq!(model.rows[2][0].content, "abc-3");
    assert_eq!(model.rows[2][0].tone, Tone::Name);
    assert_eq!(model.rows[2][1].content, "UNHEALTHY");
    assert_eq!(model.rows[2][1].tone, Tone::Good);
    assert_eq!(model.rows[2][2].tone, Tone::Plain);
}

#[test]
fn frame_places_the_parts() {
    let bottom = Rect { x: 0, y: 10, width: 100, height: 20 };
    let frame = DataTable::frame(bottom).unwrap();
    assert_eq!(
        frame,
        TableFrame {
            table: Rect { x: 0, y: 11, width: 100, height: 19 },
            scrollbar: Rect { x: 1, y: 15, width: 98, height: 14 },
            input: Rect { x: 69, y: 12, width: 30, height: 3 },
            spinner: Rect { x: 70, y: 12, width: 12, height: 1 },
        }
    );
}

#[test]
fn frame_needs_room() {
    assert_eq!(DataTable::frame(Rect { x: 0, y: 0, width: 30, height: 20 }), None);
    assert_eq!(DataTable::frame(Rect { x: 0, y: 0, width: 100, height: 3 }), None);
    assert_eq!(DataTable::frame(Rect { x: 0, y: u16::MAX - 3, width: 100, height: 20 }), None);
    let least = DataTable::frame(Rect { x: 0, y: 0, width: 31, height: 4 }).unwrap();
    assert_eq!(least.input, Rect { x: 0, y: 2, width: 30, height: 3 });
    assert_eq!(least.scrollbar, Rect { x: 0, y: 0, width: 0, height: 0 });
}

#[test]
fn cursor_column_follows_scroll() {
    assert_eq!(cursor_column(69, 0, 0), 70);
    assert_eq!(cursor_column(69, 5, 0), 75);
    assert_eq!(cursor_column(69, 30, 3), 97);
    assert_eq!(cursor_column(69, 2, 5), 70);
    assert_eq!(cursor_column(u16::MAX, 0, 0), u16::MAX);
    assert_eq!(cursor_column(u16::MAX - 1, 0, 0), u16::MAX);
    assert_eq!(cursor_column(0, usize::MAX, 0), u16::MAX);
    assert_eq!(cursor_column(0, 65534, 0), 65535);
}

#[test]
fn drawing_tells_cursor_and_spinner() {
    let data = three_devices();
    let bottom = Rect { x: 0, y: 10, width: 100, height: 20 };
    let mut table = DataTable::new();
    table.init();
    let drawing = table.draw(bottom, 0, 0).unwrap();
    assert!(drawing.input_dimmed);
    assert!(!drawing.input_active);
    assert_eq!(drawing.cursor, None);
    assert_eq!(drawing.spinner.as_deref(), Some("⠷loading.."));
    assert_eq!(drawing.scroll_length, 0);
    table.update(&Action::DataLoaded, &data, 0);
    table.update(&Action::Down, &data, 0);
    table.update(&Action::ModeChange(Mode::Input), &data, 0);
    let drawing = table.draw(bottom, 4, 1).unwrap();
    assert!(!drawing.input_dimmed);
    assert!(drawing.input_active);
    assert_eq!(drawing.cursor, Some((73, 13)));
    assert_eq!(drawing.spinner, None);
    assert_eq!(drawing.scroll_length, 2);
    assert_eq!(drawing.scroll_position, 1);
    assert!(table.draw(Rect { x: 0, y: 0, width: 10, height: 2 }, 0, 0).is_none());
}

fn devices_and_one_deployment() -> Dataset {
    let mut data = three_devices();
    data.deployments = Deployments::from(vec![Deployment {
        deployment_name: String::from("rollout"),
        deployment_status: String::from("ACTIVE"),
        creation_timestamp: String::from("2024-02-02"),
    }]);
    data
}

#[test]
fn data_arriving_on_the_second_tab_stays_there() {
    let data = devices_and_one_deployment();
    let mut table = DataTable::new();
    table.init();
    assert_eq!(table.update(&Action::TabChange(TabsEnum::Deployments), &Dataset::new(), 0), None);
    assert_eq!(table.active_tab(), TabsEnum::Deployments);
    assert_eq!(table.list().len(), 0);
    assert_eq!(table.update(&Action::DataLoaded, &data, 0), None);
    assert!(!table.is_loading());
    assert_eq!(table.active_tab(), TabsEnum::Deployments);
    assert_eq!(table.list().len(), 1);
    assert_eq!(table.list().row(0)[0], "rollout");
    assert_eq!(table.loaded_count(), 1);
    assert_eq!(table.make_table().header, &["Name", "Status", "Created"]);
}

#[test]
fn data_and_tab_change_come_out_the_same_in_either_order() {
    let data = devices_and_one_deployment();
    let mut data_first = DataTable::new();
    data_first.init();
    data_first.update(&Action::DataLoaded, &data, 0);
    data_first.update(&Action::TabChange(TabsEnum::Deployments), &data, 0);
    let mut tab_first = DataTable::new();
    tab_first.init();
    tab_first.update(&Action::TabChange(TabsEnum::Deployments), &data, 0);
    tab_first.update(&Action::DataLoaded, &data, 0);
    for table in [&data_first, &tab_first] {
        assert!(!table.is_loading());
        assert_eq!(table.active_tab(), TabsEnum::Deployments);
        assert_eq!(table.list().len(), 1);
        assert_eq!(table.list().selected(), 0);
        assert_eq!(table.list().row(0)[0], "rollout");
    }
}

#[test]
fn data_arriving_resets_selection_and_keeps_filter() {
    let data = three_devices();
    let mut table = loaded_table(&data);
    table.update(&Action::ModeChange(Mode::Input), &data, 0);
    table.handle_key_events(typed('b'));
    table.handle_key_events(enter());
    table.update(&Action::Down, &data, 0);
    assert_eq!(table.list().selected(), 1);
    table.update(&Action::DataLoaded, &data, 0);
    assert_eq!(table.active_tab(), TabsEnum::Devices);
    assert_eq!(table.list().selected(), 0);
    assert_eq!(table.filter_str(), "b");
    assert_eq!(table.list().len(), 3);
}

#[test]
fn text_of_filter_box_is_narrower_than_the_box() {
    assert_eq!(INPUT_SIZE, 30);
    assert_eq!(INPUT_TEXT_WIDTH, 27);
    assert_eq!(INPUT_TEXT_WIDTH, usize::from(INPUT_SIZE) - 3);
}
