use elysium::aws::deployments::{Deployment, Deployments};
use elysium::aws::devices::{Device, Devices};
use elysium::aws::groups::{GroupNameAndArn, ThingGroups};
use elysium::aws::{Dataset, Info};
use elysium::event::{
    Event, KeyCode, KeyEvent, KeyModifiers, MouseButton, MouseEvent, MouseEventKind,
};
use elysium::layout::Rect;
use elysium::span::{Span, Tone};
use elysium::tui::app::App;
use elysium::tui::command::{Command, InputCommand, ScrollType};
use elysium::tui::ui::{
    get_input_line, highlight_search_result, info_at, line_width, render_cursor,
    render_device_info, render_key_bindings, search_prompt, Tab, INFO_COUNT,
};
use elysium::tui::update::{update, InputMode, Picker};
use tui_input::{Input, InputRequest};

fn key(code: KeyCode) -> KeyEvent {
    KeyEvent::new(code, KeyModifiers::empty())
}

fn ctrl(c: char) -> KeyEvent {
    KeyEvent::new(KeyCode::Char(c), KeyModifiers::control())
}

fn typed(c: char) -> Event {
    Event::Key(KeyEvent::with_edit(
        KeyCode::Char(c),
        KeyModifiers::empty(),
        InputRequest::InsertChar(c),
    ))
}

fn backspace() -> KeyEvent {
    KeyEvent::with_edit(KeyCode::Backspace, KeyModifiers::empty(), InputRequest::DeletePrevChar)
}

fn data() -> Dataset {
    let mut data = Dataset::new();
    data.devices = Devices::from(
        ["Alpha", "beta", "Gamma", "delta"]
            .iter()
            .map(|name| Device {
                name: name.to_string(),
                is_connected: false,
                status: String::from("HEALTHY"),
                last_status_update_timestamp: String::from("now"),
            })
            .collect::<Vec<Device>>(),
    );
    data.groups = ThingGroups::from(vec![GroupNameAndArn {
        group_name: String::from("lab"),
        group_arn: String::from("arn:lab"),
    }]);
    data.deployments = Deployments::from(vec![
        Deployment {
            deployment_name: String::from("first"),
            deployment_status: String::from("ACTIVE"),
            creation_timestamp: String::from("t1"),
        },
        Deployment {
            deployment_name: String::from("second"),
            deployment_status: String::from("FAILED"),
            creation_timestamp: String::from("t2"),
        },
    ]);
    data
}

fn texts(spans: &[Span]) -> Vec<&str> {
    spans.iter().map(|s| s.content.as_str()).collect()
}

fn rows(count: usize) -> Vec<Vec<String>> {
    (0..count).map(|i| vec![format!("task-{i}"), format!("run {i}")]).collect()
}

#[test]
fn keys_give_commands() {
    let table: Vec<(KeyEvent, Command)> = vec![
        (key(KeyCode::Right), Command::Next(ScrollType::Table, 1)),
        (key(KeyCode::Char('l')), Command::Next(ScrollType::Table, 1)),
        (key(KeyCode::Left), Command::Previous(ScrollType::Table, 1)),
        (key(KeyCode::Char('h')), Command::Previous(ScrollType::Table, 1)),
        (key(KeyCode::Char('n')), Command::Next(ScrollType::Block, 1)),
        (key(KeyCode::Char('p')), Command::Previous(ScrollType::Block, 1)),
        (key(KeyCode::Down), Command::Next(ScrollType::List, 1)),
        (key(KeyCode::Char('j')), Command::Next(ScrollType::List, 1)),
        (key(KeyCode::Up), Command::Previous(ScrollType::List, 1)),
        (key(KeyCode::Char('k')), Command::Previous(ScrollType::List, 1)),
        (key(KeyCode::PageDown), Command::Next(ScrollType::List, 5)),
        (key(KeyCode::PageUp), Command::Previous(ScrollType::List, 5)),
        (ctrl('d'), Command::Next(ScrollType::List, 5)),
        (key(KeyCode::Char('d')), Command::Nothing),
        (ctrl('u'), Command::Previous(ScrollType::List, 5)),
        (key(KeyCode::Char('u')), Command::Nothing),
        (key(KeyCode::Esc), Command::Exit),
        (key(KeyCode::Char('q')), Command::Exit),
        (key(KeyCode::Tab), Command::Next(ScrollType::Tab, 1)),
        (key(KeyCode::BackTab), Command::Previous(ScrollType::Tab, 1)),
        (key(KeyCode::Char('t')), Command::Top),
        (key(KeyCode::Home), Command::Top),
        (key(KeyCode::Char('b')), Command::Bottom),
        (key(KeyCode::End), Command::Bottom),
        (key(KeyCode::Char('+')), Command::Increment),
        (key(KeyCode::Char('-')), Command::Decrement),
        (ctrl('c'), Command::Exit),
        (ctrl('C'), Command::Exit),
        (key(KeyCode::Char('c')), Command::Nothing),
        (key(KeyCode::Char('/')), Command::Input(InputCommand::Enter)),
        (ctrl('f'), Command::Input(InputCommand::Enter)),
        (key(KeyCode::Char('f')), Command::Nothing),
        (key(KeyCode::Enter), Command::ShowDetails),
        (key(KeyCode::Char('x')), Command::Nothing),
        (key(KeyCode::F(1)), Command::Nothing),
        (key(KeyCode::Delete), Command::Nothing),
    ];
    for (event, command) in table {
        assert_eq!(Command::from(event), command);
    }
    assert_eq!(
        Command::from(backspace()),
        Command::Input(InputCommand::Resume(Event::Key(backspace())))
    );
    assert_eq!(
        Command::from(KeyEvent::new(KeyCode::Char('d'), KeyModifiers { bits: 3 })),
        Command::Nothing
    );
}

#[test]
fn mouse_wheel_moves_the_list() {
    let mouse = |kind| MouseEvent { kind, column: 3, row: 4, modifiers: KeyModifiers::empty() };
    assert_eq!(Command::from(mouse(MouseEventKind::ScrollDown)), Command::Next(ScrollType::List, 1));
    assert_eq!(
        Command::from(mouse(MouseEventKind::ScrollUp)),
        Command::Previous(ScrollType::List, 1)
    );
    assert_eq!(Command::from(mouse(MouseEventKind::Moved)), Command::Nothing);
    assert_eq!(Command::from(mouse(MouseEventKind::Down(MouseButton::Left))), Command::Nothing);
}

#[test]
fn input_keys_are_parsed() {
    let empty = Input::default();
    let filled = Input::new(String::from("abc"));
    assert_eq!(InputCommand::parse(key(KeyCode::Esc), &filled), InputCommand::Exit);
    assert_eq!(InputCommand::parse(key(KeyCode::Backspace), &empty), InputCommand::Exit);
    assert_eq!(
        InputCommand::parse(key(KeyCode::Backspace), &filled),
        InputCommand::Handle(Event::Key(key(KeyCode::Backspace)))
    );
    assert_eq!(InputCommand::parse(key(KeyCode::Enter), &filled), InputCommand::Confirm);
    assert_eq!(InputCommand::parse(key(KeyCode::Enter), &empty), InputCommand::Confirm);
    assert_eq!(
        InputCommand::parse(key(KeyCode::Char('a')), &empty),
        InputCommand::Handle(Event::Key(key(KeyCode::Char('a'))))
    );
}

#[test]
fn tabs_come_from_positions() {
    assert_eq!(Tab::default(), Tab::CoreDevices);
    assert_eq!(Tab::from(0), Tab::CoreDevices);
    assert_eq!(Tab::from(1), Tab::ThingGroups);
    assert_eq!(Tab::from(2), Tab::Deployments);
    assert_eq!(Tab::from(3), Tab::CoreDevices);
    assert_eq!(Tab::from(usize::MAX), Tab::CoreDevices);
    assert_eq!(Tab::Deployments.index(), 2);
    assert_eq!(Tab::get_headers(), &["Core Devices", "Thing Groups", "Deployments"]);
    assert_eq!(INFO_COUNT, 3);
    assert_eq!(info_at(0), Info::CoreDevices);
    assert_eq!(info_at(1), Info::ThingGroups);
    assert_eq!(info_at(2), Info::Deployments);
}

#[test]
fn new_browser_shows_devices() {
    let app = App::new(data());
    assert_eq!(app.tab(), Tab::CoreDevices);
    assert_eq!(app.info_index(), 0);
    assert_eq!(app.block_index(), 0);
    assert!(!app.show_details());
    assert!(!app.input_mode());
    assert!(!app.should_quit());
    assert_eq!(app.input().value(), "");
    assert_eq!(app.list().len(), 4);
    assert_eq!(app.list().selected(), 0);
}

#[test]
fn tab_commands_cycle_tabs() {
    let mut app = App::new(data());
    app.run_command(Command::Next(ScrollType::Tab, 1));
    assert_eq!(app.tab(), Tab::ThingGroups);
    assert_eq!(app.info_index(), 1);
    assert_eq!(app.list().len(), 1);
    app.run_command(Command::Next(ScrollType::Tab, 1));
    assert_eq!(app.tab(), Tab::Deployments);
    assert_eq!(app.list().len(), 2);
    app.run_command(Command::Next(ScrollType::Tab, 1));
    assert_eq!(app.tab(), Tab::CoreDevices);
    app.run_command(Command::Previous(ScrollType::Tab, 1));
    assert_eq!(app.tab(), Tab::Deployments);
    assert_eq!(app.info_index(), 2);
    app.run_command(Command::Previous(ScrollType::Tab, 2));
    assert_eq!(app.tab(), Tab::CoreDevices);
    app.run_command(Command::Next(ScrollType::Tab, usize::MAX));
    assert_eq!(app.tab(), Tab::CoreDevices);
    app.run_command(Command::Next(ScrollType::Tab, 5));
    assert_eq!(app.tab(), Tab::Deployments);
}

#[test]
fn table_commands_cycle_categories() {
    let mut app = App::new(data());
    app.run_command(Command::Next(ScrollType::Table, 1));
    assert_eq!(app.info_index(), 1);
    assert_eq!(app.tab(), Tab::CoreDevices);
    assert_eq!(app.list().row(0)[0], "lab");
    app.run_command(Command::Next(ScrollType::Table, 4));
    assert_eq!(app.info_index(), 2);
    app.run_command(Command::Next(ScrollType::Table, usize::MAX));
    assert_eq!(app.info_index(), 0);
    app.run_command(Command::Previous(ScrollType::Table, 1));
    assert_eq!(app.info_index(), 2);
    app.run_command(Command::Previous(ScrollType::Table, 2));
    assert_eq!(app.info_index(), 0);
}

#[test]
fn list_commands_move_selection() {
    let mut app = App::new(data());
    app.run_command(Command::Next(ScrollType::List, 1));
    assert_eq!(app.list().selected(), 1);
    app.run_command(Command::Next(ScrollType::List, 5));
    assert_eq!(app.list().selected(), 0);
    app.run_command(Command::Previous(ScrollType::List, 1));
    assert_eq!(app.list().selected(), 3);
    app.run_command(Command::Top);
    assert_eq!(app.list().selected(), 0);
    app.run_command(Command::Bottom);
    assert_eq!(app.list().selected(), 3);
    app.run_command(Command::Increment);
    app.run_command(Command::Decrement);
    app.run_command(Command::Nothing);
    assert_eq!(app.list().selected(), 3);
    app.run_command(Command::Next(ScrollType::Block, 1));
    assert_eq!(app.block_index(), 0);
    app.run_command(Command::Previous(ScrollType::Block, 1));
    assert_eq!(app.block_index(), 0);
}

#[test]
fn details_and_exit() {
    let mut app = App::new(data());
    app.run_command(Command::ShowDetails);
    assert!(app.show_details());
    app.run_command(Command::Exit);
    assert!(!app.show_details());
    assert!(!app.should_quit());
    app.run_command(Command::Exit);
    assert!(app.should_quit());
}

#[test]
fn search_filters_the_list_as_it_is_typed() {
    let mut app = App::new(data());
    app.run_command(Command::Input(InputCommand::Enter));
    assert!(app.input_mode());
    app.run_command(Command::Input(InputCommand::Handle(typed('A'))));
    assert_eq!(app.input().value(), "A");
    assert_eq!(app.list().len(), 4);
    app.run_command(Command::Input(InputCommand::Handle(typed('L'))));
    assert_eq!(app.list().len(), 4);
    app.run_command(Command::Input(InputCommand::Handle(typed('P'))));
    assert_eq!(app.list().len(), 1);
    assert_eq!(app.list().row(0)[0], "Alpha");
    app.run_command(Command::Input(InputCommand::Confirm));
    assert!(!app.input_mode());
    assert_eq!(app.input().value(), "ALP");
    assert_eq!(app.list().len(), 1);
    app.run_command(Command::Input(InputCommand::Resume(Event::Key(backspace()))));
    assert!(app.input_mode());
    assert_eq!(app.input().value(), "AL");
    assert_eq!(app.list().len(), 4);
    app.run_command(Command::Input(InputCommand::Exit));
    assert!(!app.input_mode());
    assert_eq!(app.input().value(), "");
    app.run_command(Command::Input(InputCommand::Resume(Event::Key(backspace()))));
    assert!(!app.input_mode());
    assert_eq!(app.list().len(), 4);
}

#[test]
fn search_stays_when_the_category_changes() {
    let mut app = App::new(data());
    app.run_command(Command::Input(InputCommand::Handle(typed('f'))));
    assert_eq!(app.list().len(), 0);
    app.run_command(Command::Next(ScrollType::Table, 2));
    assert_eq!(app.list().len(), 2);
    app.run_command(Command::Input(InputCommand::Handle(typed('a'))));
    assert_eq!(app.list().len(), 1);
    assert_eq!(app.list().row(0)[0], "second");
    app.handle_tab();
    assert_eq!(app.list().len(), 1);
}

#[test]
fn key_bindings_are_listed() {
    let app = App::new(data());
    assert_eq!(
        app.get_key_bindings(),
        vec![
            ("Enter", "Details"),
            ("/", "Search"),
            ("h/j/k/l", "Scroll"),
            ("n/p", "Toggle"),
            ("Tab", "Next"),
            ("q", "Quit"),
        ]
    );
}

#[test]
fn search_hits_are_marked() {
    let spans = highlight_search_result("core-alpha-core", "core");
    assert_eq!(texts(&spans), vec!["", "core", "-alpha-", "core", ""]);
    let tones: Vec<Tone> = spans.iter().map(|s| s.tone).collect();
    assert_eq!(tones, vec![Tone::Plain, Tone::Match, Tone::Plain, Tone::Match, Tone::Plain]);
    let spans = highlight_search_result("alpha", "ph");
    assert_eq!(texts(&spans), vec!["al", "ph", "a"]);
    assert_eq!(spans[1].tone, Tone::Match);
}

#[test]
fn lines_without_hit_stay_whole() {
    let spans = highlight_search_result("alpha", "PH");
    assert_eq!(spans, vec![Span::of("alpha", Tone::Plain)]);
    let spans = highlight_search_result("alpha", "");
    assert_eq!(spans, vec![Span::of("alpha", Tone::Plain)]);
    let spans = highlight_search_result("", "x");
    assert_eq!(spans, vec![Span::of("", Tone::Plain)]);
}

#[test]
fn device_table_shows_the_page_of_the_selection() {
    let mut data = Dataset::new();
    data.devices = Devices::from(
        (0..250)
            .map(|i| Device {
                name: format!("core-{i:03}"),
                is_connected: false,
                status: String::from("OK"),
                last_status_update_timestamp: String::from("t"),
            })
            .collect::<Vec<Device>>(),
    );
    let mut app = App::new(data);
    app.run_command(Command::Next(ScrollType::List, 205));
    let table = render_device_info(&app, 90);
    assert_eq!(table.headers, &["Name", "Status", "Last Status Update"]);
    assert_eq!(table.column_percent, 33);
    assert_eq!(table.rows.len(), 50);
    assert_eq!(texts(&table.rows[0][0]), vec!["core-200"]);
    assert_eq!(texts(&table.rows[49][0]), vec!["core-249"]);
    assert_eq!(table.selected, 5);
    assert_eq!(table.position, Some((206, 250)));
    assert_eq!(table.scroll_length, 250);
    assert_eq!(table.scroll_position, 205);
    assert!(table.active);
    app.run_command(Command::Top);
    let table = render_device_info(&app, 90);
    assert_eq!(table.rows.len(), 100);
    assert_eq!(table.selected, 0);
    assert_eq!(table.position, Some((1, 250)));
}

#[test]
fn device_table_cuts_wide_first_cells() {
    let mut data = Dataset::new();
    data.devices = Devices::from(vec![Device {
        name: String::from("a-very-long-device-name"),
        is_connected: false,
        status: String::from("a-very-long-status-text"),
        last_status_update_timestamp: String::from("t"),
    }]);
    let mut app = App::new(data);
    app.run_command(Command::Input(InputCommand::Handle(typed('v'))));
    let table = render_device_info(&app, 36);
    assert_eq!(texts(&table.rows[0][0]), vec!["a-", "v", "ery-lon", "…"]);
    assert_eq!(table.rows[0][0][1].tone, Tone::Match);
    assert_eq!(table.rows[0][0][3].tone, Tone::Frame);
    assert_eq!(texts(&table.rows[0][1]), vec!["a-", "v", "ery-long-status-text"]);
    assert_eq!(texts(&table.rows[0][2]), vec!["t"]);
    let table = render_device_info(&app, 3);
    assert_eq!(texts(&table.rows[0][0]), vec!["", "…"]);
}

#[test]
fn device_table_measures_columns_not_characters() {
    let mut data = Dataset::new();
    data.devices = Devices::from(vec![Device {
        name: String::from("日本語デバイス"),
        is_connected: false,
        status: String::new(),
        last_status_update_timestamp: String::new(),
    }]);
    let app = App::new(data);
    let table = render_device_info(&app, 36);
    assert_eq!(texts(&table.rows[0][0]), vec!["日本語デバイス", "…"]);
    let table = render_device_info(&app, 48);
    assert_eq!(texts(&table.rows[0][0]), vec!["日本語デバイス"]);
}

#[test]
fn device_table_of_empty_list() {
    let app = App::new(Dataset::new());
    let table = render_device_info(&app, 80);
    assert!(table.rows.is_empty());
    assert_eq!(table.position, None);
    assert_eq!(table.selected, 0);
    assert_eq!(table.scroll_length, 0);
}

#[test]
fn key_binding_line_lists_keys() {
    let app = App::new(data());
    let line = render_key_bindings(&app, 200);
    assert_eq!(line.spans.len(), 36);
    assert_eq!(texts(&line.spans[0..6]), vec!["[", "Enter", "→ ", "Details", "]", " "]);
    assert_eq!(texts(&line.spans[30..36]), vec!["[", "q", "→ ", "Quit", "]", ""]);
    assert_eq!(line.spans[1].tone, Tone::Key);
    assert_eq!(line.spans[0].tone, Tone::Frame);
    assert_eq!(line.spans[3].tone, Tone::Plain);
    assert!(!line.hidden);
    assert_eq!(line_width(&line.spans), 82);
}

#[test]
fn key_binding_line_gives_way_to_search_line() {
    let mut app = App::new(data());
    assert!(!render_key_bindings(&app, 30).hidden);
    app.run_command(Command::Input(InputCommand::Enter));
    assert!(render_key_bindings(&app, 30).hidden);
    assert!(render_key_bindings(&app, 106).hidden);
    assert!(!render_key_bindings(&app, 107).hidden);
}

#[test]
fn input_line_shows_search_text() {
    let mut app = App::new(data());
    assert!(get_input_line(&app).is_empty());
    app.run_command(Command::Input(InputCommand::Enter));
    assert_eq!(texts(&get_input_line(&app)), vec!["|", "search: ", "", " ", "|"]);
    app.run_command(Command::Input(InputCommand::Handle(typed('x'))));
    app.run_command(Command::Input(InputCommand::Confirm));
    let line = get_input_line(&app);
    assert_eq!(texts(&line), vec!["|", "search: ", "x", "", "|"]);
    assert_eq!(line[2].tone, Tone::Accent);
    assert_eq!(search_prompt(&app), "search: x");
}

#[test]
fn cursor_stands_behind_the_prompt() {
    let mut app = App::new(data());
    let area = Rect { x: 2, y: 4, width: 80, height: 20 };
    assert_eq!(render_cursor(&app, area, 8), None);
    app.run_command(Command::Input(InputCommand::Enter));
    assert_eq!(render_cursor(&app, area, 8), Some((12, 23)));
    assert_eq!(render_cursor(&app, area, usize::MAX), Some((u16::MAX, 23)));
    assert_eq!(
        render_cursor(&app, Rect { x: u16::MAX - 1, y: 0, width: 0, height: 0 }, 0),
        Some((u16::MAX, 0))
    );
}

#[test]
fn picker_selects_and_chooses() {
    let mut picker = Picker::new(rows(3));
    assert_eq!(picker.input_mode(), InputMode::Select);
    update(&mut picker, key(KeyCode::Down));
    update(&mut picker, key(KeyCode::Char('j')));
    assert_eq!(picker.items().selected(), 2);
    update(&mut picker, key(KeyCode::Char('k')));
    update(&mut picker, key(KeyCode::Up));
    update(&mut picker, key(KeyCode::Up));
    assert_eq!(picker.items().selected(), 2);
    update(&mut picker, key(KeyCode::Enter));
    assert!(picker.should_quit());
    assert_eq!(
        picker.task_to_exec(),
        Some(&vec![String::from("task-2"), String::from("run 2")])
    );
}

#[test]
fn picker_quits_on_q_and_control_c() {
    let mut picker = Picker::new(rows(1));
    update(&mut picker, key(KeyCode::Char('c')));
    assert!(!picker.should_quit());
    update(&mut picker, ctrl('c'));
    assert!(picker.should_quit());
    let mut picker = Picker::new(rows(1));
    update(&mut picker, ctrl('C'));
    assert!(picker.should_quit());
    let mut picker = Picker::new(rows(1));
    update(&mut picker, key(KeyCode::Char('q')));
    assert!(picker.should_quit());
    assert_eq!(picker.task_to_exec(), None);
    let mut picker = Picker::new(rows(1));
    picker.quit();
    assert!(picker.should_quit());
}

#[test]
fn picker_needs_a_row_to_choose_or_preview() {
    let mut picker = Picker::new(Vec::new());
    update(&mut picker, key(KeyCode::Enter));
    assert!(!picker.should_quit());
    assert_eq!(picker.task_to_exec(), None);
    update(&mut picker, key(KeyCode::Char('p')));
    assert_eq!(picker.input_mode(), InputMode::Select);
    let mut picker = Picker::new(rows(2));
    update(&mut picker, key(KeyCode::Char('p')));
    assert_eq!(picker.input_mode(), InputMode::Preview);
    update(&mut picker, key(KeyCode::Down));
    assert_eq!(picker.items().selected(), 0);
    update(&mut picker, key(KeyCode::Char('q')));
    assert_eq!(picker.input_mode(), InputMode::Select);
    assert!(!picker.should_quit());
    update(&mut picker, key(KeyCode::Char('p')));
    update(&mut picker, key(KeyCode::Char('p')));
    assert_eq!(picker.input_mode(), InputMode::Select);
}

#[test]
fn picker_search_filters_at_once() {
    let mut picker = Picker::new(rows(12));
    update(&mut picker, key(KeyCode::Char('/')));
    assert_eq!(picker.input_mode(), InputMode::Search);
    update(&mut picker, key(KeyCode::Char('K')));
    update(&mut picker, key(KeyCode::Char('-')));
    update(&mut picker, key(KeyCode::Char('1')));
    assert_eq!(picker.search(), "K-1");
    assert_eq!(picker.items().len(), 3);
    update(&mut picker, key(KeyCode::Backspace));
    assert_eq!(picker.search(), "K-");
    assert_eq!(picker.items().len(), 12);
    update(&mut picker, key(KeyCode::Char('q')));
    assert_eq!(picker.search(), "K-q");
    assert_eq!(picker.items().len(), 0);
    assert!(!picker.should_quit());
    update(&mut picker, key(KeyCode::Enter));
    assert_eq!(picker.input_mode(), InputMode::Select);
    assert_eq!(picker.search(), "K-q");
    update(&mut picker, key(KeyCode::Char('/')));
    update(&mut picker, key(KeyCode::Esc));
    assert_eq!(picker.input_mode(), InputMode::Select);
    assert_eq!(picker.search(), "");
    assert_eq!(picker.items().len(), 12);
    update(&mut picker, key(KeyCode::Char('/')));
    update(&mut picker, key(KeyCode::Backspace));
    assert_eq!(picker.search(), "");
    update(&mut picker, key(KeyCode::Tab));
    assert_eq!(picker.input_mode(), InputMode::Search);
}
