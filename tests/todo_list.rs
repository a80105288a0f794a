use todo_cli::console::{
    get_color_text, Console, ConsoleBackgroundColors, ConsoleForegroundColors, Direction,
};
use todo_cli::lines::split_lines;
use todo_cli::list::{Task, TodoList};
use todo_cli::session::{handle_key, Action, KeyPress};
use todo_cli::state::{get_type_from_string, type_to_string, TaskType};

fn list_of(lines: &[&str]) -> TodoList {
    let mut list = TodoList::new();
    let owned: Vec<String> = lines.iter().map(|l| l.to_string()).collect();
    list.load(&owned);
    list
}

fn texts(list: &TodoList) -> Vec<String> {
    list.tasks.iter().map(|t| t.text.clone()).collect()
}

#[test]
fn marker_round_trip_for_every_valid_marker() {
    for p in ["[ ]", "[+]", "[X]", "[-]"] {
        for rest in ["", " buy milk", "x"] {
            let line = format!("{}{}", p, rest);
            assert_eq!(type_to_string(get_type_from_string(&line)), p);
        }
    }
}

#[test]
fn decode_each_marker() {
    assert_eq!(get_type_from_string("[ ] a"), TaskType::Todo);
    assert_eq!(get_type_from_string("[+] a"), TaskType::Doing);
    assert_eq!(get_type_from_string("[X] a"), TaskType::Done);
    assert_eq!(get_type_from_string("[-] a"), TaskType::Rejected);
    assert_eq!(get_type_from_string("[x] a"), TaskType::NotDefined);
    assert_eq!(get_type_from_string("[+"), TaskType::NotDefined);
    assert_eq!(get_type_from_string(""), TaskType::NotDefined);
}

#[test]
fn undefined_encodes_like_todo() {
    assert_eq!(type_to_string(TaskType::NotDefined), "[ ]");
}

#[test]
fn next_is_a_four_cycle() {
    for s in [TaskType::Todo, TaskType::Doing, TaskType::Done, TaskType::Rejected] {
        assert_eq!(s.next().next().next().next(), s);
        assert_ne!(s.next(), s);
    }
    assert_eq!(TaskType::Todo.next(), TaskType::Doing);
    assert_eq!(TaskType::Rejected.next(), TaskType::Todo);
    assert_eq!(TaskType::NotDefined.next(), TaskType::NotDefined);
}

#[test]
fn state_names_and_ranks() {
    assert_eq!(TaskType::NotDefined.name(), "NotDefined");
    assert_eq!(TaskType::Doing.name(), "Doing");
    assert_eq!(TaskType::Todo.rank(), 0);
    assert_eq!(TaskType::NotDefined.rank(), 4);
}

#[test]
fn save_then_load_gives_the_sorted_list() {
    let mut list = list_of(&["[X] c", "[-] d", "[ ] a", "oops", "[+] b", "[ ] e"]);
    let written = list.save();
    let mut again = TodoList::new();
    again.load_contents(&written);
    assert_eq!(texts(&again), texts(&list));
    let states: Vec<TaskType> = again.tasks.iter().map(|t| t.task_type).collect();
    let before: Vec<TaskType> = list.tasks.iter().map(|t| t.task_type).collect();
    assert_eq!(states, before);
    assert_eq!(again.save(), written);
}

#[test]
fn sort_keeps_order_within_a_state() {
    let mut list = list_of(&["[X] one", "[ ] two", "[X] three", "[ ] four", "[X] five"]);
    list.sort_by_state();
    assert_eq!(
        texts(&list),
        vec!["[ ] two", "[ ] four", "[X] one", "[X] three", "[X] five"]
    );
}

#[test]
fn load_then_save_orders_by_state() {
    let mut list = list_of(&["[X] wash car", "[ ] buy milk", "[+] write report"]);
    assert_eq!(list.tasks[0].task_type, TaskType::Done);
    assert_eq!(list.tasks[1].task_type, TaskType::Todo);
    assert_eq!(list.tasks[2].task_type, TaskType::Doing);
    let written = list.save();
    assert_eq!(written, "[ ] buy milk\n[+] write report\n[X] wash car\n");
}

#[test]
fn change_state_wraps_rejected_to_todo() {
    let mut list = list_of(&["[-] call bank"]);
    assert_eq!(list.tasks[0].task_type, TaskType::Rejected);
    assert!(list.change_state(0).is_ok());
    assert_eq!(list.tasks[0].text, "[ ] call bank");
    assert_eq!(list.tasks[0].task_type, TaskType::Todo);
}

#[test]
fn change_state_out_of_range_is_refused() {
    let mut list = list_of(&["[ ] a"]);
    let e = list.change_state(1).unwrap_err();
    assert_eq!(e.index, 1);
    assert_eq!(e.len, 1);
    assert_eq!(list.tasks[0].text, "[ ] a");
}

#[test]
fn change_type_keeps_the_description() {
    let mut task = Task { task_type: TaskType::Doing, text: "[+] é x".to_string() };
    task.change_type();
    assert_eq!(task.task_type, TaskType::Done);
    assert_eq!(task.text, "[X] é x");
}

#[test]
fn empty_file_gives_empty_list_and_empty_save() {
    let mut list = TodoList::new();
    list.load_contents("");
    assert!(list.tasks.is_empty());
    assert_eq!(list.save(), "");
}

#[test]
fn unmarked_line_is_kept_byte_for_byte() {
    let mut list = list_of(&["call bank"]);
    assert_eq!(list.tasks[0].task_type, TaskType::NotDefined);
    assert_eq!(list.save(), "call bank\n");
    assert!(list.change_state(0).is_ok());
    assert_eq!(list.tasks[0].text, "call bank");
    assert_eq!(list.tasks[0].task_type, TaskType::NotDefined);
}

#[test]
fn add_appends_at_the_end() {
    let mut list = TodoList::new();
    list.add("[+] b", TaskType::Doing);
    list.add("[ ] a", TaskType::Todo);
    assert_eq!(texts(&list), vec!["[+] b", "[ ] a"]);
    assert!(!list.is_editing);
}

#[test]
fn split_lines_like_a_file_reader() {
    assert_eq!(split_lines("a\r\nb\n\nc"), vec!["a", "b", "", "c"]);
    assert_eq!(split_lines("x\r"), vec!["x\r"]);
    assert!(split_lines("").is_empty());
    assert_eq!(split_lines("\n"), vec![""]);
}

#[test]
fn color_text_exact_bytes() {
    assert_eq!(
        get_color_text(ConsoleForegroundColors::Red, ConsoleBackgroundColors::NoColor, "hi"),
        "\x1b[31mhi\x1b[0m"
    );
    assert_eq!(
        get_color_text(ConsoleForegroundColors::Green, ConsoleBackgroundColors::White, "ok"),
        "\x1b[32;47mok\x1b[0m"
    );
    assert_eq!(
        get_color_text(ConsoleForegroundColors::White, ConsoleBackgroundColors::Black, ""),
        "\x1b[37;40m\x1b[0m"
    );
}

#[test]
fn cursor_moves_within_bounds() {
    let mut c = Console::new();
    assert_eq!(c.cursor_position, (1, 1));
    c.move_cursor(Direction::Up);
    c.move_cursor(Direction::Left);
    assert_eq!(c.cursor_position, (1, 1));
    c.move_cursor(Direction::Down);
    c.move_cursor(Direction::Down);
    assert_eq!(c.cursor_position, (1, 3));
    for _ in 0..20 {
        c.move_cursor(Direction::Right);
    }
    assert_eq!(c.cursor_position, (10, 3));
}

#[test]
fn render_highlights_and_annotates_the_edited_row() {
    let mut list = list_of(&["[ ] a", "[X] b", "plain"]);
    list.is_editing = true;
    let mut c = Console::new();
    c.move_cursor(Direction::Down);
    let rows = list.render(&c);
    assert_eq!(rows.len(), 3);
    assert_eq!((rows[0].column, rows[0].row), (1, 1));
    assert_eq!(rows[0].text.as_deref(), Some("\x1b[34m[ ] a\x1b[0m"));
    assert_eq!((rows[1].column, rows[1].row), (3, 2));
    assert_eq!(
        rows[1].text.as_deref(),
        Some("\x1b[32;47m[X] b (Current: Done, Next: Rejected)\x1b[0m")
    );
    assert!(rows[2].text.is_none());
    assert_eq!(rows[2].row, 3);
}

#[test]
fn keys_drive_an_edit_and_a_save() {
    let mut list = list_of(&["[ ] a", "[ ] b"]);
    let mut c = Console::new();
    assert!(matches!(handle_key(&mut list, &mut c, KeyPress::Down), Action::Moved));
    assert!(matches!(handle_key(&mut list, &mut c, KeyPress::Right), Action::Redraw));
    assert!(list.is_editing);
    assert_eq!(list.tasks[1].text, "[+] b");
    assert!(matches!(handle_key(&mut list, &mut c, KeyPress::Up), Action::Redraw));
    assert_eq!(c.cursor_position, (1, 2));
    match handle_key(&mut list, &mut c, KeyPress::Left) {
        Action::Save(s) => assert_eq!(s, "[ ] a\n[+] b\n"),
        _ => panic!("expected a save"),
    }
    assert!(!list.is_editing);
    assert!(matches!(handle_key(&mut list, &mut c, KeyPress::Char('z')), Action::Redraw));
    match handle_key(&mut list, &mut c, KeyPress::Char('q')) {
        Action::Quit(s) => assert_eq!(s, "[ ] a\n[+] b\n"),
        _ => panic!("expected quit"),
    }
}

#[test]
fn right_on_a_row_without_task_is_refused() {
    let mut list = list_of(&["[ ] a"]);
    let mut c = Console::new();
    handle_key(&mut list, &mut c, KeyPress::Down);
    match handle_key(&mut list, &mut c, KeyPress::Right) {
        Action::Refused(e) => assert_eq!((e.index, e.len), (1, 1)),
        _ => panic!("expected a refusal"),
    }
    assert!(!list.is_editing);
}
