use todos::key::Key;
use todos::list::TaskList;
use todos::task::{Task, TodoStatus};

fn task(text: &str) -> Task {
    Task::new(TodoStatus::Pending, text.to_string(), "Jan 01 10:00:00".to_string())
}

fn list_of(texts: &[&str]) -> TaskList {
    TaskList::from_tasks(texts.iter().map(|text| task(text)).collect())
}

fn texts(list: &TaskList) -> Vec<String> {
    list.tasks().iter().map(|task| task.text.clone()).collect()
}

#[test]
fn toggling_a_status_twice_gives_it_back() {
    assert_eq!(TodoStatus::Pending.toggle(), TodoStatus::Done);
    assert_eq!(TodoStatus::Done.toggle(), TodoStatus::Pending);
    assert_eq!(TodoStatus::Pending.toggle().toggle(), TodoStatus::Pending);
}

#[test]
fn a_new_list_is_empty_with_selection_zero() {
    let list = TaskList::new();
    assert!(list.is_empty());
    assert_eq!(list.len(), 0);
    assert_eq!(list.selected_index(), 0);
    assert!(list.selected_task().is_none());
}

#[test]
fn a_list_from_tasks_selects_the_first() {
    let list = list_of(&["a", "b"]);
    assert_eq!(list.len(), 2);
    assert_eq!(list.selected_index(), 0);
    assert_eq!(list.selected_task().unwrap().text, "a");
}

#[test]
fn moving_up_from_the_first_task_wraps_to_the_last() {
    let mut list = list_of(&["a", "b", "c"]);
    list.move_up();
    assert_eq!(list.selected_index(), 2);
    list.move_up();
    assert_eq!(list.selected_index(), 1);
    list.move_up();
    assert_eq!(list.selected_index(), 0);
}

#[test]
fn moving_down_from_the_last_task_wraps_to_the_first() {
    let mut list = list_of(&["a", "b", "c"]);
    list.move_down();
    assert_eq!(list.selected_index(), 1);
    list.move_down();
    assert_eq!(list.selected_index(), 2);
    list.move_down();
    assert_eq!(list.selected_index(), 0);
}

#[test]
fn any_walk_stays_inside_the_list() {
    let mut list = list_of(&["a", "b", "c", "d"]);
    let walk = [true, true, false, true, true, true, true, false, false, false, false, false, true];
    let mut expected: usize = 0;
    for up in walk {
        if up {
            list.move_up();
            expected = (expected + 3) % 4;
        } else {
            list.move_down();
            expected = (expected + 1) % 4;
        }
        assert_eq!(list.selected_index(), expected);
        assert!(list.selected_index() < list.len());
        assert_eq!(texts(&list), ["a", "b", "c", "d"]);
    }
}

#[test]
fn a_list_of_one_task_keeps_its_selection() {
    let mut list = list_of(&["only"]);
    list.move_up();
    assert_eq!(list.selected_index(), 0);
    list.move_down();
    assert_eq!(list.selected_index(), 0);
}

#[test]
fn an_empty_list_takes_every_operation_without_change() {
    let mut list = TaskList::new();
    list.move_up();
    list.move_down();
    list.toggle_status();
    list.delete();
    let mut cursor = 3;
    assert!(!list.edit_selected(&mut cursor, Key::Code('x' as i32)));
    assert_eq!(cursor, 3);
    assert!(list.is_empty());
    assert_eq!(list.selected_index(), 0);
}

#[test]
fn toggle_flips_only_the_selected_task() {
    let mut list = list_of(&["a", "b", "c"]);
    list.move_down();
    list.toggle_status();
    let statuses: Vec<TodoStatus> = list.tasks().iter().map(|task| task.status).collect();
    assert_eq!(statuses, [TodoStatus::Pending, TodoStatus::Done, TodoStatus::Pending]);
    assert_eq!(texts(&list), ["a", "b", "c"]);
    assert_eq!(list.selected_index(), 1);
    list.toggle_status();
    assert_eq!(list.tasks()[1].status, TodoStatus::Pending);
    assert_eq!(list.tasks()[1].created_at, "Jan 01 10:00:00");
}

#[test]
fn delete_in_the_middle_selects_the_task_that_followed() {
    let mut list = list_of(&["a", "b", "c"]);
    list.move_down();
    list.delete();
    assert_eq!(texts(&list), ["a", "c"]);
    assert_eq!(list.selected_index(), 1);
    assert_eq!(list.selected_task().unwrap().text, "c");
}

#[test]
fn delete_of_the_last_task_selects_the_new_last() {
    let mut list = list_of(&["a", "b", "c"]);
    list.move_up();
    assert_eq!(list.selected_index(), 2);
    list.delete();
    assert_eq!(texts(&list), ["a", "b"]);
    assert_eq!(list.selected_index(), 1);
}

#[test]
fn delete_of_the_first_task_keeps_selection_zero() {
    let mut list = list_of(&["a", "b"]);
    list.delete();
    assert_eq!(texts(&list), ["b"]);
    assert_eq!(list.selected_index(), 0);
}

#[test]
fn delete_of_the_only_task_leaves_a_list_that_takes_more() {
    let mut list = list_of(&["only"]);
    list.delete();
    assert!(list.is_empty());
    assert_eq!(list.selected_index(), 0);
    list.delete();
    list.toggle_status();
    assert!(list.is_empty());
    assert_eq!(list.selected_index(), 0);
}

#[test]
fn a_new_task_enters_at_the_front_and_is_selected() {
    let mut list = list_of(&["a", "b", "c"]);
    list.move_up();
    list.insert_new_at_front("Mar 03 03:03:03".to_string());
    assert_eq!(list.len(), 4);
    assert_eq!(list.selected_index(), 0);
    assert_eq!(
        list.tasks()[0],
        Task::new(TodoStatus::Pending, String::new(), "Mar 03 03:03:03".to_string())
    );
    assert_eq!(texts(&list), ["", "a", "b", "c"]);

    let mut empty = TaskList::new();
    empty.insert_new_at_front("x".to_string());
    assert_eq!(empty.len(), 1);
    assert_eq!(empty.selected_index(), 0);
    assert_eq!(Task::fresh("x".to_string()), empty.tasks()[0]);
}

#[test]
fn the_editor_works_on_the_selected_task_only() {
    let mut list = list_of(&["a", "b", "c"]);
    list.move_down();
    let mut cursor = 1;
    assert!(list.edit_selected(&mut cursor, Key::Code('!' as i32)));
    assert_eq!(cursor, 2);
    assert_eq!(texts(&list), ["a", "b!", "c"]);
    assert!(!list.edit_selected(&mut cursor, Key::Code(10)));
    assert_eq!(texts(&list), ["a", "b!", "c"]);
    assert_eq!(list.selected_index(), 1);
}
