use rustwide::cmd::Actions;
use rustwide::cmd::InnerState;
use rustwide::cmd::ProcessLinesActions;

#[test]
fn actions_test_replace() {
    let mut actions = Actions::new();

    actions.next_input("lorem");
    actions.replace_with_lines("ipsum".split("\n").map(|s| s.to_string()).collect());
    assert_eq!(actions.take_lines(), vec!["ipsum"]);

    actions.next_input("lorem ipsum dolor");
    actions.replace_with_lines("lorem ipsum dolor".split(" ").map(|s| s.to_string()).collect());
    assert_eq!(actions.take_lines(), vec!["lorem", "ipsum", "dolor"]);

    // assert last input is discarded
    assert_eq!(actions.take_lines(), Vec::<String>::new());
}

#[test]
fn actions_test_remove() {
    let mut actions = Actions::new();
    actions.next_input("lorem");
    actions.remove_line();
    assert_eq!(actions.take_lines(), Vec::<String>::new());
}

#[test]
fn actions_test_no_actions() {
    let mut actions = Actions::new();
    actions.next_input("lorem ipsum dolor");
    assert_eq!(actions.take_lines(), vec!["lorem ipsum dolor"]);
}

#[test]
fn process_lines_actions_test_replace() {
    let mut actions = ProcessLinesActions::new();

    actions.replace_with_lines("ipsum".split("\n").map(|s| s.to_string()).collect());
    assert_eq!(
        actions.take_lines(),
        InnerState::Replaced(vec!["ipsum".to_string()])
    );

    actions.replace_with_lines("lorem ipsum dolor".split(" ").map(|s| s.to_string()).collect());
    assert_eq!(
        actions.take_lines(),
        InnerState::Replaced(vec![
            "lorem".to_string(),
            "ipsum".to_string(),
            "dolor".to_string()
        ])
    );

    // assert last input is discarded
    assert_eq!(actions.take_lines(), InnerState::Original);
}

#[test]
fn process_lines_actions_test_remove() {
    let mut actions = ProcessLinesActions::new();
    actions.remove_line();
    assert_eq!(actions.take_lines(), InnerState::Removed);
}

#[test]
fn process_lines_actions_test_no_actions() {
    let mut actions = ProcessLinesActions::new();
    assert_eq!(actions.take_lines(), InnerState::Original);
}
