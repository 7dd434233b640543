use todo_rs::status::Status;

#[test]
fn toggle_switches_between_the_two() {
    assert_eq!(Status::Todo.toggle(), Status::Done);
    assert_eq!(Status::Done.toggle(), Status::Todo);
}

#[test]
fn toggle_twice_leads_back() {
    assert_eq!(Status::Todo.toggle().toggle(), Status::Todo);
    assert_eq!(Status::Done.toggle().toggle(), Status::Done);
}
