use student_management::registry::StudentManagementSystem;

fn name(s: &str) -> String {
    String::from(s)
}

#[test]
fn club_membership_scenario() {
    let mut system = StudentManagementSystem::new();
    system.create_student(1, name("Alice"), 20, 1);
    system.create_student(2, name("Bob"), 21, 1);
    system.create_club(1, name("Chess Club"));
    system.add_student_to_club(1, 1);
    system.add_student_to_club(2, 1);
    assert_eq!(system.get_club(1).unwrap().members, vec![1, 2]);
    system.remove_student_from_club(1, 1);
    assert_eq!(system.get_club(1).unwrap().members, vec![2]);
    assert_eq!(system.get_club(1).unwrap().name, "Chess Club");
}

#[test]
fn course_scenario() {
    let mut system = StudentManagementSystem::new();
    system.create_course(1, name("Calculus"));
    let course = system.get_course(1).unwrap();
    assert_eq!(course.id, 1);
    assert_eq!(course.name, "Calculus");
    assert!(system.get_course(2).is_none());
}

#[test]
fn created_student_is_found() {
    let mut system = StudentManagementSystem::new();
    system.create_student(7, name("Carol"), 19, 3);
    let s = system.get_student(7).unwrap();
    assert_eq!(s.id, 7);
    assert_eq!(s.name, "Carol");
    assert_eq!(s.age, 19);
    assert_eq!(s.class_id, 3);
}

#[test]
fn duplicate_student_id_finds_first() {
    let mut system = StudentManagementSystem::new();
    system.create_student(1, name("Alice"), 20, 1);
    system.create_student(1, name("Eve"), 30, 2);
    assert_eq!(system.students.len(), 2);
    assert_eq!(system.get_student(1).unwrap().name, "Alice");
    system.update_student(1, name("Ann"), 22, 5);
    assert_eq!(system.students[0].name, "Ann");
    assert_eq!(system.students[1].name, "Eve");
}

#[test]
fn update_overwrites_all_fields() {
    let mut system = StudentManagementSystem::new();
    system.create_student(1, name("Alice"), 20, 1);
    system.create_student(2, name("Bob"), 21, 1);
    system.update_student(2, name("Robert"), 22, 4);
    let s = system.get_student(2).unwrap();
    assert_eq!(s.name, "Robert");
    assert_eq!(s.age, 22);
    assert_eq!(s.class_id, 4);
    let a = system.get_student(1).unwrap();
    assert_eq!(a.name, "Alice");
    assert_eq!(a.age, 20);
}

#[test]
fn update_of_missing_student_does_nothing() {
    let mut system = StudentManagementSystem::new();
    system.create_student(1, name("Alice"), 20, 1);
    system.update_student(9, name("Zed"), 40, 9);
    assert_eq!(system.students.len(), 1);
    assert!(system.get_student(9).is_none());
    assert_eq!(system.get_student(1).unwrap().name, "Alice");
}

#[test]
fn delete_removes_every_match() {
    let mut system = StudentManagementSystem::new();
    system.create_student(1, name("Alice"), 20, 1);
    system.create_student(2, name("Bob"), 21, 1);
    system.create_student(1, name("Eve"), 30, 2);
    system.create_student(3, name("Dan"), 18, 2);
    system.delete_student(1);
    assert!(system.get_student(1).is_none());
    let ids: Vec<u32> = system.students.iter().map(|s| s.id).collect();
    assert_eq!(ids, vec![2, 3]);
}

#[test]
fn delete_keeps_memberships() {
    let mut system = StudentManagementSystem::new();
    system.create_student(1, name("Alice"), 20, 1);
    system.create_club(1, name("Chess Club"));
    system.create_class(1, name("Math Class"));
    system.add_student_to_club(1, 1);
    system.add_student_to_class(1, 1);
    system.delete_student(1);
    assert_eq!(system.get_club(1).unwrap().members, vec![1]);
    assert_eq!(system.get_class(1).unwrap().students, vec![1]);
}

#[test]
fn adding_twice_accumulates() {
    let mut system = StudentManagementSystem::new();
    system.create_club(5, name("Drama"));
    system.add_student_to_club(3, 5);
    system.add_student_to_club(3, 5);
    assert_eq!(system.get_club(5).unwrap().members, vec![3, 3]);
}

#[test]
fn remove_takes_every_occurrence() {
    let mut system = StudentManagementSystem::new();
    system.create_club(5, name("Drama"));
    system.add_student_to_club(3, 5);
    system.add_student_to_club(4, 5);
    system.add_student_to_club(3, 5);
    system.remove_student_from_club(3, 5);
    assert_eq!(system.get_club(5).unwrap().members, vec![4]);
}

#[test]
fn membership_on_missing_club_does_nothing() {
    let mut system = StudentManagementSystem::new();
    system.create_club(1, name("Chess Club"));
    system.add_student_to_club(1, 1);
    system.add_student_to_club(2, 9);
    system.remove_student_from_club(1, 9);
    assert!(system.get_club(9).is_none());
    assert_eq!(system.get_club(1).unwrap().members, vec![1]);
}

#[test]
fn class_membership() {
    let mut system = StudentManagementSystem::new();
    system.create_class(1, name("Math Class"));
    system.add_student_to_class(1, 1);
    system.add_student_to_class(2, 1);
    system.add_student_to_class(1, 1);
    assert_eq!(system.get_class(1).unwrap().students, vec![1, 2, 1]);
    system.remove_student_from_class(1, 1);
    assert_eq!(system.get_class(1).unwrap().students, vec![2]);
    system.add_student_to_class(3, 2);
    system.remove_student_from_class(2, 2);
    assert!(system.get_class(2).is_none());
    assert_eq!(system.get_class(1).unwrap().name, "Math Class");
}

#[test]
fn membership_goes_to_first_club_with_the_id() {
    let mut system = StudentManagementSystem::new();
    system.create_club(1, name("First"));
    system.create_club(1, name("Second"));
    system.add_student_to_club(6, 1);
    assert_eq!(system.clubs[0].members, vec![6]);
    assert!(system.clubs[1].members.is_empty());
}

#[test]
fn lookups_on_unknown_ids_are_absent() {
    let mut system = StudentManagementSystem::new();
    assert!(system.get_student(1).is_none());
    assert!(system.get_club(1).is_none());
    assert!(system.get_class(1).is_none());
    assert!(system.get_course(1).is_none());
    system.create_student(1, name("Alice"), 20, 1);
    system.create_club(1, name("Chess Club"));
    system.create_class(1, name("Math Class"));
    system.create_course(1, name("Calculus"));
    assert!(system.get_student(2).is_none());
    assert!(system.get_club(2).is_none());
    assert!(system.get_class(2).is_none());
    assert!(system.get_course(2).is_none());
}
