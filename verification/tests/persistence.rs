use lumina_learn::contract::LuminaLearnContract;
use lumina_learn::error::Error;
use lumina_learn::list::{append_unique, list_contains};
use lumina_learn::storage::{DataKey, Entry};
use lumina_learn::table::Table;
use lumina_learn::types::{
    AttendanceSession, Course, Identity, ResubmissionPolicy, Student, Teacher, Token,
};

fn who(name: &str) -> Identity {
    Identity::new(name.to_string())
}

fn text(value: &str) -> String {
    value.to_string()
}

#[test]
fn engine_comes_back_from_its_entries() {
    let mut engine = LuminaLearnContract::with_policy(ResubmissionPolicy::ClearGrade);
    let teacher = who("T");
    let student = who("S");
    engine.initialize(who("A")).unwrap();
    engine.register_teacher(teacher.clone()).unwrap();
    engine.register_student(student.clone()).unwrap();
    engine.create_course(teacher.clone(), text("C"), text("n"), text("d"), 3).unwrap();
    engine.enroll_student(student.clone(), text("C")).unwrap();
    engine.create_lecture(teacher.clone(), text("C"), text("L"), text("t"), 1, 2).unwrap();
    let issued = engine
        .start_attendance_session(teacher.clone(), text("L"), 60, 100, Token::new([5; 32]))
        .unwrap();

    let written = engine.entries();
    assert_eq!(written.len(), 10);
    assert!(written.contains(&Entry::Admin(who("A"))));
    assert!(written.contains(&Entry::Teacher(Teacher { id: teacher.clone() })));
    assert!(written.contains(&Entry::Student(Student {
        id: student.clone(),
        enrolled_courses: vec![text("C")],
    })));
    assert!(written.contains(&Entry::CourseStudents(text("C"), vec![student.clone()])));
    assert!(written.contains(&Entry::CourseAssignments(text("C"), vec![])));
    assert!(written.contains(&Entry::CourseLectures(text("C"), vec![text("L")])));
    assert!(written.contains(&Entry::LectureAttendees(text("L"), vec![])));
    assert!(written.contains(&Entry::AttendanceSession(
        AttendanceSession { lecture_id: text("L"), start_time: 100, end_time: 160, is_active: true },
        Token::new([5; 32]),
    )));

    let mut restored = LuminaLearnContract::from_entries(written.clone(), engine.policy());
    assert_eq!(restored.entries(), written);
    assert_eq!(restored.policy(), ResubmissionPolicy::ClearGrade);
    assert_eq!(restored.get_admin(), Some(who("A")));
    assert_eq!(restored.get_course(text("C")), engine.get_course(text("C")));
    assert_eq!(restored.mark_attendance(student.clone(), text("L"), issued, 160), Ok(()));
    assert_eq!(
        restored.create_course(teacher, text("C"), text("x"), text("y"), 0),
        Err(Error::DuplicateId)
    );
    assert!(!engine.verify_attendance(text("L"), student));
}

#[test]
fn later_entry_replaces_earlier_one_with_the_same_key() {
    let first = Course {
        id: text("C"),
        teacher: who("T"),
        name: text("old"),
        description: text("d"),
        price: 1,
    };
    let second = Course {
        id: text("C"),
        teacher: who("U"),
        name: text("new"),
        description: text("d"),
        price: 2,
    };
    let engine = LuminaLearnContract::from_entries(
        vec![Entry::Course(first), Entry::Admin(who("A")), Entry::Course(second.clone())],
        ResubmissionPolicy::KeepGrade,
    );
    assert_eq!(engine.entries().len(), 2);
    assert_eq!(engine.get_course(text("C")), Some(second));
    assert_eq!(engine.get_admin(), Some(who("A")));
}

#[test]
fn table_files_one_entry_per_key() {
    let mut table: Table<Entry> = Table::new();
    assert!(!table.contains(&DataKey::Admin));
    assert!(table.get(&DataKey::Admin).is_none());
    table.put(Entry::Admin(who("A")));
    table.put(Entry::Teacher(Teacher { id: who("A") }));
    assert!(table.contains(&DataKey::Admin));
    assert!(table.contains(&DataKey::Teacher(who("A"))));
    assert!(!table.contains(&DataKey::Student(who("A"))));
    table.put(Entry::Admin(who("B")));
    assert_eq!(table.get(&DataKey::Admin), Some(&Entry::Admin(who("B"))));
    assert_eq!(table.entries().len(), 2);
    assert_eq!(table.entries()[0], Entry::Admin(who("B")));
}

#[test]
fn keys_are_read_off_the_entries() {
    assert_eq!(Entry::Admin(who("A")).key(), DataKey::Admin);
    assert_eq!(
        Entry::CourseLectures(text("C"), vec![text("L")]).key(),
        DataKey::CourseLectures(text("C"))
    );
    assert_eq!(
        Entry::AttendanceSession(
            AttendanceSession { lecture_id: text("L"), start_time: 0, end_time: 1, is_active: true },
            Token::new([0; 32]),
        )
        .key(),
        DataKey::AttendanceSession(text("L"))
    );
    assert!(DataKey::Course(text("C")).same(&DataKey::Course(text("C"))));
    assert!(!DataKey::Course(text("C")).same(&DataKey::Course(text("D"))));
    assert!(!DataKey::Course(text("C")).same(&DataKey::Lecture(text("C"))));
    assert!(!DataKey::CourseLectures(text("C")).same(&DataKey::CourseStudents(text("C"))));
    assert!(DataKey::Assignment(text("C"), text("A")).same(&DataKey::Assignment(text("C"), text("A"))));
    assert!(!DataKey::Assignment(text("C"), text("A")).same(&DataKey::Assignment(text("A"), text("C"))));
    assert!(DataKey::Submission(text("C"), text("A"), who("S"))
        .same(&DataKey::Submission(text("C"), text("A"), who("S"))));
    assert!(!DataKey::Submission(text("C"), text("A"), who("S"))
        .same(&DataKey::Submission(text("C"), text("A"), who("R"))));
    assert!(!DataKey::AttendanceRecord(text("L"), who("S"))
        .same(&DataKey::AttendanceRecord(text("M"), who("S"))));
    assert!(!DataKey::Teacher(who("S")).same(&DataKey::Student(who("S"))));
    assert!(DataKey::Admin.same(&DataKey::Admin));
}

#[test]
fn append_unique_adds_a_member_once() {
    let mut ids: Vec<String> = Vec::new();
    assert!(!list_contains(&ids, &text("a")));
    append_unique(&mut ids, text("a"));
    append_unique(&mut ids, text("b"));
    append_unique(&mut ids, text("a"));
    assert_eq!(ids, vec![text("a"), text("b")]);
    assert!(list_contains(&ids, &text("b")));
    assert!(!list_contains(&ids, &text("c")));

    let mut members: Vec<Identity> = vec![who("x")];
    append_unique(&mut members, who("x"));
    append_unique(&mut members, who("y"));
    assert_eq!(members, vec![who("x"), who("y")]);
}

#[test]
fn identities_compare_by_key() {
    assert!(who("a").same(&who("a")));
    assert!(!who("a").same(&who("b")));
    assert!(!who("a").same(&who("")));
    assert_eq!(who("a").clone(), who("a"));
}
