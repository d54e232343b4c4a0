use lumina_learn::contract::LuminaLearnContract;
use lumina_learn::error::Error;
use lumina_learn::types::{Identity, ResubmissionPolicy};

fn who(name: &str) -> Identity {
    Identity::new(name.to_string())
}

fn text(value: &str) -> String {
    value.to_string()
}

fn setup_test() -> (LuminaLearnContract, Identity, Identity, Identity) {
    (LuminaLearnContract::new(), who("GADMIN"), who("GTEACHER"), who("GSTUDENT"))
}

#[test]
fn test_initialize_and_get_admin() {
    let (mut client, admin, _, _) = setup_test();
    assert_eq!(client.get_admin(), None);
    assert_eq!(client.initialize(admin.clone()), Ok(()));
    assert_eq!(client.get_admin(), Some(admin));
}

#[test]
fn test_initialize_twice() {
    let (mut client, admin, teacher, _) = setup_test();
    assert_eq!(client.initialize(admin.clone()), Ok(()));
    assert_eq!(client.initialize(admin.clone()), Err(Error::AlreadyInitialized));
    assert_eq!(client.initialize(teacher), Err(Error::AlreadyInitialized));
    assert_eq!(client.get_admin(), Some(admin));
}

#[test]
fn test_register_teacher_and_check() {
    let (mut client, admin, teacher, _) = setup_test();
    client.initialize(admin).unwrap();
    assert_eq!(client.register_teacher(teacher.clone()), Ok(()));
    assert!(client.is_teacher(teacher));
    assert!(!client.is_teacher(who("GSOMEONE")));
}

#[test]
fn test_register_teacher_twice() {
    let (mut client, admin, teacher, _) = setup_test();
    client.initialize(admin).unwrap();
    client.register_teacher(teacher.clone()).unwrap();
    assert_eq!(client.register_teacher(teacher.clone()), Err(Error::AlreadyRegistered));
    assert!(client.is_teacher(teacher));
}

#[test]
fn test_register_student_and_get() {
    let (mut client, admin, _, student) = setup_test();
    client.initialize(admin).unwrap();
    client.register_student(student.clone()).unwrap();

    let student_data = client.get_student(student.clone()).expect("Student should be registered");
    assert_eq!(student_data.id, student);
    assert_eq!(student_data.enrolled_courses.len(), 0);
}

#[test]
fn test_register_student_twice() {
    let (mut client, admin, _, student) = setup_test();
    client.initialize(admin).unwrap();
    client.register_student(student.clone()).unwrap();
    assert_eq!(client.register_student(student), Err(Error::AlreadyRegistered));
}

#[test]
fn test_create_course() {
    let (mut client, admin, teacher, _) = setup_test();
    client.initialize(admin).unwrap();
    client.register_teacher(teacher.clone()).unwrap();

    let course_id = text("RUST101");
    let name = text("Intro to Rust");
    let desc = text("Learn the basics");
    let price: u128 = 100_0000000;

    assert_eq!(
        client.create_course(teacher.clone(), course_id.clone(), name.clone(), desc.clone(), price),
        Ok(())
    );

    let course_data = client.get_course(course_id.clone()).expect("Course should exist");
    assert_eq!(course_data.id, course_id);
    assert_eq!(course_data.teacher, teacher);
    assert_eq!(course_data.name, name);
    assert_eq!(course_data.description, desc);
    assert_eq!(course_data.price, price);
    assert_eq!(course_data.price, 1000000000);
    assert_eq!(client.get_course_assignments(course_id.clone()).len(), 0);
    assert_eq!(client.get_course_students(course_id.clone()).len(), 0);
    assert_eq!(client.get_course_lectures(course_id).len(), 0);
}

#[test]
fn test_create_course_unregistered_teacher() {
    let (mut client, admin, teacher, _) = setup_test();
    client.initialize(admin).unwrap();
    let course_id = text("RUST101");
    assert_eq!(
        client.create_course(teacher, course_id.clone(), text("Intro"), text("Desc"), 0),
        Err(Error::NotRegistered)
    );
    assert_eq!(client.get_course(course_id), None);
}

#[test]
fn test_create_course_duplicate_id() {
    let (mut client, admin, teacher, _) = setup_test();
    client.initialize(admin).unwrap();
    client.register_teacher(teacher.clone()).unwrap();
    let course_id = text("RUST101");
    client
        .create_course(teacher.clone(), course_id.clone(), text("Intro"), text("Desc"), 0)
        .unwrap();
    assert_eq!(
        client.create_course(
            teacher.clone(),
            course_id.clone(),
            text("Intro V2"),
            text("Desc V2"),
            0
        ),
        Err(Error::DuplicateId)
    );
    let course_data = client.get_course(course_id).unwrap();
    assert_eq!(course_data.teacher, teacher);
    assert_eq!(course_data.name, "Intro");
    assert_eq!(course_data.description, "Desc");
}

#[test]
fn test_enroll_student() {
    let (mut client, admin, teacher, student) = setup_test();
    client.initialize(admin).unwrap();
    client.register_teacher(teacher.clone()).unwrap();
    client.register_student(student.clone()).unwrap();

    let course_id = text("RUST101");
    client.create_course(teacher, course_id.clone(), text("Intro"), text("Desc"), 0).unwrap();

    assert_eq!(client.enroll_student(student.clone(), course_id.clone()), Ok(()));

    let student_data = client.get_student(student.clone()).unwrap();
    assert_eq!(student_data.enrolled_courses.len(), 1);
    assert!(student_data.enrolled_courses.contains(&course_id));

    let course_students = client.get_course_students(course_id);
    assert_eq!(course_students.len(), 1);
    assert!(course_students.contains(&student));
}

#[test]
fn test_enroll_unregistered_student() {
    let (mut client, admin, teacher, student) = setup_test();
    client.initialize(admin).unwrap();
    client.register_teacher(teacher.clone()).unwrap();
    let course_id = text("RUST101");
    client.create_course(teacher, course_id.clone(), text("Intro"), text("Desc"), 0).unwrap();

    assert_eq!(client.enroll_student(student, course_id.clone()), Err(Error::NotRegistered));
    assert_eq!(client.get_course_students(course_id).len(), 0);
}

#[test]
fn test_enroll_nonexistent_course() {
    let (mut client, admin, _, student) = setup_test();
    client.initialize(admin).unwrap();
    client.register_student(student.clone()).unwrap();
    let course_id = text("NOSUCH");

    assert_eq!(client.enroll_student(student.clone(), course_id), Err(Error::NotFound));
    assert_eq!(client.get_student_courses(student).len(), 0);
}

#[test]
fn test_enroll_student_twice() {
    let (mut client, admin, teacher, student) = setup_test();
    client.initialize(admin).unwrap();
    client.register_teacher(teacher.clone()).unwrap();
    client.register_student(student.clone()).unwrap();
    let course_id = text("RUST101");
    client.create_course(teacher, course_id.clone(), text("Intro"), text("Desc"), 0).unwrap();

    client.enroll_student(student.clone(), course_id.clone()).unwrap();
    assert_eq!(
        client.enroll_student(student.clone(), course_id.clone()),
        Err(Error::AlreadyEnrolled)
    );
    assert_eq!(client.get_student_courses(student).len(), 1);
    assert_eq!(client.get_course_students(course_id).len(), 1);
}

#[test]
fn test_create_assignment() {
    let (mut client, admin, teacher, _) = setup_test();
    client.initialize(admin).unwrap();
    client.register_teacher(teacher.clone()).unwrap();
    let course_id = text("RUST101");
    client
        .create_course(teacher.clone(), course_id.clone(), text("Intro"), text("Desc"), 0)
        .unwrap();

    let assignment_id = text("ASG1");
    let title = text("First Assignment");
    let desc = text("Write hello world");

    assert_eq!(
        client.create_assignment(
            teacher,
            course_id.clone(),
            assignment_id.clone(),
            title.clone(),
            desc.clone()
        ),
        Ok(())
    );

    let assignment_data = client
        .get_assignment(course_id.clone(), assignment_id.clone())
        .expect("Assignment should exist");
    assert_eq!(assignment_data.id, assignment_id);
    assert_eq!(assignment_data.course_id, course_id);
    assert_eq!(assignment_data.title, title);
    assert_eq!(assignment_data.description, desc);

    let assignments = client.get_course_assignments(course_id);
    assert_eq!(assignments.len(), 1);
    assert!(assignments.contains(&assignment_id));
}

#[test]
fn test_create_assignment_not_teacher() {
    let (mut client, admin, teacher, student) = setup_test();
    client.initialize(admin).unwrap();
    client.register_teacher(teacher.clone()).unwrap();
    let course_id = text("RUST101");
    client.create_course(teacher, course_id.clone(), text("Intro"), text("Desc"), 0).unwrap();

    let assignment_id = text("ASG1");
    assert_eq!(
        client.create_assignment(
            student,
            course_id.clone(),
            assignment_id.clone(),
            text("Title"),
            text("Desc")
        ),
        Err(Error::Unauthorized)
    );
    assert_eq!(client.get_assignment(course_id.clone(), assignment_id), None);
    assert_eq!(client.get_course_assignments(course_id).len(), 0);
}

#[test]
fn test_submit_assignment() {
    let (mut client, admin, teacher, student) = setup_test();
    client.initialize(admin).unwrap();
    client.register_teacher(teacher.clone()).unwrap();
    client.register_student(student.clone()).unwrap();
    let course_id = text("RUST101");
    client
        .create_course(teacher.clone(), course_id.clone(), text("Intro"), text("Desc"), 0)
        .unwrap();
    client.enroll_student(student.clone(), course_id.clone()).unwrap();
    let assignment_id = text("ASG1");
    client
        .create_assignment(
            teacher,
            course_id.clone(),
            assignment_id.clone(),
            text("Title"),
            text("Desc"),
        )
        .unwrap();

    let content = text("My submission content");
    assert_eq!(
        client.submit_assignment(
            student.clone(),
            course_id.clone(),
            assignment_id.clone(),
            content.clone()
        ),
        Ok(())
    );

    let submission_data = client
        .get_submission(course_id.clone(), assignment_id.clone(), student.clone())
        .expect("Submission should exist");
    assert_eq!(submission_data.student_id, student);
    assert_eq!(submission_data.assignment_id, assignment_id);
    assert_eq!(submission_data.course_id, course_id);
    assert_eq!(submission_data.content, content);
    assert!(submission_data.grade.is_none());
}

#[test]
fn test_submit_assignment_not_enrolled() {
    let (mut client, admin, teacher, student) = setup_test();
    client.initialize(admin).unwrap();
    client.register_teacher(teacher.clone()).unwrap();
    client.register_student(student.clone()).unwrap();
    let course_id = text("RUST101");
    client
        .create_course(teacher.clone(), course_id.clone(), text("Intro"), text("Desc"), 0)
        .unwrap();
    let assignment_id = text("ASG1");
    client
        .create_assignment(
            teacher,
            course_id.clone(),
            assignment_id.clone(),
            text("Title"),
            text("Desc"),
        )
        .unwrap();

    assert_eq!(
        client.submit_assignment(
            student.clone(),
            course_id.clone(),
            assignment_id.clone(),
            text("Content")
        ),
        Err(Error::NotEnrolled)
    );
    assert_eq!(client.get_submission(course_id, assignment_id, student), None);
}

#[test]
fn test_grade_submission() {
    let (mut client, admin, teacher, student) = setup_test();
    client.initialize(admin).unwrap();
    client.register_teacher(teacher.clone()).unwrap();
    client.register_student(student.clone()).unwrap();
    let course_id = text("RUST101");
    client
        .create_course(teacher.clone(), course_id.clone(), text("Intro"), text("Desc"), 0)
        .unwrap();
    client.enroll_student(student.clone(), course_id.clone()).unwrap();
    let assignment_id = text("ASG1");
    client
        .create_assignment(
            teacher.clone(),
            course_id.clone(),
            assignment_id.clone(),
            text("Title"),
            text("Desc"),
        )
        .unwrap();
    client
        .submit_assignment(student.clone(), course_id.clone(), assignment_id.clone(), text("Content"))
        .unwrap();

    let score = 95u32;
    let feedback = text("Good job!");
    assert_eq!(
        client.grade_submission(
            teacher,
            course_id.clone(),
            assignment_id.clone(),
            student.clone(),
            score,
            feedback.clone()
        ),
        Ok(())
    );

    let submission_data = client.get_submission(course_id, assignment_id, student).unwrap();
    assert_eq!(submission_data.content, "Content");
    let grade = submission_data.grade.expect("Should be graded");
    assert_eq!(grade.score, score);
    assert_eq!(grade.feedback, feedback);
}

#[test]
fn test_grade_submission_not_teacher() {
    let (mut client, admin, teacher, student) = setup_test();
    let other_teacher = who("GOTHERTEACHER");
    client.initialize(admin).unwrap();
    client.register_teacher(teacher.clone()).unwrap();
    client.register_teacher(other_teacher.clone()).unwrap();
    client.register_student(student.clone()).unwrap();
    let course_id = text("RUST101");
    client
        .create_course(teacher.clone(), course_id.clone(), text("Intro"), text("Desc"), 0)
        .unwrap();
    client.enroll_student(student.clone(), course_id.clone()).unwrap();
    let assignment_id = text("ASG1");
    client
        .create_assignment(
            teacher,
            course_id.clone(),
            assignment_id.clone(),
            text("Title"),
            text("Desc"),
        )
        .unwrap();
    client
        .submit_assignment(student.clone(), course_id.clone(), assignment_id.clone(), text("Content"))
        .unwrap();

    assert_eq!(
        client.grade_submission(
            other_teacher,
            course_id.clone(),
            assignment_id.clone(),
            student.clone(),
            90,
            text("Feedback")
        ),
        Err(Error::Unauthorized)
    );
    let submission_data = client.get_submission(course_id, assignment_id, student).unwrap();
    assert!(submission_data.grade.is_none());
}

#[test]
fn test_grade_nonexistent_submission() {
    let (mut client, admin, teacher, student) = setup_test();
    client.initialize(admin).unwrap();
    client.register_teacher(teacher.clone()).unwrap();
    let course_id = text("RUST101");
    client
        .create_course(teacher.clone(), course_id.clone(), text("Intro"), text("Desc"), 0)
        .unwrap();
    let assignment_id = text("ASG1");
    client
        .create_assignment(
            teacher.clone(),
            course_id.clone(),
            assignment_id.clone(),
            text("Title"),
            text("Desc"),
        )
        .unwrap();

    assert_eq!(
        client.grade_submission(
            teacher,
            course_id.clone(),
            assignment_id.clone(),
            student.clone(),
            90,
            text("Feedback")
        ),
        Err(Error::NotFound)
    );
    assert_eq!(client.get_submission(course_id, assignment_id, student), None);
}

#[test]
fn test_get_student_courses() {
    let (mut client, admin, teacher, student) = setup_test();
    client.initialize(admin).unwrap();
    client.register_teacher(teacher.clone()).unwrap();
    client.register_student(student.clone()).unwrap();

    let course1_id = text("CRS1");
    let course2_id = text("CRS2");
    client.create_course(teacher.clone(), course1_id.clone(), text("C1"), text("D1"), 0).unwrap();
    client.create_course(teacher, course2_id.clone(), text("C2"), text("D2"), 0).unwrap();

    client.enroll_student(student.clone(), course1_id.clone()).unwrap();
    client.enroll_student(student.clone(), course2_id.clone()).unwrap();

    let enrolled = client.get_student_courses(student);
    assert_eq!(enrolled.len(), 2);
    assert!(enrolled.contains(&course1_id));
    assert!(enrolled.contains(&course2_id));
    assert_eq!(enrolled, vec![course1_id, course2_id]);

    let other_enrolled = client.get_student_courses(who("GOTHERSTUDENT"));
    assert_eq!(other_enrolled.len(), 0);
}

#[test]
fn grade_rejects_score_above_hundred() {
    let (mut client, _, teacher, student) = setup_test();
    client.register_teacher(teacher.clone()).unwrap();
    client.register_student(student.clone()).unwrap();
    client.create_course(teacher.clone(), text("C"), text("n"), text("d"), 5).unwrap();
    client.enroll_student(student.clone(), text("C")).unwrap();
    client.create_assignment(teacher.clone(), text("C"), text("A"), text("t"), text("d")).unwrap();
    client.submit_assignment(student.clone(), text("C"), text("A"), text("work")).unwrap();

    assert_eq!(
        client.grade_submission(
            teacher.clone(),
            text("C"),
            text("A"),
            student.clone(),
            101,
            text("too much")
        ),
        Err(Error::InvalidScore)
    );
    assert!(client.get_submission(text("C"), text("A"), student.clone()).unwrap().grade.is_none());

    assert_eq!(
        client.grade_submission(
            teacher.clone(),
            text("C"),
            text("A"),
            student.clone(),
            100,
            text("full marks")
        ),
        Ok(())
    );
    assert_eq!(
        client.grade_submission(teacher, text("C"), text("A"), student.clone(), 0, text("none")),
        Ok(())
    );
    let grade = client.get_submission(text("C"), text("A"), student).unwrap().grade.unwrap();
    assert_eq!(grade.score, 0);
    assert_eq!(grade.feedback, "none");
}

#[test]
fn grade_reports_missing_course_and_assignment() {
    let (mut client, _, teacher, student) = setup_test();
    client.register_teacher(teacher.clone()).unwrap();
    assert_eq!(
        client.grade_submission(
            teacher.clone(),
            text("C"),
            text("A"),
            student.clone(),
            50,
            text("f")
        ),
        Err(Error::NotFound)
    );
    client.create_course(teacher.clone(), text("C"), text("n"), text("d"), 0).unwrap();
    assert_eq!(
        client.grade_submission(teacher, text("C"), text("A"), student, 50, text("f")),
        Err(Error::NotFound)
    );
}

#[test]
fn resubmission_keeps_grade_by_default() {
    let (mut client, _, teacher, student) = setup_test();
    assert_eq!(client.policy(), ResubmissionPolicy::KeepGrade);
    client.register_teacher(teacher.clone()).unwrap();
    client.register_student(student.clone()).unwrap();
    client.create_course(teacher.clone(), text("C"), text("n"), text("d"), 0).unwrap();
    client.enroll_student(student.clone(), text("C")).unwrap();
    client.create_assignment(teacher.clone(), text("C"), text("A"), text("t"), text("d")).unwrap();
    client.submit_assignment(student.clone(), text("C"), text("A"), text("first")).unwrap();
    client
        .grade_submission(teacher, text("C"), text("A"), student.clone(), 70, text("fine"))
        .unwrap();
    client.submit_assignment(student.clone(), text("C"), text("A"), text("second")).unwrap();

    let submission = client.get_submission(text("C"), text("A"), student).unwrap();
    assert_eq!(submission.content, "second");
    let grade = submission.grade.expect("grade is kept");
    assert_eq!(grade.score, 70);
    assert_eq!(grade.feedback, "fine");
}

#[test]
fn resubmission_clears_grade_when_asked() {
    let mut client = LuminaLearnContract::with_policy(ResubmissionPolicy::ClearGrade);
    let teacher = who("T");
    let student = who("S");
    assert_eq!(client.policy(), ResubmissionPolicy::ClearGrade);
    client.register_teacher(teacher.clone()).unwrap();
    client.register_student(student.clone()).unwrap();
    client.create_course(teacher.clone(), text("C"), text("n"), text("d"), 0).unwrap();
    client.enroll_student(student.clone(), text("C")).unwrap();
    client.create_assignment(teacher.clone(), text("C"), text("A"), text("t"), text("d")).unwrap();
    client.submit_assignment(student.clone(), text("C"), text("A"), text("first")).unwrap();
    client
        .grade_submission(teacher, text("C"), text("A"), student.clone(), 70, text("fine"))
        .unwrap();
    client.submit_assignment(student.clone(), text("C"), text("A"), text("second")).unwrap();

    let submission = client.get_submission(text("C"), text("A"), student).unwrap();
    assert_eq!(submission.content, "second");
    assert!(submission.grade.is_none());
}

#[test]
fn submit_reports_unregistered_student_and_missing_assignment() {
    let (mut client, _, teacher, student) = setup_test();
    client.register_teacher(teacher.clone()).unwrap();
    client.create_course(teacher, text("C"), text("n"), text("d"), 0).unwrap();
    assert_eq!(
        client.submit_assignment(student.clone(), text("C"), text("A"), text("w")),
        Err(Error::NotRegistered)
    );
    client.register_student(student.clone()).unwrap();
    client.enroll_student(student.clone(), text("C")).unwrap();
    assert_eq!(
        client.submit_assignment(student, text("C"), text("A"), text("w")),
        Err(Error::NotFound)
    );
}

#[test]
fn assignment_ids_are_unique_within_a_course_only() {
    let (mut client, _, teacher, _) = setup_test();
    client.register_teacher(teacher.clone()).unwrap();
    client.create_course(teacher.clone(), text("C1"), text("n"), text("d"), 0).unwrap();
    client.create_course(teacher.clone(), text("C2"), text("n"), text("d"), 0).unwrap();
    client.create_assignment(teacher.clone(), text("C1"), text("A"), text("t1"), text("d")).unwrap();
    assert_eq!(
        client.create_assignment(teacher.clone(), text("C1"), text("A"), text("t2"), text("d")),
        Err(Error::DuplicateId)
    );
    assert_eq!(
        client.create_assignment(teacher.clone(), text("C2"), text("A"), text("t3"), text("d")),
        Ok(())
    );
    assert_eq!(
        client.create_assignment(teacher, text("C3"), text("A"), text("t"), text("d")),
        Err(Error::NotFound)
    );
    assert_eq!(client.get_assignment(text("C1"), text("A")).unwrap().title, "t1");
    assert_eq!(client.get_assignment(text("C2"), text("A")).unwrap().title, "t3");
    assert_eq!(client.get_course_assignments(text("C1")), vec![text("A")]);
}

#[test]
fn enrollment_is_recorded_on_both_sides() {
    let (mut client, _, teacher, student) = setup_test();
    let other = who("GOTHER");
    client.register_teacher(teacher.clone()).unwrap();
    client.register_student(student.clone()).unwrap();
    client.register_student(other.clone()).unwrap();
    client.create_course(teacher.clone(), text("C1"), text("n"), text("d"), 10).unwrap();
    client.create_course(teacher, text("C2"), text("n"), text("d"), 0).unwrap();
    client.enroll_student(student.clone(), text("C1")).unwrap();
    client.enroll_student(other.clone(), text("C1")).unwrap();
    client.enroll_student(other.clone(), text("C2")).unwrap();

    assert_eq!(client.get_course_students(text("C1")), vec![student.clone(), other.clone()]);
    assert_eq!(client.get_course_students(text("C2")), vec![other.clone()]);
    assert_eq!(client.get_student_courses(student), vec![text("C1")]);
    assert_eq!(client.get_student_courses(other), vec![text("C1"), text("C2")]);
}

#[test]
fn registration_is_looked_up_by_role() {
    let (mut client, _, teacher, student) = setup_test();
    assert!(!client.is_registered_student(student.clone()));
    assert!(!client.is_teacher(teacher.clone()));
    client.register_student(student.clone()).unwrap();
    client.register_teacher(teacher.clone()).unwrap();
    assert!(client.is_registered_student(student.clone()));
    assert!(!client.is_registered_student(teacher.clone()));
    assert!(client.is_teacher(teacher));
    assert!(!client.is_teacher(student.clone()));
    assert_eq!(client.register_teacher(student.clone()), Ok(()));
    assert!(client.is_teacher(student));
}
