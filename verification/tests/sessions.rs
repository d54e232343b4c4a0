use lumina_learn::contract::LuminaLearnContract;
use lumina_learn::error::Error;
use lumina_learn::session::check_token;
use lumina_learn::types::{Identity, Token};

fn who(name: &str) -> Identity {
    Identity::new(name.to_string())
}

fn text(value: &str) -> String {
    value.to_string()
}

fn token(fill: u8) -> Token {
    Token::new([fill; 32])
}

/// Teacher T owns course C with lecture LEC; student S is enrolled in C.
fn classroom() -> (LuminaLearnContract, Identity, Identity) {
    let mut engine = LuminaLearnContract::new();
    let teacher = who("T");
    let student = who("S");
    engine.register_teacher(teacher.clone()).unwrap();
    engine.register_student(student.clone()).unwrap();
    engine.create_course(teacher.clone(), text("C"), text("Course"), text("About"), 0).unwrap();
    engine.enroll_student(student.clone(), text("C")).unwrap();
    engine
        .create_lecture(teacher.clone(), text("C"), text("LEC"), text("First"), 1_700_000_000, 90)
        .unwrap();
    (engine, teacher, student)
}

#[test]
fn attendance_end_to_end() {
    let (mut engine, teacher, student) = classroom();
    let issued = token(7);
    let handed_back =
        engine.start_attendance_session(teacher, text("LEC"), 300, 1_000, issued).unwrap();
    assert_eq!(handed_back, issued);
    assert_eq!(handed_back.to_bytes(), [7u8; 32]);

    assert_eq!(engine.mark_attendance(student.clone(), text("LEC"), handed_back, 1_299), Ok(()));

    let record = engine.get_attendance_record(text("LEC"), student.clone()).unwrap();
    assert_eq!(record.student_id, student);
    assert_eq!(record.lecture_id, "LEC");
    assert_eq!(record.timestamp, 1_299);
    assert!(record.verified);
    assert!(engine.verify_attendance(text("LEC"), student.clone()));
    assert_eq!(engine.get_lecture_attendees(text("LEC")), vec![student.clone()]);

    assert_eq!(
        engine.mark_attendance(student.clone(), text("LEC"), handed_back, 1_299),
        Err(Error::AlreadyMarked)
    );
    let again = engine.get_attendance_record(text("LEC"), student.clone()).unwrap();
    assert_eq!(again, record);
    assert_eq!(engine.get_lecture_attendees(text("LEC")), vec![student]);
}

#[test]
fn expired_session_refuses_the_right_token() {
    let (mut engine, teacher, student) = classroom();
    let issued = engine.start_attendance_session(teacher, text("LEC"), 60, 5_000, token(1)).unwrap();
    assert_eq!(
        engine.mark_attendance(student.clone(), text("LEC"), issued, 5_061),
        Err(Error::SessionExpired)
    );
    assert_eq!(engine.get_attendance_record(text("LEC"), student.clone()), None);
    assert!(!engine.verify_attendance(text("LEC"), student));
    assert_eq!(engine.get_lecture_attendees(text("LEC")).len(), 0);
}

#[test]
fn deadline_itself_is_in_time() {
    let (mut engine, teacher, student) = classroom();
    let issued = engine.start_attendance_session(teacher, text("LEC"), 60, 5_000, token(1)).unwrap();
    let session = engine.get_attendance_session(text("LEC")).unwrap();
    assert_eq!(session.lecture_id, "LEC");
    assert_eq!(session.start_time, 5_000);
    assert_eq!(session.end_time, 5_060);
    assert!(session.is_active);
    assert_eq!(engine.mark_attendance(student.clone(), text("LEC"), issued, 5_060), Ok(()));
    assert_eq!(engine.get_attendance_record(text("LEC"), student).unwrap().timestamp, 5_060);
}

#[test]
fn one_second_after_the_deadline_is_too_late() {
    let (mut engine, teacher, student) = classroom();
    let issued = engine.start_attendance_session(teacher, text("LEC"), 60, 5_000, token(1)).unwrap();
    assert_eq!(
        engine.mark_attendance(student.clone(), text("LEC"), issued, 5_061),
        Err(Error::SessionExpired)
    );
    assert_eq!(
        engine.mark_attendance(student.clone(), text("LEC"), token(2), 5_061),
        Err(Error::SessionExpired)
    );
    assert!(!engine.verify_attendance(text("LEC"), student));
}

#[test]
fn wrong_token_creates_no_record() {
    let (mut engine, teacher, student) = classroom();
    engine.start_attendance_session(teacher, text("LEC"), 60, 5_000, token(1)).unwrap();
    let mut nearly = [1u8; 32];
    nearly[31] = 2;
    assert_eq!(
        engine.mark_attendance(student.clone(), text("LEC"), Token::new(nearly), 5_010),
        Err(Error::InvalidToken)
    );
    assert_eq!(engine.get_attendance_record(text("LEC"), student.clone()), None);
    assert_eq!(engine.get_lecture_attendees(text("LEC")).len(), 0);
    assert_eq!(engine.mark_attendance(student.clone(), text("LEC"), token(1), 5_010), Ok(()));
    assert!(engine.verify_attendance(text("LEC"), student));
}

#[test]
fn already_marked_with_a_valid_token() {
    let (mut engine, teacher, student) = classroom();
    let issued = engine.start_attendance_session(teacher, text("LEC"), 60, 5_000, token(1)).unwrap();
    engine.mark_attendance(student.clone(), text("LEC"), issued, 5_001).unwrap();
    assert_eq!(
        engine.mark_attendance(student.clone(), text("LEC"), issued, 5_002),
        Err(Error::AlreadyMarked)
    );
    assert_eq!(engine.get_attendance_record(text("LEC"), student).unwrap().timestamp, 5_001);
}

#[test]
fn unenrolled_student_cannot_mark_attendance() {
    let (mut engine, teacher, _) = classroom();
    let guest = who("GUEST");
    engine.register_student(guest.clone()).unwrap();
    let issued =
        engine.start_attendance_session(teacher.clone(), text("LEC"), 60, 5_000, token(1)).unwrap();
    assert_eq!(
        engine.mark_attendance(guest.clone(), text("LEC"), issued, 5_001),
        Err(Error::NotEnrolled)
    );
    assert_eq!(
        engine.manual_attendance(teacher, text("LEC"), guest.clone(), 5_001),
        Err(Error::NotEnrolled)
    );
    assert!(!engine.verify_attendance(text("LEC"), guest.clone()));
    assert_eq!(engine.get_attendance_record(text("LEC"), guest), None);
    assert_eq!(engine.get_lecture_attendees(text("LEC")).len(), 0);
}

#[test]
fn mark_attendance_reports_each_missing_piece() {
    let (mut engine, teacher, student) = classroom();
    assert_eq!(
        engine.mark_attendance(student.clone(), text("NOLEC"), token(1), 1),
        Err(Error::NotFound)
    );
    assert_eq!(
        engine.mark_attendance(who("NOBODY"), text("LEC"), token(1), 1),
        Err(Error::NotRegistered)
    );
    assert_eq!(
        engine.mark_attendance(student.clone(), text("LEC"), token(1), 1),
        Err(Error::SessionNotFound)
    );
    engine.start_attendance_session(teacher.clone(), text("LEC"), 10, 100, token(1)).unwrap();
    engine.close_attendance_session(teacher, text("LEC")).unwrap();
    assert_eq!(
        engine.mark_attendance(student.clone(), text("LEC"), token(1), 105),
        Err(Error::SessionNotActive)
    );
    assert!(!engine.verify_attendance(text("LEC"), student));
}

#[test]
fn closing_keeps_the_session_on_record() {
    let (mut engine, teacher, _) = classroom();
    assert_eq!(
        engine.close_attendance_session(teacher.clone(), text("LEC")),
        Err(Error::SessionNotActive)
    );
    engine.start_attendance_session(teacher.clone(), text("LEC"), 10, 100, token(1)).unwrap();
    assert_eq!(
        engine.close_attendance_session(who("OTHER"), text("LEC")),
        Err(Error::Unauthorized)
    );
    assert_eq!(
        engine.close_attendance_session(teacher.clone(), text("NOLEC")),
        Err(Error::NotFound)
    );
    assert_eq!(engine.close_attendance_session(teacher.clone(), text("LEC")), Ok(()));
    let session = engine.get_attendance_session(text("LEC")).unwrap();
    assert!(!session.is_active);
    assert_eq!(session.start_time, 100);
    assert_eq!(session.end_time, 110);
    assert_eq!(
        engine.close_attendance_session(teacher, text("LEC")),
        Err(Error::SessionNotActive)
    );
}

#[test]
fn session_can_be_reopened_after_close_or_expiry_only() {
    let (mut engine, teacher, student) = classroom();
    engine.start_attendance_session(teacher.clone(), text("LEC"), 10, 100, token(1)).unwrap();
    assert_eq!(
        engine.start_attendance_session(teacher.clone(), text("LEC"), 10, 105, token(2)),
        Err(Error::SessionAlreadyActive)
    );
    assert_eq!(
        engine.start_attendance_session(teacher.clone(), text("LEC"), 10, 110, token(2)),
        Err(Error::SessionAlreadyActive)
    );
    assert_eq!(engine.get_attendance_session(text("LEC")).unwrap().end_time, 110);

    assert_eq!(
        engine.start_attendance_session(teacher.clone(), text("LEC"), 10, 111, token(2)),
        Ok(token(2))
    );
    let session = engine.get_attendance_session(text("LEC")).unwrap();
    assert_eq!(session.start_time, 111);
    assert_eq!(session.end_time, 121);
    assert_eq!(
        engine.mark_attendance(student.clone(), text("LEC"), token(1), 112),
        Err(Error::InvalidToken)
    );

    engine.close_attendance_session(teacher.clone(), text("LEC")).unwrap();
    assert_eq!(
        engine.start_attendance_session(teacher, text("LEC"), 30, 115, token(3)),
        Ok(token(3))
    );
    assert_eq!(engine.mark_attendance(student, text("LEC"), token(3), 145), Ok(()));
}

#[test]
fn only_the_course_owner_starts_a_session() {
    let (mut engine, _, _) = classroom();
    let other = who("OTHER");
    engine.register_teacher(other.clone()).unwrap();
    assert_eq!(
        engine.start_attendance_session(other.clone(), text("LEC"), 10, 100, token(1)),
        Err(Error::Unauthorized)
    );
    assert_eq!(
        engine.start_attendance_session(other, text("NOLEC"), 10, 100, token(1)),
        Err(Error::NotFound)
    );
    assert_eq!(engine.get_attendance_session(text("LEC")), None);
}

#[test]
fn manual_attendance_is_not_verified_and_happens_once() {
    let (mut engine, teacher, student) = classroom();
    assert_eq!(
        engine.manual_attendance(who("OTHER"), text("LEC"), student.clone(), 50),
        Err(Error::Unauthorized)
    );
    assert_eq!(
        engine.manual_attendance(teacher.clone(), text("NOLEC"), student.clone(), 50),
        Err(Error::NotFound)
    );
    assert_eq!(
        engine.manual_attendance(teacher.clone(), text("LEC"), who("NOBODY"), 50),
        Err(Error::NotRegistered)
    );
    assert_eq!(engine.manual_attendance(teacher.clone(), text("LEC"), student.clone(), 50), Ok(()));
    let record = engine.get_attendance_record(text("LEC"), student.clone()).unwrap();
    assert!(!record.verified);
    assert_eq!(record.timestamp, 50);
    assert_eq!(engine.get_lecture_attendees(text("LEC")), vec![student.clone()]);

    assert_eq!(
        engine.manual_attendance(teacher.clone(), text("LEC"), student.clone(), 60),
        Err(Error::AlreadyMarked)
    );
    let issued = engine.start_attendance_session(teacher, text("LEC"), 10, 100, token(9)).unwrap();
    assert_eq!(
        engine.mark_attendance(student.clone(), text("LEC"), issued, 101),
        Err(Error::AlreadyMarked)
    );
    let kept = engine.get_attendance_record(text("LEC"), student).unwrap();
    assert_eq!(kept, record);
}

#[test]
fn lecture_creation_is_gated() {
    let (mut engine, teacher, _) = classroom();
    assert_eq!(
        engine.create_lecture(teacher.clone(), text("NOCOURSE"), text("L2"), text("t"), 1, 2),
        Err(Error::NotFound)
    );
    assert_eq!(
        engine.create_lecture(who("OTHER"), text("C"), text("L2"), text("t"), 1, 2),
        Err(Error::Unauthorized)
    );
    assert_eq!(
        engine.create_lecture(teacher.clone(), text("C"), text("LEC"), text("again"), 1, 2),
        Err(Error::DuplicateId)
    );
    let lecture = engine.get_lecture(text("LEC")).unwrap();
    assert_eq!(lecture.id, "LEC");
    assert_eq!(lecture.course_id, "C");
    assert_eq!(lecture.title, "First");
    assert_eq!(lecture.date, 1_700_000_000);
    assert_eq!(lecture.duration, 90);
    assert_eq!(engine.create_lecture(teacher, text("C"), text("L2"), text("t"), 1, 2), Ok(()));
    assert_eq!(engine.get_course_lectures(text("C")), vec![text("LEC"), text("L2")]);
    assert_eq!(engine.get_lecture(text("L3")), None);
}

#[test]
fn attendance_stats_count_records_over_the_course() {
    let (mut engine, teacher, student) = classroom();
    engine.create_lecture(teacher.clone(), text("C"), text("L2"), text("t"), 1, 2).unwrap();
    engine.create_lecture(teacher.clone(), text("C"), text("L3"), text("t"), 1, 2).unwrap();
    assert_eq!(engine.get_student_attendance_stats(student.clone(), text("C")), (0, 3));

    let issued =
        engine.start_attendance_session(teacher.clone(), text("LEC"), 10, 100, token(1)).unwrap();
    engine.mark_attendance(student.clone(), text("LEC"), issued, 100).unwrap();
    assert_eq!(engine.get_student_attendance_stats(student.clone(), text("C")), (1, 3));

    engine.manual_attendance(teacher, text("L3"), student.clone(), 200).unwrap();
    assert_eq!(engine.get_student_attendance_stats(student.clone(), text("C")), (2, 3));
    assert_eq!(engine.get_student_attendance_stats(who("NOBODY"), text("C")), (0, 3));
    assert_eq!(engine.get_student_attendance_stats(student, text("NOCOURSE")), (0, 0));
}

#[test]
fn token_gate_looks_at_the_deadline_first() {
    let issued = token(4);
    assert_eq!(check_token(&issued, 100, &issued, 100), None);
    assert_eq!(check_token(&issued, 100, &issued, 0), None);
    assert_eq!(check_token(&issued, 100, &issued, 101), Some(Error::SessionExpired));
    assert_eq!(check_token(&issued, 100, &token(5), 101), Some(Error::SessionExpired));
    assert_eq!(check_token(&issued, 100, &token(5), 100), Some(Error::InvalidToken));
    assert_eq!(check_token(&issued, u64::MAX, &issued, u64::MAX), None);
}

#[test]
fn tokens_match_byte_for_byte() {
    let mut bytes = [0u8; 32];
    let zero = Token::new(bytes);
    assert!(zero.matches(&Token::new([0u8; 32])));
    bytes[0] = 1;
    assert!(!zero.matches(&Token::new(bytes)));
    bytes[0] = 0;
    bytes[31] = 255;
    assert!(!zero.matches(&Token::new(bytes)));
    assert!(Token::new(bytes).matches(&Token::new(bytes)));
    assert_eq!(Token::new(bytes).to_bytes(), bytes);
}

#[test]
fn longest_session_ends_at_the_last_moment() {
    let (mut engine, teacher, student) = classroom();
    let start = u64::MAX - 4_294_967_295;
    let issued = engine
        .start_attendance_session(teacher, text("LEC"), u32::MAX, start, token(1))
        .unwrap();
    assert_eq!(engine.get_attendance_session(text("LEC")).unwrap().end_time, u64::MAX);
    assert_eq!(engine.mark_attendance(student, text("LEC"), issued, u64::MAX), Ok(()));
}
