use crate::list::with_member;
use crate::model::{Operation, State};
use crate::storage::{EntryView, KeyView};
use crate::types::{ResubmissionPolicy, MAX_SCORE};
use vstd::prelude::*;

verus! {

/// What appending a member does to membership and to the absence of
/// repetitions.
pub proof fn lemma_with_member<A>(list: Seq<A>, item: A)
    ensures
        with_member(list, item).contains(item),
        forall|other: A| #[trigger] list.contains(other) ==> with_member(list, item).contains(other),
        forall|other: A| #[trigger]
            with_member(list, item).contains(other) ==> other == item || list.contains(other),
        list.no_duplicates() ==> with_member(list, item).no_duplicates(),
        forall|i: int| 0 <= i < list.len() ==> #[trigger] with_member(list, item)[i] == list[i],
        with_member(list, item).len() == list.len() || (with_member(list, item).len() == list.len()
            + 1 && with_member(list, item)[list.len() as int] == item && !list.contains(item)),
{
    let grown = with_member(list, item);
    if !list.contains(item) {
        assert(grown[list.len() as int] == item);
    }
    assert forall|other: A| #[trigger] list.contains(other) implies grown.contains(other) by {
        let i = choose|i: int| 0 <= i < list.len() && list[i] == other;
        assert(grown[i] == other);
    }
    assert forall|other: A| #[trigger] grown.contains(other) implies other == item
        || list.contains(other) by {
        let i = choose|i: int| 0 <= i < grown.len() && grown[i] == other;
        if i < list.len() {
            assert(list[i] == other);
        }
    }
    if list.no_duplicates() {
        assert forall|i: int, j: int| 0 <= i < grown.len() && 0 <= j < grown.len() && i
            != j implies grown[i] != grown[j] by {
            if i < list.len() && j < list.len() {
            } else if i < list.len() {
                assert(list[i] != item);
            } else {
                assert(list[j] != item);
            }
        }
    }
}

impl State {
    /// Whether the entry filed under `key` fits in with the rest of the
    /// state: everything it refers to exists, and whatever is recorded in
    /// two places is recorded in both.
    pub open spec fn in_order(self, key: KeyView) -> bool {
        &&& self.entries[key].key() == key
        &&& match self.entries[key] {
            EntryView::Admin(_) => true,
            EntryView::Teacher(_) => true,
            EntryView::Student(student) => {
                &&& student.enrolled_courses.no_duplicates()
                &&& forall|i: int|
                    0 <= i < student.enrolled_courses.len() ==> {
                        &&& self.course(#[trigger] student.enrolled_courses[i]) is Some
                        &&& self.course_students(student.enrolled_courses[i]).contains(student.id)
                    }
            },
            EntryView::Course(course) => {
                &&& self.is_teacher(course.teacher)
                &&& self.has(KeyView::CourseAssignments(course.id))
                &&& self.has(KeyView::CourseStudents(course.id))
                &&& self.has(KeyView::CourseLectures(course.id))
            },
            EntryView::Assignment(assignment) => {
                &&& self.course(assignment.course_id) is Some
                &&& self.course_assignments(assignment.course_id).contains(assignment.id)
            },
            EntryView::Submission(submission) => {
                &&& self.has(KeyView::Assignment(submission.course_id, submission.assignment_id))
                &&& self.is_enrolled(submission.student_id, submission.course_id)
                &&& submission.grade is Some ==> submission.grade->Some_0.score <= MAX_SCORE
            },
            EntryView::CourseAssignments(course, ids) => {
                &&& ids.no_duplicates()
                &&& forall|i: int|
                    0 <= i < ids.len() ==> self.has(KeyView::Assignment(course, #[trigger] ids[i]))
            },
            EntryView::CourseStudents(course, members) => {
                &&& members.no_duplicates()
                &&& forall|i: int|
                    0 <= i < members.len() ==> self.is_enrolled(#[trigger] members[i], course)
            },
            EntryView::CourseLectures(course, ids) => {
                &&& ids.no_duplicates()
                &&& forall|i: int|
                    0 <= i < ids.len() ==> {
                        &&& self.lecture(#[trigger] ids[i]) is Some
                        &&& self.lecture(ids[i])->Some_0.course_id == course
                    }
            },
            EntryView::Lecture(lecture) => {
                &&& self.course(lecture.course_id) is Some
                &&& self.course_lectures(lecture.course_id).contains(lecture.id)
                &&& self.has(KeyView::LectureAttendees(lecture.id))
            },
            EntryView::AttendanceSession(session, _) => {
                &&& self.lecture(session.lecture_id) is Some
                &&& session.start_time <= session.end_time
            },
            EntryView::AttendanceRecord(record) => {
                &&& self.lecture(record.lecture_id) is Some
                &&& self.is_enrolled(
                    record.student_id,
                    self.lecture(record.lecture_id)->Some_0.course_id,
                )
                &&& self.lecture_attendees(record.lecture_id).contains(record.student_id)
            },
            EntryView::LectureAttendees(lecture, who) => {
                &&& who.no_duplicates()
                &&& forall|i: int|
                    0 <= i < who.len() ==> self.has(
                        KeyView::AttendanceRecord(lecture, #[trigger] who[i]),
                    )
            },
        }
    }

    /// The state as a whole hangs together: every stored entry is in order.
    ///
    /// Among other things this says that a student is a member of a course
    /// exactly if the course lists the student; that members, lectures and
    /// assignments belong to courses that exist; that an attendance record
    /// belongs to an existing lecture of a course the student is a member of
    /// and is matched by the lecture's list of attendees; and that no list
    /// names anything twice.
    pub open spec fn consistent(self) -> bool {
        forall|key: KeyView| #[trigger] self.entries.contains_key(key) ==> self.in_order(key)
    }

    /// Everything that `self` has on record, `next` has on record too:
    /// what exists still exists, what never changes is unchanged, and every
    /// list still names what it named.
    pub open spec fn grows_into(self, next: State) -> bool {
        &&& forall|key: KeyView| #[trigger]
            self.entries.contains_key(key) ==> next.entries.contains_key(key)
        &&& forall|who: Seq<char>| #[trigger] self.is_teacher(who) ==> next.is_teacher(who)
        &&& forall|course: Seq<char>| #[trigger]
            self.course(course) is Some ==> next.course(course) == self.course(course)
        &&& forall|lecture: Seq<char>| #[trigger]
            self.lecture(lecture) is Some ==> next.lecture(lecture) == self.lecture(lecture)
        &&& forall|who: Seq<char>, course: Seq<char>| #[trigger]
            self.is_enrolled(who, course) ==> next.is_enrolled(who, course)
        &&& forall|course: Seq<char>, who: Seq<char>| #[trigger]
            self.course_students(course).contains(who) ==> next.course_students(course).contains(
                who,
            )
        &&& forall|course: Seq<char>, id: Seq<char>| #[trigger]
            self.course_assignments(course).contains(id) ==> next.course_assignments(
                course,
            ).contains(id)
        &&& forall|course: Seq<char>, id: Seq<char>| #[trigger]
            self.course_lectures(course).contains(id) ==> next.course_lectures(course).contains(id)
        &&& forall|lecture: Seq<char>, who: Seq<char>| #[trigger]
            self.lecture_attendees(lecture).contains(who) ==> next.lecture_attendees(
                lecture,
            ).contains(who)
    }
}

/// An entry that was in order and has not changed is still in order after
/// the state has grown.
pub proof fn lemma_unchanged_entry_stays_in_order(state: State, next: State, key: KeyView)
    requires
        state.entries.contains_key(key),
        state.in_order(key),
        state.grows_into(next),
        next.entries[key] == state.entries[key],
    ensures
        next.in_order(key),
{
    match state.entries[key] {
        EntryView::Student(student) => {
            assert forall|i: int| 0 <= i < student.enrolled_courses.len() implies {
                &&& next.course(#[trigger] student.enrolled_courses[i]) is Some
                &&& next.course_students(student.enrolled_courses[i]).contains(student.id)
            } by {
                let c = student.enrolled_courses[i];
                assert(state.course(c) is Some);
                assert(state.course_students(c).contains(student.id));
            }
        },
        EntryView::Course(course) => {
            assert(state.is_teacher(course.teacher));
            assert(state.entries.contains_key(KeyView::CourseAssignments(course.id)));
            assert(state.entries.contains_key(KeyView::CourseStudents(course.id)));
            assert(state.entries.contains_key(KeyView::CourseLectures(course.id)));
        },
        EntryView::Assignment(assignment) => {
            assert(state.course(assignment.course_id) is Some);
            assert(state.course_assignments(assignment.course_id).contains(assignment.id));
        },
        EntryView::Submission(submission) => {
            assert(state.entries.contains_key(
                KeyView::Assignment(submission.course_id, submission.assignment_id),
            ));
            assert(state.is_enrolled(submission.student_id, submission.course_id));
        },
        EntryView::CourseAssignments(course, ids) => {
            assert forall|i: int| 0 <= i < ids.len() implies next.has(
                KeyView::Assignment(course, #[trigger] ids[i]),
            ) by {
                assert(state.entries.contains_key(KeyView::Assignment(course, ids[i])));
            }
        },
        EntryView::CourseStudents(course, members) => {
            assert forall|i: int| 0 <= i < members.len() implies next.is_enrolled(
                #[trigger] members[i],
                course,
            ) by {
                assert(state.is_enrolled(members[i], course));
            }
        },
        EntryView::CourseLectures(course, ids) => {
            assert forall|i: int| 0 <= i < ids.len() implies {
                &&& next.lecture(#[trigger] ids[i]) is Some
                &&& next.lecture(ids[i])->Some_0.course_id == course
            } by {
                assert(state.lecture(ids[i]) is Some);
            }
        },
        EntryView::Lecture(lecture) => {
            assert(state.course(lecture.course_id) is Some);
            assert(state.course_lectures(lecture.course_id).contains(lecture.id));
            assert(state.entries.contains_key(KeyView::LectureAttendees(lecture.id)));
        },
        EntryView::AttendanceSession(session, _) => {
            assert(state.lecture(session.lecture_id) is Some);
        },
        EntryView::AttendanceRecord(record) => {
            assert(state.lecture(record.lecture_id) is Some);
            assert(state.is_enrolled(
                record.student_id,
                state.lecture(record.lecture_id)->Some_0.course_id,
            ));
            assert(state.lecture_attendees(record.lecture_id).contains(record.student_id));
        },
        EntryView::LectureAttendees(lecture, who) => {
            assert forall|i: int| 0 <= i < who.len() implies next.has(
                KeyView::AttendanceRecord(lecture, #[trigger] who[i]),
            ) by {
                assert(state.entries.contains_key(KeyView::AttendanceRecord(lecture, who[i])));
            }
        },
        _ => {},
    }
}

/// A state that grew out of a consistent one is consistent if the entries
/// that changed or came new are in order.
pub proof fn lemma_grown_state_is_consistent(state: State, next: State, changed: Set<KeyView>)
    requires
        state.consistent(),
        state.grows_into(next),
        forall|key: KeyView| #[trigger]
            next.entries.contains_key(key) && !changed.contains(key) ==> {
                &&& state.entries.contains_key(key)
                &&& next.entries[key] == state.entries[key]
            },
        forall|key: KeyView| #[trigger]
            changed.contains(key) && next.entries.contains_key(key) ==> next.in_order(key),
    ensures
        next.consistent(),
{
    assert forall|key: KeyView| #[trigger] next.entries.contains_key(key) implies next.in_order(
        key,
    ) by {
        if !changed.contains(key) {
            lemma_unchanged_entry_stays_in_order(state, next, key);
        }
    }
}

/// Setting the administrator keeps a consistent state consistent.
pub proof fn lemma_initialize_keeps_consistency(state: State, admin: Seq<char>)
    requires
        state.consistent(),
        state.initialize(admin) is Ok,
    ensures
        state.initialize(admin)->Ok_0.consistent(),
        state.grows_into(state.initialize(admin)->Ok_0),
{
    let next = state.initialize(admin)->Ok_0;
    lemma_grown_state_is_consistent(state, next, set![KeyView::Admin]);
}

/// Registering a teacher keeps a consistent state consistent.
pub proof fn lemma_register_teacher_keeps_consistency(state: State, who: Seq<char>)
    requires
        state.consistent(),
        state.register_teacher(who) is Ok,
    ensures
        state.register_teacher(who)->Ok_0.consistent(),
        state.grows_into(state.register_teacher(who)->Ok_0),
{
    let next = state.register_teacher(who)->Ok_0;
    lemma_grown_state_is_consistent(state, next, set![KeyView::Teacher(who)]);
}

/// Registering a student keeps a consistent state consistent.
pub proof fn lemma_register_student_keeps_consistency(state: State, who: Seq<char>)
    requires
        state.consistent(),
        state.register_student(who) is Ok,
    ensures
        state.register_student(who)->Ok_0.consistent(),
        state.grows_into(state.register_student(who)->Ok_0),
{
    let next = state.register_student(who)->Ok_0;
    assert(state.student_courses(who) =~= Seq::<Seq<char>>::empty());
    assert(next.student_courses(who) =~= Seq::<Seq<char>>::empty());
    lemma_grown_state_is_consistent(state, next, set![KeyView::Student(who)]);
}

/// Creating a course keeps a consistent state consistent.
pub proof fn lemma_create_course_keeps_consistency(
    state: State,
    teacher: Seq<char>,
    course: Seq<char>,
    name: Seq<char>,
    description: Seq<char>,
    price: u128,
)
    requires
        state.consistent(),
        state.create_course(teacher, course, name, description, price) is Ok,
    ensures
        state.create_course(teacher, course, name, description, price)->Ok_0.consistent(),
        state.grows_into(state.create_course(teacher, course, name, description, price)->Ok_0),
{
    let next = state.create_course(teacher, course, name, description, price)->Ok_0;
    // The lists that come new are empty; whatever list was stored under one
    // of the course's keys before named nothing, as the course did not exist.
    assert forall|who: Seq<char>| #[trigger]
        state.course_students(course).contains(who) implies false by {
        assert(state.entries.contains_key(KeyView::CourseStudents(course)));
        assert(state.in_order(KeyView::CourseStudents(course)));
        let i = choose|i: int|
            0 <= i < state.course_students(course).len() && state.course_students(course)[i]
                == who;
        assert(state.is_enrolled(state.course_students(course)[i], course));
        lemma_member_of_existing_course(state, who, course);
    }
    assert forall|id: Seq<char>| #[trigger]
        state.course_assignments(course).contains(id) implies false by {
        assert(state.entries.contains_key(KeyView::CourseAssignments(course)));
        assert(state.in_order(KeyView::CourseAssignments(course)));
        let i = choose|i: int|
            0 <= i < state.course_assignments(course).len() && state.course_assignments(
                course,
            )[i] == id;
        assert(state.has(KeyView::Assignment(course, state.course_assignments(course)[i])));
        assert(state.entries.contains_key(KeyView::Assignment(course, id)));
        assert(state.in_order(KeyView::Assignment(course, id)));
    }
    assert forall|id: Seq<char>| #[trigger]
        state.course_lectures(course).contains(id) implies false by {
        assert(state.entries.contains_key(KeyView::CourseLectures(course)));
        assert(state.in_order(KeyView::CourseLectures(course)));
        let i = choose|i: int|
            0 <= i < state.course_lectures(course).len() && state.course_lectures(course)[i]
                == id;
        assert(state.lecture(state.course_lectures(course)[i]) is Some);
        assert(state.entries.contains_key(KeyView::Lecture(id)));
        assert(state.in_order(KeyView::Lecture(id)));
    }
    assert(state.grows_into(next));
    lemma_grown_state_is_consistent(
        state,
        next,
        set![
            KeyView::Course(course),
            KeyView::CourseAssignments(course),
            KeyView::CourseStudents(course),
            KeyView::CourseLectures(course),
        ],
    );
}

/// In a consistent state a student is a member of existing courses only.
pub proof fn lemma_member_of_existing_course(state: State, who: Seq<char>, course: Seq<char>)
    requires
        state.consistent(),
        state.is_enrolled(who, course),
    ensures
        state.course(course) is Some,
        state.student(who) is Some,
        state.course_students(course).contains(who),
{
    assert(state.entries.contains_key(KeyView::Student(who)));
    assert(state.in_order(KeyView::Student(who)));
    let courses = state.student_courses(who);
    let i = choose|i: int| 0 <= i < courses.len() && courses[i] == course;
    assert(state.course(courses[i]) is Some);
}

/// Enrolling a student keeps a consistent state consistent: the student's
/// list of courses and the course's list of members grow together.
pub proof fn lemma_enroll_student_keeps_consistency(state: State, who: Seq<char>, course: Seq<char>)
    requires
        state.consistent(),
        state.enroll_student(who, course) is Ok,
    ensures
        state.enroll_student(who, course)->Ok_0.consistent(),
        state.grows_into(state.enroll_student(who, course)->Ok_0),
{
    let next = state.enroll_student(who, course)->Ok_0;
    let student = state.student(who)->Some_0;
    let courses = student.enrolled_courses;
    let members = state.course_students(course);
    assert(state.entries.contains_key(KeyView::Student(who)));
    assert(state.in_order(KeyView::Student(who)));
    assert(state.entries.contains_key(KeyView::Course(course)));
    assert(state.in_order(KeyView::Course(course)));
    assert(state.entries.contains_key(KeyView::CourseStudents(course)));
    assert(state.in_order(KeyView::CourseStudents(course)));
    lemma_with_member(members, who);
    lemma_with_member(courses, course);
    assert(next.student_courses(who) == with_member(courses, course));
    assert(next.course_students(course) == with_member(members, who));
    assert forall|w: Seq<char>, c: Seq<char>| #[trigger] state.is_enrolled(w, c) implies next.is_enrolled(
        w,
        c,
    ) by {
        if w == who {
            assert(courses.contains(c));
        }
    }
    assert(state.grows_into(next));
    assert(next.in_order(KeyView::Student(who))) by {
        let grown = with_member(courses, course);
        assert forall|i: int| 0 <= i < grown.len() implies {
            &&& next.course(#[trigger] grown[i]) is Some
            &&& next.course_students(grown[i]).contains(who)
        } by {
            if i < courses.len() {
                assert(state.course(courses[i]) is Some);
                assert(state.course_students(courses[i]).contains(who));
            }
        }
    }
    assert(next.in_order(KeyView::CourseStudents(course))) by {
        let grown = with_member(members, who);
        assert forall|i: int| 0 <= i < grown.len() implies next.is_enrolled(
            #[trigger] grown[i],
            course,
        ) by {
            if i < members.len() {
                assert(state.is_enrolled(members[i], course));
            } else {
                assert(grown[i] == who);
            }
        }
    }
    lemma_grown_state_is_consistent(
        state,
        next,
        set![KeyView::Student(who), KeyView::CourseStudents(course)],
    );
}

/// Creating an assignment keeps a consistent state consistent.
pub proof fn lemma_create_assignment_keeps_consistency(
    state: State,
    teacher: Seq<char>,
    course: Seq<char>,
    assignment: Seq<char>,
    title: Seq<char>,
    description: Seq<char>,
)
    requires
        state.consistent(),
        state.create_assignment(teacher, course, assignment, title, description) is Ok,
    ensures
        state.create_assignment(teacher, course, assignment, title, description)->Ok_0.consistent(),
        state.grows_into(
            state.create_assignment(teacher, course, assignment, title, description)->Ok_0,
        ),
{
    let next = state.create_assignment(teacher, course, assignment, title, description)->Ok_0;
    let ids = state.course_assignments(course);
    assert(state.entries.contains_key(KeyView::Course(course)));
    assert(state.in_order(KeyView::Course(course)));
    assert(state.entries.contains_key(KeyView::CourseAssignments(course)));
    assert(state.in_order(KeyView::CourseAssignments(course)));
    lemma_with_member(ids, assignment);
    assert(next.course_assignments(course) == with_member(ids, assignment));
    assert(state.grows_into(next));
    assert(next.in_order(KeyView::CourseAssignments(course))) by {
        let grown = with_member(ids, assignment);
        assert forall|i: int| 0 <= i < grown.len() implies next.has(
            KeyView::Assignment(course, #[trigger] grown[i]),
        ) by {
            if i < ids.len() {
                assert(state.has(KeyView::Assignment(course, ids[i])));
            }
        }
    }
    lemma_grown_state_is_consistent(
        state,
        next,
        set![KeyView::Assignment(course, assignment), KeyView::CourseAssignments(course)],
    );
}

/// Handing in work keeps a consistent state consistent.
pub proof fn lemma_submit_assignment_keeps_consistency(
    state: State,
    who: Seq<char>,
    course: Seq<char>,
    assignment: Seq<char>,
    content: Seq<char>,
)
    requires
        state.consistent(),
        state.submit_assignment(who, course, assignment, content) is Ok,
    ensures
        state.submit_assignment(who, course, assignment, content)->Ok_0.consistent(),
        state.grows_into(state.submit_assignment(who, course, assignment, content)->Ok_0),
{
    let next = state.submit_assignment(who, course, assignment, content)->Ok_0;
    let key = KeyView::Submission(course, assignment, who);
    if state.entries.contains_key(key) {
        assert(state.in_order(key));
    }
    assert(state.grows_into(next));
    lemma_grown_state_is_consistent(state, next, set![key]);
}

/// Grading a submission keeps a consistent state consistent.
pub proof fn lemma_grade_submission_keeps_consistency(
    state: State,
    teacher: Seq<char>,
    course: Seq<char>,
    assignment: Seq<char>,
    who: Seq<char>,
    score: u32,
    feedback: Seq<char>,
)
    requires
        state.consistent(),
        state.grade_submission(teacher, course, assignment, who, score, feedback) is Ok,
    ensures
        state.grade_submission(teacher, course, assignment, who, score, feedback)->Ok_0.consistent(),
        state.grows_into(
            state.grade_submission(teacher, course, assignment, who, score, feedback)->Ok_0,
        ),
{
    let next = state.grade_submission(teacher, course, assignment, who, score, feedback)->Ok_0;
    let key = KeyView::Submission(course, assignment, who);
    assert(state.entries.contains_key(key));
    assert(state.in_order(key));
    assert(state.grows_into(next));
    lemma_grown_state_is_consistent(state, next, set![key]);
}

/// Creating a lecture keeps a consistent state consistent.
pub proof fn lemma_create_lecture_keeps_consistency(
    state: State,
    teacher: Seq<char>,
    course: Seq<char>,
    lecture: Seq<char>,
    title: Seq<char>,
    date: u64,
    duration: u32,
)
    requires
        state.consistent(),
        state.create_lecture(teacher, course, lecture, title, date, duration) is Ok,
    ensures
        state.create_lecture(teacher, course, lecture, title, date, duration)->Ok_0.consistent(),
        state.grows_into(state.create_lecture(teacher, course, lecture, title, date, duration)->Ok_0),
{
    let next = state.create_lecture(teacher, course, lecture, title, date, duration)->Ok_0;
    let ids = state.course_lectures(course);
    assert(state.entries.contains_key(KeyView::Course(course)));
    assert(state.in_order(KeyView::Course(course)));
    assert(state.entries.contains_key(KeyView::CourseLectures(course)));
    assert(state.in_order(KeyView::CourseLectures(course)));
    lemma_with_member(ids, lecture);
    assert(next.course_lectures(course) == with_member(ids, lecture));
    // Whatever list of attendees was stored for the lecture before named
    // nobody, as the lecture did not exist.
    assert forall|who: Seq<char>| #[trigger]
        state.lecture_attendees(lecture).contains(who) implies false by {
        let present = state.lecture_attendees(lecture);
        assert(state.entries.contains_key(KeyView::LectureAttendees(lecture)));
        assert(state.in_order(KeyView::LectureAttendees(lecture)));
        let i = choose|i: int| 0 <= i < present.len() && present[i] == who;
        assert(state.has(KeyView::AttendanceRecord(lecture, present[i])));
        assert(state.entries.contains_key(KeyView::AttendanceRecord(lecture, who)));
        assert(state.in_order(KeyView::AttendanceRecord(lecture, who)));
    }
    assert(state.grows_into(next));
    assert(next.in_order(KeyView::CourseLectures(course))) by {
        let grown = with_member(ids, lecture);
        assert forall|i: int| 0 <= i < grown.len() implies {
            &&& next.lecture(#[trigger] grown[i]) is Some
            &&& next.lecture(grown[i])->Some_0.course_id == course
        } by {
            if i < ids.len() {
                assert(state.lecture(ids[i]) is Some);
            }
        }
    }
    lemma_grown_state_is_consistent(
        state,
        next,
        set![
            KeyView::Lecture(lecture),
            KeyView::CourseLectures(course),
            KeyView::LectureAttendees(lecture),
        ],
    );
}

/// Opening a session keeps a consistent state consistent.
pub proof fn lemma_start_attendance_session_keeps_consistency(
    state: State,
    teacher: Seq<char>,
    lecture: Seq<char>,
    duration_seconds: u32,
    now: u64,
    token: Seq<u8>,
)
    requires
        state.consistent(),
        now + duration_seconds <= u64::MAX,
        state.start_attendance_session(teacher, lecture, duration_seconds, now, token) is Ok,
    ensures
        state.start_attendance_session(
            teacher,
            lecture,
            duration_seconds,
            now,
            token,
        )->Ok_0.consistent(),
        state.grows_into(
            state.start_attendance_session(teacher, lecture, duration_seconds, now, token)->Ok_0,
        ),
{
    let next = state.start_attendance_session(teacher, lecture, duration_seconds, now, token)->Ok_0;
    assert(state.grows_into(next));
    lemma_grown_state_is_consistent(state, next, set![KeyView::AttendanceSession(lecture)]);
}

/// Closing a session keeps a consistent state consistent.
pub proof fn lemma_close_attendance_session_keeps_consistency(
    state: State,
    teacher: Seq<char>,
    lecture: Seq<char>,
)
    requires
        state.consistent(),
        state.close_attendance_session(teacher, lecture) is Ok,
    ensures
        state.close_attendance_session(teacher, lecture)->Ok_0.consistent(),
        state.grows_into(state.close_attendance_session(teacher, lecture)->Ok_0),
{
    let next = state.close_attendance_session(teacher, lecture)->Ok_0;
    let key = KeyView::AttendanceSession(lecture);
    assert(state.entries.contains_key(key));
    assert(state.in_order(key));
    assert(state.grows_into(next));
    lemma_grown_state_is_consistent(state, next, set![key]);
}

/// Filing an attendance record for an enrolled student who has none yet
/// keeps a consistent state consistent: the record and the lecture's list
/// of attendees stay in step.
pub proof fn lemma_record_keeps_consistency(
    state: State,
    who: Seq<char>,
    lecture: Seq<char>,
    now: u64,
    verified: bool,
)
    requires
        state.consistent(),
        state.lecture(lecture) is Some,
        state.is_enrolled(who, state.lecture(lecture)->Some_0.course_id),
        !state.has(KeyView::AttendanceRecord(lecture, who)),
    ensures
        state.with_record(who, lecture, now, verified).consistent(),
        state.grows_into(state.with_record(who, lecture, now, verified)),
{
    let next = state.with_record(who, lecture, now, verified);
    let present = state.lecture_attendees(lecture);
    assert(state.entries.contains_key(KeyView::Lecture(lecture)));
    assert(state.in_order(KeyView::Lecture(lecture)));
    assert(state.entries.contains_key(KeyView::LectureAttendees(lecture)));
    assert(state.in_order(KeyView::LectureAttendees(lecture)));
    lemma_with_member(present, who);
    assert(next.lecture_attendees(lecture) == with_member(present, who));
    assert(state.grows_into(next));
    assert(next.in_order(KeyView::LectureAttendees(lecture))) by {
        let grown = with_member(present, who);
        assert forall|i: int| 0 <= i < grown.len() implies next.has(
            KeyView::AttendanceRecord(lecture, #[trigger] grown[i]),
        ) by {
            if i < present.len() {
                assert(state.has(KeyView::AttendanceRecord(lecture, present[i])));
            }
        }
    }
    lemma_grown_state_is_consistent(
        state,
        next,
        set![KeyView::AttendanceRecord(lecture, who), KeyView::LectureAttendees(lecture)],
    );
}

/// Whatever request a consistent state grants, the state that follows is
/// consistent again, and it has on record everything the state before had.
pub proof fn lemma_consistency_is_kept(state: State, op: Operation)
    requires
        state.consistent(),
        state.apply(op) is Ok,
        op matches Operation::StartAttendanceSession { duration_seconds, now, .. } ==> now
            + duration_seconds <= u64::MAX,
    ensures
        state.apply(op)->Ok_0.consistent(),
        state.grows_into(state.apply(op)->Ok_0),
{
    match op {
        Operation::Initialize { admin } => lemma_initialize_keeps_consistency(state, admin),
        Operation::RegisterTeacher { who } => lemma_register_teacher_keeps_consistency(state, who),
        Operation::RegisterStudent { who } => lemma_register_student_keeps_consistency(state, who),
        Operation::CreateCourse { teacher, course, name, description, price } => {
            lemma_create_course_keeps_consistency(state, teacher, course, name, description, price)
        },
        Operation::EnrollStudent { who, course } => {
            lemma_enroll_student_keeps_consistency(state, who, course)
        },
        Operation::CreateAssignment { teacher, course, assignment, title, description } => {
            lemma_create_assignment_keeps_consistency(
                state,
                teacher,
                course,
                assignment,
                title,
                description,
            )
        },
        Operation::SubmitAssignment { who, course, assignment, content } => {
            lemma_submit_assignment_keeps_consistency(state, who, course, assignment, content)
        },
        Operation::GradeSubmission { teacher, course, assignment, who, score, feedback } => {
            lemma_grade_submission_keeps_consistency(
                state,
                teacher,
                course,
                assignment,
                who,
                score,
                feedback,
            )
        },
        Operation::CreateLecture { teacher, course, lecture, title, date, duration } => {
            lemma_create_lecture_keeps_consistency(
                state,
                teacher,
                course,
                lecture,
                title,
                date,
                duration,
            )
        },
        Operation::StartAttendanceSession { teacher, lecture, duration_seconds, now, token } => {
            lemma_start_attendance_session_keeps_consistency(
                state,
                teacher,
                lecture,
                duration_seconds,
                now,
                token,
            )
        },
        Operation::MarkAttendance { who, lecture, token, now } => {
            lemma_record_keeps_consistency(state, who, lecture, now, true)
        },
        Operation::CloseAttendanceSession { teacher, lecture } => {
            lemma_close_attendance_session_keeps_consistency(state, teacher, lecture)
        },
        Operation::ManualAttendance { teacher, lecture, who, now } => {
            lemma_record_keeps_consistency(state, who, lecture, now, false)
        },
    }
}

/// A state that remembers nothing is consistent.
pub proof fn lemma_empty_is_consistent(policy: ResubmissionPolicy)
    ensures
        State::empty(policy).consistent(),
{
}

} // verus!
