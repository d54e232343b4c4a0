use crate::attendance::{AttendanceKeyView, Register, RegisterOperation};
use crate::error::Error;
use crate::model::{Operation, State};
use crate::session::token_refusal;
use crate::storage::KeyView;
use vstd::prelude::*;

verus! {

/// Once a student's attendance at a lecture is on record, no request of any
/// kind changes or replaces that record.
pub proof fn lemma_record_is_never_overwritten(
    state: State,
    op: Operation,
    lecture: Seq<char>,
    who: Seq<char>,
)
    requires
        state.has(KeyView::AttendanceRecord(lecture, who)),
        state.apply(op) is Ok,
    ensures
        state.apply(op)->Ok_0.has(KeyView::AttendanceRecord(lecture, who)),
        state.apply(op)->Ok_0.entries[KeyView::AttendanceRecord(lecture, who)]
            == state.entries[KeyView::AttendanceRecord(lecture, who)],
{
}

/// After a student has marked attendance at a lecture, the record exists and
/// is verified, and every further attempt to mark the same student at the
/// same lecture is refused, by token or by hand. Where nothing but the
/// existing record stands in the way, the refusal is `AlreadyMarked`.
pub proof fn lemma_marked_once(
    state: State,
    who: Seq<char>,
    lecture: Seq<char>,
    token: Seq<u8>,
    now: u64,
    later_token: Seq<u8>,
    later: u64,
    teacher: Seq<char>,
)
    requires
        state.mark_attendance(who, lecture, token, now) is Ok,
    ensures
        ({
            let next = state.mark_attendance(who, lecture, token, now)->Ok_0;
            &&& next.record(lecture, who) is Some
            &&& next.record(lecture, who)->Some_0.verified
            &&& next.record(lecture, who)->Some_0.timestamp == now
            &&& next.lecture_attendees(lecture).contains(who)
            &&& next.mark_attendance(who, lecture, later_token, later) is Err
            &&& next.manual_attendance(teacher, lecture, who, later) is Err
            &&& next.session_refusal(lecture, later_token, later) is None
                ==> next.mark_attendance(who, lecture, later_token, later) == Err::<State, Error>(
                Error::AlreadyMarked,
            )
            &&& next.mark_attendance(who, lecture, token, now) == Err::<State, Error>(
                Error::AlreadyMarked,
            )
            &&& next.lecture_owner(lecture) == Ok::<Seq<char>, Error>(teacher)
                ==> next.manual_attendance(teacher, lecture, who, later) == Err::<State, Error>(
                Error::AlreadyMarked,
            )
        }),
{
    let next = state.mark_attendance(who, lecture, token, now)->Ok_0;
    let attendees = state.lecture_attendees(lecture);
    if !attendees.contains(who) {
        assert(attendees.push(who)[attendees.len() as int] == who);
    }
}

/// After a teacher has marked a student by hand, the record exists and is
/// not verified, and every further attempt to mark the same student at the
/// same lecture is refused, by token or by hand.
pub proof fn lemma_marked_by_hand_once(
    state: State,
    teacher: Seq<char>,
    who: Seq<char>,
    lecture: Seq<char>,
    now: u64,
    later_token: Seq<u8>,
    later: u64,
    later_teacher: Seq<char>,
)
    requires
        state.manual_attendance(teacher, lecture, who, now) is Ok,
    ensures
        ({
            let next = state.manual_attendance(teacher, lecture, who, now)->Ok_0;
            &&& next.record(lecture, who) is Some
            &&& !next.record(lecture, who)->Some_0.verified
            &&& next.lecture_attendees(lecture).contains(who)
            &&& next.mark_attendance(who, lecture, later_token, later) is Err
            &&& next.manual_attendance(later_teacher, lecture, who, later) is Err
            &&& next.manual_attendance(teacher, lecture, who, later) == Err::<State, Error>(
                Error::AlreadyMarked,
            )
            &&& next.session_refusal(lecture, later_token, later) is None
                ==> next.mark_attendance(who, lecture, later_token, later) == Err::<State, Error>(
                Error::AlreadyMarked,
            )
        }),
{
    let attendees = state.lecture_attendees(lecture);
    if !attendees.contains(who) {
        assert(attendees.push(who)[attendees.len() as int] == who);
    }
}

/// A token is accepted exactly while its session is running and the
/// deadline has not passed. For an enrolled student without a record:
/// marking succeeds if and only if the session exists, is active, the time
/// is at most the deadline, and the token is the issued one. The deadline
/// itself is in time; one second later is not, whatever the token.
pub proof fn lemma_token_validates_only_in_time(
    state: State,
    who: Seq<char>,
    lecture: Seq<char>,
    token: Seq<u8>,
    now: u64,
)
    requires
        state.lecture(lecture) is Some,
        state.student(who) is Some,
        state.is_enrolled(who, state.lecture(lecture)->Some_0.course_id),
        !state.has(KeyView::AttendanceRecord(lecture, who)),
    ensures
        state.mark_attendance(who, lecture, token, now) is Ok <==> {
            &&& state.session(lecture) is Some
            &&& state.session(lecture)->Some_0.0.is_active
            &&& now <= state.session(lecture)->Some_0.0.end_time
            &&& token == state.session(lecture)->Some_0.1
        },
        state.session(lecture) is None ==> state.mark_attendance(who, lecture, token, now) == Err::<
            State,
            Error,
        >(Error::SessionNotFound),
        state.session(lecture) is Some && !state.session(lecture)->Some_0.0.is_active
            ==> state.mark_attendance(who, lecture, token, now) == Err::<State, Error>(
            Error::SessionNotActive,
        ),
        state.session(lecture) is Some && state.session(lecture)->Some_0.0.is_active && now
            > state.session(lecture)->Some_0.0.end_time ==> state.mark_attendance(
            who,
            lecture,
            token,
            now,
        ) == Err::<State, Error>(Error::SessionExpired),
{
}

/// Whatever else holds, a request to mark attendance that is granted was
/// made with the issued token, on an active session, at or before the
/// deadline, by an enrolled student without a record.
pub proof fn lemma_granted_mark_was_in_order(
    state: State,
    who: Seq<char>,
    lecture: Seq<char>,
    token: Seq<u8>,
    now: u64,
)
    requires
        state.mark_attendance(who, lecture, token, now) is Ok,
    ensures
        state.session_open(lecture, now),
        token == state.session(lecture)->Some_0.1,
        state.lecture(lecture) is Some,
        state.is_enrolled(who, state.lecture(lecture)->Some_0.course_id),
        !state.has(KeyView::AttendanceRecord(lecture, who)),
{
}

/// A wrong token presented in time to an active session is refused with
/// `InvalidToken`, also where the student is already on record.
pub proof fn lemma_wrong_token_is_refused(
    state: State,
    who: Seq<char>,
    lecture: Seq<char>,
    token: Seq<u8>,
    now: u64,
)
    requires
        state.lecture(lecture) is Some,
        state.student(who) is Some,
        state.is_enrolled(who, state.lecture(lecture)->Some_0.course_id),
        state.session_open(lecture, now),
        token != state.session(lecture)->Some_0.1,
    ensures
        state.mark_attendance(who, lecture, token, now) == Err::<State, Error>(Error::InvalidToken),
{
}

/// The deadline of a session is the last moment at which its token is
/// accepted.
pub proof fn lemma_deadline_is_inclusive(token: Seq<u8>, end_time: u64)
    ensures
        token_refusal(token, end_time, token, end_time) is None,
        end_time < u64::MAX ==> token_refusal(token, end_time, token, (end_time + 1) as u64)
            == Some(Error::SessionExpired),
{
}

/// A registered student who is not a member of a course can neither hand in
/// work for the course nor be marked present at one of its lectures.
pub proof fn lemma_enrollment_comes_first(
    state: State,
    who: Seq<char>,
    course: Seq<char>,
    assignment: Seq<char>,
    content: Seq<char>,
    lecture: Seq<char>,
    token: Seq<u8>,
    now: u64,
    teacher: Seq<char>,
)
    requires
        state.student(who) is Some,
        !state.is_enrolled(who, course),
    ensures
        state.submit_assignment(who, course, assignment, content) == Err::<State, Error>(
            Error::NotEnrolled,
        ),
        state.lecture(lecture) is Some && state.lecture(lecture)->Some_0.course_id == course
            ==> state.mark_attendance(who, lecture, token, now) == Err::<State, Error>(
            Error::NotEnrolled,
        ),
        state.lecture(lecture) is Some && state.lecture(lecture)->Some_0.course_id == course
            ==> state.manual_attendance(teacher, lecture, who, now) is Err,
        state.lecture(lecture) is Some && state.lecture(lecture)->Some_0.course_id == course
            && state.lecture_owner(lecture) == Ok::<Seq<char>, Error>(teacher)
            ==> state.manual_attendance(teacher, lecture, who, now) == Err::<State, Error>(
            Error::NotEnrolled,
        ),
{
}

/// A course id can be taken once. After a course has been created, every
/// request to create a course under the same id is refused, with
/// `DuplicateId` where a registered teacher asks.
pub proof fn lemma_course_id_is_taken_once(
    state: State,
    teacher: Seq<char>,
    course: Seq<char>,
    name: Seq<char>,
    description: Seq<char>,
    price: u128,
    later_teacher: Seq<char>,
    later_name: Seq<char>,
    later_description: Seq<char>,
    later_price: u128,
)
    requires
        state.create_course(teacher, course, name, description, price) is Ok,
    ensures
        ({
            let next = state.create_course(teacher, course, name, description, price)->Ok_0;
            &&& next.course(course) is Some
            &&& next.course(course)->Some_0.teacher == teacher
            &&& next.course(course)->Some_0.name == name
            &&& next.course(course)->Some_0.description == description
            &&& next.course(course)->Some_0.price == price
            &&& next.create_course(later_teacher, course, later_name, later_description, later_price)
                is Err
            &&& next.is_teacher(later_teacher) ==> next.create_course(
                later_teacher,
                course,
                later_name,
                later_description,
                later_price,
            ) == Err::<State, Error>(Error::DuplicateId)
        }),
{
}

/// Once a course exists, no request of any kind changes it: its owner, name,
/// description and price stay what they were when it was created.
pub proof fn lemma_course_is_never_changed(state: State, op: Operation, course: Seq<char>)
    requires
        state.has(KeyView::Course(course)),
        state.apply(op) is Ok,
    ensures
        state.apply(op)->Ok_0.has(KeyView::Course(course)),
        state.apply(op)->Ok_0.entries[KeyView::Course(course)] == state.entries[KeyView::Course(
            course,
        )],
{
}

/// The administrator, a teacher's registration, a course, an assignment, a
/// lecture and an attendance record are written once: whatever is requested
/// later, such an entry stays exactly as it was created.
pub proof fn lemma_written_once(state: State, op: Operation, key: KeyView)
    requires
        key is Admin || key is Teacher || key is Course || key is Assignment || key is Lecture
            || key is AttendanceRecord,
        state.has(key),
        state.apply(op) is Ok,
    ensures
        state.apply(op)->Ok_0.has(key),
        state.apply(op)->Ok_0.entries[key] == state.entries[key],
{
}

/// A lecture has at most one open session at a time: a session is opened
/// only where none is open, and the session that is opened replaces the one
/// before it. It runs from `now` to `now + duration_seconds` and carries the
/// token that was handed in.
pub proof fn lemma_one_open_session_per_lecture(
    state: State,
    teacher: Seq<char>,
    lecture: Seq<char>,
    duration_seconds: u32,
    now: u64,
    token: Seq<u8>,
)
    requires
        now + duration_seconds <= u64::MAX,
        state.start_attendance_session(teacher, lecture, duration_seconds, now, token) is Ok,
    ensures
        ({
            let next = state.start_attendance_session(
                teacher,
                lecture,
                duration_seconds,
                now,
                token,
            )->Ok_0;
            &&& !state.session_open(lecture, now)
            &&& next.session_open(lecture, now)
            &&& next.session(lecture) is Some
            &&& next.session(lecture)->Some_0.1 == token
            &&& next.session(lecture)->Some_0.0.start_time == now
            &&& next.session(lecture)->Some_0.0.end_time == now + duration_seconds
            &&& next.session(lecture)->Some_0.0.is_active
            &&& next.session_refusal(lecture, token, next.session(lecture)->Some_0.0.end_time)
                is None
        }),
{
}

/// In the single-teacher register, a student who has been marked present
/// at a lecture stays on record whatever is requested afterwards, and every
/// further attempt to mark the same student at the same lecture is refused,
/// with `AlreadyMarked` where the token is presented in time and is right.
pub proof fn lemma_register_marks_once(
    register: Register,
    who: Seq<char>,
    lecture: u64,
    token: Seq<u8>,
    now: u64,
    later_token: Seq<u8>,
    later: u64,
)
    requires
        register.mark_attendance(who, lecture, token, now) is Ok,
    ensures
        ({
            let next = register.mark_attendance(who, lecture, token, now)->Ok_0;
            &&& !register.present(lecture, who)
            &&& next.present(lecture, who)
            &&& next.mark_attendance(who, lecture, later_token, later) is Err
            &&& next.mark_attendance(who, lecture, token, now) == Err::<Register, Error>(
                Error::AlreadyMarked,
            )
        }),
{
}

/// Nothing that is requested of the register takes a student's presence off
/// the record.
pub proof fn lemma_register_presence_is_kept(
    register: Register,
    op: RegisterOperation,
    lecture: u64,
    who: Seq<char>,
)
    requires
        register.present(lecture, who),
        register.apply(op) is Ok,
    ensures
        register.apply(op)->Ok_0.present(lecture, who),
        register.apply(op)->Ok_0.entries[AttendanceKeyView::Record(lecture, who)]
            == register.entries[AttendanceKeyView::Record(lecture, who)],
{
}

/// In the single-teacher register, marking is granted exactly when the
/// lecture exists, it has a session whose deadline has not passed, the token
/// is the one issued for that session, and the student is not on record
/// yet. Past the deadline the refusal is `SessionExpired` whatever the
/// token; in time, a wrong token is refused with `InvalidToken`.
pub proof fn lemma_register_token_in_time(
    register: Register,
    who: Seq<char>,
    lecture: u64,
    token: Seq<u8>,
    now: u64,
)
    ensures
        register.mark_attendance(who, lecture, token, now) is Ok <==> {
            &&& register.has(AttendanceKeyView::Lecture(lecture))
            &&& register.session(lecture) is Some
            &&& now <= register.session(lecture)->Some_0.1
            &&& token == register.session(lecture)->Some_0.0
            &&& !register.present(lecture, who)
        },
        register.has(AttendanceKeyView::Lecture(lecture)) && register.session(lecture) is Some
            && now > register.session(lecture)->Some_0.1 ==> register.mark_attendance(
            who,
            lecture,
            token,
            now,
        ) == Err::<Register, Error>(Error::SessionExpired),
        register.has(AttendanceKeyView::Lecture(lecture)) && register.session_open(lecture, now)
            && token != register.session(lecture)->Some_0.0 ==> register.mark_attendance(
            who,
            lecture,
            token,
            now,
        ) == Err::<Register, Error>(Error::InvalidToken),
{
}

} // verus!
