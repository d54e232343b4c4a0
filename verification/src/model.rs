use crate::error::Error;
use crate::list::with_member;
use crate::session::token_refusal;
use crate::storage::{EntryView, KeyView};
use crate::types::{
    AssignmentView, AttendanceRecordView, AttendanceSessionView, CourseView, GradeView,
    LectureView, ResubmissionPolicy, StudentView, SubmissionView, MAX_SCORE,
};
use vstd::prelude::*;

verus! {

/// One request to the course engine, with everything the caller hands in.
pub enum Operation {
    Initialize { admin: Seq<char> },
    RegisterTeacher { who: Seq<char> },
    RegisterStudent { who: Seq<char> },
    CreateCourse {
        teacher: Seq<char>,
        course: Seq<char>,
        name: Seq<char>,
        description: Seq<char>,
        price: u128,
    },
    EnrollStudent { who: Seq<char>, course: Seq<char> },
    CreateAssignment {
        teacher: Seq<char>,
        course: Seq<char>,
        assignment: Seq<char>,
        title: Seq<char>,
        description: Seq<char>,
    },
    SubmitAssignment {
        who: Seq<char>,
        course: Seq<char>,
        assignment: Seq<char>,
        content: Seq<char>,
    },
    GradeSubmission {
        teacher: Seq<char>,
        course: Seq<char>,
        assignment: Seq<char>,
        who: Seq<char>,
        score: u32,
        feedback: Seq<char>,
    },
    CreateLecture {
        teacher: Seq<char>,
        course: Seq<char>,
        lecture: Seq<char>,
        title: Seq<char>,
        date: u64,
        duration: u32,
    },
    StartAttendanceSession {
        teacher: Seq<char>,
        lecture: Seq<char>,
        duration_seconds: u32,
        now: u64,
        token: Seq<u8>,
    },
    MarkAttendance { who: Seq<char>, lecture: Seq<char>, token: Seq<u8>, now: u64 },
    CloseAttendanceSession { teacher: Seq<char>, lecture: Seq<char> },
    ManualAttendance { teacher: Seq<char>, lecture: Seq<char>, who: Seq<char>, now: u64 },
}

/// Everything the course engine remembers: the stored entries, one per key,
/// and the policy it was set up with.
#[verifier::ext_equal]
pub struct State {
    pub entries: Map<KeyView, EntryView>,
    pub policy: ResubmissionPolicy,
}

impl State {
    /// The state before anything has happened.
    pub open spec fn empty(policy: ResubmissionPolicy) -> State {
        State { entries: Map::empty(), policy }
    }

    /// Every entry is filed under the key that it names itself.
    pub open spec fn well_keyed(self) -> bool {
        forall|k: KeyView| #[trigger] self.entries.contains_key(k) ==> self.entries[k].key() == k
    }

    /// Whether an entry is filed under `key`.
    pub open spec fn has(self, key: KeyView) -> bool {
        self.entries.contains_key(key)
    }

    /// The state with `entry` filed under its own key.
    pub open spec fn put(self, entry: EntryView) -> State {
        State { entries: self.entries.insert(entry.key(), entry), ..self }
    }

    pub open spec fn admin(self) -> Option<Seq<char>> {
        if self.has(KeyView::Admin) {
            match self.entries[KeyView::Admin] {
                EntryView::Admin(who) => Some(who),
                _ => None,
            }
        } else {
            None
        }
    }

    pub open spec fn is_teacher(self, who: Seq<char>) -> bool {
        self.has(KeyView::Teacher(who))
    }

    pub open spec fn student(self, who: Seq<char>) -> Option<StudentView> {
        if self.has(KeyView::Student(who)) {
            match self.entries[KeyView::Student(who)] {
                EntryView::Student(student) => Some(student),
                _ => None,
            }
        } else {
            None
        }
    }

    pub open spec fn course(self, course: Seq<char>) -> Option<CourseView> {
        if self.has(KeyView::Course(course)) {
            match self.entries[KeyView::Course(course)] {
                EntryView::Course(found) => Some(found),
                _ => None,
            }
        } else {
            None
        }
    }

    pub open spec fn assignment(self, course: Seq<char>, assignment: Seq<char>) -> Option<
        AssignmentView,
    > {
        if self.has(KeyView::Assignment(course, assignment)) {
            match self.entries[KeyView::Assignment(course, assignment)] {
                EntryView::Assignment(found) => Some(found),
                _ => None,
            }
        } else {
            None
        }
    }

    pub open spec fn submission(
        self,
        course: Seq<char>,
        assignment: Seq<char>,
        who: Seq<char>,
    ) -> Option<SubmissionView> {
        if self.has(KeyView::Submission(course, assignment, who)) {
            match self.entries[KeyView::Submission(course, assignment, who)] {
                EntryView::Submission(found) => Some(found),
                _ => None,
            }
        } else {
            None
        }
    }

    pub open spec fn lecture(self, lecture: Seq<char>) -> Option<LectureView> {
        if self.has(KeyView::Lecture(lecture)) {
            match self.entries[KeyView::Lecture(lecture)] {
                EntryView::Lecture(found) => Some(found),
                _ => None,
            }
        } else {
            None
        }
    }

    /// The session of a lecture together with the token issued for it.
    pub open spec fn session(self, lecture: Seq<char>) -> Option<(AttendanceSessionView, Seq<u8>)> {
        if self.has(KeyView::AttendanceSession(lecture)) {
            match self.entries[KeyView::AttendanceSession(lecture)] {
                EntryView::AttendanceSession(found, token) => Some((found, token)),
                _ => None,
            }
        } else {
            None
        }
    }

    pub open spec fn record(self, lecture: Seq<char>, who: Seq<char>) -> Option<
        AttendanceRecordView,
    > {
        if self.has(KeyView::AttendanceRecord(lecture, who)) {
            match self.entries[KeyView::AttendanceRecord(lecture, who)] {
                EntryView::AttendanceRecord(found) => Some(found),
                _ => None,
            }
        } else {
            None
        }
    }

    /// The ids of a course's assignments; none where no list is stored.
    pub open spec fn course_assignments(self, course: Seq<char>) -> Seq<Seq<char>> {
        if self.has(KeyView::CourseAssignments(course)) {
            match self.entries[KeyView::CourseAssignments(course)] {
                EntryView::CourseAssignments(_, ids) => ids,
                _ => Seq::empty(),
            }
        } else {
            Seq::empty()
        }
    }

    /// The members of a course; none where no list is stored.
    pub open spec fn course_students(self, course: Seq<char>) -> Seq<Seq<char>> {
        if self.has(KeyView::CourseStudents(course)) {
            match self.entries[KeyView::CourseStudents(course)] {
                EntryView::CourseStudents(_, members) => members,
                _ => Seq::empty(),
            }
        } else {
            Seq::empty()
        }
    }

    /// The ids of a course's lectures; none where no list is stored.
    pub open spec fn course_lectures(self, course: Seq<char>) -> Seq<Seq<char>> {
        if self.has(KeyView::CourseLectures(course)) {
            match self.entries[KeyView::CourseLectures(course)] {
                EntryView::CourseLectures(_, ids) => ids,
                _ => Seq::empty(),
            }
        } else {
            Seq::empty()
        }
    }

    /// The students who attended a lecture; none where no list is stored.
    pub open spec fn lecture_attendees(self, lecture: Seq<char>) -> Seq<Seq<char>> {
        if self.has(KeyView::LectureAttendees(lecture)) {
            match self.entries[KeyView::LectureAttendees(lecture)] {
                EntryView::LectureAttendees(_, who) => who,
                _ => Seq::empty(),
            }
        } else {
            Seq::empty()
        }
    }

    /// The courses a student is a member of; none for an unregistered one.
    pub open spec fn student_courses(self, who: Seq<char>) -> Seq<Seq<char>> {
        match self.student(who) {
            Some(student) => student.enrolled_courses,
            None => Seq::empty(),
        }
    }

    /// Whether `who` is a registered student and a member of `course`.
    pub open spec fn is_enrolled(self, who: Seq<char>, course: Seq<char>) -> bool {
        self.student_courses(who).contains(course)
    }

    /// Whether the lecture's session is open at time `now`: it exists, has
    /// not been closed, and its deadline has not passed.
    pub open spec fn session_open(self, lecture: Seq<char>, now: u64) -> bool {
        match self.session(lecture) {
            Some((session, _)) => session.is_active && now <= session.end_time,
            None => false,
        }
    }

    /// How many of `lectures` the student has an attendance record for.
    pub open spec fn attended(self, who: Seq<char>, lectures: Seq<Seq<char>>) -> nat
        decreases lectures.len(),
    {
        if lectures.len() == 0 {
            0
        } else {
            self.attended(who, lectures.drop_last()) + if self.has(
                KeyView::AttendanceRecord(lectures.last(), who),
            ) {
                1nat
            } else {
                0nat
            }
        }
    }

    // The operations. Each yields the next state, or the reason for which
    // the operation is refused; a refused operation changes nothing.

    pub open spec fn initialize(self, admin: Seq<char>) -> Result<State, Error> {
        if self.has(KeyView::Admin) {
            Err(Error::AlreadyInitialized)
        } else {
            Ok(self.put(EntryView::Admin(admin)))
        }
    }

    pub open spec fn register_teacher(self, who: Seq<char>) -> Result<State, Error> {
        if self.has(KeyView::Teacher(who)) {
            Err(Error::AlreadyRegistered)
        } else {
            Ok(self.put(EntryView::Teacher(who)))
        }
    }

    pub open spec fn register_student(self, who: Seq<char>) -> Result<State, Error> {
        if self.has(KeyView::Student(who)) {
            Err(Error::AlreadyRegistered)
        } else {
            Ok(self.put(EntryView::Student(StudentView { id: who, enrolled_courses: Seq::empty() })))
        }
    }

    pub open spec fn create_course(
        self,
        teacher: Seq<char>,
        course: Seq<char>,
        name: Seq<char>,
        description: Seq<char>,
        price: u128,
    ) -> Result<State, Error> {
        if !self.is_teacher(teacher) {
            Err(Error::NotRegistered)
        } else if self.has(KeyView::Course(course)) {
            Err(Error::DuplicateId)
        } else {
            Ok(
                self.put(
                    EntryView::Course(CourseView { id: course, teacher, name, description, price }),
                ).put(EntryView::CourseAssignments(course, Seq::empty())).put(
                    EntryView::CourseStudents(course, Seq::empty()),
                ).put(EntryView::CourseLectures(course, Seq::empty())),
            )
        }
    }

    pub open spec fn enroll_student(self, who: Seq<char>, course: Seq<char>) -> Result<
        State,
        Error,
    > {
        match self.student(who) {
            None => Err(Error::NotRegistered),
            Some(student) => if self.course(course) is None {
                Err(Error::NotFound)
            } else if student.enrolled_courses.contains(course) {
                Err(Error::AlreadyEnrolled)
            } else {
                Ok(
                    self.put(
                        EntryView::Student(
                            StudentView {
                                enrolled_courses: with_member(student.enrolled_courses, course),
                                ..student
                            },
                        ),
                    ).put(
                        EntryView::CourseStudents(
                            course,
                            with_member(self.course_students(course), who),
                        ),
                    ),
                )
            },
        }
    }

    pub open spec fn create_assignment(
        self,
        teacher: Seq<char>,
        course: Seq<char>,
        assignment: Seq<char>,
        title: Seq<char>,
        description: Seq<char>,
    ) -> Result<State, Error> {
        match self.course(course) {
            None => Err(Error::NotFound),
            Some(found) => if found.teacher != teacher {
                Err(Error::Unauthorized)
            } else if self.has(KeyView::Assignment(course, assignment)) {
                Err(Error::DuplicateId)
            } else {
                Ok(
                    self.put(
                        EntryView::Assignment(
                            AssignmentView { id: assignment, course_id: course, title, description },
                        ),
                    ).put(
                        EntryView::CourseAssignments(
                            course,
                            with_member(self.course_assignments(course), assignment),
                        ),
                    ),
                )
            },
        }
    }

    /// The grade a submission carries right after it was handed in: none for
    /// a first submission; for a later one, what the policy leaves of the
    /// grade given so far.
    pub open spec fn grade_after_submit(
        self,
        course: Seq<char>,
        assignment: Seq<char>,
        who: Seq<char>,
    ) -> Option<GradeView> {
        match self.submission(course, assignment, who) {
            Some(earlier) => match self.policy {
                ResubmissionPolicy::KeepGrade => earlier.grade,
                ResubmissionPolicy::ClearGrade => None,
            },
            None => None,
        }
    }

    pub open spec fn submit_assignment(
        self,
        who: Seq<char>,
        course: Seq<char>,
        assignment: Seq<char>,
        content: Seq<char>,
    ) -> Result<State, Error> {
        if self.student(who) is None {
            Err(Error::NotRegistered)
        } else if !self.is_enrolled(who, course) {
            Err(Error::NotEnrolled)
        } else if !self.has(KeyView::Assignment(course, assignment)) {
            Err(Error::NotFound)
        } else {
            Ok(
                self.put(
                    EntryView::Submission(
                        SubmissionView {
                            student_id: who,
                            assignment_id: assignment,
                            course_id: course,
                            content,
                            grade: self.grade_after_submit(course, assignment, who),
                        },
                    ),
                ),
            )
        }
    }

    pub open spec fn grade_submission(
        self,
        teacher: Seq<char>,
        course: Seq<char>,
        assignment: Seq<char>,
        who: Seq<char>,
        score: u32,
        feedback: Seq<char>,
    ) -> Result<State, Error> {
        match self.course(course) {
            None => Err(Error::NotFound),
            Some(found) => if found.teacher != teacher {
                Err(Error::Unauthorized)
            } else if !self.has(KeyView::Assignment(course, assignment)) {
                Err(Error::NotFound)
            } else {
                match self.submission(course, assignment, who) {
                    None => Err(Error::NotFound),
                    Some(submission) => if score > MAX_SCORE {
                        Err(Error::InvalidScore)
                    } else {
                        Ok(
                            self.put(
                                EntryView::Submission(
                                    SubmissionView {
                                        grade: Some(GradeView { score, feedback }),
                                        ..submission
                                    },
                                ),
                            ),
                        )
                    },
                }
            },
        }
    }

    pub open spec fn create_lecture(
        self,
        teacher: Seq<char>,
        course: Seq<char>,
        lecture: Seq<char>,
        title: Seq<char>,
        date: u64,
        duration: u32,
    ) -> Result<State, Error> {
        match self.course(course) {
            None => Err(Error::NotFound),
            Some(found) => if found.teacher != teacher {
                Err(Error::Unauthorized)
            } else if self.has(KeyView::Lecture(lecture)) {
                Err(Error::DuplicateId)
            } else {
                Ok(
                    self.put(
                        EntryView::Lecture(
                            LectureView { id: lecture, course_id: course, title, date, duration },
                        ),
                    ).put(
                        EntryView::CourseLectures(
                            course,
                            with_member(self.course_lectures(course), lecture),
                        ),
                    ).put(EntryView::LectureAttendees(lecture, Seq::empty())),
                )
            },
        }
    }

    /// The teacher who owns the course that `lecture` belongs to, or why the
    /// lecture has no owner.
    pub open spec fn lecture_owner(self, lecture: Seq<char>) -> Result<Seq<char>, Error> {
        match self.lecture(lecture) {
            None => Err(Error::NotFound),
            Some(found) => match self.course(found.course_id) {
                None => Err(Error::NotFound),
                Some(course) => Ok(course.teacher),
            },
        }
    }

    pub open spec fn start_attendance_session(
        self,
        teacher: Seq<char>,
        lecture: Seq<char>,
        duration_seconds: u32,
        now: u64,
        token: Seq<u8>,
    ) -> Result<State, Error> {
        match self.lecture_owner(lecture) {
            Err(e) => Err(e),
            Ok(owner) => if owner != teacher {
                Err(Error::Unauthorized)
            } else if self.session_open(lecture, now) {
                Err(Error::SessionAlreadyActive)
            } else {
                Ok(
                    self.put(
                        EntryView::AttendanceSession(
                            AttendanceSessionView {
                                lecture_id: lecture,
                                start_time: now,
                                end_time: (now + duration_seconds) as u64,
                                is_active: true,
                            },
                            token,
                        ),
                    ),
                )
            },
        }
    }

    /// Why the lecture's session does not accept `token` at time `now`, if it
    /// does not.
    pub open spec fn session_refusal(self, lecture: Seq<char>, token: Seq<u8>, now: u64) -> Option<
        Error,
    > {
        match self.session(lecture) {
            None => Some(Error::SessionNotFound),
            Some((session, issued)) => if !session.is_active {
                Some(Error::SessionNotActive)
            } else {
                token_refusal(issued, session.end_time, token, now)
            },
        }
    }

    /// The state with an attendance record for the student and the student
    /// among the lecture's attendees.
    pub open spec fn with_record(
        self,
        who: Seq<char>,
        lecture: Seq<char>,
        now: u64,
        verified: bool,
    ) -> State {
        self.put(
            EntryView::AttendanceRecord(
                AttendanceRecordView { student_id: who, lecture_id: lecture, timestamp: now, verified },
            ),
        ).put(EntryView::LectureAttendees(lecture, with_member(self.lecture_attendees(lecture), who)))
    }

    pub open spec fn mark_attendance(
        self,
        who: Seq<char>,
        lecture: Seq<char>,
        token: Seq<u8>,
        now: u64,
    ) -> Result<State, Error> {
        match self.lecture(lecture) {
            None => Err(Error::NotFound),
            Some(found) => if self.student(who) is None {
                Err(Error::NotRegistered)
            } else if !self.is_enrolled(who, found.course_id) {
                Err(Error::NotEnrolled)
            } else {
                match self.session_refusal(lecture, token, now) {
                    Some(e) => Err(e),
                    None => if self.has(KeyView::AttendanceRecord(lecture, who)) {
                        Err(Error::AlreadyMarked)
                    } else {
                        Ok(self.with_record(who, lecture, now, true))
                    },
                }
            },
        }
    }

    pub open spec fn close_attendance_session(
        self,
        teacher: Seq<char>,
        lecture: Seq<char>,
    ) -> Result<State, Error> {
        match self.lecture_owner(lecture) {
            Err(e) => Err(e),
            Ok(owner) => if owner != teacher {
                Err(Error::Unauthorized)
            } else {
                match self.session(lecture) {
                    None => Err(Error::SessionNotActive),
                    Some((session, token)) => if !session.is_active {
                        Err(Error::SessionNotActive)
                    } else {
                        Ok(
                            self.put(
                                EntryView::AttendanceSession(
                                    AttendanceSessionView { is_active: false, ..session },
                                    token,
                                ),
                            ),
                        )
                    },
                }
            },
        }
    }

    pub open spec fn manual_attendance(
        self,
        teacher: Seq<char>,
        lecture: Seq<char>,
        who: Seq<char>,
        now: u64,
    ) -> Result<State, Error> {
        match self.lecture_owner(lecture) {
            Err(e) => Err(e),
            Ok(owner) => if owner != teacher {
                Err(Error::Unauthorized)
            } else if self.student(who) is None {
                Err(Error::NotRegistered)
            } else if !self.is_enrolled(who, self.lecture(lecture)->Some_0.course_id) {
                Err(Error::NotEnrolled)
            } else if self.has(KeyView::AttendanceRecord(lecture, who)) {
                Err(Error::AlreadyMarked)
            } else {
                Ok(self.with_record(who, lecture, now, false))
            },
        }
    }

    /// What the engine makes of a request in this state.
    pub open spec fn apply(self, op: Operation) -> Result<State, Error> {
        match op {
            Operation::Initialize { admin } => self.initialize(admin),
            Operation::RegisterTeacher { who } => self.register_teacher(who),
            Operation::RegisterStudent { who } => self.register_student(who),
            Operation::CreateCourse { teacher, course, name, description, price } => {
                self.create_course(teacher, course, name, description, price)
            },
            Operation::EnrollStudent { who, course } => self.enroll_student(who, course),
            Operation::CreateAssignment { teacher, course, assignment, title, description } => {
                self.create_assignment(teacher, course, assignment, title, description)
            },
            Operation::SubmitAssignment { who, course, assignment, content } => {
                self.submit_assignment(who, course, assignment, content)
            },
            Operation::GradeSubmission { teacher, course, assignment, who, score, feedback } => {
                self.grade_submission(teacher, course, assignment, who, score, feedback)
            },
            Operation::CreateLecture { teacher, course, lecture, title, date, duration } => {
                self.create_lecture(teacher, course, lecture, title, date, duration)
            },
            Operation::StartAttendanceSession { teacher, lecture, duration_seconds, now, token } => {
                self.start_attendance_session(teacher, lecture, duration_seconds, now, token)
            },
            Operation::MarkAttendance { who, lecture, token, now } => {
                self.mark_attendance(who, lecture, token, now)
            },
            Operation::CloseAttendanceSession { teacher, lecture } => {
                self.close_attendance_session(teacher, lecture)
            },
            Operation::ManualAttendance { teacher, lecture, who, now } => {
                self.manual_attendance(teacher, lecture, who, now)
            },
        }
    }
}

} // verus!
