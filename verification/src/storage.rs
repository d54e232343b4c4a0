use crate::table::Keyed;
use crate::types::{
    Assignment, AssignmentView, AttendanceRecord, AttendanceRecordView, AttendanceSession,
    AttendanceSessionView, Course, CourseView, Identity, Lecture, LectureView, Student,
    StudentView, Submission, SubmissionView, Teacher, Token,
};
use vstd::prelude::*;

verus! {

/// The key of a stored entry: the kind of the entity and what identifies it
/// within that kind.
#[derive(Debug, PartialEq, Eq)]
pub enum DataKey {
    /// A teacher's registration.
    Teacher(Identity),
    /// A student's registration and enrollments.
    Student(Identity),
    /// A course, by its id.
    Course(String),
    /// An assignment, by course id and assignment id.
    Assignment(String, String),
    /// A submission, by course id, assignment id and student.
    Submission(String, String, Identity),
    /// The ids of a course's assignments.
    CourseAssignments(String),
    /// The members of a course.
    CourseStudents(String),
    /// The administrator.
    Admin,
    /// A lecture, by its id.
    Lecture(String),
    /// The ids of a course's lectures.
    CourseLectures(String),
    /// The attendance session of a lecture.
    AttendanceSession(String),
    /// The attendance record of a student for a lecture.
    AttendanceRecord(String, Identity),
    /// The students who attended a lecture.
    LectureAttendees(String),
}

pub enum KeyView {
    Teacher(Seq<char>),
    Student(Seq<char>),
    Course(Seq<char>),
    Assignment(Seq<char>, Seq<char>),
    Submission(Seq<char>, Seq<char>, Seq<char>),
    CourseAssignments(Seq<char>),
    CourseStudents(Seq<char>),
    Admin,
    Lecture(Seq<char>),
    CourseLectures(Seq<char>),
    AttendanceSession(Seq<char>),
    AttendanceRecord(Seq<char>, Seq<char>),
    LectureAttendees(Seq<char>),
}

impl View for DataKey {
    type V = KeyView;

    open spec fn view(&self) -> KeyView {
        match self {
            DataKey::Teacher(who) => KeyView::Teacher(who@),
            DataKey::Student(who) => KeyView::Student(who@),
            DataKey::Course(course) => KeyView::Course(course@),
            DataKey::Assignment(course, assignment) => KeyView::Assignment(course@, assignment@),
            DataKey::Submission(course, assignment, who) => KeyView::Submission(
                course@,
                assignment@,
                who@,
            ),
            DataKey::CourseAssignments(course) => KeyView::CourseAssignments(course@),
            DataKey::CourseStudents(course) => KeyView::CourseStudents(course@),
            DataKey::Admin => KeyView::Admin,
            DataKey::Lecture(lecture) => KeyView::Lecture(lecture@),
            DataKey::CourseLectures(course) => KeyView::CourseLectures(course@),
            DataKey::AttendanceSession(lecture) => KeyView::AttendanceSession(lecture@),
            DataKey::AttendanceRecord(lecture, who) => KeyView::AttendanceRecord(lecture@, who@),
            DataKey::LectureAttendees(lecture) => KeyView::LectureAttendees(lecture@),
        }
    }
}

impl DataKey {
    /// Whether two keys name the same entry.
    pub fn same(&self, other: &DataKey) -> (r: bool)
        ensures
            r == (self@ == other@),
    {
        match (self, other) {
            (DataKey::Teacher(a), DataKey::Teacher(b)) => a.same(b),
            (DataKey::Student(a), DataKey::Student(b)) => a.same(b),
            (DataKey::Course(a), DataKey::Course(b)) => *a == *b,
            (DataKey::Assignment(a1, a2), DataKey::Assignment(b1, b2)) => *a1 == *b1 && *a2 == *b2,
            (DataKey::Submission(a1, a2, a3), DataKey::Submission(b1, b2, b3)) => *a1 == *b1 && *a2
                == *b2 && a3.same(b3),
            (DataKey::CourseAssignments(a), DataKey::CourseAssignments(b)) => *a == *b,
            (DataKey::CourseStudents(a), DataKey::CourseStudents(b)) => *a == *b,
            (DataKey::Admin, DataKey::Admin) => true,
            (DataKey::Lecture(a), DataKey::Lecture(b)) => *a == *b,
            (DataKey::CourseLectures(a), DataKey::CourseLectures(b)) => *a == *b,
            (DataKey::AttendanceSession(a), DataKey::AttendanceSession(b)) => *a == *b,
            (DataKey::AttendanceRecord(a1, a2), DataKey::AttendanceRecord(b1, b2)) => *a1 == *b1
                && a2.same(b2),
            (DataKey::LectureAttendees(a), DataKey::LectureAttendees(b)) => *a == *b,
            _ => false,
        }
    }
}

/// One stored entry. An entry carries everything that identifies it, so the
/// key it is filed under is always read off the entry itself.
#[derive(Debug, PartialEq, Eq)]
pub enum Entry {
    Admin(Identity),
    Teacher(Teacher),
    Student(Student),
    Course(Course),
    Assignment(Assignment),
    Submission(Submission),
    /// A course id with the ids of the course's assignments.
    CourseAssignments(String, Vec<String>),
    /// A course id with the course's members.
    CourseStudents(String, Vec<Identity>),
    /// A course id with the ids of the course's lectures.
    CourseLectures(String, Vec<String>),
    Lecture(Lecture),
    /// A session with the token that was issued for it.
    AttendanceSession(AttendanceSession, Token),
    AttendanceRecord(AttendanceRecord),
    /// A lecture id with the students who attended the lecture.
    LectureAttendees(String, Vec<Identity>),
}

pub enum EntryView {
    Admin(Seq<char>),
    Teacher(Seq<char>),
    Student(StudentView),
    Course(CourseView),
    Assignment(AssignmentView),
    Submission(SubmissionView),
    CourseAssignments(Seq<char>, Seq<Seq<char>>),
    CourseStudents(Seq<char>, Seq<Seq<char>>),
    CourseLectures(Seq<char>, Seq<Seq<char>>),
    Lecture(LectureView),
    AttendanceSession(AttendanceSessionView, Seq<u8>),
    AttendanceRecord(AttendanceRecordView),
    LectureAttendees(Seq<char>, Seq<Seq<char>>),
}

impl EntryView {
    /// The key under which the entry is filed.
    pub open spec fn key(self) -> KeyView {
        match self {
            EntryView::Admin(_) => KeyView::Admin,
            EntryView::Teacher(who) => KeyView::Teacher(who),
            EntryView::Student(student) => KeyView::Student(student.id),
            EntryView::Course(course) => KeyView::Course(course.id),
            EntryView::Assignment(assignment) => KeyView::Assignment(
                assignment.course_id,
                assignment.id,
            ),
            EntryView::Submission(submission) => KeyView::Submission(
                submission.course_id,
                submission.assignment_id,
                submission.student_id,
            ),
            EntryView::CourseAssignments(course, _) => KeyView::CourseAssignments(course),
            EntryView::CourseStudents(course, _) => KeyView::CourseStudents(course),
            EntryView::CourseLectures(course, _) => KeyView::CourseLectures(course),
            EntryView::Lecture(lecture) => KeyView::Lecture(lecture.id),
            EntryView::AttendanceSession(session, _) => KeyView::AttendanceSession(
                session.lecture_id,
            ),
            EntryView::AttendanceRecord(record) => KeyView::AttendanceRecord(
                record.lecture_id,
                record.student_id,
            ),
            EntryView::LectureAttendees(lecture, _) => KeyView::LectureAttendees(lecture),
        }
    }
}

impl View for Entry {
    type V = EntryView;

    open spec fn view(&self) -> EntryView {
        match self {
            Entry::Admin(who) => EntryView::Admin(who@),
            Entry::Teacher(teacher) => EntryView::Teacher(teacher@),
            Entry::Student(student) => EntryView::Student(student@),
            Entry::Course(course) => EntryView::Course(course@),
            Entry::Assignment(assignment) => EntryView::Assignment(assignment@),
            Entry::Submission(submission) => EntryView::Submission(submission@),
            Entry::CourseAssignments(course, ids) => EntryView::CourseAssignments(
                course@,
                ids.deep_view(),
            ),
            Entry::CourseStudents(course, members) => EntryView::CourseStudents(
                course@,
                members.deep_view(),
            ),
            Entry::CourseLectures(course, ids) => EntryView::CourseLectures(
                course@,
                ids.deep_view(),
            ),
            Entry::Lecture(lecture) => EntryView::Lecture(lecture@),
            Entry::AttendanceSession(session, token) => EntryView::AttendanceSession(
                session@,
                token@,
            ),
            Entry::AttendanceRecord(record) => EntryView::AttendanceRecord(record@),
            Entry::LectureAttendees(lecture, who) => EntryView::LectureAttendees(
                lecture@,
                who.deep_view(),
            ),
        }
    }
}

impl Entry {
    /// The key under which the entry is filed.
    pub fn key(&self) -> (r: DataKey)
        ensures
            r@ == self@.key(),
    {
        match self {
            Entry::Admin(_) => DataKey::Admin,
            Entry::Teacher(teacher) => DataKey::Teacher(teacher.id.clone()),
            Entry::Student(student) => DataKey::Student(student.id.clone()),
            Entry::Course(course) => DataKey::Course(course.id.clone()),
            Entry::Assignment(assignment) => DataKey::Assignment(
                assignment.course_id.clone(),
                assignment.id.clone(),
            ),
            Entry::Submission(submission) => DataKey::Submission(
                submission.course_id.clone(),
                submission.assignment_id.clone(),
                submission.student_id.clone(),
            ),
            Entry::CourseAssignments(course, _) => DataKey::CourseAssignments(course.clone()),
            Entry::CourseStudents(course, _) => DataKey::CourseStudents(course.clone()),
            Entry::CourseLectures(course, _) => DataKey::CourseLectures(course.clone()),
            Entry::Lecture(lecture) => DataKey::Lecture(lecture.id.clone()),
            Entry::AttendanceSession(session, _) => DataKey::AttendanceSession(
                session.lecture_id.clone(),
            ),
            Entry::AttendanceRecord(record) => DataKey::AttendanceRecord(
                record.lecture_id.clone(),
                record.student_id.clone(),
            ),
            Entry::LectureAttendees(lecture, _) => DataKey::LectureAttendees(lecture.clone()),
        }
    }
}

impl Clone for Entry {
    fn clone(&self) -> (r: Self)
        ensures
            r@ == self@,
    {
        match self {
            Entry::Admin(who) => Entry::Admin(who.clone()),
            Entry::Teacher(teacher) => Entry::Teacher(teacher.clone()),
            Entry::Student(student) => Entry::Student(student.clone()),
            Entry::Course(course) => Entry::Course(course.clone()),
            Entry::Assignment(assignment) => Entry::Assignment(assignment.clone()),
            Entry::Submission(submission) => Entry::Submission(submission.clone()),
            Entry::CourseAssignments(course, ids) => {
                let copy = ids.clone();
                assert(copy.deep_view() =~= ids.deep_view());
                Entry::CourseAssignments(course.clone(), copy)
            },
            Entry::CourseStudents(course, members) => {
                let copy = members.clone();
                assert(copy.deep_view() =~= members.deep_view());
                Entry::CourseStudents(course.clone(), copy)
            },
            Entry::CourseLectures(course, ids) => {
                let copy = ids.clone();
                assert(copy.deep_view() =~= ids.deep_view());
                Entry::CourseLectures(course.clone(), copy)
            },
            Entry::Lecture(lecture) => Entry::Lecture(lecture.clone()),
            Entry::AttendanceSession(session, token) => Entry::AttendanceSession(
                session.clone(),
                *token,
            ),
            Entry::AttendanceRecord(record) => Entry::AttendanceRecord(record.clone()),
            Entry::LectureAttendees(lecture, who) => {
                let copy = who.clone();
                assert(copy.deep_view() =~= who.deep_view());
                Entry::LectureAttendees(lecture.clone(), copy)
            },
        }
    }
}

impl Keyed for Entry {
    type Key = DataKey;

    type K = KeyView;

    open spec fn key_model(key: &DataKey) -> KeyView {
        key@
    }

    open spec fn key_of(entry: EntryView) -> KeyView {
        entry.key()
    }

    fn has_key(&self, key: &DataKey) -> (r: bool) {
        self.key().same(key)
    }

    fn same_key(&self, other: &Self) -> (r: bool) {
        self.key().same(&other.key())
    }
}

} // verus!
