use vstd::prelude::*;

verus! {

/// An opaque principal: a teacher, a student or the administrator.
///
/// The only thing the engine ever does with an identity is compare it with
/// another one. The boundary layer has authenticated the caller before it
/// hands an identity over.
#[derive(Debug, PartialEq, Eq, Hash)]
pub struct Identity {
    pub key: String,
}

impl View for Identity {
    type V = Seq<char>;

    open spec fn view(&self) -> Seq<char> {
        self.key@
    }
}

impl DeepView for Identity {
    type V = Seq<char>;

    open spec fn deep_view(&self) -> Seq<char> {
        self.key@
    }
}

impl Clone for Identity {
    fn clone(&self) -> (r: Self)
        ensures
            r == *self,
    {
        Identity { key: self.key.clone() }
    }
}

impl Identity {
    pub fn new(key: String) -> (r: Self)
        ensures
            r@ == key@,
    {
        Identity { key }
    }

    /// Whether two identities denote the same principal.
    pub fn same(&self, other: &Identity) -> (r: bool)
        ensures
            r == (self@ == other@),
    {
        self.key == other.key
    }
}

/// The secret issued for one attendance session: 32 bytes from the caller's
/// random source.
#[derive(Debug, Clone, Copy, PartialEq, Eq)]
pub struct Token {
    bytes: [u8; 32],
}

impl View for Token {
    type V = Seq<u8>;

    closed spec fn view(&self) -> Seq<u8> {
        self.bytes@
    }
}

impl Token {
    pub fn new(bytes: [u8; 32]) -> (r: Self)
        ensures
            r@ == bytes@,
    {
        Token { bytes }
    }

    pub fn to_bytes(&self) -> (r: [u8; 32])
        ensures
            r@ == self@,
    {
        self.bytes
    }

    /// Exact comparison of two tokens: every byte is looked at.
    pub fn matches(&self, other: &Token) -> (r: bool)
        ensures
            r == (self@ == other@),
    {
        let mut equal = true;
        let mut i: usize = 0;
        while i < 32
            invariant
                i <= 32,
                equal == (forall|j: int| 0 <= j < i ==> self.bytes@[j] == other.bytes@[j]),
            decreases 32 - i,
        {
            if self.bytes[i] != other.bytes[i] {
                equal = false;
            }
            i += 1;
        }
        proof {
            if equal {
                assert(self.bytes@ =~= other.bytes@);
            }
        }
        equal
    }
}

/// A registered teacher.
#[derive(Debug, PartialEq, Eq)]
pub struct Teacher {
    pub id: Identity,
}

impl View for Teacher {
    type V = Seq<char>;

    open spec fn view(&self) -> Seq<char> {
        self.id@
    }
}

impl Clone for Teacher {
    fn clone(&self) -> (r: Self)
        ensures
            r@ == self@,
    {
        Teacher { id: self.id.clone() }
    }
}

/// A registered student and the courses the student is a member of, in the
/// order of enrollment.
#[derive(Debug, PartialEq, Eq)]
pub struct Student {
    pub id: Identity,
    pub enrolled_courses: Vec<String>,
}

pub struct StudentView {
    pub id: Seq<char>,
    pub enrolled_courses: Seq<Seq<char>>,
}

impl View for Student {
    type V = StudentView;

    open spec fn view(&self) -> StudentView {
        StudentView { id: self.id@, enrolled_courses: self.enrolled_courses.deep_view() }
    }
}

impl Clone for Student {
    fn clone(&self) -> (r: Self)
        ensures
            r@ == self@,
    {
        let enrolled_courses = self.enrolled_courses.clone();
        assert(enrolled_courses.deep_view() =~= self.enrolled_courses.deep_view());
        Student { id: self.id.clone(), enrolled_courses }
    }
}

/// A course and the teacher who owns it.
#[derive(Debug, PartialEq, Eq)]
pub struct Course {
    pub id: String,
    pub teacher: Identity,
    pub name: String,
    pub description: String,
    pub price: u128,
}

pub struct CourseView {
    pub id: Seq<char>,
    pub teacher: Seq<char>,
    pub name: Seq<char>,
    pub description: Seq<char>,
    pub price: u128,
}

impl View for Course {
    type V = CourseView;

    open spec fn view(&self) -> CourseView {
        CourseView {
            id: self.id@,
            teacher: self.teacher@,
            name: self.name@,
            description: self.description@,
            price: self.price,
        }
    }
}

impl Clone for Course {
    fn clone(&self) -> (r: Self)
        ensures
            r@ == self@,
    {
        Course {
            id: self.id.clone(),
            teacher: self.teacher.clone(),
            name: self.name.clone(),
            description: self.description.clone(),
            price: self.price,
        }
    }
}

/// A piece of work set within a course.
#[derive(Debug, PartialEq, Eq)]
pub struct Assignment {
    pub id: String,
    pub course_id: String,
    pub title: String,
    pub description: String,
}

pub struct AssignmentView {
    pub id: Seq<char>,
    pub course_id: Seq<char>,
    pub title: Seq<char>,
    pub description: Seq<char>,
}

impl View for Assignment {
    type V = AssignmentView;

    open spec fn view(&self) -> AssignmentView {
        AssignmentView {
            id: self.id@,
            course_id: self.course_id@,
            title: self.title@,
            description: self.description@,
        }
    }
}

impl Clone for Assignment {
    fn clone(&self) -> (r: Self)
        ensures
            r@ == self@,
    {
        Assignment {
            id: self.id.clone(),
            course_id: self.course_id.clone(),
            title: self.title.clone(),
            description: self.description.clone(),
        }
    }
}

/// The highest score a submission can be given.
pub const MAX_SCORE: u32 = 100;

/// What happens to the grade of a submission when the student hands the
/// assignment in again.
#[derive(Clone, Copy, Debug, PartialEq, Eq, Structural)]
pub enum ResubmissionPolicy {
    /// The new content replaces the old one and the grade stays.
    KeepGrade,
    /// The new content replaces the old one and the grade is withdrawn.
    ClearGrade,
}

/// A teacher's verdict on a submission.
#[derive(Debug, PartialEq, Eq)]
pub struct Grade {
    pub score: u32,
    pub feedback: String,
}

pub struct GradeView {
    pub score: u32,
    pub feedback: Seq<char>,
}

impl View for Grade {
    type V = GradeView;

    open spec fn view(&self) -> GradeView {
        GradeView { score: self.score, feedback: self.feedback@ }
    }
}

impl Clone for Grade {
    fn clone(&self) -> (r: Self)
        ensures
            r@ == self@,
    {
        Grade { score: self.score, feedback: self.feedback.clone() }
    }
}

/// What a student handed in for an assignment, with the grade once given.
#[derive(Debug, PartialEq, Eq)]
pub struct Submission {
    pub student_id: Identity,
    pub assignment_id: String,
    pub course_id: String,
    pub content: String,
    pub grade: Option<Grade>,
}

pub struct SubmissionView {
    pub student_id: Seq<char>,
    pub assignment_id: Seq<char>,
    pub course_id: Seq<char>,
    pub content: Seq<char>,
    pub grade: Option<GradeView>,
}

/// The model of an optional grade.
pub open spec fn grade_view(grade: Option<Grade>) -> Option<GradeView> {
    match grade {
        Some(g) => Some(g@),
        None => None,
    }
}

impl View for Submission {
    type V = SubmissionView;

    open spec fn view(&self) -> SubmissionView {
        SubmissionView {
            student_id: self.student_id@,
            assignment_id: self.assignment_id@,
            course_id: self.course_id@,
            content: self.content@,
            grade: grade_view(self.grade),
        }
    }
}

impl Clone for Submission {
    fn clone(&self) -> (r: Self)
        ensures
            r@ == self@,
    {
        let grade = match &self.grade {
            Some(g) => Some(g.clone()),
            None => None,
        };
        Submission {
            student_id: self.student_id.clone(),
            assignment_id: self.assignment_id.clone(),
            course_id: self.course_id.clone(),
            content: self.content.clone(),
            grade,
        }
    }
}

/// A lecture held within a course.
#[derive(Debug, PartialEq, Eq)]
pub struct Lecture {
    pub id: String,
    pub course_id: String,
    pub title: String,
    /// When the lecture is scheduled, in seconds since the epoch.
    pub date: u64,
    /// Planned length in minutes.
    pub duration: u32,
}

pub struct LectureView {
    pub id: Seq<char>,
    pub course_id: Seq<char>,
    pub title: Seq<char>,
    pub date: u64,
    pub duration: u32,
}

impl View for Lecture {
    type V = LectureView;

    open spec fn view(&self) -> LectureView {
        LectureView {
            id: self.id@,
            course_id: self.course_id@,
            title: self.title@,
            date: self.date,
            duration: self.duration,
        }
    }
}

impl Clone for Lecture {
    fn clone(&self) -> (r: Self)
        ensures
            r@ == self@,
    {
        Lecture {
            id: self.id.clone(),
            course_id: self.course_id.clone(),
            title: self.title.clone(),
            date: self.date,
            duration: self.duration,
        }
    }
}

/// The publicly readable part of a lecture's attendance session. The token
/// issued for the session is kept apart from it and is never handed out again.
#[derive(Debug, PartialEq, Eq)]
pub struct AttendanceSession {
    pub lecture_id: String,
    pub start_time: u64,
    pub end_time: u64,
    pub is_active: bool,
}

pub struct AttendanceSessionView {
    pub lecture_id: Seq<char>,
    pub start_time: u64,
    pub end_time: u64,
    pub is_active: bool,
}

impl View for AttendanceSession {
    type V = AttendanceSessionView;

    open spec fn view(&self) -> AttendanceSessionView {
        AttendanceSessionView {
            lecture_id: self.lecture_id@,
            start_time: self.start_time,
            end_time: self.end_time,
            is_active: self.is_active,
        }
    }
}

impl Clone for AttendanceSession {
    fn clone(&self) -> (r: Self)
        ensures
            r@ == self@,
    {
        AttendanceSession {
            lecture_id: self.lecture_id.clone(),
            start_time: self.start_time,
            end_time: self.end_time,
            is_active: self.is_active,
        }
    }
}

/// Proof that a student attended a lecture.
#[derive(Debug, PartialEq, Eq)]
pub struct AttendanceRecord {
    pub student_id: Identity,
    pub lecture_id: String,
    /// When the record was made.
    pub timestamp: u64,
    /// Whether the student proved presence with the session token; a record
    /// entered by the teacher by hand is not verified.
    pub verified: bool,
}

pub struct AttendanceRecordView {
    pub student_id: Seq<char>,
    pub lecture_id: Seq<char>,
    pub timestamp: u64,
    pub verified: bool,
}

impl View for AttendanceRecord {
    type V = AttendanceRecordView;

    open spec fn view(&self) -> AttendanceRecordView {
        AttendanceRecordView {
            student_id: self.student_id@,
            lecture_id: self.lecture_id@,
            timestamp: self.timestamp,
            verified: self.verified,
        }
    }
}

impl Clone for AttendanceRecord {
    fn clone(&self) -> (r: Self)
        ensures
            r@ == self@,
    {
        AttendanceRecord {
            student_id: self.student_id.clone(),
            lecture_id: self.lecture_id.clone(),
            timestamp: self.timestamp,
            verified: self.verified,
        }
    }
}

} // verus!
