use crate::consistency::lemma_consistency_is_kept;
use crate::error::Error;
use crate::list::{append_unique, list_contains};
use crate::model::{Operation, State};
use crate::session::check_token;
use crate::storage::{DataKey, Entry};
use crate::table::{distinct_keys, filed, lemma_filed_by_model, Table};
use crate::types::{
    Assignment, AttendanceRecord, AttendanceSession, Course, Grade, Identity, Lecture,
    ResubmissionPolicy, Student, Submission, Teacher, Token, MAX_SCORE,
};
use vstd::prelude::*;

verus! {

/// The course engine: teachers, students, courses, assignments, submissions,
/// lectures and attendance, held as one namespace of stored entries.
///
/// Every identity handed to an operation has been authenticated by the
/// caller's boundary layer; the engine only compares it with what is stored.
/// The current time and a fresh session token are handed in as well.
pub struct LuminaLearnContract {
    store: Table<Entry>,
    policy: ResubmissionPolicy,
}

impl View for LuminaLearnContract {
    type V = State;

    closed spec fn view(&self) -> State {
        State { entries: self.store@, policy: self.policy }
    }
}

impl LuminaLearnContract {
    /// An engine that remembers nothing yet and keeps grades on resubmission.
    pub fn new() -> (r: Self)
        ensures
            r@ == State::empty(ResubmissionPolicy::KeepGrade),
            r@.consistent(),
    {
        LuminaLearnContract { store: Table::new(), policy: ResubmissionPolicy::KeepGrade }
    }

    /// An engine that remembers nothing yet, with the given policy.
    pub fn with_policy(policy: ResubmissionPolicy) -> (r: Self)
        ensures
            r@ == State::empty(policy),
            r@.consistent(),
    {
        LuminaLearnContract { store: Table::new(), policy }
    }

    /// An engine that remembers the given entries, filed one after the other.
    /// This is how a state that was written out with `entries` comes back.
    pub fn from_entries(entries: Vec<Entry>, policy: ResubmissionPolicy) -> (r: Self)
        ensures
            r@ == (State { entries: filed(entries@), policy }),
    {
        LuminaLearnContract { store: Table::from_entries(entries), policy }
    }

    /// A copy of every stored entry, for the caller to write out. No two of
    /// them share a key, and filing them again gives the same state.
    pub fn entries(&self) -> (r: Vec<Entry>)
        ensures
            distinct_keys(r@),
            filed(r@) == self@.entries,
    {
        let stored = self.store.entries();
        let mut copies: Vec<Entry> = Vec::new();
        let mut i: usize = 0;
        while i < stored.len()
            invariant
                i <= stored.len(),
                copies.len() == i,
                forall|j: int| 0 <= j < i ==> copies[j]@ == stored[j]@,
            decreases stored.len() - i,
        {
            copies.push(stored[i].clone());
            i += 1;
        }
        proof {
            lemma_filed_by_model(copies@, stored@);
        }
        copies
    }

    /// The policy the engine was set up with.
    pub fn policy(&self) -> (r: ResubmissionPolicy)
        ensures
            r == self@.policy,
    {
        self.policy
    }

    /// The entries of an engine are always filed under their own keys.
    pub proof fn lemma_well_keyed(&self)
        ensures
            self@.well_keyed(),
    {
        self.store.lemma_filed_under_own_key();
    }

    fn put(&mut self, entry: Entry)
        ensures
            final(self)@ == old(self)@.put(entry@),
    {
        self.store.put(entry);
    }

    fn student_ref(&self, who: &Identity) -> (r: Option<&Student>)
        ensures
            match r {
                Some(student) => self@.student(who@) == Some(student@),
                None => self@.student(who@) is None,
            },
    {
        match self.store.get(&DataKey::Student(who.clone())) {
            Some(Entry::Student(student)) => Some(student),
            _ => None,
        }
    }

    fn course_ref(&self, course_id: &String) -> (r: Option<&Course>)
        ensures
            match r {
                Some(course) => self@.course(course_id@) == Some(course@),
                None => self@.course(course_id@) is None,
            },
    {
        match self.store.get(&DataKey::Course(course_id.clone())) {
            Some(Entry::Course(course)) => Some(course),
            _ => None,
        }
    }

    fn lecture_ref(&self, lecture_id: &String) -> (r: Option<&Lecture>)
        ensures
            match r {
                Some(lecture) => self@.lecture(lecture_id@) == Some(lecture@),
                None => self@.lecture(lecture_id@) is None,
            },
    {
        match self.store.get(&DataKey::Lecture(lecture_id.clone())) {
            Some(Entry::Lecture(lecture)) => Some(lecture),
            _ => None,
        }
    }

    fn submission_ref(&self, course_id: &String, assignment_id: &String, who: &Identity) -> (r:
        Option<&Submission>)
        ensures
            match r {
                Some(submission) => self@.submission(course_id@, assignment_id@, who@) == Some(
                    submission@,
                ),
                None => self@.submission(course_id@, assignment_id@, who@) is None,
            },
    {
        match self.store.get(
            &DataKey::Submission(course_id.clone(), assignment_id.clone(), who.clone()),
        ) {
            Some(Entry::Submission(submission)) => Some(submission),
            _ => None,
        }
    }

    fn session_ref(&self, lecture_id: &String) -> (r: Option<(&AttendanceSession, &Token)>)
        ensures
            match r {
                Some((session, token)) => self@.session(lecture_id@) == Some((session@, token@)),
                None => self@.session(lecture_id@) is None,
            },
    {
        match self.store.get(&DataKey::AttendanceSession(lecture_id.clone())) {
            Some(Entry::AttendanceSession(session, token)) => Some((session, token)),
            _ => None,
        }
    }

    /// The teacher who owns the course of the lecture.
    fn lecture_owner(&self, lecture_id: &String) -> (r: Result<&Identity, Error>)
        ensures
            match r {
                Ok(owner) => self@.lecture_owner(lecture_id@) == Ok::<Seq<char>, Error>(owner@),
                Err(e) => self@.lecture_owner(lecture_id@) == Err::<Seq<char>, Error>(e),
            },
    {
        match self.lecture_ref(lecture_id) {
            None => Err(Error::NotFound),
            Some(lecture) => match self.course_ref(&lecture.course_id) {
                None => Err(Error::NotFound),
                Some(course) => Ok(&course.teacher),
            },
        }
    }

    fn is_enrolled(&self, who: &Identity, course_id: &String) -> (r: bool)
        ensures
            r == self@.is_enrolled(who@, course_id@),
    {
        match self.student_ref(who) {
            Some(student) => list_contains(&student.enrolled_courses, course_id),
            None => false,
        }
    }

    /// Records the administrator. This can be done once.
    pub fn initialize(&mut self, admin: Identity) -> (r: Result<(), Error>)
        ensures
            match old(self)@.initialize(admin@) {
                Ok(next) => r is Ok && final(self)@ == next,
                Err(e) => r == Err::<(), Error>(e) && final(self)@ == old(self)@,
            },
            old(self)@.consistent() ==> final(self)@.consistent(),
    {
        proof {
            let op = Operation::Initialize { admin: admin@ };
            if self@.consistent() && self@.apply(op) is Ok {
                lemma_consistency_is_kept(self@, op);
            }
        }
        if self.store.contains(&DataKey::Admin) {
            return Err(Error::AlreadyInitialized);
        }
        self.put(Entry::Admin(admin));
        Ok(())
    }

    /// Registers the caller as a teacher.
    pub fn register_teacher(&mut self, teacher_id: Identity) -> (r: Result<(), Error>)
        ensures
            match old(self)@.register_teacher(teacher_id@) {
                Ok(next) => r is Ok && final(self)@ == next,
                Err(e) => r == Err::<(), Error>(e) && final(self)@ == old(self)@,
            },
            old(self)@.consistent() ==> final(self)@.consistent(),
    {
        proof {
            let op = Operation::RegisterTeacher { who: teacher_id@ };
            if self@.consistent() && self@.apply(op) is Ok {
                lemma_consistency_is_kept(self@, op);
            }
        }
        if self.store.contains(&DataKey::Teacher(teacher_id.clone())) {
            return Err(Error::AlreadyRegistered);
        }
        self.put(Entry::Teacher(Teacher { id: teacher_id }));
        Ok(())
    }

    /// Registers the caller as a student who is a member of no course yet.
    pub fn register_student(&mut self, student_id: Identity) -> (r: Result<(), Error>)
        ensures
            match old(self)@.register_student(student_id@) {
                Ok(next) => r is Ok && final(self)@ == next,
                Err(e) => r == Err::<(), Error>(e) && final(self)@ == old(self)@,
            },
            old(self)@.consistent() ==> final(self)@.consistent(),
    {
        proof {
            let op = Operation::RegisterStudent { who: student_id@ };
            if self@.consistent() && self@.apply(op) is Ok {
                lemma_consistency_is_kept(self@, op);
            }
        }
        if self.store.contains(&DataKey::Student(student_id.clone())) {
            return Err(Error::AlreadyRegistered);
        }
        let enrolled_courses: Vec<String> = Vec::new();
        assert(enrolled_courses.deep_view() =~= Seq::empty());
        self.put(Entry::Student(Student { id: student_id, enrolled_courses }));
        Ok(())
    }

    /// Creates a course owned by the calling teacher, with no assignments,
    /// members or lectures.
    pub fn create_course(
        &mut self,
        teacher_id: Identity,
        course_id: String,
        name: String,
        description: String,
        price: u128,
    ) -> (r: Result<(), Error>)
        ensures
            match old(self)@.create_course(teacher_id@, course_id@, name@, description@, price) {
                Ok(next) => r is Ok && final(self)@ == next,
                Err(e) => r == Err::<(), Error>(e) && final(self)@ == old(self)@,
            },
            old(self)@.consistent() ==> final(self)@.consistent(),
    {
        proof {
            let op = Operation::CreateCourse {
                teacher: teacher_id@,
                course: course_id@,
                name: name@,
                description: description@,
                price,
            };
            if self@.consistent() && self@.apply(op) is Ok {
                lemma_consistency_is_kept(self@, op);
            }
        }
        if !self.store.contains(&DataKey::Teacher(teacher_id.clone())) {
            return Err(Error::NotRegistered);
        }
        if self.store.contains(&DataKey::Course(course_id.clone())) {
            return Err(Error::DuplicateId);
        }
        let assignments: Vec<String> = Vec::new();
        let members: Vec<Identity> = Vec::new();
        let lectures: Vec<String> = Vec::new();
        assert(assignments.deep_view() =~= Seq::empty());
        assert(members.deep_view() =~= Seq::empty());
        assert(lectures.deep_view() =~= Seq::empty());
        let course = Course {
            id: course_id.clone(),
            teacher: teacher_id,
            name,
            description,
            price,
        };
        self.put(Entry::Course(course));
        self.put(Entry::CourseAssignments(course_id.clone(), assignments));
        self.put(Entry::CourseStudents(course_id.clone(), members));
        self.put(Entry::CourseLectures(course_id, lectures));
        Ok(())
    }

    /// Makes the calling student a member of the course. Whether a priced
    /// course has been paid for is the caller's business.
    pub fn enroll_student(&mut self, student_id: Identity, course_id: String) -> (r: Result<
        (),
        Error,
    >)
        ensures
            match old(self)@.enroll_student(student_id@, course_id@) {
                Ok(next) => r is Ok && final(self)@ == next,
                Err(e) => r == Err::<(), Error>(e) && final(self)@ == old(self)@,
            },
            old(self)@.consistent() ==> final(self)@.consistent(),
    {
        proof {
            let op = Operation::EnrollStudent { who: student_id@, course: course_id@ };
            if self@.consistent() && self@.apply(op) is Ok {
                lemma_consistency_is_kept(self@, op);
            }
        }
        let mut student = match self.student_ref(&student_id) {
            None => {
                return Err(Error::NotRegistered);
            },
            Some(student) => student.clone(),
        };
        if self.course_ref(&course_id).is_none() {
            return Err(Error::NotFound);
        }
        if list_contains(&student.enrolled_courses, &course_id) {
            return Err(Error::AlreadyEnrolled);
        }
        let mut members = self.get_course_students(course_id.clone());
        append_unique(&mut members, student_id);
        append_unique(&mut student.enrolled_courses, course_id.clone());
        self.put(Entry::Student(student));
        self.put(Entry::CourseStudents(course_id, members));
        Ok(())
    }

    /// Adds an assignment to a course of the calling teacher.
    pub fn create_assignment(
        &mut self,
        teacher_id: Identity,
        course_id: String,
        assignment_id: String,
        title: String,
        description: String,
    ) -> (r: Result<(), Error>)
        ensures
            match old(self)@.create_assignment(
                teacher_id@,
                course_id@,
                assignment_id@,
                title@,
                description@,
            ) {
                Ok(next) => r is Ok && final(self)@ == next,
                Err(e) => r == Err::<(), Error>(e) && final(self)@ == old(self)@,
            },
            old(self)@.consistent() ==> final(self)@.consistent(),
    {
        proof {
            let op = Operation::CreateAssignment {
                teacher: teacher_id@,
                course: course_id@,
                assignment: assignment_id@,
                title: title@,
                description: description@,
            };
            if self@.consistent() && self@.apply(op) is Ok {
                lemma_consistency_is_kept(self@, op);
            }
        }
        match self.course_ref(&course_id) {
            None => {
                return Err(Error::NotFound);
            },
            Some(course) => {
                if !course.teacher.same(&teacher_id) {
                    return Err(Error::Unauthorized);
                }
            },
        }
        if self.store.contains(&DataKey::Assignment(course_id.clone(), assignment_id.clone())) {
            return Err(Error::DuplicateId);
        }
        let mut ids = self.get_course_assignments(course_id.clone());
        append_unique(&mut ids, assignment_id.clone());
        let assignment = Assignment {
            id: assignment_id,
            course_id: course_id.clone(),
            title,
            description,
        };
        self.put(Entry::Assignment(assignment));
        self.put(Entry::CourseAssignments(course_id, ids));
        Ok(())
    }

    /// Hands in the calling student's work for an assignment, replacing what
    /// the student handed in before.
    pub fn submit_assignment(
        &mut self,
        student_id: Identity,
        course_id: String,
        assignment_id: String,
        content: String,
    ) -> (r: Result<(), Error>)
        ensures
            match old(self)@.submit_assignment(student_id@, course_id@, assignment_id@, content@) {
                Ok(next) => r is Ok && final(self)@ == next,
                Err(e) => r == Err::<(), Error>(e) && final(self)@ == old(self)@,
            },
            old(self)@.consistent() ==> final(self)@.consistent(),
    {
        proof {
            let op = Operation::SubmitAssignment {
                who: student_id@,
                course: course_id@,
                assignment: assignment_id@,
                content: content@,
            };
            if self@.consistent() && self@.apply(op) is Ok {
                lemma_consistency_is_kept(self@, op);
            }
        }
        if self.student_ref(&student_id).is_none() {
            return Err(Error::NotRegistered);
        }
        if !self.is_enrolled(&student_id, &course_id) {
            return Err(Error::NotEnrolled);
        }
        if !self.store.contains(&DataKey::Assignment(course_id.clone(), assignment_id.clone())) {
            return Err(Error::NotFound);
        }
        let grade = match self.submission_ref(&course_id, &assignment_id, &student_id) {
            Some(earlier) => match self.policy {
                ResubmissionPolicy::KeepGrade => match &earlier.grade {
                    Some(g) => Some(g.clone()),
                    None => None,
                },
                ResubmissionPolicy::ClearGrade => None,
            },
            None => None,
        };
        let submission = Submission { student_id, assignment_id, course_id, content, grade };
        self.put(Entry::Submission(submission));
        Ok(())
    }

    /// Attaches the calling teacher's grade to a student's submission.
    pub fn grade_submission(
        &mut self,
        teacher_id: Identity,
        course_id: String,
        assignment_id: String,
        student_id: Identity,
        score: u32,
        feedback: String,
    ) -> (r: Result<(), Error>)
        ensures
            match old(self)@.grade_submission(
                teacher_id@,
                course_id@,
                assignment_id@,
                student_id@,
                score,
                feedback@,
            ) {
                Ok(next) => r is Ok && final(self)@ == next,
                Err(e) => r == Err::<(), Error>(e) && final(self)@ == old(self)@,
            },
            old(self)@.consistent() ==> final(self)@.consistent(),
    {
        proof {
            let op = Operation::GradeSubmission {
                teacher: teacher_id@,
                course: course_id@,
                assignment: assignment_id@,
                who: student_id@,
                score,
                feedback: feedback@,
            };
            if self@.consistent() && self@.apply(op) is Ok {
                lemma_consistency_is_kept(self@, op);
            }
        }
        match self.course_ref(&course_id) {
            None => {
                return Err(Error::NotFound);
            },
            Some(course) => {
                if !course.teacher.same(&teacher_id) {
                    return Err(Error::Unauthorized);
                }
            },
        }
        if !self.store.contains(&DataKey::Assignment(course_id.clone(), assignment_id.clone())) {
            return Err(Error::NotFound);
        }
        let mut submission = match self.submission_ref(&course_id, &assignment_id, &student_id) {
            None => {
                return Err(Error::NotFound);
            },
            Some(submission) => submission.clone(),
        };
        if score > MAX_SCORE {
            return Err(Error::InvalidScore);
        }
        submission.grade = Some(Grade { score, feedback });
        self.put(Entry::Submission(submission));
        Ok(())
    }

    /// Adds a lecture to a course of the calling teacher; nobody has attended
    /// it yet.
    pub fn create_lecture(
        &mut self,
        teacher_id: Identity,
        course_id: String,
        lecture_id: String,
        title: String,
        date: u64,
        duration: u32,
    ) -> (r: Result<(), Error>)
        ensures
            match old(self)@.create_lecture(
                teacher_id@,
                course_id@,
                lecture_id@,
                title@,
                date,
                duration,
            ) {
                Ok(next) => r is Ok && final(self)@ == next,
                Err(e) => r == Err::<(), Error>(e) && final(self)@ == old(self)@,
            },
            old(self)@.consistent() ==> final(self)@.consistent(),
    {
        proof {
            let op = Operation::CreateLecture {
                teacher: teacher_id@,
                course: course_id@,
                lecture: lecture_id@,
                title: title@,
                date,
                duration,
            };
            if self@.consistent() && self@.apply(op) is Ok {
                lemma_consistency_is_kept(self@, op);
            }
        }
        match self.course_ref(&course_id) {
            None => {
                return Err(Error::NotFound);
            },
            Some(course) => {
                if !course.teacher.same(&teacher_id) {
                    return Err(Error::Unauthorized);
                }
            },
        }
        if self.store.contains(&DataKey::Lecture(lecture_id.clone())) {
            return Err(Error::DuplicateId);
        }
        let mut ids = self.get_course_lectures(course_id.clone());
        append_unique(&mut ids, lecture_id.clone());
        let attendees: Vec<Identity> = Vec::new();
        assert(attendees.deep_view() =~= Seq::empty());
        let lecture = Lecture {
            id: lecture_id.clone(),
            course_id: course_id.clone(),
            title,
            date,
            duration,
        };
        self.put(Entry::Lecture(lecture));
        self.put(Entry::CourseLectures(course_id, ids));
        self.put(Entry::LectureAttendees(lecture_id, attendees));
        Ok(())
    }

    /// Opens an attendance session on a lecture of the calling teacher and
    /// hands back the token that students must present. `token` comes fresh
    /// from the caller's secure random source and `now` from its clock.
    pub fn start_attendance_session(
        &mut self,
        teacher_id: Identity,
        lecture_id: String,
        duration_seconds: u32,
        now: u64,
        token: Token,
    ) -> (r: Result<Token, Error>)
        requires
            now + duration_seconds <= u64::MAX,
        ensures
            match old(self)@.start_attendance_session(
                teacher_id@,
                lecture_id@,
                duration_seconds,
                now,
                token@,
            ) {
                Ok(next) => r == Ok::<Token, Error>(token) && final(self)@ == next,
                Err(e) => r == Err::<Token, Error>(e) && final(self)@ == old(self)@,
            },
            old(self)@.consistent() ==> final(self)@.consistent(),
    {
        proof {
            let op = Operation::StartAttendanceSession {
                teacher: teacher_id@,
                lecture: lecture_id@,
                duration_seconds,
                now,
                token: token@,
            };
            if self@.consistent() && self@.apply(op) is Ok {
                lemma_consistency_is_kept(self@, op);
            }
        }
        match self.lecture_owner(&lecture_id) {
            Err(e) => {
                return Err(e);
            },
            Ok(owner) => {
                if !owner.same(&teacher_id) {
                    return Err(Error::Unauthorized);
                }
            },
        }
        match self.session_ref(&lecture_id) {
            Some((session, _)) => {
                if session.is_active && now <= session.end_time {
                    return Err(Error::SessionAlreadyActive);
                }
            },
            None => {},
        }
        let session = AttendanceSession {
            lecture_id,
            start_time: now,
            end_time: now + duration_seconds as u64,
            is_active: true,
        };
        self.put(Entry::AttendanceSession(session, token));
        Ok(token)
    }

    /// Why the lecture's session does not accept `token` at time `now`.
    fn session_refusal(&self, lecture_id: &String, token: &Token, now: u64) -> (r: Option<Error>)
        ensures
            r == self@.session_refusal(lecture_id@, token@, now),
    {
        match self.session_ref(lecture_id) {
            None => Some(Error::SessionNotFound),
            Some((session, issued)) => {
                if !session.is_active {
                    Some(Error::SessionNotActive)
                } else {
                    check_token(issued, session.end_time, token, now)
                }
            },
        }
    }

    /// Files the attendance record and adds the student to the attendees.
    fn record_attendance(&mut self, who: Identity, lecture_id: String, now: u64, verified: bool)
        ensures
            final(self)@ == old(self)@.with_record(who@, lecture_id@, now, verified),
    {
        let mut attendees = self.get_lecture_attendees(lecture_id.clone());
        append_unique(&mut attendees, who.clone());
        let record = AttendanceRecord {
            student_id: who,
            lecture_id: lecture_id.clone(),
            timestamp: now,
            verified,
        };
        self.put(Entry::AttendanceRecord(record));
        self.put(Entry::LectureAttendees(lecture_id, attendees));
    }

    /// Records that the calling student attended the lecture, provided the
    /// student presents the token of the lecture's open session in time.
    pub fn mark_attendance(
        &mut self,
        student_id: Identity,
        lecture_id: String,
        nonce: Token,
        now: u64,
    ) -> (r: Result<(), Error>)
        ensures
            match old(self)@.mark_attendance(student_id@, lecture_id@, nonce@, now) {
                Ok(next) => r is Ok && final(self)@ == next,
                Err(e) => r == Err::<(), Error>(e) && final(self)@ == old(self)@,
            },
            old(self)@.consistent() ==> final(self)@.consistent(),
    {
        proof {
            let op = Operation::MarkAttendance {
                who: student_id@,
                lecture: lecture_id@,
                token: nonce@,
                now,
            };
            if self@.consistent() && self@.apply(op) is Ok {
                lemma_consistency_is_kept(self@, op);
            }
        }
        match self.lecture_ref(&lecture_id) {
            None => {
                return Err(Error::NotFound);
            },
            Some(lecture) => {
                if self.student_ref(&student_id).is_none() {
                    return Err(Error::NotRegistered);
                }
                if !self.is_enrolled(&student_id, &lecture.course_id) {
                    return Err(Error::NotEnrolled);
                }
            },
        }
        match self.session_refusal(&lecture_id, &nonce, now) {
            Some(e) => {
                return Err(e);
            },
            None => {},
        }
        if self.store.contains(
            &DataKey::AttendanceRecord(lecture_id.clone(), student_id.clone()),
        ) {
            return Err(Error::AlreadyMarked);
        }
        self.record_attendance(student_id, lecture_id, now, true);
        Ok(())
    }

    /// Closes the open session of a lecture of the calling teacher. The
    /// session stays on record.
    pub fn close_attendance_session(&mut self, teacher_id: Identity, lecture_id: String) -> (r:
        Result<(), Error>)
        ensures
            match old(self)@.close_attendance_session(teacher_id@, lecture_id@) {
                Ok(next) => r is Ok && final(self)@ == next,
                Err(e) => r == Err::<(), Error>(e) && final(self)@ == old(self)@,
            },
            old(self)@.consistent() ==> final(self)@.consistent(),
    {
        proof {
            let op = Operation::CloseAttendanceSession { teacher: teacher_id@, lecture: lecture_id@ };
            if self@.consistent() && self@.apply(op) is Ok {
                lemma_consistency_is_kept(self@, op);
            }
        }
        match self.lecture_owner(&lecture_id) {
            Err(e) => {
                return Err(e);
            },
            Ok(owner) => {
                if !owner.same(&teacher_id) {
                    return Err(Error::Unauthorized);
                }
            },
        }
        let (mut session, token) = match self.session_ref(&lecture_id) {
            None => {
                return Err(Error::SessionNotActive);
            },
            Some((session, token)) => (session.clone(), *token),
        };
        if !session.is_active {
            return Err(Error::SessionNotActive);
        }
        session.is_active = false;
        self.put(Entry::AttendanceSession(session, token));
        Ok(())
    }

    /// Records, on the calling teacher's word alone, that a student attended
    /// a lecture. No session is looked at and the record is not verified.
    pub fn manual_attendance(
        &mut self,
        teacher_id: Identity,
        lecture_id: String,
        student_id: Identity,
        now: u64,
    ) -> (r: Result<(), Error>)
        ensures
            match old(self)@.manual_attendance(teacher_id@, lecture_id@, student_id@, now) {
                Ok(next) => r is Ok && final(self)@ == next,
                Err(e) => r == Err::<(), Error>(e) && final(self)@ == old(self)@,
            },
            old(self)@.consistent() ==> final(self)@.consistent(),
    {
        proof {
            let op = Operation::ManualAttendance {
                teacher: teacher_id@,
                lecture: lecture_id@,
                who: student_id@,
                now,
            };
            if self@.consistent() && self@.apply(op) is Ok {
                lemma_consistency_is_kept(self@, op);
            }
        }
        match self.lecture_owner(&lecture_id) {
            Err(e) => {
                return Err(e);
            },
            Ok(owner) => {
                if !owner.same(&teacher_id) {
                    return Err(Error::Unauthorized);
                }
            },
        }
        if self.student_ref(&student_id).is_none() {
            return Err(Error::NotRegistered);
        }
        match self.lecture_ref(&lecture_id) {
            None => {
                return Err(Error::NotFound);
            },
            Some(lecture) => {
                if !self.is_enrolled(&student_id, &lecture.course_id) {
                    return Err(Error::NotEnrolled);
                }
            },
        }
        if self.store.contains(
            &DataKey::AttendanceRecord(lecture_id.clone(), student_id.clone()),
        ) {
            return Err(Error::AlreadyMarked);
        }
        self.record_attendance(student_id, lecture_id, now, false);
        Ok(())
    }

    pub fn get_course(&self, course_id: String) -> (r: Option<Course>)
        ensures
            match r {
                Some(course) => self@.course(course_id@) == Some(course@),
                None => self@.course(course_id@) is None,
            },
    {
        match self.course_ref(&course_id) {
            Some(course) => Some(course.clone()),
            None => None,
        }
    }

    pub fn get_student(&self, student_id: Identity) -> (r: Option<Student>)
        ensures
            match r {
                Some(student) => self@.student(student_id@) == Some(student@),
                None => self@.student(student_id@) is None,
            },
    {
        match self.student_ref(&student_id) {
            Some(student) => Some(student.clone()),
            None => None,
        }
    }

    pub fn get_assignment(&self, course_id: String, assignment_id: String) -> (r: Option<
        Assignment,
    >)
        ensures
            match r {
                Some(assignment) => self@.assignment(course_id@, assignment_id@) == Some(
                    assignment@,
                ),
                None => self@.assignment(course_id@, assignment_id@) is None,
            },
    {
        match self.store.get(&DataKey::Assignment(course_id, assignment_id)) {
            Some(Entry::Assignment(assignment)) => Some(assignment.clone()),
            _ => None,
        }
    }

    pub fn get_submission(&self, course_id: String, assignment_id: String, student_id: Identity) -> (r:
        Option<Submission>)
        ensures
            match r {
                Some(submission) => self@.submission(course_id@, assignment_id@, student_id@)
                    == Some(submission@),
                None => self@.submission(course_id@, assignment_id@, student_id@) is None,
            },
    {
        match self.submission_ref(&course_id, &assignment_id, &student_id) {
            Some(submission) => Some(submission.clone()),
            None => None,
        }
    }

    pub fn get_course_assignments(&self, course_id: String) -> (r: Vec<String>)
        ensures
            r.deep_view() == self@.course_assignments(course_id@),
    {
        match self.store.get(&DataKey::CourseAssignments(course_id)) {
            Some(Entry::CourseAssignments(_, ids)) => {
                let copy = ids.clone();
                assert(copy.deep_view() =~= ids.deep_view());
                copy
            },
            _ => {
                let none: Vec<String> = Vec::new();
                assert(none.deep_view() =~= Seq::empty());
                none
            },
        }
    }

    pub fn get_student_courses(&self, student_id: Identity) -> (r: Vec<String>)
        ensures
            r.deep_view() == self@.student_courses(student_id@),
    {
        match self.student_ref(&student_id) {
            Some(student) => {
                let copy = student.enrolled_courses.clone();
                assert(copy.deep_view() =~= student.enrolled_courses.deep_view());
                copy
            },
            None => {
                let none: Vec<String> = Vec::new();
                assert(none.deep_view() =~= Seq::empty());
                none
            },
        }
    }

    pub fn get_course_students(&self, course_id: String) -> (r: Vec<Identity>)
        ensures
            r.deep_view() == self@.course_students(course_id@),
    {
        match self.store.get(&DataKey::CourseStudents(course_id)) {
            Some(Entry::CourseStudents(_, members)) => {
                let copy = members.clone();
                assert(copy.deep_view() =~= members.deep_view());
                copy
            },
            _ => {
                let none: Vec<Identity> = Vec::new();
                assert(none.deep_view() =~= Seq::empty());
                none
            },
        }
    }

    pub fn is_teacher(&self, teacher_id: Identity) -> (r: bool)
        ensures
            r == self@.is_teacher(teacher_id@),
    {
        self.store.contains(&DataKey::Teacher(teacher_id))
    }

    pub fn get_admin(&self) -> (r: Option<Identity>)
        ensures
            match r {
                Some(admin) => self@.admin() == Some(admin@),
                None => self@.admin() is None,
            },
    {
        match self.store.get(&DataKey::Admin) {
            Some(Entry::Admin(admin)) => Some(admin.clone()),
            _ => None,
        }
    }

    pub fn get_lecture(&self, lecture_id: String) -> (r: Option<Lecture>)
        ensures
            match r {
                Some(lecture) => self@.lecture(lecture_id@) == Some(lecture@),
                None => self@.lecture(lecture_id@) is None,
            },
    {
        match self.lecture_ref(&lecture_id) {
            Some(lecture) => Some(lecture.clone()),
            None => None,
        }
    }

    pub fn get_course_lectures(&self, course_id: String) -> (r: Vec<String>)
        ensures
            r.deep_view() == self@.course_lectures(course_id@),
    {
        match self.store.get(&DataKey::CourseLectures(course_id)) {
            Some(Entry::CourseLectures(_, ids)) => {
                let copy = ids.clone();
                assert(copy.deep_view() =~= ids.deep_view());
                copy
            },
            _ => {
                let none: Vec<String> = Vec::new();
                assert(none.deep_view() =~= Seq::empty());
                none
            },
        }
    }

    /// The session of a lecture, without the token that was issued for it.
    pub fn get_attendance_session(&self, lecture_id: String) -> (r: Option<AttendanceSession>)
        ensures
            match r {
                Some(session) => self@.session(lecture_id@) is Some && self@.session(
                    lecture_id@,
                )->Some_0.0 == session@,
                None => self@.session(lecture_id@) is None,
            },
    {
        match self.session_ref(&lecture_id) {
            Some((session, _)) => Some(session.clone()),
            None => None,
        }
    }

    pub fn get_attendance_record(&self, lecture_id: String, student_id: Identity) -> (r: Option<
        AttendanceRecord,
    >)
        ensures
            match r {
                Some(record) => self@.record(lecture_id@, student_id@) == Some(record@),
                None => self@.record(lecture_id@, student_id@) is None,
            },
    {
        match self.store.get(&DataKey::AttendanceRecord(lecture_id, student_id)) {
            Some(Entry::AttendanceRecord(record)) => Some(record.clone()),
            _ => None,
        }
    }

    pub fn get_lecture_attendees(&self, lecture_id: String) -> (r: Vec<Identity>)
        ensures
            r.deep_view() == self@.lecture_attendees(lecture_id@),
    {
        match self.store.get(&DataKey::LectureAttendees(lecture_id)) {
            Some(Entry::LectureAttendees(_, who)) => {
                let copy = who.clone();
                assert(copy.deep_view() =~= who.deep_view());
                copy
            },
            _ => {
                let none: Vec<Identity> = Vec::new();
                assert(none.deep_view() =~= Seq::empty());
                none
            },
        }
    }

    /// How many of the course's lectures the student attended, and how many
    /// lectures the course has.
    pub fn get_student_attendance_stats(&self, student_id: Identity, course_id: String) -> (r: (
        u32,
        u32,
    ))
        requires
            self@.course_lectures(course_id@).len() <= u32::MAX,
        ensures
            r.0 == self@.attended(student_id@, self@.course_lectures(course_id@)),
            r.1 == self@.course_lectures(course_id@).len(),
    {
        let lectures = self.get_course_lectures(course_id);
        let ghost ids = lectures.deep_view();
        let total = lectures.len() as u32;
        let mut attended: u32 = 0;
        let mut i: usize = 0;
        while i < lectures.len()
            invariant
                i <= lectures.len(),
                lectures.len() <= u32::MAX,
                ids == lectures.deep_view(),
                attended <= i,
                attended == self@.attended(student_id@, ids.take(i as int)),
            decreases lectures.len() - i,
        {
            assert(ids.take(i + 1).drop_last() == ids.take(i as int));
            assert(ids.take(i + 1).last() == lectures[i as int]@);
            if self.store.contains(
                &DataKey::AttendanceRecord(lectures[i].clone(), student_id.clone()),
            ) {
                attended += 1;
            }
            i += 1;
        }
        assert(ids.take(lectures.len() as int) == ids);
        (attended, total)
    }

    /// Whether the identity is registered as a student.
    pub fn is_registered_student(&self, student_id: Identity) -> (r: bool)
        ensures
            r == self@.student(student_id@).is_some(),
    {
        self.student_ref(&student_id).is_some()
    }

    /// Whether an attendance record exists for the lecture and the student.
    pub fn verify_attendance(&self, lecture_id: String, student_id: Identity) -> (r: bool)
        ensures
            r == self@.record(lecture_id@, student_id@).is_some(),
    {
        proof {
            self.lemma_well_keyed();
        }
        self.store.contains(&DataKey::AttendanceRecord(lecture_id, student_id))
    }
}

} // verus!
