use crate::error::Error;
use crate::session::{check_token, token_refusal};
use crate::table::{distinct_keys, filed, lemma_filed_by_model, Keyed, Table};
use crate::types::{Identity, Token};
use vstd::prelude::*;

verus! {

/// What the teacher notes down about a student on a lecture's roll.
#[derive(Debug, PartialEq, Eq)]
pub struct StudentInfo {
    name: String,
}

impl View for StudentInfo {
    type V = Seq<char>;

    closed spec fn view(&self) -> Seq<char> {
        self.name@
    }
}

impl Clone for StudentInfo {
    fn clone(&self) -> (r: Self)
        ensures
            r@ == self@,
    {
        StudentInfo { name: self.name.clone() }
    }
}

impl StudentInfo {
    pub fn new(name: String) -> (r: Self)
        ensures
            r@ == name@,
    {
        StudentInfo { name }
    }

    pub fn name(&self) -> (r: &String)
        ensures
            r@ == self@,
    {
        &self.name
    }
}

/// The key of an entry of the attendance register.
#[derive(Debug, PartialEq, Eq)]
pub enum AttendanceKey {
    /// The teacher who runs the register.
    Teacher,
    /// A lecture, by its id.
    Lecture(u64),
    /// The attendance session of a lecture.
    Session(u64),
    /// The presence of a student at a lecture.
    Record(u64, Identity),
    /// A line of a lecture's roll, by lecture id and roll number.
    Student(u64, u64),
}

pub enum AttendanceKeyView {
    Teacher,
    Lecture(u64),
    Session(u64),
    Record(u64, Seq<char>),
    Student(u64, u64),
}

impl View for AttendanceKey {
    type V = AttendanceKeyView;

    open spec fn view(&self) -> AttendanceKeyView {
        match self {
            AttendanceKey::Teacher => AttendanceKeyView::Teacher,
            AttendanceKey::Lecture(lecture) => AttendanceKeyView::Lecture(*lecture),
            AttendanceKey::Session(lecture) => AttendanceKeyView::Session(*lecture),
            AttendanceKey::Record(lecture, who) => AttendanceKeyView::Record(*lecture, who@),
            AttendanceKey::Student(lecture, roll) => AttendanceKeyView::Student(*lecture, *roll),
        }
    }
}

impl AttendanceKey {
    /// Whether two keys name the same entry.
    pub fn same(&self, other: &AttendanceKey) -> (r: bool)
        ensures
            r == (self@ == other@),
    {
        match (self, other) {
            (AttendanceKey::Teacher, AttendanceKey::Teacher) => true,
            (AttendanceKey::Lecture(a), AttendanceKey::Lecture(b)) => *a == *b,
            (AttendanceKey::Session(a), AttendanceKey::Session(b)) => *a == *b,
            (AttendanceKey::Record(a1, a2), AttendanceKey::Record(b1, b2)) => *a1 == *b1
                && a2.same(b2),
            (AttendanceKey::Student(a1, a2), AttendanceKey::Student(b1, b2)) => *a1 == *b1 && *a2
                == *b2,
            _ => false,
        }
    }
}

/// One entry of the attendance register.
#[derive(Debug, PartialEq, Eq)]
pub enum AttendanceEntry {
    /// The teacher who runs the register.
    Teacher(Identity),
    /// A lecture id with the teacher who created the lecture.
    Lecture(u64, Identity),
    /// A lecture id with the token issued for its session and the session's
    /// deadline.
    Session(u64, Token, u64),
    /// A lecture id with a student who was present.
    Record(u64, Identity),
    /// A lecture id and a roll number with what is noted under them.
    Student(u64, u64, StudentInfo),
}

pub enum AttendanceEntryView {
    Teacher(Seq<char>),
    Lecture(u64, Seq<char>),
    Session(u64, Seq<u8>, u64),
    Record(u64, Seq<char>),
    Student(u64, u64, Seq<char>),
}

impl AttendanceEntryView {
    /// The key under which the entry is filed.
    pub open spec fn key(self) -> AttendanceKeyView {
        match self {
            AttendanceEntryView::Teacher(_) => AttendanceKeyView::Teacher,
            AttendanceEntryView::Lecture(lecture, _) => AttendanceKeyView::Lecture(lecture),
            AttendanceEntryView::Session(lecture, _, _) => AttendanceKeyView::Session(lecture),
            AttendanceEntryView::Record(lecture, who) => AttendanceKeyView::Record(lecture, who),
            AttendanceEntryView::Student(lecture, roll, _) => AttendanceKeyView::Student(
                lecture,
                roll,
            ),
        }
    }
}

impl View for AttendanceEntry {
    type V = AttendanceEntryView;

    open spec fn view(&self) -> AttendanceEntryView {
        match self {
            AttendanceEntry::Teacher(who) => AttendanceEntryView::Teacher(who@),
            AttendanceEntry::Lecture(lecture, who) => AttendanceEntryView::Lecture(*lecture, who@),
            AttendanceEntry::Session(lecture, token, expiry) => AttendanceEntryView::Session(
                *lecture,
                token@,
                *expiry,
            ),
            AttendanceEntry::Record(lecture, who) => AttendanceEntryView::Record(*lecture, who@),
            AttendanceEntry::Student(lecture, roll, info) => AttendanceEntryView::Student(
                *lecture,
                *roll,
                info@,
            ),
        }
    }
}

impl AttendanceEntry {
    /// The key under which the entry is filed.
    pub fn key(&self) -> (r: AttendanceKey)
        ensures
            r@ == self@.key(),
    {
        match self {
            AttendanceEntry::Teacher(_) => AttendanceKey::Teacher,
            AttendanceEntry::Lecture(lecture, _) => AttendanceKey::Lecture(*lecture),
            AttendanceEntry::Session(lecture, _, _) => AttendanceKey::Session(*lecture),
            AttendanceEntry::Record(lecture, who) => AttendanceKey::Record(*lecture, who.clone()),
            AttendanceEntry::Student(lecture, roll, _) => AttendanceKey::Student(*lecture, *roll),
        }
    }
}

impl Clone for AttendanceEntry {
    fn clone(&self) -> (r: Self)
        ensures
            r@ == self@,
    {
        match self {
            AttendanceEntry::Teacher(who) => AttendanceEntry::Teacher(who.clone()),
            AttendanceEntry::Lecture(lecture, who) => AttendanceEntry::Lecture(
                *lecture,
                who.clone(),
            ),
            AttendanceEntry::Session(lecture, token, expiry) => AttendanceEntry::Session(
                *lecture,
                *token,
                *expiry,
            ),
            AttendanceEntry::Record(lecture, who) => AttendanceEntry::Record(*lecture, who.clone()),
            AttendanceEntry::Student(lecture, roll, info) => AttendanceEntry::Student(
                *lecture,
                *roll,
                info.clone(),
            ),
        }
    }
}

impl Keyed for AttendanceEntry {
    type Key = AttendanceKey;

    type K = AttendanceKeyView;

    open spec fn key_model(key: &AttendanceKey) -> AttendanceKeyView {
        key@
    }

    open spec fn key_of(entry: AttendanceEntryView) -> AttendanceKeyView {
        entry.key()
    }

    fn has_key(&self, key: &AttendanceKey) -> (r: bool) {
        self.key().same(key)
    }

    fn same_key(&self, other: &Self) -> (r: bool) {
        self.key().same(&other.key())
    }
}

/// One request to the attendance register, with everything the caller hands
/// in.
pub enum RegisterOperation {
    Initialize { teacher: Seq<char> },
    CreateLecture { teacher: Seq<char>, lecture: u64 },
    AddStudent { teacher: Seq<char>, lecture: u64, roll_number: u64, name: Seq<char> },
    StartAttendance {
        teacher: Seq<char>,
        lecture: u64,
        duration_seconds: u64,
        now: u64,
        token: Seq<u8>,
    },
    MarkAttendance { who: Seq<char>, lecture: u64, token: Seq<u8>, now: u64 },
}

/// Everything the attendance register remembers, one entry per key.
#[verifier::ext_equal]
pub struct Register {
    pub entries: Map<AttendanceKeyView, AttendanceEntryView>,
}

impl Register {
    /// The register before anything has happened.
    pub open spec fn empty() -> Register {
        Register { entries: Map::empty() }
    }

    /// Every entry is filed under the key that it names itself.
    pub open spec fn well_keyed(self) -> bool {
        forall|k: AttendanceKeyView| #[trigger]
            self.entries.contains_key(k) ==> self.entries[k].key() == k
    }

    /// Whether an entry is filed under `key`.
    pub open spec fn has(self, key: AttendanceKeyView) -> bool {
        self.entries.contains_key(key)
    }

    /// The register with `entry` filed under its own key.
    pub open spec fn put(self, entry: AttendanceEntryView) -> Register {
        Register { entries: self.entries.insert(entry.key(), entry) }
    }

    /// The teacher who runs the register, once set.
    pub open spec fn teacher(self) -> Option<Seq<char>> {
        if self.has(AttendanceKeyView::Teacher) {
            match self.entries[AttendanceKeyView::Teacher] {
                AttendanceEntryView::Teacher(who) => Some(who),
                _ => None,
            }
        } else {
            None
        }
    }

    /// The token and the deadline of a lecture's session.
    pub open spec fn session(self, lecture: u64) -> Option<(Seq<u8>, u64)> {
        if self.has(AttendanceKeyView::Session(lecture)) {
            match self.entries[AttendanceKeyView::Session(lecture)] {
                AttendanceEntryView::Session(_, token, expiry) => Some((token, expiry)),
                _ => None,
            }
        } else {
            None
        }
    }

    /// Whether the student is on record as present at the lecture.
    pub open spec fn present(self, lecture: u64, who: Seq<char>) -> bool {
        self.has(AttendanceKeyView::Record(lecture, who))
    }

    /// Why `who` may not act as the register's teacher, if so.
    pub open spec fn teacher_refusal(self, who: Seq<char>) -> Option<Error> {
        match self.teacher() {
            None => Some(Error::NotInitialized),
            Some(teacher) => if teacher != who {
                Some(Error::Unauthorized)
            } else {
                None
            },
        }
    }

    pub open spec fn initialize(self, teacher: Seq<char>) -> Result<Register, Error> {
        if self.has(AttendanceKeyView::Teacher) {
            Err(Error::AlreadyInitialized)
        } else {
            Ok(self.put(AttendanceEntryView::Teacher(teacher)))
        }
    }

    pub open spec fn create_lecture(self, teacher: Seq<char>, lecture: u64) -> Result<
        Register,
        Error,
    > {
        match self.teacher_refusal(teacher) {
            Some(e) => Err(e),
            None => if self.has(AttendanceKeyView::Lecture(lecture)) {
                Err(Error::DuplicateId)
            } else {
                Ok(self.put(AttendanceEntryView::Lecture(lecture, teacher)))
            },
        }
    }

    pub open spec fn add_student(
        self,
        teacher: Seq<char>,
        lecture: u64,
        roll_number: u64,
        name: Seq<char>,
    ) -> Result<Register, Error> {
        match self.teacher_refusal(teacher) {
            Some(e) => Err(e),
            None => if !self.has(AttendanceKeyView::Lecture(lecture)) {
                Err(Error::NotFound)
            } else {
                Ok(self.put(AttendanceEntryView::Student(lecture, roll_number, name)))
            },
        }
    }

    /// Whether the lecture has a session whose deadline has not passed.
    pub open spec fn session_open(self, lecture: u64, now: u64) -> bool {
        match self.session(lecture) {
            Some((_, expiry)) => now <= expiry,
            None => false,
        }
    }

    pub open spec fn start_attendance(
        self,
        teacher: Seq<char>,
        lecture: u64,
        duration_seconds: u64,
        now: u64,
        token: Seq<u8>,
    ) -> Result<Register, Error> {
        match self.teacher_refusal(teacher) {
            Some(e) => Err(e),
            None => if !self.has(AttendanceKeyView::Lecture(lecture)) {
                Err(Error::NotFound)
            } else if self.session_open(lecture, now) {
                Err(Error::SessionAlreadyActive)
            } else {
                Ok(
                    self.put(
                        AttendanceEntryView::Session(
                            lecture,
                            token,
                            (now + duration_seconds) as u64,
                        ),
                    ),
                )
            },
        }
    }

    /// Whether the entry filed under `key` fits in with the rest of the
    /// register: a lecture was created by the register's teacher, and
    /// sessions, presences and lines of the roll belong to lectures that
    /// exist; a presence belongs to a lecture that has had a session.
    pub open spec fn in_order(self, key: AttendanceKeyView) -> bool {
        &&& self.entries[key].key() == key
        &&& match self.entries[key] {
            AttendanceEntryView::Teacher(_) => true,
            AttendanceEntryView::Lecture(_, who) => self.teacher() == Some(who),
            AttendanceEntryView::Session(lecture, _, _) => self.has(
                AttendanceKeyView::Lecture(lecture),
            ),
            AttendanceEntryView::Record(lecture, _) => {
                &&& self.has(AttendanceKeyView::Lecture(lecture))
                &&& self.session(lecture) is Some
            },
            AttendanceEntryView::Student(lecture, _, _) => self.has(
                AttendanceKeyView::Lecture(lecture),
            ),
        }
    }

    /// The register as a whole hangs together: every entry is in order.
    pub open spec fn consistent(self) -> bool {
        forall|key: AttendanceKeyView| #[trigger]
            self.entries.contains_key(key) ==> self.in_order(key)
    }

    /// What the register makes of a request.
    pub open spec fn apply(self, op: RegisterOperation) -> Result<Register, Error> {
        match op {
            RegisterOperation::Initialize { teacher } => self.initialize(teacher),
            RegisterOperation::CreateLecture { teacher, lecture } => {
                self.create_lecture(teacher, lecture)
            },
            RegisterOperation::AddStudent { teacher, lecture, roll_number, name } => {
                self.add_student(teacher, lecture, roll_number, name)
            },
            RegisterOperation::StartAttendance { teacher, lecture, duration_seconds, now, token } => {
                self.start_attendance(teacher, lecture, duration_seconds, now, token)
            },
            RegisterOperation::MarkAttendance { who, lecture, token, now } => {
                self.mark_attendance(who, lecture, token, now)
            },
        }
    }

    pub open spec fn mark_attendance(self, who: Seq<char>, lecture: u64, token: Seq<u8>, now: u64)
        -> Result<Register, Error> {
        if !self.has(AttendanceKeyView::Lecture(lecture)) {
            Err(Error::NotFound)
        } else {
            match self.session(lecture) {
                None => Err(Error::SessionNotFound),
                Some((issued, expiry)) => match token_refusal(issued, expiry, token, now) {
                    Some(e) => Err(e),
                    None => if self.present(lecture, who) {
                        Err(Error::AlreadyMarked)
                    } else {
                        Ok(self.put(AttendanceEntryView::Record(lecture, who)))
                    },
                },
            }
        }
    }
}

/// Whatever request a consistent register grants, the register that follows
/// is consistent again.
pub proof fn lemma_register_consistency_is_kept(register: Register, op: RegisterOperation)
    requires
        register.consistent(),
        register.apply(op) is Ok,
    ensures
        register.apply(op)->Ok_0.consistent(),
{
    let next = register.apply(op)->Ok_0;
    assert forall|key: AttendanceKeyView| #[trigger] next.entries.contains_key(key) implies next.in_order(
        key,
    ) by {
        if register.entries.contains_key(key) {
            assert(register.in_order(key));
            match register.entries[key] {
                AttendanceEntryView::Session(lecture, _, _) => {
                    assert(register.entries.contains_key(AttendanceKeyView::Lecture(lecture)));
                },
                AttendanceEntryView::Record(lecture, _) => {
                    assert(register.entries.contains_key(AttendanceKeyView::Lecture(lecture)));
                    assert(register.entries.contains_key(AttendanceKeyView::Session(lecture)));
                },
                AttendanceEntryView::Student(lecture, _, _) => {
                    assert(register.entries.contains_key(AttendanceKeyView::Lecture(lecture)));
                },
                _ => {},
            }
        }
    }
}

/// The attendance register of a single teacher: lectures by number, one
/// token-guarded session per lecture, and who was present.
///
/// Every identity handed to an operation has been authenticated by the
/// caller's boundary layer. The current time and a fresh session token are
/// handed in as well.
pub struct AttendanceContract {
    store: Table<AttendanceEntry>,
}

impl View for AttendanceContract {
    type V = Register;

    closed spec fn view(&self) -> Register {
        Register { entries: self.store@ }
    }
}

impl AttendanceContract {
    /// A register that remembers nothing yet.
    pub fn new() -> (r: Self)
        ensures
            r@ == Register::empty(),
            r@.consistent(),
    {
        AttendanceContract { store: Table::new() }
    }

    /// A register that remembers the given entries, filed one after the
    /// other. This is how a register written out with `entries` comes back.
    pub fn from_entries(entries: Vec<AttendanceEntry>) -> (r: Self)
        ensures
            r@ == (Register { entries: filed(entries@) }),
    {
        AttendanceContract { store: Table::from_entries(entries) }
    }

    /// A copy of every stored entry, for the caller to write out. No two of
    /// them share a key, and filing them again gives the same register.
    pub fn entries(&self) -> (r: Vec<AttendanceEntry>)
        ensures
            distinct_keys(r@),
            filed(r@) == self@.entries,
    {
        let stored = self.store.entries();
        let mut copies: Vec<AttendanceEntry> = Vec::new();
        let mut i: usize = 0;
        while i < stored.len()
            invariant
                i <= stored.len(),
                copies.len() == i,
                forall|j: int| 0 <= j < i ==> copies[j]@ == stored[j]@,
            decreases stored.len() - i,
        {
            copies.push(stored[i].clone());
            i += 1;
        }
        proof {
            lemma_filed_by_model(copies@, stored@);
        }
        copies
    }

    /// The entries of a register are always filed under their own keys.
    pub proof fn lemma_well_keyed(&self)
        ensures
            self@.well_keyed(),
    {
        self.store.lemma_filed_under_own_key();
    }

    fn put(&mut self, entry: AttendanceEntry)
        ensures
            final(self)@ == old(self)@.put(entry@),
    {
        self.store.put(entry);
    }

    fn teacher_ref(&self) -> (r: Option<&Identity>)
        ensures
            match r {
                Some(teacher) => self@.teacher() == Some(teacher@),
                None => self@.teacher() is None,
            },
    {
        match self.store.get(&AttendanceKey::Teacher) {
            Some(AttendanceEntry::Teacher(teacher)) => Some(teacher),
            _ => None,
        }
    }

    fn teacher_refusal(&self, who: &Identity) -> (r: Option<Error>)
        ensures
            r == self@.teacher_refusal(who@),
    {
        match self.teacher_ref() {
            None => Some(Error::NotInitialized),
            Some(teacher) => if !teacher.same(who) {
                Some(Error::Unauthorized)
            } else {
                None
            },
        }
    }

    fn session_ref(&self, lecture_id: u64) -> (r: Option<(&Token, u64)>)
        ensures
            match r {
                Some((token, expiry)) => self@.session(lecture_id) == Some((token@, expiry)),
                None => self@.session(lecture_id) is None,
            },
    {
        match self.store.get(&AttendanceKey::Session(lecture_id)) {
            Some(AttendanceEntry::Session(_, token, expiry)) => Some((token, *expiry)),
            _ => None,
        }
    }

    /// Sets the teacher who runs the register. This can be done once.
    pub fn initialize(&mut self, teacher: Identity) -> (r: Result<(), Error>)
        ensures
            match old(self)@.initialize(teacher@) {
                Ok(next) => r is Ok && final(self)@ == next,
                Err(e) => r == Err::<(), Error>(e) && final(self)@ == old(self)@,
            },
            old(self)@.consistent() ==> final(self)@.consistent(),
    {
        proof {
            let op = RegisterOperation::Initialize { teacher: teacher@ };
            if self@.consistent() && self@.apply(op) is Ok {
                lemma_register_consistency_is_kept(self@, op);
            }
        }
        if self.store.contains(&AttendanceKey::Teacher) {
            return Err(Error::AlreadyInitialized);
        }
        self.put(AttendanceEntry::Teacher(teacher));
        Ok(())
    }

    /// Enters a new lecture for the calling teacher.
    pub fn create_lecture(&mut self, teacher: Identity, lecture_id: u64) -> (r: Result<(), Error>)
        ensures
            match old(self)@.create_lecture(teacher@, lecture_id) {
                Ok(next) => r is Ok && final(self)@ == next,
                Err(e) => r == Err::<(), Error>(e) && final(self)@ == old(self)@,
            },
            old(self)@.consistent() ==> final(self)@.consistent(),
    {
        proof {
            let op = RegisterOperation::CreateLecture { teacher: teacher@, lecture: lecture_id };
            if self@.consistent() && self@.apply(op) is Ok {
                lemma_register_consistency_is_kept(self@, op);
            }
        }
        match self.teacher_refusal(&teacher) {
            Some(e) => {
                return Err(e);
            },
            None => {},
        }
        if self.store.contains(&AttendanceKey::Lecture(lecture_id)) {
            return Err(Error::DuplicateId);
        }
        self.put(AttendanceEntry::Lecture(lecture_id, teacher));
        Ok(())
    }

    /// Notes a student's name under a roll number of the lecture, replacing
    /// what was noted under that number before.
    pub fn add_student(
        &mut self,
        teacher: Identity,
        lecture_id: u64,
        roll_number: u64,
        name: String,
    ) -> (r: Result<(), Error>)
        ensures
            match old(self)@.add_student(teacher@, lecture_id, roll_number, name@) {
                Ok(next) => r is Ok && final(self)@ == next,
                Err(e) => r == Err::<(), Error>(e) && final(self)@ == old(self)@,
            },
            old(self)@.consistent() ==> final(self)@.consistent(),
    {
        proof {
            let op = RegisterOperation::AddStudent {
                teacher: teacher@,
                lecture: lecture_id,
                roll_number,
                name: name@,
            };
            if self@.consistent() && self@.apply(op) is Ok {
                lemma_register_consistency_is_kept(self@, op);
            }
        }
        match self.teacher_refusal(&teacher) {
            Some(e) => {
                return Err(e);
            },
            None => {},
        }
        if !self.store.contains(&AttendanceKey::Lecture(lecture_id)) {
            return Err(Error::NotFound);
        }
        self.put(AttendanceEntry::Student(lecture_id, roll_number, StudentInfo::new(name)));
        Ok(())
    }

    /// Opens an attendance session on a lecture and hands back the token
    /// that students must present. `token` comes fresh from the caller's
    /// secure random source and `now` from its clock.
    pub fn start_attendance(
        &mut self,
        teacher: Identity,
        lecture_id: u64,
        duration_seconds: u64,
        now: u64,
        token: Token,
    ) -> (r: Result<Token, Error>)
        requires
            now + duration_seconds <= u64::MAX,
        ensures
            match old(self)@.start_attendance(teacher@, lecture_id, duration_seconds, now, token@) {
                Ok(next) => r == Ok::<Token, Error>(token) && final(self)@ == next,
                Err(e) => r == Err::<Token, Error>(e) && final(self)@ == old(self)@,
            },
            old(self)@.consistent() ==> final(self)@.consistent(),
    {
        proof {
            let op = RegisterOperation::StartAttendance {
                teacher: teacher@,
                lecture: lecture_id,
                duration_seconds,
                now,
                token: token@,
            };
            if self@.consistent() && self@.apply(op) is Ok {
                lemma_register_consistency_is_kept(self@, op);
            }
        }
        match self.teacher_refusal(&teacher) {
            Some(e) => {
                return Err(e);
            },
            None => {},
        }
        if !self.store.contains(&AttendanceKey::Lecture(lecture_id)) {
            return Err(Error::NotFound);
        }
        match self.session_ref(lecture_id) {
            Some((_, expiry)) => {
                if now <= expiry {
                    return Err(Error::SessionAlreadyActive);
                }
            },
            None => {},
        }
        self.put(AttendanceEntry::Session(lecture_id, token, now + duration_seconds));
        Ok(token)
    }

    /// Records that the calling student was present at the lecture, provided
    /// the student presents the token of the lecture's session in time.
    pub fn mark_attendance(&mut self, student: Identity, lecture_id: u64, nonce: Token, now: u64)
        -> (r: Result<(), Error>)
        ensures
            match old(self)@.mark_attendance(student@, lecture_id, nonce@, now) {
                Ok(next) => r is Ok && final(self)@ == next,
                Err(e) => r == Err::<(), Error>(e) && final(self)@ == old(self)@,
            },
            old(self)@.consistent() ==> final(self)@.consistent(),
    {
        proof {
            let op = RegisterOperation::MarkAttendance {
                who: student@,
                lecture: lecture_id,
                token: nonce@,
                now,
            };
            if self@.consistent() && self@.apply(op) is Ok {
                lemma_register_consistency_is_kept(self@, op);
            }
        }
        if !self.store.contains(&AttendanceKey::Lecture(lecture_id)) {
            return Err(Error::NotFound);
        }
        match self.session_ref(lecture_id) {
            None => {
                return Err(Error::SessionNotFound);
            },
            Some((issued, expiry)) => {
                match check_token(issued, expiry, &nonce, now) {
                    Some(e) => {
                        return Err(e);
                    },
                    None => {},
                }
            },
        }
        if self.store.contains(&AttendanceKey::Record(lecture_id, student.clone())) {
            return Err(Error::AlreadyMarked);
        }
        self.put(AttendanceEntry::Record(lecture_id, student));
        Ok(())
    }

    /// Whether the student is on record as present at the lecture.
    pub fn get_attendance(&self, lecture_id: u64, student: Identity) -> (r: bool)
        ensures
            r == self@.present(lecture_id, student@),
    {
        self.store.contains(&AttendanceKey::Record(lecture_id, student))
    }

    /// The teacher who runs the register.
    pub fn get_teacher(&self) -> (r: Result<Identity, Error>)
        ensures
            match r {
                Ok(teacher) => self@.teacher() == Some(teacher@),
                Err(e) => e == Error::NotInitialized && self@.teacher() is None,
            },
    {
        match self.teacher_ref() {
            Some(teacher) => Ok(teacher.clone()),
            None => Err(Error::NotInitialized),
        }
    }
}

} // verus!
