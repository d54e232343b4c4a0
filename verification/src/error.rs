use vstd::prelude::*;

verus! {

/// Every way an operation can be refused. A refused operation leaves the
/// stored state exactly as it found it.
#[derive(Clone, Copy, Debug, PartialEq, Eq, Structural, Hash)]
pub enum Error {
    /// The administrator or owning teacher has not been set yet.
    NotInitialized,
    /// The administrator or owning teacher was already set.
    AlreadyInitialized,
    /// The caller is not the identity allowed to perform the operation.
    Unauthorized,
    /// The course, lecture, assignment or submission does not exist.
    NotFound,
    /// The identity holds no registration in the role the operation needs.
    NotRegistered,
    /// The identity already holds the role it asked for.
    AlreadyRegistered,
    /// The identifier is already taken by an entity of the same kind.
    DuplicateId,
    /// The student is already a member of the course.
    AlreadyEnrolled,
    /// The student is not a member of the course.
    NotEnrolled,
    /// An attendance record for this lecture and student already exists.
    AlreadyMarked,
    /// No attendance session was ever opened for the lecture.
    SessionNotFound,
    /// The lecture has no attendance session that is still active.
    SessionNotActive,
    /// The lecture already has an open, unexpired attendance session.
    SessionAlreadyActive,
    /// The current time lies after the session's deadline.
    SessionExpired,
    /// The presented token differs from the one issued for the session.
    InvalidToken,
    /// The score lies outside the range 0 to 100.
    InvalidScore,
}

} // verus!
