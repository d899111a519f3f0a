use vstd::prelude::*;

verus! {

/// True for the sixteen characters that may appear in the textual form of
/// an identifier: decimal digits and the uppercase letters `A` through `F`.
pub open spec fn is_upper_hex_digit(c: char) -> bool {
    (48 <= c as int && c as int <= 57) || (65 <= c as int && c as int <= 70)
}

/// A task identifier: a 128-bit value rendered as thirty-two uppercase
/// hexadecimal digits, generated once and never reused.
pub struct TaskId {
    pub uuid: String,
}

impl TaskId {
    /// Well-formed: exactly thirty-two uppercase hexadecimal digits.
    pub open spec fn wf(&self) -> bool {
        &&& self.uuid@.len() == 32
        &&& forall|i: int| 0 <= i < self.uuid@.len() ==> is_upper_hex_digit(#[trigger] self.uuid@[i])
    }

    /// An independent copy, equal to the original.
    pub fn duplicate(&self) -> (r: TaskId)
        ensures
            r == *self,
    {
        TaskId { uuid: self.uuid.clone() }
    }
}

/// A titled unit of work. Immutable after creation: the title is set once,
/// and no operation of this core mutates the completion flag.
pub struct Task {
    pub id: TaskId,
    pub title: String,
    pub done: bool,
}

impl Task {
    /// Well-formed: the identifier has its fixed textual shape.
    pub open spec fn wf(&self) -> bool {
        self.id.wf()
    }

    /// An independent copy, equal to the original. Handing copies out is
    /// what keeps the store's own collection unreachable from callers.
    pub fn duplicate(&self) -> (r: Task)
        ensures
            r == *self,
    {
        Task { id: self.id.duplicate(), title: self.title.clone(), done: self.done }
    }
}

} // verus!
