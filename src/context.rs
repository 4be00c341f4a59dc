use vstd::prelude::*;

verus! {

/// Opaque handle to an evaluation context.
///
/// A context carries no state of its own yet: evaluation and type checking
/// build a fresh program for each request. The handle exists so that hosts can
/// hold one and pass it along, and so that shared configuration can be added
/// later without changing the calling convention.
pub struct NickelContext {
    placeholder: u8,
}

impl NickelContext {
    /// The contents of a context, which are empty for now.
    pub closed spec fn is_fresh(&self) -> bool {
        self.placeholder == 0
    }

    /// Creates a new, empty context.
    pub fn new() -> (r: NickelContext)
        ensures
            r.is_fresh(),
    {
        NickelContext { placeholder: 0 }
    }
}

} // verus!
