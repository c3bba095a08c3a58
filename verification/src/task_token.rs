//! The opaque identifier of one activity task.
use vstd::prelude::*;

verus! {

/// Identifies an activity task to the server and to the heartbeating code. Its bytes mean nothing
/// here; two tokens name the same task exactly when their bytes agree.
#[derive(Debug)]
pub struct TaskToken(pub Vec<u8>);

impl View for TaskToken {
    type V = Seq<u8>;

    open spec fn view(&self) -> Seq<u8> {
        self.0@
    }
}

impl Clone for TaskToken {
    fn clone(&self) -> (r: Self)
        ensures
            r@ == self@,
            r.0@ == self.0@,
    {
        let bytes = self.0.clone();
        assert(bytes@ =~= self.0@);
        TaskToken(bytes)
    }
}

impl TaskToken {
    /// Whether both tokens name the same task.
    pub fn same_as(&self, other: &TaskToken) -> (r: bool)
        ensures
            r == (self@ == other@),
            r == (self.0@ == other.0@),
    {
        let r = self.0 == other.0;
        assert(r == (self@ =~= other@));
        r
    }
}

} // verus!
