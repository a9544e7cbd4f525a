use vstd::prelude::*;

verus! {

/// Caller-supplied opaque context, threaded to every callback invocation of a
/// facade. The boundary never interprets, dereferences or frees it: it is a
/// plain machine word copied by value. The caller owns whatever the word
/// stands for, for its entire lifetime, and accepts that the bus may hand the
/// word back from any of its worker threads.
pub struct UserData(pub u64);

impl UserData {
    /// Shallow copy: the word is copied, never deep-copied and never freed.
    pub fn duplicate(&self) -> (r: UserData)
        ensures
            r.0 == self.0,
    {
        UserData(self.0)
    }
}

} // verus!
