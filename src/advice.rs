use vstd::prelude::*;

verus! {

/// One advice record: an identifier chosen by the provider and its text.
pub struct Advice {
    pub id: i64,
    pub advice: String,
}

impl View for Advice {
    type V = (i64, Seq<char>);

    open spec fn view(&self) -> (i64, Seq<char>) {
        (self.id, self.advice@)
    }
}

impl Advice {
    pub fn new(id: i64, advice: String) -> (r: Advice)
        ensures
            r@ == (id, advice@),
    {
        Advice { id, advice }
    }
}

impl Clone for Advice {
    fn clone(&self) -> (r: Advice)
        ensures
            r@ == self@,
    {
        Advice { id: self.id, advice: self.advice.clone() }
    }
}

} // verus!
