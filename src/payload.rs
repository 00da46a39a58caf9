use vstd::prelude::*;

use crate::advice::Advice;

verus! {

/// The key under which the provider's reply holds its record.
pub open spec fn record_key() -> Seq<char> {
    "slip"@
}

/// The provider's reply, read as key and record pairs, holds its record at
/// `i`: the first pair under the record key.
pub open spec fn record_at(entries: Seq<(String, Advice)>, i: int) -> bool {
    &&& 0 <= i < entries.len()
    &&& entries[i].0@ == record_key()
    &&& forall|j: int| 0 <= j < i ==> #[trigger] entries[j].0@ != record_key()
}

/// The record of the provider's reply, or `None` if no pair has the record key.
pub fn advice_from_payload(entries: &Vec<(String, Advice)>) -> (r: Option<Advice>)
    ensures
        r is None <==> (forall|i: int| 0 <= i < entries@.len() ==> #[trigger] entries@[i].0@ != record_key()),
        r is Some ==> exists|i: int| record_at(entries@, i) && r->Some_0@ == (#[trigger] entries@[i]).1@,
{
    let key = "slip".to_owned();
    let mut i: usize = 0;
    while i < entries.len()
        invariant
            key@ == record_key(),
            i <= entries@.len(),
            forall|j: int| 0 <= j < i ==> #[trigger] entries@[j].0@ != record_key(),
        decreases entries@.len() - i,
    {
        if entries[i].0 == key {
            let found = entries[i].1.clone();
            assert(record_at(entries@, i as int));
            return Some(found);
        }
        i = i + 1;
    }
    None
}

} // verus!
