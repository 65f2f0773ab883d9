//! Merging of the list of tradable assets.
use vstd::prelude::*;
use crate::persistence::selected_assets_persistence::texts;

verus! {

/// Positions, in order, of the incoming symbols that the existing list does not hold.
pub open spec fn new_symbol_positions(existing: Seq<Seq<char>>, incoming: Seq<Seq<char>>) -> Seq<usize>
    decreases incoming.len(),
{
    if incoming.len() == 0 {
        Seq::empty()
    } else {
        let rest = new_symbol_positions(existing, incoming.drop_last());
        if existing.contains(incoming.last()) {
            rest
        } else {
            rest.push((incoming.len() - 1) as usize)
        }
    }
}

/// Whether some string of `v` has the text of `s`.
fn holds_text(v: &Vec<String>, s: &String) -> (b: bool)
    ensures
        b == texts(v@).contains(s@),
{
    let mut i: usize = 0;
    while i < v.len()
        invariant
            i <= v@.len(),
            forall|j: int| 0 <= j < i ==> v@[j]@ != s@,
        decreases v@.len() - i,
    {
        if v[i] == *s {
            assert(texts(v@)[i as int] == s@);
            return true;
        }
        i = i + 1;
    }
    proof {
        if texts(v@).contains(s@) {
            let j = choose|j: int| 0 <= j < texts(v@).len() && texts(v@)[j] == s@;
            assert(v@[j]@ == s@);
        }
    }
    false
}

/// Positions, in order, of the incoming assets whose symbol the list does not hold yet
/// (judged against the list as it was before the merge, so a symbol repeated among the
/// incoming assets is taken each time). Their number is the count of new assets.
pub fn select_new_assets(existing_symbols: &Vec<String>, incoming_symbols: &Vec<String>) -> (pos: Vec<usize>)
    ensures
        pos@ == new_symbol_positions(texts(existing_symbols@), texts(incoming_symbols@)),
{
    let mut pos: Vec<usize> = Vec::new();
    let mut i: usize = 0;
    while i < incoming_symbols.len()
        invariant
            i <= incoming_symbols@.len(),
            pos@ == new_symbol_positions(texts(existing_symbols@), texts(incoming_symbols@.take(i as int))),
        decreases incoming_symbols@.len() - i,
    {
        proof {
            let t = texts(incoming_symbols@.take(i + 1));
            assert(t.drop_last() =~= texts(incoming_symbols@.take(i as int)));
            assert(t.last() == incoming_symbols@[i as int]@);
        }
        if !holds_text(existing_symbols, &incoming_symbols[i]) {
            pos.push(i);
        }
        i = i + 1;
    }
    assert(incoming_symbols@.take(incoming_symbols@.len() as int) =~= incoming_symbols@);
    pos
}

} // verus!
