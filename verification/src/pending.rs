//! Links that arrive before anything is ready to take them.

use vstd::prelude::*;

verus! {

/// Keeps a link for later, behind those kept already.
pub fn store_pending_deep_link(links: &mut Vec<String>, url: String)
    ensures
        final(links)@ == old(links)@.push(url),
{
    links.push(url);
}

/// Takes all kept links, in the order in which they came, and leaves none.
pub fn take_pending_deep_links(links: &mut Vec<String>) -> (taken: Vec<String>)
    ensures
        taken@ == old(links)@,
        final(links)@ == Seq::<String>::empty(),
{
    let mut taken: Vec<String> = Vec::new();
    core::mem::swap(links, &mut taken);
    taken
}

} // verus!
