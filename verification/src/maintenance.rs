use crate::clip::spec_is_expired;
use crate::store::ClipStore;
use crate::time::Time;
use vstd::prelude::*;

verus! {

/// The maintenance sweeper. The runner wakes it on a fixed timer and
/// hands it the store and the current instant; the timer loop itself
/// lives with the runner, outside the library.
pub struct Maintenance {}

impl Maintenance {
    pub fn new() -> Maintenance {
        Maintenance {}
    }

    /// One maintenance pass: deletes every clip expired by `now` and
    /// reports how many went away.
    pub fn tick(&self, store: &mut ClipStore, now: Time) -> (count: usize)
        requires
            old(store).wf(),
        ensures
            final(store).wf(),
            forall|k: Seq<char>| #[trigger] final(store)@.contains_key(k) <==> (old(
                store,
            )@.contains_key(k) && !spec_is_expired(old(store)@[k], now.spec_seconds())),
            forall|k: Seq<char>| #[trigger] final(store)@.contains_key(k) ==> final(store)@[k]
                == old(store)@[k],
            count == old(store)@.len() - final(store)@.len(),
    {
        crate::service::delete_expired(store, now)
    }
}

} // verus!
