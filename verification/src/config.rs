//! The holder of the application's configuration: one store for the
//! document, made once at start and handed to whoever needs it.

use vstd::prelude::*;
use crate::draft::{Draft, Slots};
use crate::synclan::ISynclan;

verus! {

/// The configuration of the application.
pub struct Config {
    synclan_config: Draft<ISynclan>,
}

impl Config {
    /// The content of the store of the document.
    pub closed spec fn slots(&self) -> Slots<ISynclan> {
        self.synclan_config@
    }

    /// A configuration whose committed document is `document`, with no
    /// draft pending.
    pub fn new(document: ISynclan) -> (config: Self)
        ensures
            config.slots() == (Slots { committed: document, draft: None }),
    {
        let store = Draft::from(document);
        proof {
            store.lemma_holding();
        }
        Config { synclan_config: store }
    }

    /// The store of the document, to read from.
    pub fn synclan(&self) -> (store: &Draft<ISynclan>)
        ensures
            store@ == self.slots(),
    {
        &self.synclan_config
    }

    /// The store of the document, to stage, apply or discard changes.
    pub fn synclan_mut(&mut self) -> (store: &mut Draft<ISynclan>)
        ensures
            store@ == old(self).slots(),
            final(self).slots() == final(store)@,
    {
        &mut self.synclan_config
    }
}

} // verus!
