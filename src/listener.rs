//! The hotkey listener: identifier allocation, the registry of callbacks, and
//! dispatch of notifications.

use std::collections::HashMap;
use vstd::prelude::*;

verus! {

broadcast use vstd::std_specs::hash::group_hash_axioms;

/// Identifier of a registered hotkey; the OS echoes it back in each notification.
pub type ListenerID = i32;

/// Error text when the OS declines to claim a combination.
pub open spec fn claim_refused_message() -> Seq<char> {
    "Failed to register hotkey"@
}

/// Error text when every identifier of the `i32` range has been handed out.
pub open spec fn ids_exhausted_message() -> Seq<char> {
    "No hotkey identifier left"@
}

/// The identifier that a notification's payload names, if any. Identifiers
/// are positive `i32`s; any other payload maps to none.
pub open spec fn payload_id(raw: usize) -> Option<ListenerID> {
    if 1 <= raw <= i32::MAX {
        Some(raw as ListenerID)
    } else {
        None
    }
}

/// The identifier whose callback a notification fires under `registry`, if any.
pub open spec fn fired_by<H>(registry: Map<ListenerID, H>, raw: usize) -> Option<ListenerID> {
    match payload_id(raw) {
        Some(id) => if registry.contains_key(id) {
            Some(id)
        } else {
            None
        },
        None => None,
    }
}

/// The identifiers whose callbacks a stream of notifications fires, in order:
/// one for each notification that names a registered identifier.
pub open spec fn fired_sequence<H>(registry: Map<ListenerID, H>, stream: Seq<usize>) -> Seq<
    ListenerID,
>
    decreases stream.len(),
{
    if stream.len() == 0 {
        Seq::empty()
    } else {
        let prefix = fired_sequence(registry, stream.drop_last());
        match fired_by(registry, stream.last()) {
            Some(id) => prefix.push(id),
            None => prefix,
        }
    }
}

/// Every callback in `registry` may be invoked.
pub open spec fn all_callable<H: Fn()>(registry: Map<ListenerID, H>) -> bool {
    forall|id: ListenerID| registry.contains_key(id) ==> #[trigger] registry[id].requires(())
}

/// Reads the identifier out of a notification's payload; a payload that names
/// no possible identifier gives `None`.
pub fn notification_id(raw: usize) -> (r: Option<ListenerID>)
    ensures
        r == payload_id(raw),
{
    if 1 <= raw && raw <= i32::MAX as usize {
        Some(raw as ListenerID)
    } else {
        None
    }
}

/// Owns the callbacks of the hotkeys it has claimed, keyed by identifier.
pub struct Listener<H> {
    last_id: i32,
    handlers: HashMap<ListenerID, H>,
}

impl<H> Listener<H> {
    /// The last identifier handed out (0 before the first registration attempt).
    pub closed spec fn last_id(&self) -> ListenerID {
        self.last_id
    }

    /// The registry: identifier to callback.
    pub closed spec fn registry(&self) -> Map<ListenerID, H> {
        self.handlers@
    }

    /// Every registered identifier was handed out by this listener: it lies in
    /// `1..=last_id`.
    pub open spec fn wf(&self) -> bool {
        &&& 0 <= self.last_id()
        &&& forall|id: ListenerID| #[trigger]
            self.registry().contains_key(id) ==> 1 <= id <= self.last_id()
    }

    /// An empty listener: no identifier handed out yet, no callback registered.
    pub fn new() -> (l: Self)
        ensures
            l.wf(),
            l.last_id() == 0,
            l.registry() == Map::<ListenerID, H>::empty(),
    {
        Listener { last_id: 0, handlers: HashMap::new() }
    }

    /// Whether a callback is registered under `id`.
    pub fn is_registered(&self, id: ListenerID) -> (r: bool)
        ensures
            r == self.registry().contains_key(id),
    {
        self.handlers.contains_key(&id)
    }

    /// The number of registered callbacks.
    pub fn registered_count(&self) -> (n: usize)
        ensures
            n == self.registry().len(),
    {
        self.handlers.len()
    }

    /// Whether the counter can still hand out an identifier.
    pub open spec fn has_free_id(&self) -> bool {
        self.last_id() < i32::MAX
    }

    /// The identifier that the next registration attempt consumes.
    pub open spec fn next_id(&self) -> ListenerID
        recommends
            self.has_free_id(),
    {
        (self.last_id() + 1) as ListenerID
    }

    /// How one registration attempt, given a callback, moves a listener from
    /// `before` to `after` and what it returns. `claimed` is the OS's answer
    /// to the claim of `before.next_id()`; it is not consulted when no
    /// identifier is left.
    pub open spec fn register_step(
        before: Self,
        after: Self,
        handler: H,
        claimed: bool,
        r: Result<ListenerID, String>,
    ) -> bool {
        if !before.has_free_id() {
            &&& after.last_id() == before.last_id()
            &&& after.registry() == before.registry()
            &&& r matches Err(e) && e@ == ids_exhausted_message()
        } else {
            &&& after.last_id() == before.last_id() + 1
            &&& if claimed {
                &&& after.registry() == before.registry().insert(before.next_id(), handler)
                &&& r == Ok::<ListenerID, String>(before.next_id())
            } else {
                &&& after.registry() == before.registry()
                &&& r matches Err(e) && e@ == claim_refused_message()
            }
        }
    }

    /// Claims the combination `modifiers` + `key` and, once claimed, registers
    /// `handler` for it.
    ///
    /// The next identifier is consumed first and handed to `claim` together
    /// with `modifiers` and `key`; `claim` is the OS call that claims the
    /// combination globally and answers whether it did. On success the
    /// callback is stored under that identifier, which is returned. On
    /// refusal the registry is unchanged, the identifier stays consumed, and
    /// an error is returned. When the identifier range is used up, `claim` is
    /// not called and an error is returned.
    pub fn register_hotkey<C>(&mut self, modifiers: u32, key: u32, handler: H, claim: C) -> (r:
        Result<ListenerID, String>) where C: FnOnce(ListenerID, u32, u32) -> bool
        requires
            old(self).wf(),
            old(self).has_free_id() ==> claim.requires((old(self).next_id(), modifiers, key)),
        ensures
            final(self).wf(),
            Self::register_step(*old(self), *final(self), handler, r is Ok, r),
            old(self).has_free_id() ==> claim.ensures(
                (old(self).next_id(), modifiers, key),
                r is Ok,
            ),
    {
        if self.last_id == i32::MAX {
            proof {
                reveal_strlit("No hotkey identifier left");
            }
            return Err("No hotkey identifier left".to_owned());
        }
        self.last_id = self.last_id + 1;
        let id = self.last_id;
        proof {
            assert forall|k: ListenerID| #[trigger] self.registry().contains_key(k) implies 1 <= k
                <= self.last_id() by {
                assert(old(self).registry().contains_key(k));
            }
        }
        let claimed = claim(id, modifiers, key);
        if !claimed {
            proof {
                reveal_strlit("Failed to register hotkey");
            }
            return Err("Failed to register hotkey".to_owned());
        }
        self.handlers.insert(id, handler);
        proof {
            assert forall|k: ListenerID| #[trigger] self.registry().contains_key(k) implies 1 <= k
                <= self.last_id() by {
                if k != id {
                    assert(old(self).registry().contains_key(k));
                }
            }
        }
        Ok(id)
    }
}

impl<H: Fn()> Listener<H> {
    /// Handles one notification: when its payload names a registered
    /// identifier, invokes that callback once and returns the identifier;
    /// otherwise (a foreign, stale or malformed notification) does nothing
    /// and returns `None`.
    pub fn dispatch(&self, raw: usize) -> (fired: Option<ListenerID>)
        requires
            all_callable(self.registry()),
        ensures
            fired == fired_by(self.registry(), raw),
            fired matches Some(id) ==> self.registry()[id].ensures((), ()),
    {
        match notification_id(raw) {
            None => None,
            Some(id) => match self.handlers.get(&id) {
                Some(handler) => {
                    handler();
                    Some(id)
                },
                None => None,
            },
        }
    }

    /// Runs the dispatch loop over a finite stream of notification payloads,
    /// handling each exactly once and in order, and returns the identifiers
    /// whose callbacks were invoked, in invocation order. The stream's end
    /// ends the loop.
    pub fn listen(self, notifications: &[usize]) -> (fired: Vec<ListenerID>)
        requires
            all_callable(self.registry()),
        ensures
            fired@ == fired_sequence(self.registry(), notifications@),
            forall|k: int|
                0 <= k < fired.len() ==> #[trigger] self.registry()[fired[k]].ensures((), ()),
    {
        let mut fired: Vec<ListenerID> = Vec::new();
        let mut i: usize = 0;
        while i < notifications.len()
            invariant
                all_callable(self.registry()),
                i <= notifications.len(),
                fired@ == fired_sequence(self.registry(), notifications@.subrange(0, i as int)),
                forall|k: int|
                    0 <= k < fired.len() ==> #[trigger] self.registry()[fired[k]].ensures((), ()),
            decreases notifications.len() - i,
        {
            let ghost prefix = notifications@.subrange(0, i as int);
            let ghost next = notifications@.subrange(0, i + 1);
            assert(next.drop_last() == prefix);
            assert(next.last() == notifications@[i as int]);
            if let Some(id) = self.dispatch(notifications[i]) {
                fired.push(id);
            }
            i = i + 1;
        }
        assert(notifications@.subrange(0, notifications@.len() as int) == notifications@);
        fired
    }
}

} // verus!
