use vstd::prelude::*;

verus! {

/// A change requested of the subscriber set.
#[derive(Clone, Copy, Debug, PartialEq, Eq, Structural)]
pub enum Action {
    Add(i64),
    Remove(i64),
}

/// The set that results from one action.
pub open spec fn apply_action(s: Set<i64>, a: Action) -> Set<i64> {
    match a {
        Action::Add(id) => s.insert(id),
        Action::Remove(id) => s.remove(id),
    }
}

/// The set that results from applying `ops` in order, starting from `s`.
pub open spec fn replay(s: Set<i64>, ops: Seq<Action>) -> Set<i64>
    decreases ops.len(),
{
    if ops.len() == 0 {
        s
    } else {
        apply_action(replay(s, ops.drop_last()), ops.last())
    }
}

/// The chat that an action is about.
pub open spec fn subject(a: Action) -> i64 {
    match a {
        Action::Add(id) => id,
        Action::Remove(id) => id,
    }
}

/// The last action in `ops` about `id`, if there is one.
pub open spec fn last_action_on(ops: Seq<Action>, id: i64) -> Option<Action>
    decreases ops.len(),
{
    if ops.len() == 0 {
        None
    } else if subject(ops.last()) == id {
        Some(ops.last())
    } else {
        last_action_on(ops.drop_last(), id)
    }
}

/// Replaying a sequence of actions gives the set in which a chat is a member
/// exactly when the last action about it added it, or, where no action is
/// about it, when it was a member at the start. Adding a member again and
/// removing a chat that is absent change nothing.
pub proof fn lemma_replay_membership(s: Set<i64>, ops: Seq<Action>, id: i64)
    ensures
        replay(s, ops).contains(id) == match last_action_on(ops, id) {
            Some(Action::Add(_)) => true,
            Some(Action::Remove(_)) => false,
            None => s.contains(id),
        },
    decreases ops.len(),
{
    if ops.len() > 0 {
        lemma_replay_membership(s, ops.drop_last(), id);
    }
}

/// The JSON text that serde_json writes for a sequence of integers.
pub uninterp spec fn ids_json(ids: Seq<i64>) -> Seq<char>;

/// The integers that serde_json reads from a JSON array of integers, if the
/// text is one.
pub uninterp spec fn ids_of_json(text: Seq<char>) -> Option<Seq<i64>>;

/// Relies on `serde_json::to_string`, which writes the integers as a JSON
/// array. Serialising a vector of integers has no way to fail.
#[verifier::external_body]
fn encode_ids(ids: &Vec<i64>) -> (r: String)
    ensures
        r@ == ids_json(ids@),
{
    serde_json::to_string(ids).unwrap()
}

/// Relies on `serde_json::from_str`, which reads a JSON array of integers
/// and fails on any other text.
#[verifier::external_body]
fn decode_ids(text: &str) -> (r: Option<Vec<i64>>)
    ensures
        ids_of_json(text@) == match r {
            Some(v) => Some(v@),
            None => None::<Seq<i64>>,
        },
{
    serde_json::from_str::<Vec<i64>>(text).ok()
}

/// The set of subscribed chats.
///
/// The chats are kept in a vector without repetitions; the order in which
/// they stand carries no meaning.
pub struct Registry {
    ids: Vec<i64>,
}

impl View for Registry {
    type V = Set<i64>;

    /// The set of subscribed chats.
    open spec fn view(&self) -> Set<i64> {
        self.listing().to_set()
    }
}

impl Registry {
    /// The chats in the order in which they are stored.
    pub closed spec fn listing(&self) -> Seq<i64> {
        self.ids@
    }

    pub open spec fn wf(&self) -> bool {
        self.listing().no_duplicates()
    }

    /// An empty registry.
    pub fn new() -> (r: Registry)
        ensures
            r.wf(),
            r@ == Set::<i64>::empty(),
            r.listing() == Seq::<i64>::empty(),
    {
        let r = Registry { ids: Vec::new() };
        assert(r@ =~= Set::<i64>::empty());
        r
    }

    /// Whether `id` is subscribed.
    pub fn contains(&self, id: i64) -> (r: bool)
        ensures
            r == self@.contains(id),
    {
        let mut i: usize = 0;
        while i < self.ids.len()
            invariant
                0 <= i <= self.ids@.len(),
                forall|j: int| 0 <= j < i ==> self.ids@[j] != id,
            decreases self.ids@.len() - i,
        {
            if self.ids[i] == id {
                assert(self.ids@.to_set().contains(self.ids@[i as int]));
                return true;
            }
            i = i + 1;
        }
        proof {
            if self.ids@.to_set().contains(id) {
                let j = choose|j: int| 0 <= j < self.ids@.len() && self.ids@[j] == id;
                assert(self.ids@[j] == id);
            }
        }
        false
    }

    /// The position of `id` in the listing, if it is subscribed.
    fn position(&self, id: i64) -> (r: Option<usize>)
        ensures
            match r {
                Some(i) => i < self.listing().len() && self.listing()[i as int] == id,
                None => !self@.contains(id),
            },
    {
        let mut i: usize = 0;
        while i < self.ids.len()
            invariant
                0 <= i <= self.ids@.len(),
                forall|j: int| 0 <= j < i ==> self.ids@[j] != id,
            decreases self.ids@.len() - i,
        {
            if self.ids[i] == id {
                return Some(i);
            }
            i = i + 1;
        }
        proof {
            if self.ids@.to_set().contains(id) {
                let j = choose|j: int| 0 <= j < self.ids@.len() && self.ids@[j] == id;
                assert(self.ids@[j] == id);
            }
        }
        None
    }

    /// Subscribes `id`. Returns whether it was newly added; a chat that is
    /// already subscribed leaves the registry as it was.
    pub fn add(&mut self, id: i64) -> (r: bool)
        requires
            old(self).wf(),
        ensures
            final(self).wf(),
            final(self)@ == old(self)@.insert(id),
            r == !old(self)@.contains(id),
            !r ==> final(self).listing() == old(self).listing(),
    {
        if self.contains(id) {
            return false;
        }
        let ghost before = self.ids@;
        self.ids.push(id);
        proof {
            assert(self.ids@ == before.push(id));
            assert forall|a: int, b: int| 0 <= a < b < self.ids@.len() implies self.ids@[a]
                != self.ids@[b] by {
                if b == before.len() {
                    assert(before.to_set().contains(before[a]));
                }
            }
            assert(self.ids@.to_set() =~= before.to_set().insert(id)) by {
                assert forall|x: i64| self.ids@.to_set().contains(x) implies before.to_set().insert(
                    id,
                ).contains(x) by {
                    let j = choose|j: int| 0 <= j < self.ids@.len() && self.ids@[j] == x;
                    if j < before.len() {
                        assert(before[j] == x);
                    }
                }
                assert forall|x: i64| before.to_set().insert(id).contains(x) implies self.ids@.to_set().contains(x) by {
                    if x == id {
                        assert(self.ids@[before.len() as int] == id);
                    } else {
                        let j = choose|j: int| 0 <= j < before.len() && before[j] == x;
                        assert(self.ids@[j] == x);
                    }
                }
            }
        }
        true
    }

    /// Unsubscribes `id`. Returns whether it was subscribed; removing a chat
    /// that is absent leaves the registry as it was.
    pub fn remove(&mut self, id: i64) -> (r: bool)
        requires
            old(self).wf(),
        ensures
            final(self).wf(),
            final(self)@ == old(self)@.remove(id),
            r == old(self)@.contains(id),
            !r ==> final(self).listing() == old(self).listing(),
    {
        match self.position(id) {
            None => {
                assert(self@ =~= self@.remove(id));
                false
            },
            Some(i) => {
                let ghost before = self.ids@;
                self.ids.remove(i);
                proof {
                    assert(self.ids@ == before.remove(i as int));
                    assert(before.to_set().contains(before[i as int]));
                    assert forall|a: int, b: int| 0 <= a < b < self.ids@.len() implies self.ids@[a]
                        != self.ids@[b] by {
                        let a0 = if a < i { a } else { a + 1 };
                        let b0 = if b < i { b } else { b + 1 };
                        assert(self.ids@[a] == before[a0]);
                        assert(self.ids@[b] == before[b0]);
                    }
                    assert(self.ids@.to_set() =~= before.to_set().remove(id)) by {
                        assert forall|x: i64| self.ids@.to_set().contains(x) implies before.to_set().remove(
                            id,
                        ).contains(x) by {
                            let j = choose|j: int| 0 <= j < self.ids@.len() && self.ids@[j] == x;
                            let j0 = if j < i { j } else { j + 1 };
                            assert(before[j0] == x);
                            assert(j0 != i);
                        }
                        assert forall|x: i64| before.to_set().remove(id).contains(x) implies self.ids@.to_set().contains(x) by {
                            let j = choose|j: int| 0 <= j < before.len() && before[j] == x;
                            assert(j != i);
                            let k = if j < i { j } else { j - 1 };
                            assert(self.ids@[k] == x);
                        }
                    }
                }
                true
            },
        }
    }
    /// Carries out one action. Returns whether the set changed, that is,
    /// whether the new set has to be saved.
    pub fn apply(&mut self, action: Action) -> (r: bool)
        requires
            old(self).wf(),
        ensures
            final(self).wf(),
            final(self)@ == apply_action(old(self)@, action),
            r == (final(self)@ != old(self)@),
            !r ==> final(self).listing() == old(self).listing(),
    {
        match action {
            Action::Add(id) => {
                let r = self.add(id);
                proof {
                    if r {
                        assert(self@.contains(id) && !old(self)@.contains(id));
                    }
                }
                r
            },
            Action::Remove(id) => {
                let r = self.remove(id);
                proof {
                    if r {
                        assert(!self@.contains(id) && old(self)@.contains(id));
                    }
                }
                r
            },
        }
    }

    /// Carries out the actions in order.
    pub fn apply_all(&mut self, actions: &Vec<Action>)
        requires
            old(self).wf(),
        ensures
            final(self).wf(),
            final(self)@ == replay(old(self)@, actions@),
    {
        let ghost start = self@;
        let mut i: usize = 0;
        while i < actions.len()
            invariant
                0 <= i <= actions@.len(),
                self.wf(),
                start == old(self)@,
                self@ == replay(start, actions@.subrange(0, i as int)),
            decreases actions@.len() - i,
        {
            let ghost done = actions@.subrange(0, i as int);
            self.apply(actions[i]);
            proof {
                let next = actions@.subrange(0, i + 1);
                assert(next.drop_last() =~= done);
                assert(next.last() == actions@[i as int]);
            }
            i = i + 1;
        }
        assert(actions@.subrange(0, actions@.len() as int) =~= actions@);
    }

    /// A copy of the subscribed chats, each once.
    pub fn snapshot(&self) -> (r: Vec<i64>)
        requires
            self.wf(),
        ensures
            r@ == self.listing(),
            r@.no_duplicates(),
            r@.to_set() == self@,
    {
        self.ids.clone()
    }

    /// The number of subscribed chats.
    pub fn len(&self) -> (r: usize)
        requires
            self.wf(),
        ensures
            r == self@.len(),
    {
        proof {
            self.ids@.unique_seq_to_set();
        }
        self.ids.len()
    }

    /// The saved form of the set: the listing as JSON.
    pub fn to_json(&self) -> (r: String)
        ensures
            r@ == ids_json(self.listing()),
    {
        encode_ids(&self.ids)
    }

    /// The registry that a saved form holds, or `None` where the text is not
    /// a JSON array of integers.
    pub fn from_json(text: &str) -> (r: Option<Registry>)
        ensures
            match ids_of_json(text@) {
                Some(ids) => r is Some && r->0.wf() && r->0@ == ids.to_set(),
                None => r is None,
            },
    {
        match decode_ids(text) {
            Some(ids) => Some(Registry::from_ids(&ids)),
            None => None,
        }
    }

    /// A registry holding the given chats; repetitions collapse.
    pub fn from_ids(ids: &Vec<i64>) -> (r: Registry)
        ensures
            r.wf(),
            r@ == ids@.to_set(),
    {
        let mut r = Registry::new();
        let mut i: usize = 0;
        while i < ids.len()
            invariant
                0 <= i <= ids@.len(),
                r.wf(),
                r@ == ids@.subrange(0, i as int).to_set(),
            decreases ids@.len() - i,
        {
            let ghost before = r@;
            r.add(ids[i]);
            proof {
                let a = ids@.subrange(0, i as int);
                let b = ids@.subrange(0, i + 1);
                assert(b =~= a.push(ids@[i as int]));
                a.lemma_push_to_set_commute(ids@[i as int]);
            }
            i = i + 1;
        }
        assert(ids@.subrange(0, ids@.len() as int) =~= ids@);
        r
    }
}

} // verus!
