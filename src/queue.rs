//! Pending chat events, kept in arrival order and taken out per user, so
//! that each user's events are applied in the order they were submitted
//! while different users do not wait on each other.
use vstd::prelude::*;

verus! {

/// The events of `user_id` among `s`, in order.
pub open spec fn pending<E>(s: Seq<(u64, E)>, user_id: u64) -> Seq<E>
    decreases s.len(),
{
    if s.len() == 0 {
        Seq::empty()
    } else if s[0].0 == user_id {
        seq![s[0].1] + pending(s.drop_first(), user_id)
    } else {
        pending(s.drop_first(), user_id)
    }
}

pub struct UserQueue<E> {
    items: Vec<(u64, E)>,
}

impl<E> View for UserQueue<E> {
    type V = Seq<(u64, E)>;

    closed spec fn view(&self) -> Seq<(u64, E)> {
        self.items@
    }
}

/// Appending an event of user `u` adds it after that user's earlier events
/// and leaves every other user's events as they were.
pub proof fn lemma_push_pending<E>(s: Seq<(u64, E)>, u: u64, e: E, v: u64)
    ensures
        pending(s.push((u, e)), u) == pending(s, u).push(e),
        v != u ==> pending(s.push((u, e)), v) == pending(s, v),
    decreases s.len(),
{
    if s.len() == 0 {
        assert(s.push((u, e)).drop_first() =~= s);
        assert(pending(s, u) =~= Seq::<E>::empty());
        assert(pending(s, v) =~= Seq::<E>::empty());
        assert(pending(s.push((u, e)), u) =~= seq![e]);
    } else {
        lemma_push_pending(s.drop_first(), u, e, v);
        assert(s.push((u, e)).drop_first() =~= s.drop_first().push((u, e)));
        if s[0].0 == u {
            assert(pending(s.push((u, e)), u) =~= pending(s, u).push(e));
        } else if s[0].0 == v {
            assert(pending(s.push((u, e)), v) =~= pending(s, v));
        }
    }
}

proof fn lemma_remove_first_of<E>(s: Seq<(u64, E)>, i: int, u: u64, v: u64)
    requires
        0 <= i < s.len(),
        s[i].0 == u,
        forall|j: int| 0 <= j < i ==> s[j].0 != u,
    ensures
        pending(s, u).len() > 0,
        pending(s, u)[0] == s[i].1,
        pending(s.remove(i), u) == pending(s, u).drop_first(),
        v != u ==> pending(s.remove(i), v) == pending(s, v),
    decreases i,
{
    if i == 0 {
        assert(s.remove(0) =~= s.drop_first());
        assert(pending(s, u) =~= seq![s[0].1] + pending(s.drop_first(), u));
        assert(pending(s, u).drop_first() =~= pending(s.drop_first(), u));
    } else {
        let t = s.drop_first();
        assert forall|j: int| 0 <= j < i - 1 implies t[j].0 != u by {
            assert(t[j] == s[j + 1]);
        }
        lemma_remove_first_of(t, i - 1, u, v);
        assert(s.remove(i).drop_first() =~= t.remove(i - 1));
        assert(s.remove(i)[0] == s[0]);
        if s[0].0 == v {
            assert(pending(s.remove(i), v) =~= pending(s, v));
        }
    }
}

/// Events of other users appended behind `s` do not change what is pending
/// for `u`.
proof fn lemma_others_keep_pending<E>(s: Seq<(u64, E)>, others: Seq<(u64, E)>, u: u64)
    requires
        forall|j: int| 0 <= j < others.len() ==> others[j].0 != u,
    ensures
        pending(s + others, u) == pending(s, u),
    decreases others.len(),
{
    if others.len() == 0 {
        assert(s + others =~= s);
    } else {
        let last = others.last();
        lemma_others_keep_pending(s, others.drop_last(), u);
        assert(s + others =~= (s + others.drop_last()).push(last));
        lemma_push_pending(s + others.drop_last(), last.0, last.1, u);
    }
}

/// Per-user order: two events of one user, submitted one after the other
/// with any events of other users in between, are pending for that user in
/// the order they were submitted, behind the user's earlier events.
pub proof fn lemma_same_user_in_order<E>(
    s: Seq<(u64, E)>,
    u: u64,
    first: E,
    between: Seq<(u64, E)>,
    second: E,
)
    requires
        forall|j: int| 0 <= j < between.len() ==> between[j].0 != u,
    ensures
        pending((s.push((u, first)) + between).push((u, second)), u) == pending(s, u).push(
            first,
        ).push(second),
{
    lemma_push_pending(s, u, first, u);
    lemma_others_keep_pending(s.push((u, first)), between, u);
    lemma_push_pending(s.push((u, first)) + between, u, second, u);
}

impl<E> UserQueue<E> {
    pub fn new() -> (r: UserQueue<E>)
        ensures
            r@ == Seq::<(u64, E)>::empty(),
    {
        UserQueue { items: Vec::new() }
    }

    pub fn len(&self) -> (r: usize)
        ensures
            r == self@.len(),
    {
        self.items.len()
    }

    /// Adds an event of `user_id` behind all pending events.
    pub fn push(&mut self, user_id: u64, event: E)
        ensures
            final(self)@ == old(self)@.push((user_id, event)),
            pending(final(self)@, user_id) == pending(old(self)@, user_id).push(event),
            forall|v: u64|
                v != user_id ==> pending(final(self)@, v) == #[trigger] pending(old(self)@, v),
    {
        proof {
            assert forall|v: u64| v != user_id implies pending(old(self)@.push((user_id, event)), v)
                == #[trigger] pending(old(self)@, v) by {
                lemma_push_pending(old(self)@, user_id, event, v);
            }
            lemma_push_pending(old(self)@, user_id, event, user_id);
        }
        self.items.push((user_id, event));
    }

    /// The user of the oldest pending event.
    pub fn next_user(&self) -> (r: Option<u64>)
        ensures
            self@.len() == 0 ==> r is None,
            self@.len() > 0 ==> r == Some(self@[0].0),
    {
        if self.items.len() == 0 {
            None
        } else {
            Some(self.items[0].0)
        }
    }

    /// Takes out the oldest pending event of `user_id`; the events of other
    /// users stay as they are.
    pub fn pop_for(&mut self, user_id: u64) -> (r: Option<E>)
        ensures
            match r {
                None => pending(old(self)@, user_id).len() == 0 && final(self)@ == old(self)@,
                Some(e) => {
                    &&& pending(old(self)@, user_id).len() > 0
                    &&& e == pending(old(self)@, user_id)[0]
                    &&& pending(final(self)@, user_id) == pending(old(self)@, user_id).drop_first()
                },
            },
            forall|v: u64|
                v != user_id ==> pending(final(self)@, v) == #[trigger] pending(old(self)@, v),
    {
        let mut i: usize = 0;
        while i < self.items.len()
            invariant
                i <= self.items.len(),
                self@ == old(self)@,
                forall|j: int| 0 <= j < i ==> self.items@[j].0 != user_id,
            decreases self.items.len() - i,
        {
            if self.items[i].0 == user_id {
                let ghost s = self.items@;
                proof {
                    lemma_remove_first_of(s, i as int, user_id, user_id);
                    assert forall|v: u64| v != user_id implies pending(s.remove(i as int), v)
                        == #[trigger] pending(s, v) by {
                        lemma_remove_first_of(s, i as int, user_id, v);
                    }
                }
                let (_, e) = self.items.remove(i);
                return Some(e);
            }
            i = i + 1;
        }
        proof {
            lemma_none_pending(self.items@, user_id);
        }
        None
    }
}

proof fn lemma_none_pending<E>(s: Seq<(u64, E)>, u: u64)
    requires
        forall|j: int| 0 <= j < s.len() ==> s[j].0 != u,
    ensures
        pending(s, u).len() == 0,
    decreases s.len(),
{
    if s.len() > 0 {
        let t = s.drop_first();
        assert forall|j: int| 0 <= j < t.len() implies t[j].0 != u by {
            assert(t[j] == s[j + 1]);
        }
        lemma_none_pending(t, u);
    }
}

} // verus!
