//! The ordered collection of live subscribers' notification senders.
use std::sync::mpsc::Sender;
use vstd::prelude::*;

verus! {

#[verifier::external_type_specification]
#[verifier::external_body]
#[verifier::reject_recursive_types(T)]
pub struct ExSender<T>(std::sync::mpsc::Sender<T>);

/// Relies on `std::sync::mpsc::Sender::send`, which fails when the receiving
/// half has been dropped. Whether it is still there depends on another
/// thread, so nothing is promised of the outcome.
#[verifier::external_body]
fn try_send(tx: &Sender<()>) -> (delivered: bool) {
    tx.send(()).is_ok()
}

/// The entries of `s` whose flag in `f` is set, in their order.
pub open spec fn survivors<T>(s: Seq<T>, f: Seq<bool>) -> Seq<T>
    decreases s.len(),
{
    if s.len() == 0 || f.len() == 0 {
        Seq::empty()
    } else {
        let rest = survivors(s.drop_last(), f.drop_last());
        if f.last() {
            rest.push(s.last())
        } else {
            rest
        }
    }
}

/// How many flags are unset.
pub open spec fn failures(f: Seq<bool>) -> nat
    decreases f.len(),
{
    if f.len() == 0 {
        0
    } else {
        failures(f.drop_last()) + if f.last() {
            0nat
        } else {
            1nat
        }
    }
}

/// The positions of the set flags, ascending.
pub open spec fn kept_positions(f: Seq<bool>) -> Seq<int>
    decreases f.len(),
{
    if f.len() == 0 {
        Seq::empty()
    } else {
        let rest = kept_positions(f.drop_last());
        if f.last() {
            rest.push(f.len() - 1)
        } else {
            rest
        }
    }
}

/// The entries after registering each of `late`, one at a time, in order.
pub open spec fn register_each<T>(s: Seq<T>, late: Seq<T>) -> Seq<T>
    decreases late.len(),
{
    if late.len() == 0 {
        s
    } else {
        register_each(s, late.drop_last()).push(late.last())
    }
}

/// A broadcast over entries `s` whose sends came out as `f` leaves exactly
/// the entries whose send succeeded: `s.len()` less the failed sends, each
/// taken from a position of `s` whose send succeeded, in their original
/// relative order.
pub proof fn lemma_broadcast_keeps_successes<T>(s: Seq<T>, f: Seq<bool>)
    requires
        f.len() == s.len(),
    ensures
        survivors(s, f).len() + failures(f) == s.len(),
        kept_positions(f).len() == survivors(s, f).len(),
        forall|k: int|
            #![trigger kept_positions(f)[k]]
            0 <= k < kept_positions(f).len() ==> 0 <= kept_positions(f)[k] < s.len()
                && f[kept_positions(f)[k]] && survivors(s, f)[k] == s[kept_positions(f)[k]],
        forall|j: int, k: int|
            0 <= j < k < kept_positions(f).len() ==> kept_positions(f)[j] < kept_positions(f)[k],
        forall|i: int|
            0 <= i < s.len() && f[i] ==> exists|k: int|
                0 <= k < kept_positions(f).len() && kept_positions(f)[k] == i,
    decreases s.len(),
{
    if s.len() > 0 {
        let s0 = s.drop_last();
        let f0 = f.drop_last();
        lemma_broadcast_keeps_successes(s0, f0);
        let n = s.len() - 1;
        assert forall|i: int| 0 <= i < s.len() && f[i] implies exists|k: int|
            0 <= k < kept_positions(f).len() && kept_positions(f)[k] == i by {
            if i < n {
                assert(f0[i]);
                let k0 = choose|k: int| 0 <= k < kept_positions(f0).len() && kept_positions(f0)[k] == i;
                assert(kept_positions(f)[k0] == i);
            } else {
                assert(kept_positions(f)[kept_positions(f).len() - 1] == i);
            }
        }
    }
}

/// Registration and broadcast share one critical section, so a registration
/// lands either in `pre`, the entries the broadcast sees, or in `late`,
/// after it. Either way no entry is lost or doubled: the registry then holds
/// the survivors of `pre` followed by `late`, and its size is the number of
/// survivors plus the number of late registrations.
pub proof fn lemma_registration_around_broadcast<T>(pre: Seq<T>, f: Seq<bool>, late: Seq<T>)
    requires
        f.len() == pre.len(),
    ensures
        register_each(survivors(pre, f), late) == survivors(pre, f) + late,
        register_each(survivors(pre, f), late).len() == pre.len() - failures(f) + late.len(),
    decreases late.len(),
{
    lemma_broadcast_keeps_successes(pre, f);
    if late.len() > 0 {
        lemma_registration_around_broadcast(pre, f, late.drop_last());
        assert(survivors(pre, f) + late == (survivors(pre, f) + late.drop_last()).push(late.last()));
    } else {
        assert(survivors(pre, f) + late == survivors(pre, f));
    }
}

/// The subscriber registry: one notification sender per live subscriber, in
/// the order they registered. An entry may be stale (its receiver gone) until
/// the next broadcast removes it.
pub struct Registry {
    entries: Vec<Sender<()>>,
}

impl View for Registry {
    type V = Seq<Sender<()>>;

    closed spec fn view(&self) -> Seq<Sender<()>> {
        self.entries@
    }
}

impl Registry {
    /// An empty registry.
    pub fn new() -> (r: Registry)
        ensures
            r@ == Seq::<Sender<()>>::empty(),
    {
        Registry { entries: Vec::new() }
    }

    /// The number of entries.
    pub fn len(&self) -> (r: usize)
        ensures
            r == self@.len(),
    {
        self.entries.len()
    }

    /// Appends a new subscriber's sender.
    pub fn register(&mut self, tx: Sender<()>)
        ensures
            final(self)@ == old(self)@.push(tx),
    {
        self.entries.push(tx);
    }

    /// Keeps exactly the entries whose flag is set, in their order.
    pub fn compact(&mut self, delivered: &Vec<bool>)
        requires
            delivered@.len() == old(self)@.len(),
        ensures
            final(self)@ == survivors(old(self)@, delivered@),
    {
        let ghost s = self.entries@;
        let ghost f = delivered@;
        let mut pending: Vec<Sender<()>> = Vec::new();
        std::mem::swap(&mut pending, &mut self.entries);
        let n = pending.len();
        let mut i: usize = 0;
        while i < n
            invariant
                n == s.len(),
                f.len() == s.len(),
                f == delivered@,
                0 <= i <= n,
                pending@ == s.subrange(i as int, n as int),
                self.entries@ == survivors(s.subrange(0, i as int), f.subrange(0, i as int)),
            decreases n - i,
        {
            let tx = pending.remove(0);
            let keep = delivered[i];
            proof {
                assert(s.subrange(0, i + 1).drop_last() == s.subrange(0, i as int));
                assert(f.subrange(0, i + 1).drop_last() == f.subrange(0, i as int));
                assert(pending@ == s.subrange(i + 1, n as int));
            }
            if keep {
                self.entries.push(tx);
            }
            i = i + 1;
        }
        proof {
            assert(s.subrange(0, n as int) == s);
            assert(f.subrange(0, n as int) == f);
        }
    }

    /// Sends one notification to every entry, then keeps exactly the entries
    /// whose send succeeded, in their order. Returns the outcome of each send.
    pub fn broadcast_and_compact(&mut self) -> (delivered: Vec<bool>)
        ensures
            delivered@.len() == old(self)@.len(),
            final(self)@ == survivors(old(self)@, delivered@),
    {
        let mut delivered: Vec<bool> = Vec::new();
        let mut i: usize = 0;
        while i < self.entries.len()
            invariant
                0 <= i <= self.entries@.len(),
                delivered@.len() == i,
            decreases self.entries@.len() - i,
        {
            let ok = try_send(&self.entries[i]);
            delivered.push(ok);
            i = i + 1;
        }
        self.compact(&delivered);
        delivered
    }
}

} // verus!
