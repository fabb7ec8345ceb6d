//! The brokers of a cluster, and the choice of one of them for each request.
//!
//! A strategy picks an index into the list of brokers. The constant strategy
//! always picks the first. The round-robin strategy keeps a counter that is
//! shared by all callers and moves it in one atomic step per call;
//! [`served`] and [`next_index`] say which index a value of the counter
//! gives and which value follows it, and [`lemma_round_robin`] says what
//! calls that follow one another get.

use std::sync::atomic::AtomicUsize;
use std::sync::atomic::Ordering;
use std::sync::Arc;
use vstd::prelude::*;

verus! {

/// The index that is served when the counter holds `val`: the value itself,
/// or the first index where the value has run past the list.
pub open spec fn served_index(val: usize, max_val: usize) -> usize {
    if val >= max_val {
        0
    } else {
        val
    }
}

/// The value that follows `val`: one more, or 1 where `val` has run past the
/// list and the first index was served.
pub open spec fn following_index(val: usize, max_val: usize) -> usize {
    if val >= max_val {
        1
    } else {
        (val + 1) as usize
    }
}

/// The index that is served when the counter holds `val`.
#[verifier::when_used_as_spec(served_index)]
pub fn served(val: usize, max_val: usize) -> (idx: usize)
    ensures
        idx == served_index(val, max_val),
        max_val > 0 ==> idx < max_val,
{
    if val >= max_val {
        0
    } else {
        val
    }
}

/// The value that the counter takes after it held `val`.
#[verifier::when_used_as_spec(following_index)]
pub fn next_index(val: usize, max_val: usize) -> (new_val: usize)
    ensures
        new_val == following_index(val, max_val),
{
    if val >= max_val {
        1
    } else {
        val + 1
    }
}

/// The value of a counter that started at 0, after `calls` calls that
/// followed one another.
pub open spec fn counter_after(max_val: usize, calls: nat) -> usize
    decreases calls,
{
    if calls == 0 {
        0
    } else {
        following_index(counter_after(max_val, (calls - 1) as nat), max_val)
    }
}

/// Calls that follow one another on a fresh counter go through the list in
/// order and start again at its head: call number `call`, counted from 0,
/// is served the index `call % max_val`. So each of the first `max_val`
/// calls gets an index of its own, the call after them gets the first index
/// again, and a list of one broker always gives that broker.
pub proof fn lemma_round_robin(max_val: usize, call: nat)
    requires
        max_val > 0,
    ensures
        served_index(counter_after(max_val, call), max_val) == (call as int) % (max_val as int),
        call > 0 ==> counter_after(max_val, call) == (call - 1) % (max_val as int) + 1,
    decreases call,
{
    let m = max_val as int;
    reveal_with_fuel(counter_after, 3);
    if call == 0 {
        assert(0int % m == 0) by (nonlinear_arith)
            requires
                m > 0,
        ;
    } else if call == 1 {
        assert(0int % m == 0) by (nonlinear_arith)
            requires
                m > 0,
        ;
        if m == 1 {
            assert(1int % m == 0) by (nonlinear_arith)
                requires
                    m == 1,
            ;
        } else {
            assert(1int % m == 1) by (nonlinear_arith)
                requires
                    m > 1,
            ;
        }
    } else {
        lemma_round_robin(max_val, (call - 1) as nat);
        let before = (call - 2) % m;
        let c = call as int;
        assert(0 <= before < m) by (nonlinear_arith)
            requires
                m > 0,
                before == (c - 2) % m,
        ;
        assert((c - 1) % m == (if before + 1 == m {
            0
        } else {
            before + 1
        })) by (nonlinear_arith)
            requires
                m > 0,
                before == (c - 2) % m,
        ;
        assert(c % m == (if (c - 1) % m + 1 == m {
            0
        } else {
            (c - 1) % m + 1
        })) by (nonlinear_arith)
            requires
                m > 0,
        ;
    }
}

/// `AtomicUsize::fetch_update` with sequentially consistent ordering: std
/// reads the counter, computes `next_index` of what it read, and swaps the
/// new value in if the counter still holds what was read, again and again
/// until the swap succeeds. The value that was replaced is handed back;
/// which value that is depends on the calls that came before, on this thread
/// and on others, so nothing is promised of it.
#[verifier::external_body]
fn advance(index: &AtomicUsize, max_val: usize) -> (val: usize) {
    let moved = index.fetch_update(
        Ordering::SeqCst,
        Ordering::SeqCst,
        |val| Some(next_index(val, max_val)),
    );
    match moved {
        Ok(val) => val,
        Err(val) => val,
    }
}

/// Moves the counter on by one call and hands back the index that the call
/// is served: whatever the counter held, the index lies in a list of
/// `max_val` items if there is one.
pub fn get_and_increment(index: &AtomicUsize, max_val: usize) -> (idx: usize)
    ensures
        idx == 0 || idx < max_val,
{
    let val = advance(index, max_val);
    served(val, max_val)
}

/// Something that names the broker for the next request.
pub trait BrokersPool {
    /// The broker for the next request.
    fn broker(&self) -> &String;
}

/// The way in which a broker is picked from a list.
pub enum SelectionStategy {
    /// Always the first.
    Constant,
    /// One after the other, by a counter that all callers share.
    RoundRobin(Arc<AtomicUsize>),
}

impl SelectionStategy {
    /// Picks an item of `list`: the first under the constant strategy, and
    /// under round robin the item that the shared counter gives.
    pub fn select<'a, T>(&self, list: &'a Vec<T>) -> (item: &'a T)
        requires
            list@.len() > 0,
        ensures
            exists|i: int| 0 <= i < list@.len() && *item == list@[i],
            self is Constant ==> *item == list@[0],
    {
        match self {
            SelectionStategy::RoundRobin(index) => {
                let idx = get_and_increment(index, list.len());
                &list[idx]
            },
            SelectionStategy::Constant => &list[0],
        }
    }

    /// The round-robin strategy, with a counter of its own that starts at 0.
    pub fn round_robin() -> (s: SelectionStategy)
        ensures
            s is RoundRobin,
    {
        SelectionStategy::RoundRobin(Arc::new(AtomicUsize::new(0)))
    }

    /// The constant strategy.
    pub fn constant() -> (s: SelectionStategy)
        ensures
            s is Constant,
    {
        SelectionStategy::Constant
    }

    /// The strategy for a list when none is asked for: constant for a list
    /// of one item, round robin for any other.
    pub fn default_for<T>(list: &Vec<T>) -> (s: SelectionStategy)
        ensures
            list@.len() == 1 ==> s is Constant,
            list@.len() != 1 ==> s is RoundRobin,
    {
        if list.len() == 1 {
            SelectionStategy::constant()
        } else {
            SelectionStategy::round_robin()
        }
    }
}

/// A list of brokers that does not change, with the strategy that picks from
/// it. The list is never empty.
pub struct StaticPool {
    brokers: Vec<String>,
    selection: SelectionStategy,
}

impl StaticPool {
    #[verifier::type_invariant]
    spec fn has_brokers(self) -> bool {
        self.brokers@.len() > 0
    }

    /// The brokers of the pool, in order.
    pub closed spec fn brokers(self) -> Seq<String> {
        self.brokers@
    }

    /// Whether the pool always names its first broker.
    pub closed spec fn is_constant(self) -> bool {
        self.selection is Constant
    }

    /// The pool of `brokers` under the strategy `stategy`.
    pub fn new(brokers: Vec<String>, stategy: SelectionStategy) -> (p: StaticPool)
        requires
            brokers@.len() > 0,
        ensures
            p.brokers() == brokers@,
            p.is_constant() == (stategy is Constant),
    {
        StaticPool { brokers, selection: stategy }
    }
}

impl BrokersPool for StaticPool {
    /// One of the brokers of the pool: the first under the constant
    /// strategy.
    fn broker(&self) -> (b: &String)
        ensures
            exists|i: int| 0 <= i < self.brokers().len() && *b == self.brokers()[i],
            self.is_constant() ==> *b == self.brokers()[0],
    {
        proof {
            use_type_invariant(self);
        }
        let b = self.selection.select(&self.brokers);
        proof {
            let i = choose|i: int| 0 <= i < self.brokers@.len() && *b == self.brokers@[i];
            assert(*b == self.brokers()[i]);
        }
        b
    }
}

} // verus!
