//! Sending one logical call to the members of a cluster: in turn until one
//! answers well, or to each of them.
//!
//! Members are named by their position in the configured endpoint list.

use rand::seq::SliceRandom;
use vstd::prelude::*;

verus! {

/// The positions `0..n` in their configured order.
pub open spec fn configured_order(n: nat) -> Seq<usize> {
    Seq::new(n, |i: int| i as usize)
}

/// Whether `order` lists each of the positions `0..n` exactly once: whether
/// it holds what the configured order holds, each position as often.
pub open spec fn is_permutation(order: Seq<usize>, n: nat) -> bool {
    order.to_multiset() == configured_order(n).to_multiset()
}

/// What it means to list each of the positions `0..n` exactly once: the list
/// has `n` places, holds only positions below `n`, holds none of them twice,
/// and holds every one of them.
pub proof fn lemma_permutation(order: Seq<usize>, n: nat)
    requires
        is_permutation(order, n),
        n <= usize::MAX,
    ensures
        order.len() == n,
        forall|i: int| 0 <= i < order.len() ==> (#[trigger] order[i]) < n,
        order.no_duplicates(),
        forall|member: usize| member < n ==> order.contains(member),
{
    broadcast use vstd::seq_lib::to_multiset_len, vstd::seq_lib::to_multiset_contains;

    let configured = configured_order(n);
    assert(order.len() == order.to_multiset().len());
    assert forall|i: int| 0 <= i < order.len() implies (#[trigger] order[i]) < n by {
        assert(order.to_multiset().count(order[i]) > 0);
        assert(configured.contains(order[i]));
    }
    configured.lemma_multiset_has_no_duplicates();
    order.lemma_multiset_has_no_duplicates_conv();
    assert forall|member: usize| member < n implies order.contains(member) by {
        assert(configured[member as int] == member);
        assert(configured.to_multiset().count(member) > 0);
    }
}

/// Calls `SliceRandom::shuffle` with the generator of `rand::thread_rng`,
/// which the operating system seeds for each thread. The shuffle only swaps
/// elements, so whatever the generator yields, the vector holds afterwards
/// what it held before, each element as often as before. Which arrangement
/// comes out is left open.
#[verifier::external_body]
fn shuffle(order: &mut Vec<usize>)
    ensures
        final(order)@.to_multiset() == old(order)@.to_multiset(),
{
    order.shuffle(&mut rand::thread_rng());
}

/// The positions `0..n` in an order drawn afresh at every call.
pub fn shuffled_order(n: usize) -> (order: Vec<usize>)
    ensures
        is_permutation(order@, n as nat),
{
    let mut order: Vec<usize> = Vec::new();
    let mut i: usize = 0;
    while i < n
        invariant
            i <= n,
            order@ == configured_order(i as nat),
        decreases n - i,
    {
        order.push(i);
        i = i + 1;
    }
    shuffle(&mut order);
    order
}

/// A call in progress that goes from member to member until one answers
/// well. It holds the order in which the members are tried and the errors of
/// those that have failed.
pub struct FirstOk<E> {
    order: Vec<usize>,
    errors: Vec<E>,
}

/// What is to happen next in a call.
pub enum Step<T, E> {
    /// The request is to be sent to the member at this position, and what
    /// comes of it handed to `advance` of the state given along.
    Attempt(usize, FirstOk<E>),
    /// The call is over: the first good answer, or else every member's error,
    /// in the order in which the members were tried.
    Done(Result<T, Vec<E>>),
}

impl<E> FirstOk<E> {
    /// The order in which the members are tried.
    pub closed spec fn order(&self) -> Seq<usize> {
        self.order@
    }

    /// The errors of the members that have failed so far, in that order.
    pub closed spec fn errors(&self) -> Seq<E> {
        self.errors@
    }

    /// The position of the member that is being tried.
    pub open spec fn current(&self) -> usize {
        self.order()[self.errors().len() as int]
    }

    /// Every member is tried once, and one member is still being tried.
    pub open spec fn wf(&self) -> bool {
        &&& is_permutation(self.order(), self.order().len())
        &&& self.errors().len() < self.order().len() <= usize::MAX
    }

    /// Begins a call to a cluster of `endpoint_count` members, in an order
    /// drawn for this call.
    pub fn start<T>(endpoint_count: usize) -> (step: Step<T, E>)
        ensures
            match step {
                Step::Attempt(position, state) => {
                    &&& endpoint_count > 0
                    &&& state.wf()
                    &&& state.order().len() == endpoint_count
                    &&& state.errors() == Seq::<E>::empty()
                    &&& position == state.current()
                },
                Step::Done(result) => {
                    &&& endpoint_count == 0
                    &&& result matches Err(errors)
                    &&& errors@ == Seq::<E>::empty()
                },
            },
    {
        let order = shuffled_order(endpoint_count);
        proof {
            lemma_permutation(order@, endpoint_count as nat);
        }
        Self::start_in_order(order)
    }

    /// Begins a call that tries the members in the given order.
    pub fn start_in_order<T>(order: Vec<usize>) -> (step: Step<T, E>)
        requires
            is_permutation(order@, order@.len()),
        ensures
            match step {
                Step::Attempt(position, state) => {
                    &&& order@.len() > 0
                    &&& state.wf()
                    &&& state.order() == order@
                    &&& state.errors() == Seq::<E>::empty()
                    &&& position == state.current()
                },
                Step::Done(result) => {
                    &&& order@.len() == 0
                    &&& result matches Err(errors)
                    &&& errors@ == Seq::<E>::empty()
                },
            },
    {
        if order.len() == 0 {
            Step::Done(Err(Vec::new()))
        } else {
            let position = order[0];
            Step::Attempt(position, FirstOk { order, errors: Vec::new() })
        }
    }

    /// Takes what came of the attempt on the current member. A good answer
    /// ends the call with that answer. A failure is kept, and the call goes
    /// on to the next member in the order; after the last member it ends
    /// with all the failures.
    pub fn advance<T>(self, outcome: Result<T, E>) -> (step: Step<T, E>)
        requires
            self.wf(),
        ensures
            match outcome {
                Ok(answer) => step == Step::<T, E>::Done(Ok(answer)),
                Err(error) => if self.errors().len() + 1 == self.order().len() {
                    &&& step matches Step::Done(Err(errors))
                    &&& errors@ == self.errors().push(error)
                    &&& errors@.len() == self.order().len()
                } else {
                    &&& step matches Step::Attempt(position, state)
                    &&& state.wf()
                    &&& state.order() == self.order()
                    &&& state.errors() == self.errors().push(error)
                    &&& position == state.current()
                },
            },
    {
        match outcome {
            Ok(answer) => Step::Done(Ok(answer)),
            Err(error) => {
                let FirstOk { order, mut errors } = self;
                errors.push(error);
                if errors.len() == order.len() {
                    Step::Done(Err(errors))
                } else {
                    let position = order[errors.len()];
                    Step::Attempt(position, FirstOk { order, errors })
                }
            },
        }
    }
}

/// What a finished call that went from member to member amounts to, given
/// the order of the attempts and the errors met on the way: every error came
/// from the member in its place in the order, and the call ended either with
/// a good answer from the member after those, or with the errors of all
/// members.
pub open spec fn tried_in_turn<T, E, H: Fn(usize) -> Result<T, E>>(
    handler: H,
    order: Seq<usize>,
    errors: Seq<E>,
    result: Result<T, Vec<E>>,
) -> bool {
    &&& errors.len() <= order.len()
    &&& forall|j: int|
        0 <= j < errors.len() ==> call_ensures(handler, (#[trigger] order[j],), Err::<T, E>(errors[j]))
    &&& match result {
        Ok(answer) => errors.len() < order.len() && call_ensures(
            handler,
            (order[errors.len() as int],),
            Ok::<T, E>(answer),
        ),
        Err(all) => all@ == errors && errors.len() == order.len(),
    }
}

/// Tries the members of a cluster one at a time, in an order drawn for this
/// call, and returns the first good answer. A member that fails is not tried
/// again. If every member fails, the errors of all of them are returned in
/// the order of the attempts.
pub fn first_ok<T, E, H: Fn(usize) -> Result<T, E>>(endpoint_count: usize, handler: H) -> (result:
    Result<T, Vec<E>>)
    requires
        forall|position: usize| position < endpoint_count ==> call_requires(handler, (position,)),
    ensures
        exists|order: Seq<usize>, errors: Seq<E>|
            is_permutation(order, endpoint_count as nat) && tried_in_turn(
                handler,
                order,
                errors,
                result,
            ),
        result matches Err(errors) ==> errors@.len() == endpoint_count,
{
    let mut step: Step<T, E> = FirstOk::start(endpoint_count);
    let ghost first = step;
    proof {
        if let Step::Done(result) = first {
            assert(configured_order(0) =~= Seq::<usize>::empty());
            assert(tried_in_turn(handler, Seq::<usize>::empty(), Seq::<E>::empty(), result));
        }
    }
    loop
        invariant
            forall|position: usize|
                position < endpoint_count ==> call_requires(handler, (position,)),
            match step {
                Step::Attempt(position, state) => {
                    &&& state.wf()
                    &&& state.order().len() == endpoint_count
                    &&& position == state.current()
                    &&& forall|j: int|
                        0 <= j < state.errors().len() ==> call_ensures(
                            handler,
                            (#[trigger] state.order()[j],),
                            Err::<T, E>(state.errors()[j]),
                        )
                },
                Step::Done(result) => {
                    &&& exists|order: Seq<usize>, errors: Seq<E>|
                        is_permutation(order, endpoint_count as nat) && tried_in_turn(
                            handler,
                            order,
                            errors,
                            result,
                        )
                    &&& result matches Err(errors) ==> errors@.len() == endpoint_count
                },
            },
        decreases
            match step {
                Step::Attempt(_, state) => state.order().len() - state.errors().len(),
                Step::Done(_) => 0,
            },
    {
        match step {
            Step::Done(result) => {
                return result;
            },
            Step::Attempt(position, state) => {
                let ghost order = state.order();
                let ghost errors = state.errors();
                proof {
                    lemma_permutation(order, endpoint_count as nat);
                }
                let outcome = handler(position);
                let ghost came = outcome;
                proof {
                    if let Ok(answer) = came {
                        assert(tried_in_turn(handler, order, errors, Ok::<T, Vec<E>>(answer)));
                    }
                }
                step = state.advance(outcome);
                let ghost next = step;
                proof {
                    if let Step::Done(Err(all)) = next {
                        assert(tried_in_turn(handler, order, all@, Err::<T, Vec<E>>(all)));
                    }
                }
            },
        }
    }
}

/// No member is tried twice in one call: two attempts of a call that stand at
/// different places of its order go to different members.
pub proof fn lemma_no_member_tried_twice<E>(earlier: FirstOk<E>, later: FirstOk<E>)
    requires
        earlier.wf(),
        later.wf(),
        earlier.order() == later.order(),
        earlier.errors().len() < later.errors().len(),
    ensures
        earlier.current() != later.current(),
{
    lemma_permutation(earlier.order(), earlier.order().len());
}

/// A call that every member failed has tried every member: each member has
/// one place in the order of the attempts, and the error at that place is
/// its own.
pub proof fn lemma_failure_covers_every_member<T, E, H: Fn(usize) -> Result<T, E>>(
    handler: H,
    order: Seq<usize>,
    errors: Seq<E>,
    result: Result<T, Vec<E>>,
    n: nat,
    member: usize,
)
    requires
        is_permutation(order, n),
        n <= usize::MAX,
        tried_in_turn(handler, order, errors, result),
        result is Err,
        member < n,
    ensures
        errors.len() == n,
        exists|place: int|
            0 <= place < n && order[place] == member && call_ensures(
                handler,
                (member,),
                Err::<T, E>(#[trigger] errors[place]),
            ),
{
    lemma_permutation(order, n);
    assert(order.contains(member));
}

/// A call in progress that goes to every member in the configured order. It
/// holds what the members asked so far have given.
pub struct OnEach<T> {
    endpoint_count: usize,
    results: Vec<T>,
}

/// What is to happen next in a call to every member.
pub enum Round<T> {
    /// The request is to be sent to the member at this position, and what
    /// comes of it handed to `advance` of the state given along.
    Attempt(usize, OnEach<T>),
    /// The call is over: what each member gave, in the configured order.
    Done(Vec<T>),
}

impl<T> OnEach<T> {
    /// The number of members.
    pub closed spec fn endpoint_count(&self) -> nat {
        self.endpoint_count as nat
    }

    /// What the members asked so far have given, in the configured order.
    pub closed spec fn results(&self) -> Seq<T> {
        self.results@
    }

    /// One member at least is still to be asked; the next is the one whose
    /// position is the number of members asked so far.
    pub open spec fn wf(&self) -> bool {
        self.results().len() < self.endpoint_count()
    }

    /// Begins a call to every one of `endpoint_count` members.
    pub fn start(endpoint_count: usize) -> (round: Round<T>)
        ensures
            match round {
                Round::Attempt(position, state) => {
                    &&& endpoint_count > 0
                    &&& position == 0
                    &&& state.wf()
                    &&& state.endpoint_count() == endpoint_count
                    &&& state.results() == Seq::<T>::empty()
                },
                Round::Done(results) => endpoint_count == 0 && results@ == Seq::<T>::empty(),
            },
    {
        if endpoint_count == 0 {
            Round::Done(Vec::new())
        } else {
            Round::Attempt(0, OnEach { endpoint_count, results: Vec::new() })
        }
    }

    /// Takes what the member that was asked has given, and goes on to the
    /// next member in the configured order; after the last it ends with what
    /// every member gave.
    pub fn advance(self, result: T) -> (round: Round<T>)
        requires
            self.wf(),
        ensures
            match round {
                Round::Attempt(position, state) => {
                    &&& position == self.results().len() + 1
                    &&& state.wf()
                    &&& state.endpoint_count() == self.endpoint_count()
                    &&& state.results() == self.results().push(result)
                },
                Round::Done(results) => {
                    &&& self.results().len() + 1 == self.endpoint_count()
                    &&& results@ == self.results().push(result)
                },
            },
    {
        let OnEach { endpoint_count, mut results } = self;
        results.push(result);
        if results.len() == endpoint_count {
            Round::Done(results)
        } else {
            let position = results.len();
            Round::Attempt(position, OnEach { endpoint_count, results })
        }
    }
}

/// Calls every member of a cluster once, in the configured order, and
/// returns what each of them gave, in that order.
pub fn on_each<T, H: Fn(usize) -> T>(endpoint_count: usize, handler: H) -> (results: Vec<T>)
    requires
        forall|position: usize| position < endpoint_count ==> call_requires(handler, (position,)),
    ensures
        results@.len() == endpoint_count,
        forall|position: usize|
            position < endpoint_count ==> call_ensures(
                handler,
                (position,),
                #[trigger] results@[position as int],
            ),
{
    let mut round: Round<T> = OnEach::start(endpoint_count);
    loop
        invariant
            forall|position: usize|
                position < endpoint_count ==> call_requires(handler, (position,)),
            match round {
                Round::Attempt(position, state) => {
                    &&& state.wf()
                    &&& state.endpoint_count() == endpoint_count
                    &&& position == state.results().len()
                    &&& forall|p: usize|
                        p < position ==> call_ensures(
                            handler,
                            (p,),
                            #[trigger] state.results()[p as int],
                        )
                },
                Round::Done(results) => {
                    &&& results@.len() == endpoint_count
                    &&& forall|p: usize|
                        p < endpoint_count ==> call_ensures(
                            handler,
                            (p,),
                            #[trigger] results@[p as int],
                        )
                },
            },
        decreases
            match round {
                Round::Attempt(_, state) => state.endpoint_count() - state.results().len(),
                Round::Done(_) => 0,
            },
    {
        match round {
            Round::Done(results) => {
                return results;
            },
            Round::Attempt(position, state) => {
                let result = handler(position);
                round = state.advance(result);
            },
        }
    }
}

} // verus!
