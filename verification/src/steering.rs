use vstd::prelude::*;

use crate::entity::Entity;

verus! {

/// An action that steers its agent towards the agent's steering target.
#[derive(Debug, Clone, Copy, PartialEq, Eq, Default)]
pub struct Seek;

/// What the world holds for the agent of one running [`Seek`] action: the
/// agent, and where its steering target is, if it can be found.
#[derive(Debug, Clone, Copy)]
pub struct SeekAgent<P> {
    pub agent: Entity,
    pub target_position: Option<P>,
}

/// The agents to steer, each with the position it seeks, in order.
pub open spec fn seek_spec<P>(running: Seq<Option<SeekAgent<P>>>) -> Seq<(Entity, P)>
    decreases running.len(),
{
    if running.len() == 0 {
        seq![]
    } else {
        let prev = seek_spec(running.drop_last());
        match running.last() {
            Some(a) => match a.target_position {
                Some(p) => prev.push((a.agent, p)),
                None => prev,
            },
            None => prev,
        }
    }
}

/// `filter_map` over a concatenation is the concatenation of the two.
proof fn lemma_filter_map_add<A, B>(a: Seq<A>, b: Seq<A>, f: spec_fn(A) -> Option<B>)
    ensures
        (a + b).filter_map(f) == a.filter_map(f) + b.filter_map(f),
    decreases b.len(),
{
    if b.len() == 0 {
        assert(a + b =~= a);
        assert(a.filter_map(f) + b.filter_map(f) =~= a.filter_map(f));
    } else {
        let b0 = b.drop_last();
        lemma_filter_map_add(a, b0, f);
        assert((a + b).drop_last() =~= a + b0);
        assert((a + b).last() == b.last());
        match f(b.last()) {
            Some(x) => {
                assert(a.filter_map(f) + (b0.filter_map(f) + seq![x]) =~= (a.filter_map(f) + b0.filter_map(f))
                    + seq![x]);
            },
            None => {},
        }
    }
}

/// An entry whose choice is `Some(x)` puts `x` into the `filter_map` result.
pub(crate) proof fn lemma_filter_map_keeps<A, B>(s: Seq<A>, f: spec_fn(A) -> Option<B>, i: int, x: B)
    requires
        0 <= i < s.len(),
        f(s[i]) == Some(x),
    ensures
        s.filter_map(f).contains(x),
    decreases s.len(),
{
    let rest = s.drop_last();
    if i == s.len() - 1 {
        let out = rest.filter_map(f) + seq![x];
        assert(out[out.len() - 1] == x);
    } else {
        assert(rest[i] == s[i]);
        lemma_filter_map_keeps(rest, f, i, x);
        let j = choose|j: int| 0 <= j < rest.filter_map(f).len() && rest.filter_map(f)[j] == x;
        match f(s.last()) {
            Some(y) => {
                let out = rest.filter_map(f) + seq![y];
                assert(out[j] == x);
            },
            None => {},
        }
    }
}

proof fn lemma_seek_filter_map<P>(
    running: Seq<Option<SeekAgent<P>>>,
    choice: spec_fn(Option<SeekAgent<P>>) -> Option<(Entity, P)>,
)
    requires
        forall|r: Option<SeekAgent<P>>|
            #[trigger] choice(r) == (match r {
                Some(a) => match a.target_position {
                    Some(p) => Some((a.agent, p)),
                    None => None,
                },
                None => None,
            }),
    ensures
        seek_spec(running) == running.filter_map(choice),
    decreases running.len(),
{
    if running.len() > 0 {
        lemma_seek_filter_map(running.drop_last(), choice);
        let r = running.last();
        let prev = running.drop_last().filter_map(choice);
        assert(choice(r) == choice(r));
        match choice(r) {
            Some(x) => assert(prev.push(x) =~= prev + seq![x]),
            None => {},
        }
    }
}

/// Each running [`Seek`] action is decided on its own: the agents to steer
/// are, in order, exactly the agents of the entries that have both the
/// steering components and a target position, each with that position; an
/// entry is steered whatever the entries before or after it are.
pub proof fn lemma_seek_steers_each_entry_on_its_own<P>(
    running: Seq<Option<SeekAgent<P>>>,
    later: Seq<Option<SeekAgent<P>>>,
)
    ensures
        seek_spec(running) == running.filter_map(
            |r: Option<SeekAgent<P>>|
                match r {
                    Some(a) => match a.target_position {
                        Some(p) => Some((a.agent, p)),
                        None => None,
                    },
                    None => None,
                },
        ),
        seek_spec(running + later) == seek_spec(running) + seek_spec(later),
        forall|i: int|
            #![trigger running[i]]
            0 <= i < running.len() && running[i] is Some && running[i]->0.target_position is Some
                ==> seek_spec(running).contains(
                (running[i]->0.agent, running[i]->0.target_position->0),
            ),
{
    let choice = |r: Option<SeekAgent<P>>|
        match r {
            Some(a) => match a.target_position {
                Some(p) => Some((a.agent, p)),
                None => None,
            },
            None => None,
        };
    lemma_seek_filter_map(running, choice);
    lemma_seek_filter_map(later, choice);
    lemma_seek_filter_map(running + later, choice);
    lemma_filter_map_add(running, later, choice);
    assert forall|i: int|
        #![trigger running[i]]
        0 <= i < running.len() && running[i] is Some && running[i]->0.target_position is Some
            implies seek_spec(running).contains(
            (running[i]->0.agent, running[i]->0.target_position->0),
        ) by {
        lemma_filter_map_keeps(running, choice, i, (running[i]->0.agent, running[i]->0.target_position->0));
    }
}

/// The system of [`Seek`]: for each running action, `None` where its agent
/// lacks the steering components, else the agent with its target. Returns
/// the agents whose impulse is to be set towards a target position; an
/// agent without components or without a target position is left alone.
pub fn seek<P: Copy>(running: &Vec<Option<SeekAgent<P>>>) -> (steer: Vec<(Entity, P)>)
    ensures
        steer@ == seek_spec(running@),
{
    let mut steer: Vec<(Entity, P)> = Vec::new();
    let n = running.len();
    for i in 0..n
        invariant
            n == running@.len(),
            steer@ == seek_spec(running@.take(i as int)),
    {
        assert(running@.take(i + 1).drop_last() == running@.take(i as int));
        match running[i] {
            Some(a) => match a.target_position {
                Some(p) => steer.push((a.agent, p)),
                None => {},
            },
            None => {},
        }
    }
    assert(running@.take(n as int) == running@);
    steer
}

} // verus!
