//! Agents and the in-memory registry.
//!
//! The registry maps agent identities to agent records. It is append-only
//! while the process runs, and the create-or-upsert step is idempotent:
//! ensuring an agent exists twice leaves exactly one entry.

use vstd::prelude::*;

verus! {

/// A named participant able to send and receive messages.
pub struct Agent {
    pub identity: String,
    pub created: u64,
}

impl Clone for Agent {
    fn clone(&self) -> (r: Self)
        ensures
            r == *self,
    {
        Agent { identity: self.identity.clone(), created: self.created }
    }
}

/// Whether some agent in `s` carries the identity `name`.
pub open spec fn contains_identity(s: Seq<Agent>, name: Seq<char>) -> bool {
    exists|i: int| 0 <= i < s.len() && s[i].identity@ == name
}

/// How many agents in `s` carry the identity `name`.
pub open spec fn count_identity(s: Seq<Agent>, name: Seq<char>) -> nat
    decreases s.len(),
{
    if s.len() == 0 {
        0
    } else {
        count_identity(s.drop_last(), name) + if s.last().identity@ == name {
            1nat
        } else {
            0nat
        }
    }
}

/// No two agents in `s` share an identity.
pub open spec fn unique_identities(s: Seq<Agent>) -> bool {
    forall|i: int, j: int|
        0 <= i < j < s.len() ==> s[i].identity@ != s[j].identity@
}

/// The exact effect of one create-or-upsert step for `name` at time `now`:
/// either the identity was already present and nothing changes, or one new
/// agent with that identity and creation time is appended.
pub open spec fn ensure_step(pre: Seq<Agent>, post: Seq<Agent>, name: Seq<char>, now: u64) -> bool {
    if contains_identity(pre, name) {
        post == pre
    } else {
        &&& post.len() == pre.len() + 1
        &&& post.drop_last() == pre
        &&& post.last().identity@ == name
        &&& post.last().created == now
    }
}

pub proof fn lemma_contains_push(s: Seq<Agent>, a: Agent, name: Seq<char>)
    ensures
        contains_identity(s.push(a), name) <==> (contains_identity(s, name)
            || a.identity@ == name),
{
    if contains_identity(s, name) {
        let i = choose|i: int| 0 <= i < s.len() && s[i].identity@ == name;
        assert(s.push(a)[i].identity@ == name);
    }
    if a.identity@ == name {
        assert(s.push(a)[s.len() as int].identity@ == name);
    }
    if contains_identity(s.push(a), name) && a.identity@ != name {
        let i = choose|i: int| 0 <= i < s.push(a).len() && s.push(a)[i].identity@ == name;
        assert(s[i].identity@ == name);
    }
}

pub proof fn lemma_count_push(s: Seq<Agent>, a: Agent, name: Seq<char>)
    ensures
        count_identity(s.push(a), name) == count_identity(s, name) + if a.identity@ == name {
            1nat
        } else {
            0nat
        },
{
    assert(s.push(a).drop_last() =~= s);
    assert(s.push(a).last() == a);
}

/// An identity is absent exactly when its count is zero.
pub proof fn lemma_count_zero_iff_absent(s: Seq<Agent>, name: Seq<char>)
    ensures
        count_identity(s, name) == 0 <==> !contains_identity(s, name),
    decreases s.len(),
{
    if s.len() == 0 {
    } else {
        lemma_count_zero_iff_absent(s.drop_last(), name);
        assert(s.drop_last().push(s.last()) =~= s);
        lemma_contains_push(s.drop_last(), s.last(), name);
        lemma_count_push(s.drop_last(), s.last(), name);
    }
}

/// In a registry without duplicate identities, no identity is held by more
/// than one entry.
pub proof fn lemma_unique_count_at_most_one(s: Seq<Agent>, name: Seq<char>)
    requires
        unique_identities(s),
    ensures
        count_identity(s, name) <= 1,
    decreases s.len(),
{
    if s.len() == 0 {
    } else {
        let prefix = s.drop_last();
        assert(unique_identities(prefix)) by {
            assert(forall|i: int, j: int|
                0 <= i < j < prefix.len() ==> s[i].identity@ != s[j].identity@);
        }
        lemma_unique_count_at_most_one(prefix, name);
        if s.last().identity@ == name {
            assert(!contains_identity(prefix, name)) by {
                if contains_identity(prefix, name) {
                    let i = choose|i: int|
                        0 <= i < prefix.len() && prefix[i].identity@ == name;
                    assert(s[i].identity@ == s[s.len() - 1].identity@);
                }
            }
            lemma_count_zero_iff_absent(prefix, name);
        }
    }
}

/// Idempotent agent creation. A create-or-upsert step makes the identity
/// present; a second step for the same identity changes nothing; and a
/// registry without duplicates holds exactly one entry for the identity
/// afterwards.
pub proof fn lemma_ensure_idempotent(
    s0: Seq<Agent>,
    s1: Seq<Agent>,
    s2: Seq<Agent>,
    name: Seq<char>,
    now1: u64,
    now2: u64,
)
    requires
        unique_identities(s0),
        ensure_step(s0, s1, name, now1),
        ensure_step(s1, s2, name, now2),
    ensures
        s2 == s1,
        count_identity(s1, name) == 1,
        unique_identities(s1),
{
    lemma_ensure_step_wf(s0, s1, name, now1);
    assert(contains_identity(s1, name)) by {
        if contains_identity(s0, name) {
        } else {
            assert(s1[s1.len() - 1].identity@ == name);
        }
    }
    lemma_unique_count_at_most_one(s1, name);
    lemma_count_zero_iff_absent(s1, name);
}

/// A create-or-upsert step preserves uniqueness of identities.
pub proof fn lemma_ensure_step_wf(pre: Seq<Agent>, post: Seq<Agent>, name: Seq<char>, now: u64)
    requires
        unique_identities(pre),
        ensure_step(pre, post, name, now),
    ensures
        unique_identities(post),
        contains_identity(post, name),
{
    if contains_identity(pre, name) {
        let i = choose|i: int| 0 <= i < pre.len() && pre[i].identity@ == name;
        assert(post[i].identity@ == name);
    } else {
        assert(post =~= pre.push(post.last()));
        assert(forall|i: int, j: int|
            0 <= i < j < post.len() ==> post[i].identity@ != post[j].identity@) by {
            assert(forall|i: int| 0 <= i < pre.len() ==> post[i] == pre[i]);
            assert(forall|i: int| #![auto] 0 <= i < pre.len() ==> post[i].identity@ != name);
        }
        assert(post[post.len() - 1].identity@ == name);
    }
}

/// A create-or-upsert step never removes an identity: whatever was present
/// before is present after.
pub proof fn lemma_ensure_step_preserves(
    pre: Seq<Agent>,
    post: Seq<Agent>,
    name: Seq<char>,
    now: u64,
    other: Seq<char>,
)
    requires
        ensure_step(pre, post, name, now),
        contains_identity(pre, other),
    ensures
        contains_identity(post, other),
{
    if !contains_identity(pre, name) {
        let i = choose|i: int| 0 <= i < pre.len() && pre[i].identity@ == other;
        assert(post.drop_last()[i] == pre[i]);
        assert(post[i].identity@ == other);
    }
}

/// The in-memory registry of agents, owned at the root of the supervision
/// tree and handed to every component that reads or appends it.
pub struct Registry {
    agents: Vec<Agent>,
}

impl View for Registry {
    type V = Seq<Agent>;

    closed spec fn view(&self) -> Seq<Agent> {
        self.agents@
    }
}

impl Registry {
    /// No two registry entries share an identity.
    pub open spec fn wf(&self) -> bool {
        unique_identities(self@)
    }

    pub fn new() -> (r: Registry)
        ensures
            r@ == Seq::<Agent>::empty(),
            r.wf(),
    {
        Registry { agents: Vec::new() }
    }

    pub fn len(&self) -> (n: usize)
        ensures
            n == self@.len(),
    {
        self.agents.len()
    }

    /// The index of the entry carrying `name`, if one is present.
    pub fn find(&self, name: &String) -> (r: Option<usize>)
        ensures
            match r {
                Some(i) => i < self@.len() && self@[i as int].identity@ == name@,
                None => !contains_identity(self@, name@),
            },
    {
        let n = self.agents.len();
        for i in 0..n
            invariant
                n == self.agents.len(),
                forall|k: int| 0 <= k < i ==> self@[k].identity@ != name@,
        {
            if self.agents[i].identity == *name {
                return Some(i);
            }
        }
        None
    }

    pub fn contains(&self, name: &String) -> (b: bool)
        ensures
            b == contains_identity(self@, name@),
    {
        match self.find(name) {
            Some(_) => true,
            None => false,
        }
    }

    /// A copy of the entry at index `i`.
    pub fn get(&self, i: usize) -> (a: Agent)
        requires
            i < self@.len(),
        ensures
            a == self@[i as int],
    {
        self.agents[i].clone()
    }

    /// Create-or-upsert: append a fresh agent unless the identity is already
    /// registered. Returns the registered agent either way.
    pub fn ensure_agent(&mut self, name: &String, now: u64) -> (a: Agent)
        requires
            old(self).wf(),
        ensures
            final(self).wf(),
            ensure_step(old(self)@, final(self)@, name@, now),
            a.identity@ == name@,
            contains_identity(final(self)@, name@),
            // The returned agent is the registered record: the fresh one on
            // first registration, the stored one afterwards.
            !contains_identity(old(self)@, name@) ==> a == final(self)@.last(),
            contains_identity(old(self)@, name@) ==> exists|i: int|
                0 <= i < old(self)@.len() && old(self)@[i] == a,
    {
        let found = self.find(name);
        match found {
            Some(i) => {
                let a = self.agents[i].clone();
                proof {
                    assert(contains_identity(self@, name@));
                }
                a
            },
            None => {
                let a = Agent { identity: name.clone(), created: now };
                let r = a.clone();
                self.agents.push(a);
                proof {
                    assert(self@.drop_last() =~= old(self)@);
                    lemma_ensure_step_wf(old(self)@, self@, name@, now);
                }
                r
            },
        }
    }
}

} // verus!
