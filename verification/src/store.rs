//! A model of the record store at its interface boundary: one record per
//! agent keyed by identity, and one relation record per message, kept in
//! creation order. Writing a message yields the change event the recipient's
//! live feed delivers; deleting a mailbox yields the delete events that a
//! listener's own teardown produces.

use vstd::prelude::*;

use crate::agent::{
    contains_identity, ensure_step, lemma_ensure_step_wf, unique_identities, Agent,
};
use crate::message::{Action, ChangeEvent, Message};

verus! {

/// The messages of `s` addressed to `name`, in creation order.
pub open spec fn sent_to(s: Seq<Message>, name: Seq<char>) -> Seq<Message>
    decreases s.len(),
{
    if s.len() == 0 {
        Seq::empty()
    } else if s.last().to@ == name {
        sent_to(s.drop_last(), name).push(s.last())
    } else {
        sent_to(s.drop_last(), name)
    }
}

/// The messages of `s` not addressed to `name`, in creation order.
pub open spec fn not_sent_to(s: Seq<Message>, name: Seq<char>) -> Seq<Message>
    decreases s.len(),
{
    if s.len() == 0 {
        Seq::empty()
    } else if s.last().to@ != name {
        not_sent_to(s.drop_last(), name).push(s.last())
    } else {
        not_sent_to(s.drop_last(), name)
    }
}

pub proof fn lemma_sent_to_snoc(s: Seq<Message>, m: Message, name: Seq<char>)
    ensures
        sent_to(s.push(m), name) == if m.to@ == name {
            sent_to(s, name).push(m)
        } else {
            sent_to(s, name)
        },
        not_sent_to(s.push(m), name) == if m.to@ != name {
            not_sent_to(s, name).push(m)
        } else {
            not_sent_to(s, name)
        },
{
    assert(s.push(m).drop_last() =~= s);
    assert(s.push(m).last() == m);
}

/// Deleting one mailbox empties it and leaves every other mailbox as it
/// was.
pub proof fn lemma_delete_other_mailbox(s: Seq<Message>, a: Seq<char>, b: Seq<char>)
    ensures
        a == b ==> sent_to(not_sent_to(s, b), a) == Seq::<Message>::empty(),
        a != b ==> sent_to(not_sent_to(s, b), a) == sent_to(s, a),
    decreases s.len(),
{
    if s.len() == 0 {
    } else {
        lemma_delete_other_mailbox(s.drop_last(), a, b);
        lemma_sent_to_snoc(s.drop_last(), s.last(), a);
        lemma_sent_to_snoc(s.drop_last(), s.last(), b);
        if s.last().to@ != b {
            lemma_sent_to_snoc(not_sent_to(s.drop_last(), b), s.last(), a);
        }
    }
}

/// The shared record store, as the protocol sees it.
pub struct Store {
    agents: Vec<Agent>,
    messages: Vec<Message>,
}

impl Store {
    /// The agent records, keyed by identity.
    pub closed spec fn spec_agents(&self) -> Seq<Agent> {
        self.agents@
    }

    /// The message relation records, in creation order.
    pub closed spec fn spec_messages(&self) -> Seq<Message> {
        self.messages@
    }

    /// No two agent records share an identity.
    pub open spec fn wf(&self) -> bool {
        unique_identities(self.spec_agents())
    }

    pub fn new() -> (s: Store)
        ensures
            s.spec_agents() == Seq::<Agent>::empty(),
            s.spec_messages() == Seq::<Message>::empty(),
            s.wf(),
    {
        Store { agents: Vec::new(), messages: Vec::new() }
    }

    /// Whether an agent record with identity `name` exists.
    pub fn has_agent(&self, name: &String) -> (b: bool)
        ensures
            b == contains_identity(self.spec_agents(), name@),
    {
        match self.find_agent(name) {
            Some(_) => true,
            None => false,
        }
    }

    /// Create-or-upsert the agent record keyed by `name`. Idempotent: a
    /// second call for the same identity leaves the store unchanged.
    pub fn upsert_agent(&mut self, name: &String, now: u64) -> (a: Agent)
        requires
            old(self).wf(),
        ensures
            final(self).wf(),
            ensure_step(old(self).spec_agents(), final(self).spec_agents(), name@, now),
            final(self).spec_messages() == old(self).spec_messages(),
            a.identity@ == name@,
            contains_identity(final(self).spec_agents(), name@),
            !contains_identity(old(self).spec_agents(), name@)
                ==> a == final(self).spec_agents().last(),
            contains_identity(old(self).spec_agents(), name@) ==> exists|i: int|
                0 <= i < old(self).spec_agents().len() && old(self).spec_agents()[i] == a,
    {
        match self.find_agent(name) {
            Some(i) => self.agents[i].clone(),
            None => {
                let a = Agent { identity: name.clone(), created: now };
                let r = a.clone();
                self.agents.push(a);
                proof {
                    assert(self.spec_agents().drop_last() =~= old(self).spec_agents());
                    lemma_ensure_step_wf(
                        old(self).spec_agents(),
                        self.spec_agents(),
                        name@,
                        now,
                    );
                }
                r
            },
        }
    }

    /// The index of the agent record carrying `name`, if one exists.
    fn find_agent(&self, name: &String) -> (r: Option<usize>)
        ensures
            match r {
                Some(i) => i < self.spec_agents().len() && self.spec_agents()[i as int].identity@
                    == name@,
                None => !contains_identity(self.spec_agents(), name@),
            },
    {
        let n = self.agents.len();
        for i in 0..n
            invariant
                n == self.agents.len(),
                forall|k: int| 0 <= k < i ==> self.agents@[k].identity@ != name@,
        {
            if self.agents[i].identity == *name {
                return Some(i);
            }
        }
        None
    }

    /// Write one message relation record. Returns the create event that the
    /// recipient's live feed delivers for it.
    pub fn relate(&mut self, m: Message) -> (ev: ChangeEvent)
        ensures
            final(self).spec_messages() == old(self).spec_messages().push(m),
            final(self).spec_agents() == old(self).spec_agents(),
            ev.action is Create,
            ev.data == m,
    {
        let ev = ChangeEvent { action: Action::Create, data: m.clone() };
        self.messages.push(m);
        ev
    }

    /// The messages addressed to `name`, in creation order.
    pub fn select_to(&self, name: &String) -> (v: Vec<Message>)
        ensures
            v@ == sent_to(self.spec_messages(), name@),
    {
        let mut v: Vec<Message> = Vec::new();
        let n = self.messages.len();
        for i in 0..n
            invariant
                n == self.messages.len(),
                v@ == sent_to(self.messages@.take(i as int), name@),
        {
            proof {
                assert(self.messages@.take(i + 1) =~= self.messages@.take(i as int).push(
                    self.messages@[i as int],
                ));
                lemma_sent_to_snoc(
                    self.messages@.take(i as int),
                    self.messages@[i as int],
                    name@,
                );
            }
            if self.messages[i].to == *name {
                v.push(self.messages[i].clone());
            }
        }
        proof {
            assert(self.messages@.take(n as int) =~= self.messages@);
        }
        v
    }

    /// Delete the mailbox of `name`: every message addressed to it leaves the
    /// store, and one delete event per removed record is produced, in
    /// creation order.
    pub fn delete_to(&mut self, name: &String) -> (evs: Vec<ChangeEvent>)
        ensures
            final(self).spec_messages() == not_sent_to(old(self).spec_messages(), name@),
            final(self).spec_agents() == old(self).spec_agents(),
            evs@.len() == sent_to(old(self).spec_messages(), name@).len(),
            forall|k: int|
                0 <= k < evs@.len() ==> (#[trigger] evs@[k]).action is Delete && evs@[k].data
                    == sent_to(old(self).spec_messages(), name@)[k],
    {
        let mut kept: Vec<Message> = Vec::new();
        let mut evs: Vec<ChangeEvent> = Vec::new();
        let n = self.messages.len();
        for i in 0..n
            invariant
                n == self.messages.len(),
                kept@ == not_sent_to(self.messages@.take(i as int), name@),
                evs@.len() == sent_to(self.messages@.take(i as int), name@).len(),
                forall|k: int|
                    0 <= k < evs@.len() ==> (#[trigger] evs@[k]).action is Delete && evs@[k].data
                        == sent_to(self.messages@.take(i as int), name@)[k],
        {
            proof {
                assert(self.messages@.take(i + 1) =~= self.messages@.take(i as int).push(
                    self.messages@[i as int],
                ));
                lemma_sent_to_snoc(
                    self.messages@.take(i as int),
                    self.messages@[i as int],
                    name@,
                );
            }
            if self.messages[i].to == *name {
                evs.push(ChangeEvent { action: Action::Delete, data: self.messages[i].clone() });
            } else {
                kept.push(self.messages[i].clone());
            }
        }
        proof {
            assert(self.messages@.take(n as int) =~= self.messages@);
        }
        self.messages = kept;
        evs
    }
}

} // verus!
