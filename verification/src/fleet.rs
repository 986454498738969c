//! The processor fleet: a registry keyed by the upstream event discriminant,
//! populated once during an initialization phase and read-only thereafter,
//! dispatching each incoming raw event to its registered processor or
//! signaling "unhandled kind" — an expected, non-error condition.

use vstd::prelude::*;

use crate::context::{GatewaySource, NormalizationFailure};
use crate::event::NormalizedEvent;
use crate::processors::{
    member_join_post, member_leave_post, process_member_join, process_member_leave,
};

verus! {

/// Discriminants of the upstream gateway event kinds this pipeline can
/// receive. Not every kind has a registered processor.
#[derive(Clone, Copy, Debug, PartialEq, Eq, Structural)]
pub enum GatewayEventKind {
    MemberAdd,
    MemberRemove,
    MemberUpdate,
    MessageCreate,
    MessageDelete,
    MessageUpdate,
    ReactionAdd,
    ReactionRemove,
}

/// A single-purpose normalizer, drawn from the closed set of processors
/// this core defines.
#[derive(Clone, Copy, Debug, PartialEq, Eq, Structural)]
pub enum Processor {
    MemberJoin,
    MemberLeave,
}

/// Registering a discriminant that already has a processor is a startup
/// error: duplicate registration is rejected, never silently overwritten.
#[derive(Clone, Copy, Debug, PartialEq, Eq, Structural)]
pub enum RegistrationError {
    DuplicateRegistration,
}

/// The processor under the first entry for `k`, if any.
pub open spec fn table_lookup(
    entries: Seq<(GatewayEventKind, Processor)>,
    k: GatewayEventKind,
) -> Option<Processor>
    decreases entries.len(),
{
    if entries.len() == 0 {
        None
    } else if entries.first().0 == k {
        Some(entries.first().1)
    } else {
        table_lookup(entries.drop_first(), k)
    }
}

/// Appending an entry resolves exactly the keys the table did not already
/// resolve.
proof fn lemma_table_push(
    entries: Seq<(GatewayEventKind, Processor)>,
    k: GatewayEventKind,
    p: Processor,
    k2: GatewayEventKind,
)
    ensures
        table_lookup(entries.push((k, p)), k2) == (match table_lookup(entries, k2) {
            Some(q) => Some(q),
            None => if k2 == k {
                Some(p)
            } else {
                None
            },
        }),
    decreases entries.len(),
{
    if entries.len() == 0 {
        assert(entries.push((k, p)).first() == (k, p));
        assert(entries.push((k, p)).drop_first() =~= Seq::<(GatewayEventKind, Processor)>::empty());
    } else {
        assert(entries.push((k, p)).first() == entries.first());
        assert(entries.push((k, p)).drop_first() =~= entries.drop_first().push((k, p)));
        lemma_table_push(entries.drop_first(), k, p, k2);
    }
}

/// The registry mapping each upstream discriminant to at most one
/// processor.
pub struct ProcessorFleet {
    entries: Vec<(GatewayEventKind, Processor)>,
}

impl ProcessorFleet {
    /// The processor registered for `k`, if any.
    pub closed spec fn registered(&self, k: GatewayEventKind) -> Option<Processor> {
        table_lookup(self.entries@, k)
    }

    /// An empty fleet: nothing registered.
    pub fn new() -> (r: ProcessorFleet)
        ensures
            forall|k: GatewayEventKind| r.registered(k) is None,
    {
        let r = ProcessorFleet { entries: Vec::new() };
        proof {
            assert(forall|k: GatewayEventKind| r.registered(k) is None);
        }
        r
    }

    /// The processor registered for `k`, if any.
    pub fn get(&self, k: GatewayEventKind) -> (r: Option<Processor>)
        ensures
            r == self.registered(k),
    {
        let mut j: usize = 0;
        proof {
            assert(self.entries@.skip(0) =~= self.entries@);
        }
        while j < self.entries.len()
            invariant
                0 <= j <= self.entries@.len(),
                table_lookup(self.entries@.skip(j as int), k) == table_lookup(self.entries@, k),
            decreases self.entries@.len() - j,
        {
            proof {
                assert(self.entries@.skip(j as int).first() == self.entries@[j as int]);
                assert(self.entries@.skip(j as int).drop_first() =~= self.entries@.skip(j + 1));
            }
            let (ek, ep) = self.entries[j];
            if ek == k {
                return Some(ep);
            }
            j = j + 1;
        }
        proof {
            assert(self.entries@.skip(self.entries@.len() as int) =~= Seq::<
                (GatewayEventKind, Processor),
            >::empty());
        }
        None
    }

    /// Registers `p` for `k`. Registration-time only: a discriminant that
    /// already has a processor is rejected and the fleet is unchanged.
    pub fn register(&mut self, k: GatewayEventKind, p: Processor) -> (r: Result<
        (),
        RegistrationError,
    >)
        ensures
            r is Ok <==> old(self).registered(k) is None,
            r is Err ==> *final(self) == *old(self) && r == Err::<(), RegistrationError>(
                RegistrationError::DuplicateRegistration,
            ),
            r is Ok ==> final(self).registered(k) == Some(p) && (forall|k2: GatewayEventKind|
                k2 != k ==> final(self).registered(k2) == old(self).registered(k2)),
    {
        if self.get(k).is_some() {
            return Err(RegistrationError::DuplicateRegistration);
        }
        proof {
            assert forall|k2: GatewayEventKind| true implies table_lookup(
                self.entries@.push((k, p)),
                k2,
            ) == (match table_lookup(self.entries@, k2) {
                Some(q) => Some(q),
                None => if k2 == k {
                    Some(p)
                } else {
                    None
                },
            }) by {
                lemma_table_push(self.entries@, k, p, k2);
            }
        }
        self.entries.push((k, p));
        Ok(())
    }

    /// Dispatches one raw event: `None` for an unregistered discriminant (a
    /// no-op, not an error), otherwise the registered processor's result.
    pub fn dispatch(&self, k: GatewayEventKind, source: GatewaySource) -> (r: Option<
        Result<NormalizedEvent, NormalizationFailure>,
    >)
        ensures
            self.registered(k) is None ==> r is None,
            self.registered(k) == Some(Processor::MemberJoin) ==> (r matches Some(res)
                && member_join_post(source, res)),
            self.registered(k) == Some(Processor::MemberLeave) ==> (r matches Some(res)
                && member_leave_post(source, res)),
    {
        match self.get(k) {
            None => None,
            Some(Processor::MemberJoin) => Some(process_member_join(source)),
            Some(Processor::MemberLeave) => Some(process_member_leave(source)),
        }
    }
}

} // verus!
