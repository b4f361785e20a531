//! The suspension channel, seen from the guest: a unit mid-execution hands a
//! byte-exact yield value to the host and blocks until the host supplies a
//! byte-exact resume value of the statically agreed size.
//!
//! The host is injected as a [`HostEndpoint`]: the host's end of the channel,
//! holding the yield values it has observed and the resume values it has
//! decided to supply, in order. A real execution boundary delivers each
//! resume value only when the host chooses to continue the unit; the endpoint
//! models that choice as a queue, which also makes the guest-side protocol
//! testable against a fake host. Each suspension point is labeled by an
//! explicit [`Channel`], with the sizes of its yield and resume types agreed
//! by both compiled sides ahead of time.

use vstd::prelude::*;

use crate::wire::BoundaryViolation;

verus! {

/// A suspension channel: a labeled pause point with a fixed yield/resume
/// type pair, identified by an explicit id rather than negotiated at call
/// time. `yield_size` and `resume_size` are the byte sizes of the two fixed
/// wire types.
#[derive(Clone, Copy, Debug, PartialEq, Eq, Structural)]
pub struct Channel {
    pub id: u32,
    pub yield_size: usize,
    pub resume_size: usize,
}

/// One yield value as the host observed it: the channel it arrived on and
/// its exact bytes.
#[verifier::ext_equal]
pub ghost struct YieldObservation {
    pub channel: u32,
    pub data: Seq<u8>,
}

/// The host's end of the suspension channel for one guest instance:
/// `observed` is every yield value the host has read, in order; `script` is
/// the queue of resume values it will supply, front first.
#[verifier::ext_equal]
pub ghost struct EndpointModel {
    pub observed: Seq<YieldObservation>,
    pub script: Seq<Seq<u8>>,
}

/// Whether the next suspension on `channel` completes: the host supplies a
/// resume value, and that value has the size the channel declared. A value
/// of any other size is a boundary contract violation.
pub open spec fn sleep_accepts(m: EndpointModel, channel: Channel) -> bool {
    m.script.len() > 0 && m.script[0].len() == channel.resume_size
}

/// The endpoint state a suspension leaves behind: the yield value is
/// appended, byte-exact, to what the host observed, and the front resume
/// value is consumed.
pub open spec fn sleep_transition(m: EndpointModel, channel: Channel, y: Seq<u8>) -> EndpointModel {
    EndpointModel {
        observed: m.observed.push(YieldObservation { channel: channel.id, data: y }),
        script: m.script.drop_first(),
    }
}

/// The resume value a suspension hands back to the unit: the front of the
/// host's queue, byte-exact.
pub open spec fn sleep_value(m: EndpointModel) -> Seq<u8> {
    m.script[0]
}

struct YieldRecord {
    channel: u32,
    data: Vec<u8>,
}

impl View for YieldRecord {
    type V = YieldObservation;

    closed spec fn view(&self) -> YieldObservation {
        YieldObservation { channel: self.channel, data: self.data@ }
    }
}

/// The host's end of the suspension channel for one guest instance. See the
/// module documentation; its view is an [`EndpointModel`].
pub struct HostEndpoint {
    observed: Vec<YieldRecord>,
    script: Vec<Vec<u8>>,
}

impl View for HostEndpoint {
    type V = EndpointModel;

    closed spec fn view(&self) -> EndpointModel {
        EndpointModel {
            observed: self.observed@.map_values(|r: YieldRecord| r@),
            script: self.script@.map_values(|v: Vec<u8>| v@),
        }
    }
}

impl HostEndpoint {
    /// An endpoint that has observed nothing and will supply nothing yet.
    pub fn new() -> (e: Self)
        ensures
            e@.observed == Seq::<YieldObservation>::empty(),
            e@.script == Seq::<Seq<u8>>::empty(),
    {
        let e = HostEndpoint { observed: Vec::new(), script: Vec::new() };
        proof {
            assert(e@.observed =~= Seq::<YieldObservation>::empty());
            assert(e@.script =~= Seq::<Seq<u8>>::empty());
        }
        e
    }

    /// The host decides the value it will supply for the next suspension not
    /// yet answered: the value joins the back of the queue.
    pub fn queue_resume(&mut self, value: Vec<u8>)
        ensures
            final(self)@.observed == old(self)@.observed,
            final(self)@.script == old(self)@.script.push(value@),
    {
        let ghost v = value@;
        self.script.push(value);
        proof {
            assert(self@.observed =~= old(self)@.observed);
            assert(self@.script =~= old(self)@.script.push(v));
        }
    }

    /// How many yield values the host has observed so far.
    pub fn observed_count(&self) -> (n: usize)
        ensures
            n == self@.observed.len(),
    {
        self.observed.len()
    }

    /// The channel id the `i`-th observed yield value arrived on.
    pub fn observed_channel(&self, i: usize) -> (c: u32)
        requires
            i < self@.observed.len(),
        ensures
            c == self@.observed[i as int].channel,
    {
        self.observed[i].channel
    }

    /// The exact bytes of the `i`-th observed yield value.
    pub fn observed_data(&self, i: usize) -> (d: &Vec<u8>)
        requires
            i < self@.observed.len(),
        ensures
            d@ == self@.observed[i as int].data,
    {
        &self.observed[i].data
    }
}

/// Suspends the current unit on `channel`: hands the byte-exact yield value
/// `data` to the host and blocks until the host supplies a resume value —
/// the call returns only once it has decided one, so the queue must not be
/// empty. The supplied value is handed back byte-exact if it has the size
/// the channel declared; one of any other size is rejected as a boundary
/// contract violation, never silently reinterpreted. Either way the unit's
/// yield value reaches the host exactly.
pub fn sleep(host: &mut HostEndpoint, channel: &Channel, data: &Vec<u8>) -> (r: Result<
    Vec<u8>,
    BoundaryViolation,
>)
    requires
        data@.len() == channel.yield_size,
        old(host)@.script.len() > 0,
    ensures
        final(host)@ == sleep_transition(old(host)@, *channel, data@),
        sleep_accepts(old(host)@, *channel) ==> (r matches Ok(v) && v@ == sleep_value(old(host)@)),
        !sleep_accepts(old(host)@, *channel) ==> r == Err::<Vec<u8>, BoundaryViolation>(
            BoundaryViolation::ResumeSizeMismatch,
        ),
{
    let ghost pre = host@;
    host.observed.push(YieldRecord { channel: channel.id, data: data.clone() });
    let supplied = host.script.remove(0);
    proof {
        assert(host@ =~= sleep_transition(pre, *channel, data@));
    }
    if supplied.len() == channel.resume_size {
        Ok(supplied)
    } else {
        Err(BoundaryViolation::ResumeSizeMismatch)
    }
}

/// The convenience form of [`sleep`] taking the yield value by mutable
/// reference, so the same storage can be reused as scratch around the pause:
/// externally its behavior is identical, and the storage is unchanged.
pub fn sleep_mut(host: &mut HostEndpoint, channel: &Channel, data: &mut Vec<u8>) -> (r: Result<
    Vec<u8>,
    BoundaryViolation,
>)
    requires
        old(data)@.len() == channel.yield_size,
        old(host)@.script.len() > 0,
    ensures
        final(data)@ == old(data)@,
        final(host)@ == sleep_transition(old(host)@, *channel, old(data)@),
        sleep_accepts(old(host)@, *channel) ==> (r matches Ok(v) && v@ == sleep_value(old(host)@)),
        !sleep_accepts(old(host)@, *channel) ==> r == Err::<Vec<u8>, BoundaryViolation>(
            BoundaryViolation::ResumeSizeMismatch,
        ),
{
    sleep(host, channel, data)
}

/// Law: suspension round-trip. When a unit yields `y` and the host resumes
/// it with a value of the declared size, the host observes exactly `y`, on
/// exactly the channel the unit named, and the unit observes exactly the
/// value the host supplied — no truncation in either direction.
pub proof fn lemma_suspension_round_trip(m: EndpointModel, channel: Channel, y: Seq<u8>)
    requires
        sleep_accepts(m, channel),
    ensures
        ({
            let after = sleep_transition(m, channel, y);
            &&& after.observed.len() == m.observed.len() + 1
            &&& after.observed.last() == (YieldObservation { channel: channel.id, data: y })
            &&& sleep_value(m) == m.script[0]
            &&& sleep_value(m).len() == channel.resume_size
            &&& after.script =~= m.script.drop_first()
        }),
{
}

} // verus!
