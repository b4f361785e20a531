//! The unit status state machine and the host-side resume protocol: the host
//! holds an arena of guest-unit states, observes each unit's status through a
//! handle, and drives a paused unit forward by supplying a resume value of
//! the size its suspension channel declared.
//!
//! A unit is `Yielded` (paused at a suspension point, with a pending yield
//! value the host may read) or `Returned` (finished, terminal). Resuming a
//! `Returned` unit is a fatal contract violation: [`UtxoArena::try_resume`]
//! rejects it explicitly, never silently.

use core::marker::PhantomData;
use vstd::prelude::*;

use crate::wire::BoundaryViolation;
use crate::wire::UtxoStatus;

verus! {

/// An opaque reference to a guest computation instance, tagged at compile
/// time with its logical unit type `T`. Not an owning pointer: the guest
/// never dereferences it; it is a key the host uses to locate unit state it
/// alone maintains. Copyable and comparable by identity.
pub struct UtxoHandle<T: ?Sized> {
    ptr: u32,
    _phantom: PhantomData<T>,
}

impl<T: ?Sized> UtxoHandle<T> {
    /// The arena key this handle carries: the identity by which handles are
    /// compared.
    pub closed spec fn key(&self) -> u32 {
        self.ptr
    }
}

impl<T: ?Sized> Clone for UtxoHandle<T> {
    fn clone(&self) -> (c: Self)
        ensures
            c == *self,
    {
        *self
    }
}

impl<T: ?Sized> Copy for UtxoHandle<T> {}

impl<T: ?Sized> PartialEq for UtxoHandle<T> {
    fn eq(&self, other: &Self) -> bool {
        self.ptr == other.ptr
    }
}

impl<T: ?Sized> vstd::std_specs::cmp::PartialEqSpecImpl for UtxoHandle<T> {
    open spec fn obeys_eq_spec() -> bool {
        true
    }

    open spec fn eq_spec(&self, other: &Self) -> bool {
        self.key() == other.key()
    }
}

/// The state of one guest unit as the host sees it. While the unit is
/// `Yielded`, `yield_data` is the byte-exact pending yield value and
/// `resume_size` the size the channel declared for the resume value; once it
/// is `Returned` neither carries information.
pub ghost struct UnitModel {
    pub status: UtxoStatus,
    pub yield_data: Seq<u8>,
    pub resume_size: nat,
}

/// What a resumed unit does after consuming its resume value: it either
/// pauses again at a suspension point, handing the host a new yield value and
/// declaring the size of the next resume value, or it finishes.
pub enum UnitStep {
    Yield { data: Vec<u8>, resume_size: usize },
    Finish,
}

/// The unit state a step leaves behind: `Yield` pauses the unit again with a
/// new pending yield value; `Finish` makes it `Returned`, terminally.
pub open spec fn step_model(step: UnitStep) -> UnitModel {
    match step {
        UnitStep::Yield { data, resume_size } => UnitModel {
            status: UtxoStatus::Yielded,
            yield_data: data@,
            resume_size: resume_size as nat,
        },
        UnitStep::Finish => UnitModel {
            status: UtxoStatus::Returned,
            yield_data: Seq::empty(),
            resume_size: 0,
        },
    }
}

/// Whether `key` names a unit of arena state `s`.
pub open spec fn unit_valid(s: Seq<UnitModel>, key: int) -> bool {
    0 <= key < s.len()
}

/// The status of unit `key` in arena state `s`: what a status query returns.
pub open spec fn status_of(s: Seq<UnitModel>, key: int) -> UtxoStatus
    recommends
        unit_valid(s, key),
{
    s[key].status
}

/// Whether a resume of unit `key` is accepted at all: only a paused unit may
/// be driven forward. `Returned` is terminal.
pub open spec fn resume_allowed(s: Seq<UnitModel>, key: int) -> bool {
    unit_valid(s, key) && status_of(s, key) == UtxoStatus::Yielded
}

struct UnitEntry {
    status: UtxoStatus,
    yield_data: Vec<u8>,
    resume_size: usize,
}

impl View for UnitEntry {
    type V = UnitModel;

    closed spec fn view(&self) -> UnitModel {
        UnitModel {
            status: self.status,
            yield_data: self.yield_data@,
            resume_size: self.resume_size as nat,
        }
    }
}

/// The host's arena of unit states for one logical unit type `T`: the model
/// of the host-held side of the status/resume boundary. Its view is the
/// sequence of unit states, in creation order; each handle's key is the index
/// of the unit its creation registered.
pub struct UtxoArena<T: ?Sized> {
    units: Vec<UnitEntry>,
    _phantom: PhantomData<T>,
}

impl<T: ?Sized> View for UtxoArena<T> {
    type V = Seq<UnitModel>;

    closed spec fn view(&self) -> Seq<UnitModel> {
        self.units@.map_values(|e: UnitEntry| e@)
    }
}

impl<T: ?Sized> UtxoArena<T> {
    /// An arena with no units registered yet.
    pub fn new() -> (a: Self)
        ensures
            a@ == Seq::<UnitModel>::empty(),
    {
        let a = UtxoArena { units: Vec::new(), _phantom: PhantomData };
        proof {
            assert(a@ =~= Seq::<UnitModel>::empty());
        }
        a
    }

    /// Registers a unit that began running and paused at a suspension point
    /// before the host's first observation: its first observed status is
    /// `Yielded`, with `yield_data` pending and a resume value of
    /// `resume_size` bytes expected. Returns the fresh handle the host will
    /// drive it by.
    pub fn start_yielded(&mut self, yield_data: Vec<u8>, resume_size: usize) -> (h: UtxoHandle<T>)
        requires
            old(self)@.len() < u32::MAX,
        ensures
            h.key() == old(self)@.len(),
            final(self)@ == old(self)@.push(
                UnitModel {
                    status: UtxoStatus::Yielded,
                    yield_data: yield_data@,
                    resume_size: resume_size as nat,
                },
            ),
    {
        let key = self.units.len() as u32;
        let ghost m = UnitModel {
            status: UtxoStatus::Yielded,
            yield_data: yield_data@,
            resume_size: resume_size as nat,
        };
        self.units.push(
            UnitEntry { status: UtxoStatus::Yielded, yield_data, resume_size },
        );
        proof {
            assert(self@ =~= old(self)@.push(m));
        }
        UtxoHandle { ptr: key, _phantom: PhantomData }
    }

    /// Registers a unit that ran to completion before the host's first
    /// observation: its first observed status is `Returned`, terminally.
    pub fn start_returned(&mut self) -> (h: UtxoHandle<T>)
        requires
            old(self)@.len() < u32::MAX,
        ensures
            h.key() == old(self)@.len(),
            final(self)@ == old(self)@.push(
                UnitModel {
                    status: UtxoStatus::Returned,
                    yield_data: Seq::empty(),
                    resume_size: 0,
                },
            ),
    {
        let key = self.units.len() as u32;
        self.units.push(
            UnitEntry { status: UtxoStatus::Returned, yield_data: Vec::new(), resume_size: 0 },
        );
        proof {
            assert(self@ =~= old(self)@.push(
                UnitModel {
                    status: UtxoStatus::Returned,
                    yield_data: Seq::empty(),
                    resume_size: 0,
                },
            ));
        }
        UtxoHandle { ptr: key, _phantom: PhantomData }
    }

    /// Observes the status of the unit `h` names: a pure read, free of side
    /// effects, callable any number of times.
    pub fn status(&self, h: UtxoHandle<T>) -> (st: UtxoStatus)
        requires
            unit_valid(self@, h.key() as int),
        ensures
            st == status_of(self@, h.key() as int),
    {
        self.units[h.ptr as usize].status
    }

    /// Whether the unit `h` names can be resumed: true exactly when its
    /// status is `Yielded`.
    pub fn can_resume(&self, h: UtxoHandle<T>) -> (r: bool)
        requires
            unit_valid(self@, h.key() as int),
        ensures
            r == (status_of(self@, h.key() as int) == UtxoStatus::Yielded),
    {
        self.status(h).can_resume()
    }

    /// The pending yield value of a paused unit: the byte-exact value the
    /// unit handed to the host when it suspended.
    pub fn pending_yield(&self, h: UtxoHandle<T>) -> (d: &Vec<u8>)
        requires
            resume_allowed(self@, h.key() as int),
        ensures
            d@ == self@[h.key() as int].yield_data,
    {
        &self.units[h.ptr as usize].yield_data
    }

    /// The number of bytes the paused unit's suspension channel declared for
    /// its resume value: what a resume must supply, exactly.
    pub fn expected_resume_size(&self, h: UtxoHandle<T>) -> (n: usize)
        requires
            resume_allowed(self@, h.key() as int),
        ensures
            n == self@[h.key() as int].resume_size,
    {
        self.units[h.ptr as usize].resume_size
    }

    /// Drives a paused unit forward: hands it a byte-exact copy of `value`
    /// (returned, as the value the unit observed) and records what the unit
    /// then did — paused again, or finished. Precondition: the unit is
    /// resumable and `value` has exactly the size its channel declared;
    /// violating it is a fatal contract violation, checked by `try_resume`.
    pub fn resume(&mut self, h: UtxoHandle<T>, value: &Vec<u8>, step: UnitStep) -> (delivered: Vec<
        u8,
    >)
        requires
            resume_allowed(old(self)@, h.key() as int),
            value@.len() == old(self)@[h.key() as int].resume_size,
        ensures
            delivered@ == value@,
            final(self)@ == old(self)@.update(h.key() as int, step_model(step)),
    {
        let ghost m = step_model(step);
        let entry = match step {
            UnitStep::Yield { data, resume_size } => UnitEntry {
                status: UtxoStatus::Yielded,
                yield_data: data,
                resume_size,
            },
            UnitStep::Finish => UnitEntry {
                status: UtxoStatus::Returned,
                yield_data: Vec::new(),
                resume_size: 0,
            },
        };
        self.units[h.ptr as usize] = entry;
        proof {
            assert(self@ =~= old(self)@.update(h.key() as int, m));
        }
        value.clone()
    }

    /// The boundary entry for a resume: checks the contract before driving
    /// the unit. A resume of a unit that is not paused, or with a value of
    /// the wrong size for its channel, is rejected — never silently ignored —
    /// and leaves every unit unchanged; a real host aborts the guest instance
    /// on such a violation.
    pub fn try_resume(&mut self, h: UtxoHandle<T>, value: &Vec<u8>, step: UnitStep) -> (r: Result<
        Vec<u8>,
        BoundaryViolation,
    >)
        requires
            unit_valid(old(self)@, h.key() as int),
        ensures
            !resume_allowed(old(self)@, h.key() as int) ==> {
                &&& r == Err::<Vec<u8>, BoundaryViolation>(BoundaryViolation::NotResumable)
                &&& final(self)@ == old(self)@
            },
            resume_allowed(old(self)@, h.key() as int) && value@.len() != old(self)@[h.key()
                as int].resume_size ==> {
                &&& r == Err::<Vec<u8>, BoundaryViolation>(BoundaryViolation::ResumeSizeMismatch)
                &&& final(self)@ == old(self)@
            },
            resume_allowed(old(self)@, h.key() as int) && value@.len() == old(self)@[h.key()
                as int].resume_size ==> {
                &&& r matches Ok(delivered) && delivered@ == value@
                &&& final(self)@ == old(self)@.update(h.key() as int, step_model(step))
            },
    {
        if !self.can_resume(h) {
            Err(BoundaryViolation::NotResumable)
        } else if value.len() != self.expected_resume_size(h) {
            Err(BoundaryViolation::ResumeSizeMismatch)
        } else {
            Ok(self.resume(h, value, step))
        }
    }

    /// Sugar for a resume that communicates nothing: drives the unit forward
    /// with the empty value, when its channel declared a zero-size resume
    /// type.
    pub fn next(&mut self, h: UtxoHandle<T>, step: UnitStep)
        requires
            resume_allowed(old(self)@, h.key() as int),
            old(self)@[h.key() as int].resume_size == 0,
        ensures
            final(self)@ == old(self)@.update(h.key() as int, step_model(step)),
    {
        let empty: Vec<u8> = Vec::new();
        let _ = self.resume(h, &empty, step);
    }
}

/// The import binding for one concrete unit type: the uniform shape a driver
/// (typically a coordination script) sees for the units it holds handles of.
/// Every binding forwards to the arena of its unit type; the value of the
/// shape is that it is identical regardless of which concrete type
/// instantiates it.
pub trait Utxo: Sized {
    /// The logical unit type that tags this unit's handles and arena.
    type Tag;

    /// The key of the arena slot this unit lives in.
    spec fn key(self) -> u32;

    /// Observes the unit's status: a pure read, free of side effects.
    fn status(self, arena: &UtxoArena<Self::Tag>) -> (st: UtxoStatus)
        requires
            unit_valid(arena@, self.key() as int),
        ensures
            st == status_of(arena@, self.key() as int),
    ;

    /// Drives the paused unit forward with a resume value of the declared
    /// size; `delivered` is the byte-exact copy the unit observed.
    fn resume(self, arena: &mut UtxoArena<Self::Tag>, value: &Vec<u8>, step: UnitStep) -> (
        delivered: Vec<u8>)
        requires
            resume_allowed(old(arena)@, self.key() as int),
            value@.len() == old(arena)@[self.key() as int].resume_size,
        ensures
            delivered@ == value@,
            final(arena)@ == old(arena)@.update(self.key() as int, step_model(step)),
    ;

    /// Whether the unit can be resumed: true exactly when it is paused.
    fn can_resume(self, arena: &UtxoArena<Self::Tag>) -> (r: bool)
        requires
            unit_valid(arena@, self.key() as int),
        ensures
            r == (status_of(arena@, self.key() as int) == UtxoStatus::Yielded),
    ;

    /// Sugar for a resume that communicates nothing, when the unit's channel
    /// declared a zero-size resume type.
    fn next(self, arena: &mut UtxoArena<Self::Tag>, step: UnitStep)
        requires
            resume_allowed(old(arena)@, self.key() as int),
            old(arena)@[self.key() as int].resume_size == 0,
        ensures
            final(arena)@ == old(arena)@.update(self.key() as int, step_model(step)),
    ;
}

/// The logical unit type of [`RawUtxo`]: a unit whose yield and resume
/// values are raw byte strings with no further structure.
pub struct RawUnit;

/// A concrete instantiation of the import binding, for units that exchange
/// raw byte strings. Each value wraps the handle of one unit and forwards to
/// that unit's arena.
#[derive(Clone, Copy)]
pub struct RawUtxo {
    pub handle: UtxoHandle<RawUnit>,
}

impl Utxo for RawUtxo {
    type Tag = RawUnit;

    open spec fn key(self) -> u32 {
        self.handle.key()
    }

    fn status(self, arena: &UtxoArena<RawUnit>) -> (st: UtxoStatus) {
        arena.status(self.handle)
    }

    fn resume(self, arena: &mut UtxoArena<RawUnit>, value: &Vec<u8>, step: UnitStep) -> (
        delivered: Vec<u8>) {
        arena.resume(self.handle, value, step)
    }

    fn can_resume(self, arena: &UtxoArena<RawUnit>) -> (r: bool) {
        arena.can_resume(self.handle)
    }

    fn next(self, arena: &mut UtxoArena<RawUnit>, step: UnitStep) {
        arena.next(self.handle, step)
    }
}

/// Law: a `Returned` unit is terminal. Its status query says it cannot be
/// resumed, and no resume of it is allowed — `try_resume` rejects the attempt
/// and changes nothing.
pub proof fn lemma_returned_rejects_resume(s: Seq<UnitModel>, key: int)
    requires
        unit_valid(s, key),
        status_of(s, key) == UtxoStatus::Returned,
    ensures
        status_of(s, key) != UtxoStatus::Yielded,
        !resume_allowed(s, key),
{
}

/// Law: `status` is a pure query. Its result is a function of the arena
/// state alone, so two status reads with no resume between them — the state
/// unchanged — return the same value.
pub proof fn lemma_status_pure(s: Seq<UnitModel>, key: int, r1: UtxoStatus, r2: UtxoStatus)
    requires
        unit_valid(s, key),
        r1 == status_of(s, key),
        r2 == status_of(s, key),
    ensures
        r1 == r2,
{
}

/// Law: a resume drives exactly the unit it names. The resumed unit's state
/// becomes what its step says — `Yielded` again with the new pending value,
/// or terminally `Returned` — and every other unit's state is untouched.
pub proof fn lemma_resume_isolated(s: Seq<UnitModel>, key: int, step: UnitStep)
    requires
        resume_allowed(s, key),
    ensures
        s.update(key, step_model(step)).len() == s.len(),
        s.update(key, step_model(step))[key] == step_model(step),
        forall|k: int|
            unit_valid(s, k) && k != key ==> s.update(key, step_model(step))[k] == s[k],
{
}

} // verus!
