//! The linear resource contract: a mint/burn pair turning a concrete wire
//! representation into an opaque live handle and back, enforced as a one-shot
//! transition per value.
//!
//! The host's side of the boundary is modeled explicitly as a [`TokenArena`]:
//! an arena of live token states, one per resource type, that the host alone
//! maintains. A [`TokenHandle`] is the guest's view of one arena slot — a
//! small integer key tagged with a phantom type, never dereferenced by the
//! guest. Mint appends exactly one live slot; burn empties exactly the slot
//! of the handle presented, so a burned handle can never be presented again.

use core::marker::PhantomData;
use vstd::prelude::*;

use crate::wire::TokenStorage;

verus! {

/// An opaque, live, non-duplicable reference to a minted resource instance,
/// tagged at compile time with a type `T` naming its logical resource (for
/// resources bound through [`Token`], the resource's intermediate
/// representation).
///
/// The guest never dereferences it: it is a key the host uses to locate token
/// state it alone maintains. Copyable and comparable by identity (the key),
/// never by value-equality of token contents.
pub struct TokenHandle<T: ?Sized> {
    ptr: u32,
    _phantom: PhantomData<T>,
}

impl<T: ?Sized> TokenHandle<T> {
    /// The arena key this handle carries: the identity by which handles are
    /// compared. A mint hands out exactly one key; copies of the handle carry
    /// the same key.
    pub closed spec fn key(&self) -> u32 {
        self.ptr
    }
}

impl<T: ?Sized> Clone for TokenHandle<T> {
    fn clone(&self) -> (c: Self)
        ensures
            c == *self,
    {
        *self
    }
}

impl<T: ?Sized> Copy for TokenHandle<T> {}

impl<T: ?Sized> PartialEq for TokenHandle<T> {
    fn eq(&self, other: &Self) -> bool {
        self.ptr == other.ptr
    }
}

impl<T: ?Sized> vstd::std_specs::cmp::PartialEqSpecImpl for TokenHandle<T> {
    open spec fn obeys_eq_spec() -> bool {
        true
    }

    open spec fn eq_spec(&self, other: &Self) -> bool {
        self.key() == other.key()
    }
}

/// A slot of the token arena holds `Some(storage)` while the token minted
/// into it is live, and `None` once it has been burned (or before any mint
/// reached it).
///
/// `slot_live` says whether `key` names a live token in arena state `s`.
pub open spec fn slot_live(s: Seq<Option<TokenStorage>>, key: int) -> bool {
    0 <= key < s.len() && s[key] is Some
}

/// The wire representation held by the live slot `key` of arena state `s`.
pub open spec fn slot_value(s: Seq<Option<TokenStorage>>, key: int) -> TokenStorage
    recommends
        slot_live(s, key),
{
    s[key]->0
}

/// Minting appends exactly one live slot holding the given wire value.
pub open spec fn mint_transition(
    s: Seq<Option<TokenStorage>>,
    storage: TokenStorage,
) -> Seq<Option<TokenStorage>> {
    s.push(Some(storage))
}

/// Burning empties exactly the slot of the handle presented.
pub open spec fn burn_transition(s: Seq<Option<TokenStorage>>, key: int) -> Seq<
    Option<TokenStorage>,
> {
    s.update(key, None)
}

/// The host's arena of token states for one logical resource type, tagged by
/// that resource's intermediate representation `T`: the model of the
/// host-held side of the mint/burn boundary. Its view is the sequence of
/// slots, in mint order; each handle's key is the index of the slot its mint
/// created.
pub struct TokenArena<T: ?Sized> {
    slots: Vec<Option<TokenStorage>>,
    _phantom: PhantomData<T>,
}

impl<T: ?Sized> View for TokenArena<T> {
    type V = Seq<Option<TokenStorage>>;

    closed spec fn view(&self) -> Seq<Option<TokenStorage>> {
        self.slots@
    }
}

impl<T: ?Sized> TokenArena<T> {
    /// An arena with no tokens minted yet.
    pub fn new() -> (a: Self)
        ensures
            a@ == Seq::<Option<TokenStorage>>::empty(),
    {
        TokenArena { slots: Vec::new(), _phantom: PhantomData }
    }

    /// Converts a concrete wire representation into a live opaque handle.
    /// The handle is fresh: its key names no live token of the old state, and
    /// every previously live slot is untouched.
    pub fn mint(&mut self, storage: TokenStorage) -> (h: TokenHandle<T>)
        requires
            old(self)@.len() < u32::MAX,
        ensures
            h.key() == old(self)@.len(),
            !slot_live(old(self)@, h.key() as int),
            final(self)@ == mint_transition(old(self)@, storage),
            slot_live(final(self)@, h.key() as int),
            slot_value(final(self)@, h.key() as int) == storage,
    {
        let key = self.slots.len() as u32;
        self.slots.push(Some(storage));
        TokenHandle { ptr: key, _phantom: PhantomData }
    }

    /// The inverse of mint: consumes the handle and reconstructs the wire
    /// representation it was minted from. The handle's slot is emptied, so
    /// the same handle value can never be presented as live again; no other
    /// slot changes.
    pub fn burn(&mut self, h: TokenHandle<T>) -> (storage: TokenStorage)
        requires
            slot_live(old(self)@, h.key() as int),
        ensures
            storage == slot_value(old(self)@, h.key() as int),
            final(self)@ == burn_transition(old(self)@, h.key() as int),
            !slot_live(final(self)@, h.key() as int),
    {
        let idx = h.ptr as usize;
        let stored = self.slots[idx];
        self.slots[idx] = None;
        match stored {
            Some(storage) => storage,
            None => unreached(),  // the slot is live
        }
    }

    /// Whether `h` names a live token: true from its mint until its burn,
    /// false afterwards. The host's guard before accepting a handle.
    pub fn is_live(&self, h: TokenHandle<T>) -> (r: bool)
        ensures
            r == slot_live(self@, h.key() as int),
    {
        let idx = h.ptr as usize;
        idx < self.slots.len() && self.slots[idx].is_some()
    }
}

/// The import binding for one concrete resource type: the uniform shape a
/// guest sees for a resource it holds live handles of. `Intermediate` is the
/// resource's own concrete structure, the only place where domain-specific
/// fields beyond `id`/`amount` live; `storage_of` and `of_storage` are its
/// conversions to and from the wire-visible shadow, applied when a value
/// crosses into and out of raw storage form.
pub trait Token: Sized {
    type Intermediate;

    /// The key of the arena slot this live token was minted into.
    spec fn key(self) -> u32;

    /// The wire-visible shadow of an intermediate: its `id`/`amount` pair
    /// (and nothing else) as raw storage.
    spec fn storage_of(i: Self::Intermediate) -> TokenStorage;

    /// Reconstruction of an intermediate from raw storage, the inverse
    /// direction of `storage_of`.
    spec fn of_storage(storage: TokenStorage) -> Self::Intermediate;

    /// Converts a concrete intermediate representation into a live token,
    /// storing its wire shadow in a fresh arena slot.
    fn mint(arena: &mut TokenArena<Self::Intermediate>, i: Self::Intermediate) -> (t: Self)
        requires
            old(arena)@.len() < u32::MAX,
        ensures
            t.key() == old(arena)@.len(),
            !slot_live(old(arena)@, t.key() as int),
            final(arena)@ == mint_transition(old(arena)@, Self::storage_of(i)),
    ;

    /// Consumes the live token and reconstructs its intermediate
    /// representation from the stored wire shadow; its slot is emptied.
    fn burn(self, arena: &mut TokenArena<Self::Intermediate>) -> (i: Self::Intermediate)
        requires
            slot_live(old(arena)@, self.key() as int),
        ensures
            i == Self::of_storage(slot_value(old(arena)@, self.key() as int)),
            final(arena)@ == burn_transition(old(arena)@, self.key() as int),
    ;

    /// The export entry point for a host-initiated mint: converts an
    /// intermediate into the raw storage form handed back across the
    /// boundary.
    fn to_storage(i: Self::Intermediate) -> (storage: TokenStorage)
        ensures
            storage == Self::storage_of(i),
    ;

    /// The export entry point for a host-initiated burn: reconstructs an
    /// intermediate from the raw storage form handed in across the boundary.
    fn from_storage(storage: TokenStorage) -> (i: Self::Intermediate)
        ensures
            i == Self::of_storage(storage),
    ;
}

/// The plainest resource type: its intermediate representation is the raw
/// wire pair itself, with no domain-specific fields and no transformation on
/// mint or burn.
#[derive(Clone, Copy)]
pub struct StorageToken {
    pub handle: TokenHandle<TokenStorage>,
}

impl Token for StorageToken {
    type Intermediate = TokenStorage;

    open spec fn key(self) -> u32 {
        self.handle.key()
    }

    open spec fn storage_of(i: TokenStorage) -> TokenStorage {
        i
    }

    open spec fn of_storage(storage: TokenStorage) -> TokenStorage {
        storage
    }

    fn mint(arena: &mut TokenArena<TokenStorage>, i: TokenStorage) -> (t: StorageToken) {
        StorageToken { handle: arena.mint(i) }
    }

    fn burn(self, arena: &mut TokenArena<TokenStorage>) -> (i: TokenStorage) {
        arena.burn(self.handle)
    }

    fn to_storage(i: TokenStorage) -> (storage: TokenStorage) {
        i
    }

    fn from_storage(storage: TokenStorage) -> (i: TokenStorage) {
        storage
    }
}

/// Law: mint and burn are mutual inverses at the level of the wire
/// representation. For any well-formed intermediate `i` — one whose
/// conversion to raw storage loses nothing — minting `i` and immediately
/// burning the resulting token reconstructs `i` itself, content-equal, and
/// leaves the token dead.
pub proof fn lemma_mint_burn_round_trip<T: Token>(s: Seq<Option<TokenStorage>>, i: T::Intermediate)
    requires
        T::of_storage(T::storage_of(i)) == i,
    ensures
        ({
            let key = s.len() as int;
            let minted = mint_transition(s, T::storage_of(i));
            &&& slot_live(minted, key)
            &&& T::of_storage(slot_value(minted, key)) == i
            &&& !slot_live(burn_transition(minted, key), key)
        }),
{
}

/// Law: burning a live token and re-minting the reconstructed intermediate,
/// where the resource's own logic performs no transformation, yields a live
/// token holding the same wire representation as the original — behaviorally
/// equivalent to the handle that was burned.
pub proof fn lemma_burn_mint_round_trip<T: Token>(s: Seq<Option<TokenStorage>>, key: int)
    requires
        slot_live(s, key),
        T::storage_of(T::of_storage(slot_value(s, key))) == slot_value(s, key),
    ensures
        ({
            let burned = burn_transition(s, key);
            let reminted = mint_transition(burned, T::storage_of(T::of_storage(slot_value(s, key))));
            let new_key = burned.len() as int;
            &&& !slot_live(burned, key)
            &&& slot_live(reminted, new_key)
            &&& slot_value(reminted, new_key) == slot_value(s, key)
        }),
{
}

/// Law: no duplication. One mint call creates exactly one live slot and hands
/// out exactly one key, fresh — so no two distinct live handles ever derive
/// from the same mint call. Every handle live before the mint keeps its key,
/// its liveness and its value, and its key differs from the fresh one.
pub proof fn lemma_mint_no_duplication<T: ?Sized>(
    s: Seq<Option<TokenStorage>>,
    storage: TokenStorage,
    h: TokenHandle<T>,
)
    ensures
        mint_transition(s, storage).len() == s.len() + 1,
        !slot_live(s, s.len() as int),
        slot_live(mint_transition(s, storage), s.len() as int),
        slot_live(s, h.key() as int) ==> {
            &&& h.key() < s.len()
            &&& slot_live(mint_transition(s, storage), h.key() as int)
            &&& slot_value(mint_transition(s, storage), h.key() as int) == slot_value(
                s,
                h.key() as int,
            )
        },
{
}

/// Law: handles compare by identity. Two live handles with the same key name
/// the same arena slot — they are the same token, not two tokens — and hold
/// the same wire value.
pub proof fn lemma_same_key_same_token<T: ?Sized>(
    s: Seq<Option<TokenStorage>>,
    h1: TokenHandle<T>,
    h2: TokenHandle<T>,
)
    requires
        slot_live(s, h1.key() as int),
        slot_live(s, h2.key() as int),
        h1.key() == h2.key(),
    ensures
        h1 == h2,
        slot_value(s, h1.key() as int) == slot_value(s, h2.key() as int),
{
}

} // verus!
