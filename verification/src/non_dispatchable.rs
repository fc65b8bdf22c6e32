//! The identity-keyed handle protocol: a handle is an opaque integer that
//! the registry resolves through the map of the object's category.

use vstd::prelude::*;
use std::collections::HashMap;
use crate::context::{Context, ContextView, Shared};
use crate::error::RegistryError;
use crate::handle::{HandleAllocator, VkNonDispatchableHandle};

verus! {

broadcast use vstd::std_specs::hash::group_hash_axioms;

/// An object category whose handles are opaque identities resolved through
/// a map of the registry.
///
/// An implementation names the map of its category and says how an object
/// records its own handle. The protocol itself is the same for every
/// category: the functions of this module.
pub trait NonDispatchable: Sized {
    /// The handle that the object records.
    spec fn handle_of(&self) -> VkNonDispatchableHandle;

    /// The object with `handle` recorded in it and nothing else changed.
    spec fn with_handle(self, handle: VkNonDispatchableHandle) -> Self;

    /// The map of this category in a registry.
    spec fn table(c: ContextView) -> Map<u64, Shared<Self>>;

    /// The registry with the map of this category replaced by `table`.
    spec fn with_table(c: ContextView, table: Map<u64, Shared<Self>>) -> ContextView;

    /// Recording a handle makes it the recorded handle.
    proof fn lemma_with_handle(self, handle: VkNonDispatchableHandle)
        ensures
            self.with_handle(handle).handle_of() == handle,
    ;

    /// The map of the category is a part of the registry of its own: it can be
    /// read back after it was replaced, replacing it touches neither the
    /// allocator nor what an earlier replacement left, and the registry is
    /// well-formed exactly as far as its parts are.
    proof fn lemma_category(
        c: ContextView,
        table: Map<u64, Shared<Self>>,
        other: Map<u64, Shared<Self>>,
        ids: HandleAllocator,
    )
        ensures
            Self::table(Self::with_table(c, table)) == table,
            Self::with_table(c, Self::table(c)) == c,
            Self::with_table(Self::with_table(c, other), table) == Self::with_table(c, table),
            Self::with_table(c, table).ids == c.ids,
            Self::table(ContextView { ids, ..c }) == Self::table(c),
            c.wf() ==> (forall|k: u64| #[trigger]
                Self::table(c).contains_key(k) ==> c.ids.issued(k) && Self::table(
                    c,
                )[k].object.handle_of().0 == k),
            c.wf() && ids.wf() && c.ids.next <= ids.next && (forall|k: u64| #[trigger]
                table.contains_key(k) ==> ids.issued(k) && table[k].object.handle_of().0 == k)
                ==> Self::with_table(ContextView { ids, ..c }, table).wf(),
    ;

    /// The map of this category, for reading.
    fn get_hash(context: &Context) -> (table: &HashMap<u64, Shared<Self>>)
        ensures
            table@ == Self::table(context@),
    ;

    /// The map of this category, for changing. Nothing else in the registry
    /// can change through it.
    fn get_hash_mut(context: &mut Context) -> (table: &mut HashMap<u64, Shared<Self>>)
        ensures
            table@ == Self::table(old(context)@),
            final(context)@ == Self::with_table(old(context)@, final(table)@),
    ;

    /// Records `handle` in the object.
    fn set_handle(&mut self, handle: VkNonDispatchableHandle)
        ensures
            *final(self) == old(self).with_handle(handle),
    ;

    /// The handle that the object records.
    fn get_handle(&self) -> (handle: VkNonDispatchableHandle)
        ensures
            handle == self.handle_of(),
    ;
}

/// `handle` names a live object of category `T`.
pub open spec fn live<T: NonDispatchable>(c: ContextView, handle: VkNonDispatchableHandle) -> bool {
    T::table(c).contains_key(handle.0)
}

/// Number of outstanding references to the object that `handle` names.
pub open spec fn holders<T: NonDispatchable>(
    c: ContextView,
    handle: VkNonDispatchableHandle,
) -> u64 {
    T::table(c)[handle.0].holders
}

/// The registry with the entry of `handle` holding `holders` references.
pub open spec fn counted<T: NonDispatchable>(
    c: ContextView,
    handle: VkNonDispatchableHandle,
    holders: u64,
) -> ContextView {
    T::with_table(
        c,
        T::table(c).insert(handle.0, Shared { object: T::table(c)[handle.0].object, holders }),
    )
}

/// The registry after `object` has been registered: a fresh identity is
/// issued, written into the object, and the object stored under it with no
/// outstanding reference.
pub open spec fn registered<T: NonDispatchable>(c: ContextView, object: T) -> ContextView {
    T::with_table(
        ContextView { ids: HandleAllocator { next: (c.ids.next + 1) as u64 }, ..c },
        T::table(c).insert(
            c.ids.next,
            Shared { object: object.with_handle(VkNonDispatchableHandle(c.ids.next)), holders: 0 },
        ),
    )
}

/// The registry after one more reference to `handle` has been handed out.
pub open spec fn acquired<T: NonDispatchable>(
    c: ContextView,
    handle: VkNonDispatchableHandle,
) -> ContextView {
    counted::<T>(c, handle, (holders::<T>(c, handle) + 1) as u64)
}

/// The registry after one reference to `handle` has been given back.
pub open spec fn released<T: NonDispatchable>(
    c: ContextView,
    handle: VkNonDispatchableHandle,
) -> ContextView {
    counted::<T>(c, handle, (holders::<T>(c, handle) - 1) as u64)
}

/// The registry after the entry of `handle` has been removed.
pub open spec fn removed<T: NonDispatchable>(
    c: ContextView,
    handle: VkNonDispatchableHandle,
) -> ContextView {
    T::with_table(c, T::table(c).remove(handle.0))
}

/// What registering `object` gives, and the registry after it: refused, with
/// nothing changed, exactly when the allocator is exhausted.
pub open spec fn register<T: NonDispatchable>(c: ContextView, object: T) -> (
    Result<VkNonDispatchableHandle, RegistryError>,
    ContextView,
) {
    if c.ids.exhausted() {
        (Err(RegistryError::OutOfHandles), c)
    } else {
        (Ok(VkNonDispatchableHandle(c.ids.next)), registered(c, object))
    }
}

/// What resolving `handle` gives, and the registry after it: refused, with
/// nothing changed, when the handle names no live object of the category or
/// the reference count is at its limit; otherwise one more reference is
/// outstanding.
pub open spec fn resolve<T: NonDispatchable>(c: ContextView, handle: VkNonDispatchableHandle) -> (
    Result<(), RegistryError>,
    ContextView,
) {
    if !live::<T>(c, handle) {
        (Err(RegistryError::NotFound), c)
    } else if holders::<T>(c, handle) == u64::MAX {
        (Err(RegistryError::TooManyReferences), c)
    } else {
        (Ok(()), acquired::<T>(c, handle))
    }
}

/// What giving a reference back gives, and the registry after it: refused,
/// with nothing changed, when the handle names no live object of the
/// category or no reference is outstanding; otherwise one reference fewer is.
pub open spec fn give_back<T: NonDispatchable>(c: ContextView, handle: VkNonDispatchableHandle) -> (
    Result<(), RegistryError>,
    ContextView,
) {
    if !live::<T>(c, handle) {
        (Err(RegistryError::NotFound), c)
    } else if holders::<T>(c, handle) == 0 {
        (Err(RegistryError::NotReferenced), c)
    } else {
        (Ok(()), released::<T>(c, handle))
    }
}

/// What unregistering `handle` gives, and the registry after it: the entry,
/// removed, or nothing, with nothing changed, when the handle names no live
/// object of the category.
pub open spec fn unregister<T: NonDispatchable>(c: ContextView, handle: VkNonDispatchableHandle) -> (
    Option<Shared<T>>,
    ContextView,
) {
    if live::<T>(c, handle) {
        (Some(T::table(c)[handle.0]), removed::<T>(c, handle))
    } else {
        (None, c)
    }
}

/// What destroying the object that `handle` names gives, and the registry
/// after it: the null handle is accepted and nothing happens; an unknown
/// handle is refused; so is the destruction of an object to which references
/// are outstanding; otherwise the entry is removed.
pub open spec fn destroy<T: NonDispatchable>(c: ContextView, handle: VkNonDispatchableHandle) -> (
    Result<(), RegistryError>,
    ContextView,
) {
    if handle.0 == 0 {
        (Ok(()), c)
    } else if !live::<T>(c, handle) {
        (Err(RegistryError::NotFound), c)
    } else if holders::<T>(c, handle) > 0 {
        (Err(RegistryError::StillReferenced), c)
    } else {
        (Ok(()), removed::<T>(c, handle))
    }
}

/// Replacing the map of a category by one whose entries were there before
/// or sit under the identity just issued, under an allocator that has moved
/// forward or stood still, keeps a well-formed registry well-formed.
proof fn lemma_step<T: NonDispatchable>(c: ContextView, table: Map<u64, Shared<T>>, ids: HandleAllocator)
    requires
        c.wf() ==> ids.wf() && c.ids.next <= ids.next && forall|k: u64| #[trigger]
            table.contains_key(k) ==> (k == c.ids.next && ids.issued(k) || T::table(c).contains_key(k))
                && table[k].object.handle_of().0 == k,
    ensures
        c.wf() ==> T::with_table(ContextView { ids, ..c }, table).wf(),
        T::with_table(c, T::table(c)) == c,
        c == (ContextView { ids: c.ids, ..c }),
{
    T::lemma_category(c, table, table, ids);
    if c.wf() {
        assert forall|k: u64| #[trigger] table.contains_key(k) implies ids.issued(k)
            && table[k].object.handle_of().0 == k by {
            if T::table(c).contains_key(k) {
            }
        }
    }
}

/// Registers `object`: issues a fresh identity, records it in the object
/// and stores the object under it. No reference is outstanding yet.
///
/// Refused, with nothing changed, exactly when the allocator is exhausted.
pub fn register_object<T: NonDispatchable>(object: T, context: &mut Context) -> (r: Result<
    VkNonDispatchableHandle,
    RegistryError,
>)
    ensures
        old(context).wf() ==> final(context).wf(),
        (r, final(context)@) == register(old(context)@, object),
{
    let ghost before = context@;
    match context.ids.allocate() {
        None => Err(RegistryError::OutOfHandles),
        Some(id) => {
            let handle = VkNonDispatchableHandle(id);
            let mut stored = object;
            stored.set_handle(handle);
            let ghost stepped = context@;
            let table = T::get_hash_mut(context);
            table.insert(id, Shared { object: stored, holders: 0 });
            proof {
                object.lemma_with_handle(handle);
                T::lemma_category(before, table@, table@, stepped.ids);
                assert(stepped == ContextView { ids: stepped.ids, ..before });
                lemma_step::<T>(before, table@, stepped.ids);
            }
            Ok(handle)
        },
    }
}

/// Sets the reference count of the entry of `handle`.
fn set_holders<T: NonDispatchable>(context: &mut Context, handle: VkNonDispatchableHandle, holders: u64)
    requires
        live::<T>(old(context)@, handle),
    ensures
        old(context).wf() ==> final(context).wf(),
        final(context)@ == counted::<T>(old(context)@, handle, holders),
{
    let ghost before = context@;
    proof {
        T::lemma_category(before, T::table(before), T::table(before), before.ids);
    }
    let table = T::get_hash_mut(context);
    match table.remove(&handle.0) {
        None => {},
        Some(entry) => {
            table.insert(handle.0, Shared { object: entry.object, holders });
        },
    }
    proof {
        assert(table@ =~= T::table(before).insert(
            handle.0,
            Shared { object: T::table(before)[handle.0].object, holders },
        ));
        lemma_step::<T>(before, table@, before.ids);
    }
}

/// Resolves `handle`: hands out one more reference to the object it names.
///
/// Refused, with nothing changed, when the handle names no live object of
/// the category, or when the object's reference count is at its limit.
pub fn from_handle<T: NonDispatchable>(context: &mut Context, handle: VkNonDispatchableHandle) -> (r:
    Result<(), RegistryError>)
    ensures
        old(context).wf() ==> final(context).wf(),
        (r, final(context)@) == resolve::<T>(old(context)@, handle),
{
    let outstanding: u64 = match T::get_hash(context).get(&handle.0) {
        None => {
            return Err(RegistryError::NotFound);
        },
        Some(entry) => entry.holders,
    };
    if outstanding == u64::MAX {
        return Err(RegistryError::TooManyReferences);
    }
    set_holders::<T>(context, handle, outstanding + 1);
    Ok(())
}

/// Gives back one reference to the object that `handle` names.
///
/// Refused, with nothing changed, when the handle names no live object of
/// the category, or when no reference to the object is outstanding.
pub fn release<T: NonDispatchable>(context: &mut Context, handle: VkNonDispatchableHandle) -> (r:
    Result<(), RegistryError>)
    ensures
        old(context).wf() ==> final(context).wf(),
        (r, final(context)@) == give_back::<T>(old(context)@, handle),
{
    let outstanding: u64 = match T::get_hash(context).get(&handle.0) {
        None => {
            return Err(RegistryError::NotFound);
        },
        Some(entry) => entry.holders,
    };
    if outstanding == 0 {
        return Err(RegistryError::NotReferenced);
    }
    set_holders::<T>(context, handle, outstanding - 1);
    Ok(())
}

/// Removes the entry of `handle` from the registry and hands it to the
/// caller, whatever references are outstanding: the registry no longer
/// tracks the object, and no later resolution of the handle succeeds.
///
/// Returns nothing, with nothing changed, when the handle names no live
/// object of the category.
pub fn unregister_object<T: NonDispatchable>(
    context: &mut Context,
    handle: VkNonDispatchableHandle,
) -> (r: Option<Shared<T>>)
    ensures
        old(context).wf() ==> final(context).wf(),
        (r, final(context)@) == unregister::<T>(old(context)@, handle),
{
    let ghost before = context@;
    proof {
        T::lemma_category(before, T::table(before), T::table(before), before.ids);
    }
    let table = T::get_hash_mut(context);
    let r = table.remove(&handle.0);
    proof {
        if r.is_none() {
            assert(table@ =~= T::table(before));
        }
        lemma_step::<T>(before, table@, before.ids);
    }
    r
}

/// Destroys the object that `handle` names: removes its entry, provided that
/// no reference to it is outstanding. The null handle is accepted and
/// nothing happens.
///
/// Refused, with nothing changed, when a handle other than null names no
/// live object of the category, or when references are still outstanding.
pub fn drop_handle<T: NonDispatchable>(context: &mut Context, handle: VkNonDispatchableHandle) -> (r:
    Result<(), RegistryError>)
    ensures
        old(context).wf() ==> final(context).wf(),
        (r, final(context)@) == destroy::<T>(old(context)@, handle),
{
    if handle.0 == 0 {
        return Ok(());
    }
    let outstanding: u64 = match T::get_hash(context).get(&handle.0) {
        None => {
            return Err(RegistryError::NotFound);
        },
        Some(entry) => entry.holders,
    };
    if outstanding > 0 {
        return Err(RegistryError::StillReferenced);
    }
    let _ = unregister_object::<T>(context, handle);
    Ok(())
}

/// The object that `handle` names, for reading. No reference is counted:
/// the borrow of the registry is what keeps the object in place.
pub fn lookup<T: NonDispatchable>(context: &Context, handle: VkNonDispatchableHandle) -> (r: Option<
    &T,
>)
    ensures
        match r {
            Some(object) => live::<T>(context@, handle) && *object == T::table(
                context@,
            )[handle.0].object,
            None => !live::<T>(context@, handle),
        },
{
    match T::get_hash(context).get(&handle.0) {
        None => None,
        Some(entry) => Some(&entry.object),
    }
}

/// No operation of the protocol moves the allocator back: registration moves
/// it forward by one, and resolving, giving back, unregistering and
/// destroying leave it where it is.
pub proof fn lemma_allocator_moves_forward<T: NonDispatchable>(
    c: ContextView,
    object: T,
    handle: VkNonDispatchableHandle,
)
    ensures
        register(c, object).0.is_ok() ==> register(c, object).1.ids.next == c.ids.next + 1,
        register(c, object).0.is_err() ==> register(c, object).1 == c,
        resolve::<T>(c, handle).1.ids == c.ids,
        give_back::<T>(c, handle).1.ids == c.ids,
        unregister::<T>(c, handle).1.ids == c.ids,
        destroy::<T>(c, handle).1.ids == c.ids,
{
    let t = T::table(c);
    let stepped = ContextView { ids: HandleAllocator { next: (c.ids.next + 1) as u64 }, ..c };
    T::lemma_category(
        stepped,
        t.insert(
            c.ids.next,
            Shared { object: object.with_handle(VkNonDispatchableHandle(c.ids.next)), holders: 0 },
        ),
        t,
        c.ids,
    );
    let e = t[handle.0];
    T::lemma_category(
        c,
        t.insert(handle.0, Shared { object: e.object, holders: (e.holders + 1) as u64 }),
        t,
        c.ids,
    );
    T::lemma_category(
        c,
        t.insert(handle.0, Shared { object: e.object, holders: (e.holders - 1) as u64 }),
        t,
        c.ids,
    );
    T::lemma_category(c, t.remove(handle.0), t, c.ids);
}

/// Identities are never issued twice. In any history of a registry in which
/// the allocator never moves back, two registrations, of whatever
/// categories and with whatever happening between them, return different
/// handles.
pub proof fn lemma_handles_never_repeat<T: NonDispatchable, U: NonDispatchable>(
    history: Seq<ContextView>,
    i: int,
    j: int,
    first: T,
    second: U,
)
    requires
        0 <= i < j,
        j + 1 < history.len(),
        forall|k: int|
            0 <= k && k + 1 < history.len() ==> (#[trigger] history[k]).ids.next <= history[k
                + 1].ids.next,
        register(history[i], first).0.is_ok(),
        history[i + 1] == register(history[i], first).1,
        register(history[j], second).0.is_ok(),
    ensures
        register(history[i], first).0.unwrap().0 != register(history[j], second).0.unwrap().0,
{
    lemma_allocator_moves_forward::<T>(history[i], first, VkNonDispatchableHandle(0));
    lemma_never_back(history, i + 1, j);
}

/// In a history in which no step moves the allocator back, no stretch of
/// steps does.
pub proof fn lemma_never_back(history: Seq<ContextView>, from: int, to: int)
    requires
        0 <= from <= to < history.len(),
        forall|k: int|
            0 <= k && k + 1 < history.len() ==> (#[trigger] history[k]).ids.next <= history[k
                + 1].ids.next,
    ensures
        history[from].ids.next <= history[to].ids.next,
    decreases to - from,
{
    if from < to {
        lemma_never_back(history, from, to - 1);
        assert(history[to - 1].ids.next <= history[to - 1 + 1].ids.next);
    }
}

/// Resolution after destruction reports that the handle is unknown: once an
/// object has been destroyed, or unregistered, its handle resolves to
/// nothing.
pub proof fn lemma_resolve_after_destroy<T: NonDispatchable>(
    c: ContextView,
    handle: VkNonDispatchableHandle,
)
    requires
        live::<T>(c, handle),
    ensures
        destroy::<T>(c, handle).0.is_ok() && handle.0 != 0 ==> resolve::<T>(
            destroy::<T>(c, handle).1,
            handle,
        ) == (Err::<(), RegistryError>(RegistryError::NotFound), destroy::<T>(c, handle).1),
        resolve::<T>(unregister::<T>(c, handle).1, handle) == (
            Err::<(), RegistryError>(RegistryError::NotFound),
            unregister::<T>(c, handle).1,
        ),
{
    T::lemma_category(c, T::table(c).remove(handle.0), T::table(c), c.ids);
}

/// A destroyed handle stays unknown: a handle that was issued and names no
/// live object is not brought back by a later registration in its category.
pub proof fn lemma_destroyed_stays_unknown<T: NonDispatchable>(
    c: ContextView,
    handle: VkNonDispatchableHandle,
    object: T,
)
    requires
        c.ids.issued(handle.0),
        !live::<T>(c, handle),
    ensures
        !live::<T>(register(c, object).1, handle),
{
    let stepped = ContextView { ids: HandleAllocator { next: (c.ids.next + 1) as u64 }, ..c };
    let t = T::table(c).insert(
        c.ids.next,
        Shared { object: object.with_handle(VkNonDispatchableHandle(c.ids.next)), holders: 0 },
    );
    T::lemma_category(stepped, t, t, c.ids);
}

/// Round trip: resolving a handle and giving the reference back leaves the
/// registry as it was, in what it holds and in what it says of each object.
pub proof fn lemma_resolve_then_release<T: NonDispatchable>(
    c: ContextView,
    handle: VkNonDispatchableHandle,
)
    requires
        resolve::<T>(c, handle).0.is_ok(),
    ensures
        give_back::<T>(resolve::<T>(c, handle).1, handle) == (Ok::<(), RegistryError>(()), c),
{
    let t = T::table(c);
    let e = t[handle.0];
    let t1 = t.insert(handle.0, Shared { object: e.object, holders: (e.holders + 1) as u64 });
    let c1 = T::with_table(c, t1);
    T::lemma_category(c, t1, t1, c.ids);
    let t2 = t1.insert(handle.0, Shared { object: e.object, holders: e.holders });
    T::lemma_category(c, t2, t1, c.ids);
    assert(t2 =~= t);
}

/// Round trip from registration on: an object that was just registered can
/// be resolved, and giving the reference back leaves the registry as it was
/// right after the registration.
pub proof fn lemma_register_resolve_release<T: NonDispatchable>(c: ContextView, object: T)
    requires
        register(c, object).0.is_ok(),
    ensures
        ({
            let handle = register(c, object).0.unwrap();
            let after = register(c, object).1;
            &&& live::<T>(after, handle)
            &&& T::table(after)[handle.0].object == object.with_handle(handle)
            &&& resolve::<T>(after, handle).0.is_ok()
            &&& give_back::<T>(resolve::<T>(after, handle).1, handle) == (
                Ok::<(), RegistryError>(()),
                after,
            )
        }),
{
    let handle = VkNonDispatchableHandle(c.ids.next);
    let stepped = ContextView { ids: HandleAllocator { next: (c.ids.next + 1) as u64 }, ..c };
    let t = T::table(c).insert(
        c.ids.next,
        Shared { object: object.with_handle(handle), holders: 0 },
    );
    T::lemma_category(stepped, t, t, c.ids);
    lemma_resolve_then_release::<T>(registered(c, object), handle);
}

/// The registry after `n` resolutions of `handle`, one after another.
pub open spec fn resolved_times<T: NonDispatchable>(
    c: ContextView,
    handle: VkNonDispatchableHandle,
    n: nat,
) -> ContextView
    decreases n,
{
    if n == 0 {
        c
    } else {
        resolve::<T>(resolved_times::<T>(c, handle, (n - 1) as nat), handle).1
    }
}

/// Resolutions of one live handle all succeed, however many there are, as
/// long as the reference count has room for them; each finds the object as
/// it was registered, and each is counted.
pub proof fn lemma_resolutions_all_succeed<T: NonDispatchable>(
    c: ContextView,
    handle: VkNonDispatchableHandle,
    n: nat,
)
    requires
        live::<T>(c, handle),
        holders::<T>(c, handle) + n <= u64::MAX,
    ensures
        live::<T>(resolved_times::<T>(c, handle, n), handle),
        T::table(resolved_times::<T>(c, handle, n))[handle.0].object == T::table(
            c,
        )[handle.0].object,
        holders::<T>(resolved_times::<T>(c, handle, n), handle) == holders::<T>(c, handle) + n,
        forall|k: nat|
            k < n ==> (#[trigger] resolve::<T>(resolved_times::<T>(c, handle, k), handle)).0.is_ok(),
    decreases n,
{
    if n > 0 {
        let m = (n - 1) as nat;
        lemma_resolutions_all_succeed::<T>(c, handle, m);
        let before = resolved_times::<T>(c, handle, m);
        let t = T::table(before);
        let e = t[handle.0];
        T::lemma_category(
            before,
            t.insert(handle.0, Shared { object: e.object, holders: (e.holders + 1) as u64 }),
            t,
            before.ids,
        );
        assert forall|k: nat| k < n implies (#[trigger] resolve::<T>(
            resolved_times::<T>(c, handle, k),
            handle,
        )).0.is_ok() by {
            if k < m {
            } else {
                assert(k == m);
            }
        }
    }
}

/// Destruction needs the sole reference: while a resolved reference to an
/// object is outstanding its destruction is refused and changes nothing, and
/// once the reference is given back the destruction goes through.
pub proof fn lemma_destroy_needs_sole_reference<T: NonDispatchable>(
    c: ContextView,
    handle: VkNonDispatchableHandle,
)
    requires
        c.wf(),
        resolve::<T>(c, handle).0.is_ok(),
    ensures
        destroy::<T>(resolve::<T>(c, handle).1, handle) == (
            Err::<(), RegistryError>(RegistryError::StillReferenced),
            resolve::<T>(c, handle).1,
        ),
        holders::<T>(c, handle) == 0 ==> destroy::<T>(
            give_back::<T>(resolve::<T>(c, handle).1, handle).1,
            handle,
        ) == (Ok::<(), RegistryError>(()), removed::<T>(c, handle)),
{
    let t = T::table(c);
    let e = t[handle.0];
    let t1 = t.insert(handle.0, Shared { object: e.object, holders: (e.holders + 1) as u64 });
    T::lemma_category(c, t1, t1, c.ids);
    T::lemma_category(c, t, t, c.ids);
    lemma_resolve_then_release::<T>(c, handle);
}

} // verus!
