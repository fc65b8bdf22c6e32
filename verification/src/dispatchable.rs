//! The address-style handle protocol: a handle is the integer that stands
//! for the object's storage location, found again by scanning the ordered
//! collection of the object's category.

use vstd::prelude::*;
use crate::context::{Context, ContextView, Shared};
use crate::error::RegistryError;
use crate::handle::{HandleAllocator, VkDispatchableHandle};

verus! {

/// An object category whose handles stand for the object's storage location.
///
/// An implementation names the collection of its category and says how an
/// object records its own handle. The protocol itself is the same for every
/// category: the functions of this module.
pub trait Dispatchable: Sized {
    /// The handle that the object records.
    spec fn handle_of(&self) -> VkDispatchableHandle;

    /// The object with `handle` recorded in it and nothing else changed.
    spec fn with_handle(self, handle: VkDispatchableHandle) -> Self;

    /// The collection of this category in a registry.
    spec fn list(c: ContextView) -> Seq<Shared<Self>>;

    /// The registry with the collection of this category replaced by `list`.
    spec fn with_list(c: ContextView, list: Seq<Shared<Self>>) -> ContextView;

    /// Recording a handle makes it the recorded handle.
    proof fn lemma_with_handle(self, handle: VkDispatchableHandle)
        ensures
            self.with_handle(handle).handle_of() == handle,
    ;

    /// The collection of the category is a part of the registry of its own: it
    /// can be read back after it was replaced, replacing it touches neither
    /// the allocator nor what an earlier replacement left, and the registry
    /// is well-formed exactly as far as its parts are.
    proof fn lemma_category(
        c: ContextView,
        list: Seq<Shared<Self>>,
        other: Seq<Shared<Self>>,
        ids: HandleAllocator,
    )
        ensures
            Self::list(Self::with_list(c, list)) == list,
            Self::with_list(c, Self::list(c)) == c,
            Self::with_list(Self::with_list(c, other), list) == Self::with_list(c, list),
            Self::with_list(c, list).ids == c.ids,
            Self::list(ContextView { ids, ..c }) == Self::list(c),
            c.wf() ==> (forall|i: int|
                0 <= i < Self::list(c).len() ==> c.ids.issued(
                    (#[trigger] Self::list(c)[i]).object.handle_of().0,
                )) && (forall|i: int, j: int|
                0 <= i < j < Self::list(c).len() ==> (#[trigger] Self::list(
                    c,
                )[i]).object.handle_of() != (#[trigger] Self::list(c)[j]).object.handle_of()),
            c.wf() && ids.wf() && c.ids.next <= ids.next && (forall|i: int|
                0 <= i < list.len() ==> ids.issued((#[trigger] list[i]).object.handle_of().0))
                && (forall|i: int, j: int|
                0 <= i < j < list.len() ==> (#[trigger] list[i]).object.handle_of() != (
                #[trigger] list[j]).object.handle_of()) ==> Self::with_list(
                ContextView { ids, ..c },
                list,
            ).wf(),
    ;

    /// The collection of this category, for reading.
    fn get_vec_ref(context: &Context) -> (list: &Vec<Shared<Self>>)
        ensures
            list@ == Self::list(context@),
    ;

    /// The collection of this category, for changing. Nothing else in the
    /// registry can change through it.
    fn get_vec(context: &mut Context) -> (list: &mut Vec<Shared<Self>>)
        ensures
            list@ == Self::list(old(context)@),
            final(context)@ == Self::with_list(old(context)@, final(list)@),
    ;

    /// Records `handle` in the object.
    fn set_handle(&mut self, handle: VkDispatchableHandle)
        ensures
            *final(self) == old(self).with_handle(handle),
    ;

    /// The handle that the object records.
    fn get_handle(&self) -> (handle: VkDispatchableHandle)
        ensures
            handle == self.handle_of(),
    ;
}

/// Every object of `list` records a handle that `ids` has issued, and no two
/// objects record the same one.
pub open spec fn list_wf<T: Dispatchable>(list: Seq<Shared<T>>, ids: HandleAllocator) -> bool {
    &&& forall|i: int|
        0 <= i < list.len() ==> ids.issued((#[trigger] list[i]).object.handle_of().0)
    &&& forall|i: int, j: int|
        0 <= i < j < list.len() ==> (#[trigger] list[i]).object.handle_of() != (
        #[trigger] list[j]).object.handle_of()
}

/// The object at position `i` of `list` records `handle`.
pub open spec fn found_at<T: Dispatchable>(
    list: Seq<Shared<T>>,
    handle: VkDispatchableHandle,
    i: int,
) -> bool {
    0 <= i < list.len() && list[i].object.handle_of() == handle
}

/// Some object of `list` records `handle`.
pub open spec fn contains<T: Dispatchable>(list: Seq<Shared<T>>, handle: VkDispatchableHandle) -> bool {
    exists|i: int| #[trigger] found_at(list, handle, i)
}

/// The object at position `i` of `list` is the first that records `handle`.
pub open spec fn first_at<T: Dispatchable>(
    list: Seq<Shared<T>>,
    handle: VkDispatchableHandle,
    i: int,
) -> bool {
    found_at(list, handle, i) && forall|j: int| 0 <= j < i ==> !found_at(list, handle, j)
}

/// The first position in `list` at which an object records `handle`. In a
/// well-formed registry it is the only one.
pub open spec fn position<T: Dispatchable>(list: Seq<Shared<T>>, handle: VkDispatchableHandle) -> int {
    choose|i: int| #[trigger] first_at(list, handle, i)
}

/// `handle` names a live object of category `T`.
pub open spec fn live<T: Dispatchable>(c: ContextView, handle: VkDispatchableHandle) -> bool {
    contains(T::list(c), handle)
}

/// Position, in creation order, of the object that `handle` names.
pub open spec fn index_of<T: Dispatchable>(c: ContextView, handle: VkDispatchableHandle) -> int {
    position(T::list(c), handle)
}

/// Number of outstanding references to the object that `handle` names.
pub open spec fn holders<T: Dispatchable>(c: ContextView, handle: VkDispatchableHandle) -> u64 {
    T::list(c)[index_of::<T>(c, handle)].holders
}

/// The registry with the entry of `handle` holding `holders` references.
pub open spec fn counted<T: Dispatchable>(
    c: ContextView,
    handle: VkDispatchableHandle,
    holders: u64,
) -> ContextView {
    let i = index_of::<T>(c, handle);
    T::with_list(c, T::list(c).update(i, Shared { object: T::list(c)[i].object, holders }))
}

/// The registry after `object` has been registered: a fresh identity is
/// issued, written into the object, and the object put last in its
/// collection, with the one reference that registration hands out.
pub open spec fn registered<T: Dispatchable>(c: ContextView, object: T) -> ContextView {
    T::with_list(
        ContextView { ids: HandleAllocator { next: (c.ids.next + 1) as u64 }, ..c },
        T::list(c).push(
            Shared { object: object.with_handle(VkDispatchableHandle(c.ids.next)), holders: 1 },
        ),
    )
}

/// The registry after one more reference to `handle` has been handed out.
pub open spec fn acquired<T: Dispatchable>(c: ContextView, handle: VkDispatchableHandle) -> ContextView {
    counted::<T>(c, handle, (holders::<T>(c, handle) + 1) as u64)
}

/// The registry after one reference to `handle` has been given back.
pub open spec fn released<T: Dispatchable>(c: ContextView, handle: VkDispatchableHandle) -> ContextView {
    counted::<T>(c, handle, (holders::<T>(c, handle) - 1) as u64)
}

/// The registry after the entry of `handle` has been removed; the objects
/// behind it move up and keep their order.
pub open spec fn removed<T: Dispatchable>(c: ContextView, handle: VkDispatchableHandle) -> ContextView {
    T::with_list(c, T::list(c).remove(index_of::<T>(c, handle)))
}

/// What registering `object` gives, and the registry after it: refused, with
/// nothing changed, exactly when the allocator is exhausted.
pub open spec fn register<T: Dispatchable>(c: ContextView, object: T) -> (
    Result<VkDispatchableHandle, RegistryError>,
    ContextView,
) {
    if c.ids.exhausted() {
        (Err(RegistryError::OutOfHandles), c)
    } else {
        (Ok(VkDispatchableHandle(c.ids.next)), registered(c, object))
    }
}

/// What resolving `handle` gives, and the registry after it: refused, with
/// nothing changed, when the handle names no live object of the category or
/// the reference count is at its limit; otherwise one more reference is
/// outstanding.
pub open spec fn resolve<T: Dispatchable>(c: ContextView, handle: VkDispatchableHandle) -> (
    Result<(), RegistryError>,
    ContextView,
) {
    if !live::<T>(c, handle) {
        (Err(RegistryError::NotFound), c)
    } else if holders::<T>(c, handle) == u64::MAX {
        (Err(RegistryError::TooManyReferences), c)
    } else {
        (Ok(()), acquired::<T>(c, handle))
    }
}

/// What giving a reference back gives, and the registry after it: refused,
/// with nothing changed, when the handle names no live object of the
/// category or no reference is outstanding; otherwise one reference fewer is.
pub open spec fn give_back<T: Dispatchable>(c: ContextView, handle: VkDispatchableHandle) -> (
    Result<(), RegistryError>,
    ContextView,
) {
    if !live::<T>(c, handle) {
        (Err(RegistryError::NotFound), c)
    } else if holders::<T>(c, handle) == 0 {
        (Err(RegistryError::NotReferenced), c)
    } else {
        (Ok(()), released::<T>(c, handle))
    }
}

/// What unregistering `handle` gives, and the registry after it: the entry,
/// removed, or nothing, with nothing changed, when the handle names no live
/// object of the category.
pub open spec fn unregister<T: Dispatchable>(c: ContextView, handle: VkDispatchableHandle) -> (
    Option<Shared<T>>,
    ContextView,
) {
    if live::<T>(c, handle) {
        (Some(T::list(c)[index_of::<T>(c, handle)]), removed::<T>(c, handle))
    } else {
        (None, c)
    }
}

/// What destroying the object that `handle` names gives, and the registry
/// after it: the null handle is accepted and nothing happens; an unknown
/// handle is refused; so is a caller that holds no reference, and one whose
/// reference is not the only one outstanding; otherwise the entry is removed.
pub open spec fn destroy<T: Dispatchable>(c: ContextView, handle: VkDispatchableHandle) -> (
    Result<(), RegistryError>,
    ContextView,
) {
    if handle.0 == 0 {
        (Ok(()), c)
    } else if !live::<T>(c, handle) {
        (Err(RegistryError::NotFound), c)
    } else if holders::<T>(c, handle) == 0 {
        (Err(RegistryError::NotReferenced), c)
    } else if holders::<T>(c, handle) > 1 {
        (Err(RegistryError::StillReferenced), c)
    } else {
        (Ok(()), removed::<T>(c, handle))
    }
}

/// A handle that is found at some position is found first at some position.
proof fn lemma_first_exists<T: Dispatchable>(list: Seq<Shared<T>>, handle: VkDispatchableHandle, i: int)
    requires
        found_at(list, handle, i),
    ensures
        exists|j: int| #[trigger] first_at(list, handle, j),
    decreases i,
{
    if forall|j: int| 0 <= j < i ==> !found_at(list, handle, j) {
        assert(first_at(list, handle, i));
    } else {
        let j = choose|j: int| 0 <= j < i && found_at(list, handle, j);
        lemma_first_exists(list, handle, j);
    }
}

/// A handle that a collection contains has a position there: the first at
/// which an object records it.
pub proof fn lemma_contained<T: Dispatchable>(list: Seq<Shared<T>>, handle: VkDispatchableHandle)
    requires
        contains(list, handle),
    ensures
        first_at(list, handle, position(list, handle)),
{
    let i = choose|i: int| #[trigger] found_at(list, handle, i);
    lemma_first_exists(list, handle, i);
}

/// The first position at which a handle is found is its position.
pub proof fn lemma_position<T: Dispatchable>(list: Seq<Shared<T>>, handle: VkDispatchableHandle, i: int)
    requires
        first_at(list, handle, i),
    ensures
        contains(list, handle),
        position(list, handle) == i,
{
    let j = position(list, handle);
    assert(first_at(list, handle, j));
    if i < j {
        assert(!found_at(list, handle, i));
    }
    if j < i {
        assert(!found_at(list, handle, j));
    }
}

/// In a well-formed registry a handle is found at one position only, and is
/// not null.
pub proof fn lemma_index_of<T: Dispatchable>(c: ContextView, handle: VkDispatchableHandle, i: int)
    requires
        c.wf(),
        found_at(T::list(c), handle, i),
    ensures
        live::<T>(c, handle),
        index_of::<T>(c, handle) == i,
        handle.0 != 0,
{
    let list = T::list(c);
    T::lemma_category(c, list, list, c.ids);
    assert forall|j: int| 0 <= j < i implies !found_at(list, handle, j) by {
        if found_at(list, handle, j) {
            assert(list[j].object.handle_of() != list[i].object.handle_of());
        }
    }
    assert(first_at(list, handle, i));
    lemma_position(list, handle, i);
    assert(c.ids.issued(list[i].object.handle_of().0));
}

/// Replacing the collection of a category by a well-formed one, under an
/// allocator that has moved forward or stood still, keeps a well-formed
/// registry well-formed.
proof fn lemma_step<T: Dispatchable>(c: ContextView, list: Seq<Shared<T>>, ids: HandleAllocator)
    requires
        c.wf() ==> ids.wf() && c.ids.next <= ids.next && list_wf(list, ids),
    ensures
        c.wf() ==> T::with_list(ContextView { ids, ..c }, list).wf(),
        T::with_list(c, T::list(c)) == c,
        c == (ContextView { ids: c.ids, ..c }),
{
    T::lemma_category(c, list, list, ids);
}

/// The position in `list` of the object that records `handle`, by a scan
/// from the front.
pub fn find<T: Dispatchable>(list: &Vec<Shared<T>>, handle: VkDispatchableHandle) -> (r: Option<
    usize,
>)
    ensures
        match r {
            Some(i) => first_at(list@, handle, i as int),
            None => !contains(list@, handle),
        },
        r.is_some() ==> contains(list@, handle) && position(list@, handle) == r.unwrap(),
{
    let mut i: usize = 0;
    while i < list.len()
        invariant
            i <= list.len(),
            forall|j: int| 0 <= j < i ==> !found_at(list@, handle, j),
        decreases list.len() - i,
    {
        if list[i].object.get_handle().0 == handle.0 {
            proof {
                lemma_position(list@, handle, i as int);
            }
            return Some(i);
        }
        i = i + 1;
    }
    None
}

/// Putting a newly issued object last keeps a collection well-formed.
proof fn lemma_pushed<T: Dispatchable>(c: ContextView, object: T)
    requires
        c.wf(),
        !c.ids.exhausted(),
    ensures
        list_wf(
            T::list(c).push(
                Shared { object: object.with_handle(VkDispatchableHandle(c.ids.next)), holders: 1 },
            ),
            HandleAllocator { next: (c.ids.next + 1) as u64 },
        ),
{
    let handle = VkDispatchableHandle(c.ids.next);
    let ids = HandleAllocator { next: (c.ids.next + 1) as u64 };
    let old_list = T::list(c);
    let list = old_list.push(Shared { object: object.with_handle(handle), holders: 1 });
    object.lemma_with_handle(handle);
    T::lemma_category(c, old_list, old_list, c.ids);
    assert forall|i: int| 0 <= i < list.len() implies ids.issued(
        (#[trigger] list[i]).object.handle_of().0,
    ) by {
        if i < old_list.len() {
            assert(list[i] == old_list[i]);
        }
    }
    assert forall|i: int, j: int| 0 <= i < j < list.len() implies (
    #[trigger] list[i]).object.handle_of() != (#[trigger] list[j]).object.handle_of() by {
        assert(list[i] == old_list[i]);
        assert(c.ids.issued(old_list[i].object.handle_of().0));
        if j < old_list.len() {
            assert(list[j] == old_list[j]);
        }
    }
}

/// Changing the reference count of one entry keeps a collection well-formed.
proof fn lemma_counted<T: Dispatchable>(c: ContextView, i: int, holders: u64)
    requires
        c.wf(),
        0 <= i < T::list(c).len(),
    ensures
        list_wf(T::list(c).update(i, Shared { object: T::list(c)[i].object, holders }), c.ids),
{
    let list = T::list(c);
    let after = list.update(i, Shared { object: list[i].object, holders });
    T::lemma_category(c, list, list, c.ids);
    assert forall|k: int| 0 <= k < after.len() implies c.ids.issued(
        (#[trigger] after[k]).object.handle_of().0,
    ) by {
        assert(after[k].object == list[k].object);
    }
    assert forall|k: int, j: int| 0 <= k < j < after.len() implies (
    #[trigger] after[k]).object.handle_of() != (#[trigger] after[j]).object.handle_of() by {
        assert(after[k].object == list[k].object);
        assert(after[j].object == list[j].object);
    }
}

/// Taking one entry out keeps a collection well-formed.
proof fn lemma_removed<T: Dispatchable>(c: ContextView, i: int)
    requires
        c.wf(),
        0 <= i < T::list(c).len(),
    ensures
        list_wf(T::list(c).remove(i), c.ids),
{
    let old_list = T::list(c);
    let list = old_list.remove(i);
    T::lemma_category(c, old_list, old_list, c.ids);
    assert forall|k: int| 0 <= k < list.len() implies c.ids.issued(
        (#[trigger] list[k]).object.handle_of().0,
    ) by {
        if k < i {
            assert(list[k] == old_list[k]);
        } else {
            assert(list[k] == old_list[k + 1]);
        }
    }
    assert forall|k: int, j: int| 0 <= k < j < list.len() implies (
    #[trigger] list[k]).object.handle_of() != (#[trigger] list[j]).object.handle_of() by {
        let kk = if k < i { k } else { k + 1 };
        let jj = if j < i { j } else { j + 1 };
        assert(list[k] == old_list[kk]);
        assert(list[j] == old_list[jj]);
    }
}

/// Registers `object`: issues a fresh identity that stands for its storage
/// location, records it in the object and puts the object last in its
/// collection. The caller holds the one reference that is outstanding.
///
/// Refused, with nothing changed, exactly when the allocator is exhausted.
pub fn register_object<T: Dispatchable>(object: T, context: &mut Context) -> (r: Result<
    VkDispatchableHandle,
    RegistryError,
>)
    ensures
        old(context).wf() ==> final(context).wf(),
        (r, final(context)@) == register(old(context)@, object),
{
    let ghost before = context@;
    match context.ids.allocate() {
        None => Err(RegistryError::OutOfHandles),
        Some(id) => {
            let handle = VkDispatchableHandle(id);
            let mut stored = object;
            stored.set_handle(handle);
            let ghost stepped = context@;
            let list = T::get_vec(context);
            list.push(Shared { object: stored, holders: 1 });
            proof {
                T::lemma_category(before, list@, list@, stepped.ids);
                assert(stepped == ContextView { ids: stepped.ids, ..before });
                if before.wf() {
                    lemma_pushed::<T>(before, object);
                }
                lemma_step::<T>(before, list@, stepped.ids);
            }
            Ok(handle)
        },
    }
}

/// Sets the reference count of the entry at position `i`, the first that
/// records `handle`.
fn set_holders<T: Dispatchable>(
    context: &mut Context,
    handle: VkDispatchableHandle,
    i: usize,
    holders: u64,
)
    requires
        first_at(T::list(old(context)@), handle, i as int),
    ensures
        old(context).wf() ==> final(context).wf(),
        final(context)@ == counted::<T>(old(context)@, handle, holders),
{
    let ghost before = context@;
    proof {
        lemma_position(T::list(before), handle, i as int);
    }
    let list = T::get_vec(context);
    list[i].holders = holders;
    proof {
        assert(list@ =~= T::list(before).update(
            i as int,
            Shared { object: T::list(before)[i as int].object, holders },
        ));
        if before.wf() {
            lemma_counted::<T>(before, i as int, holders);
        }
        lemma_step::<T>(before, list@, before.ids);
    }
}

/// Decodes `handle`: hands out one more reference to the object it names.
///
/// Refused, with nothing changed, when the handle is null or names no live
/// object of the category, or when the object's reference count is at its
/// limit.
pub fn from_handle<T: Dispatchable>(context: &mut Context, handle: VkDispatchableHandle) -> (r:
    Result<(), RegistryError>)
    ensures
        old(context).wf() ==> final(context).wf(),
        (r, final(context)@) == resolve::<T>(old(context)@, handle),
{
    let list = T::get_vec_ref(context);
    match find(list, handle) {
        None => Err(RegistryError::NotFound),
        Some(i) => {
            let outstanding: u64 = list[i].holders;
            if outstanding == u64::MAX {
                Err(RegistryError::TooManyReferences)
            } else {
                set_holders::<T>(context, handle, i, outstanding + 1);
                Ok(())
            }
        },
    }
}

/// Gives back one reference to the object that `handle` names.
///
/// Refused, with nothing changed, when the handle names no live object of
/// the category, or when no reference to the object is outstanding.
pub fn release<T: Dispatchable>(context: &mut Context, handle: VkDispatchableHandle) -> (r: Result<
    (),
    RegistryError,
>)
    ensures
        old(context).wf() ==> final(context).wf(),
        (r, final(context)@) == give_back::<T>(old(context)@, handle),
{
    let list = T::get_vec_ref(context);
    match find(list, handle) {
        None => Err(RegistryError::NotFound),
        Some(i) => {
            let outstanding: u64 = list[i].holders;
            if outstanding == 0 {
                Err(RegistryError::NotReferenced)
            } else {
                set_holders::<T>(context, handle, i, outstanding - 1);
                Ok(())
            }
        },
    }
}

/// Encodes a reference as a handle: writes the value that stands for the
/// object's storage location to `out` and gives the reference back, so that
/// the handle is a borrowed view and not one more holder.
///
/// Refused, with nothing changed, as `release` is.
pub fn set_ffi_handle<T: Dispatchable>(
    context: &mut Context,
    out: &mut VkDispatchableHandle,
    value: VkDispatchableHandle,
) -> (r: Result<(), RegistryError>)
    ensures
        old(context).wf() ==> final(context).wf(),
        (r, final(context)@) == give_back::<T>(old(context)@, value),
        *final(out) == if r.is_ok() {
            value
        } else {
            *old(out)
        },
{
    match release::<T>(context, value) {
        Ok(_) => {
            *out = value;
            Ok(())
        },
        Err(e) => Err(e),
    }
}

/// Removes the entry of `handle` from the registry, by a scan for the
/// identity, and hands it to the caller, whatever references are
/// outstanding: the registry no longer tracks the object, and no later
/// decoding of the handle succeeds.
///
/// Returns nothing, with nothing changed, when the handle names no live
/// object of the category.
pub fn unregister_object<T: Dispatchable>(context: &mut Context, handle: VkDispatchableHandle) -> (r:
    Option<Shared<T>>)
    ensures
        old(context).wf() ==> final(context).wf(),
        (r, final(context)@) == unregister::<T>(old(context)@, handle),
{
    let ghost before = context@;
    let list = T::get_vec_ref(context);
    match find(list, handle) {
        None => None,
        Some(i) => {
            let list = T::get_vec(context);
            let entry = list.remove(i);
            proof {
                assert(list@ =~= T::list(before).remove(i as int));
                if before.wf() {
                    lemma_removed::<T>(before, i as int);
                }
                lemma_step::<T>(before, list@, before.ids);
            }
            Some(entry)
        },
    }
}

/// Destroys the object that `handle` names: removes its entry, provided that
/// the caller's reference is the only one outstanding. The null handle is
/// accepted and nothing happens.
///
/// Refused, with nothing changed, when a handle other than null names no
/// live object of the category, when the caller holds no reference, or when
/// other references are still outstanding.
pub fn drop_handle<T: Dispatchable>(context: &mut Context, handle: VkDispatchableHandle) -> (r:
    Result<(), RegistryError>)
    ensures
        old(context).wf() ==> final(context).wf(),
        (r, final(context)@) == destroy::<T>(old(context)@, handle),
{
    if handle.0 == 0 {
        return Ok(());
    }
    let list = T::get_vec_ref(context);
    let outstanding: u64 = match find(list, handle) {
        None => {
            return Err(RegistryError::NotFound);
        },
        Some(i) => list[i].holders,
    };
    if outstanding == 0 {
        return Err(RegistryError::NotReferenced);
    }
    if outstanding > 1 {
        return Err(RegistryError::StillReferenced);
    }
    let _ = unregister_object::<T>(context, handle);
    Ok(())
}

/// The object that `handle` names, for reading. No reference is counted:
/// the borrow of the registry is what keeps the object in place.
pub fn lookup<T: Dispatchable>(context: &Context, handle: VkDispatchableHandle) -> (r: Option<&T>)
    ensures
        match r {
            Some(object) => live::<T>(context@, handle) && *object == T::list(
                context@,
            )[index_of::<T>(context@, handle)].object,
            None => !live::<T>(context@, handle),
        },
{
    let list = T::get_vec_ref(context);
    match find(list, handle) {
        None => None,
        Some(i) => Some(&list[i].object),
    }
}

/// No operation of the protocol moves the allocator back: registration moves
/// it forward by one, and decoding, giving back, unregistering and
/// destroying leave it where it is.
pub proof fn lemma_allocator_moves_forward<T: Dispatchable>(
    c: ContextView,
    object: T,
    handle: VkDispatchableHandle,
)
    ensures
        register(c, object).0.is_ok() ==> register(c, object).1.ids.next == c.ids.next + 1,
        register(c, object).0.is_err() ==> register(c, object).1 == c,
        resolve::<T>(c, handle).1.ids == c.ids,
        give_back::<T>(c, handle).1.ids == c.ids,
        unregister::<T>(c, handle).1.ids == c.ids,
        destroy::<T>(c, handle).1.ids == c.ids,
{
    let l = T::list(c);
    let stepped = ContextView { ids: HandleAllocator { next: (c.ids.next + 1) as u64 }, ..c };
    T::lemma_category(
        stepped,
        l.push(Shared { object: object.with_handle(VkDispatchableHandle(c.ids.next)), holders: 1 }),
        l,
        c.ids,
    );
    let i = index_of::<T>(c, handle);
    let e = l[i];
    T::lemma_category(
        c,
        l.update(i, Shared { object: e.object, holders: (e.holders + 1) as u64 }),
        l,
        c.ids,
    );
    T::lemma_category(
        c,
        l.update(i, Shared { object: e.object, holders: (e.holders - 1) as u64 }),
        l,
        c.ids,
    );
    T::lemma_category(c, l.remove(i), l, c.ids);
}

/// Decoding after destruction reports that the handle is unknown: once an
/// object has been destroyed, or unregistered, its handle decodes to
/// nothing.
pub proof fn lemma_resolve_after_destroy<T: Dispatchable>(c: ContextView, handle: VkDispatchableHandle)
    requires
        c.wf(),
        live::<T>(c, handle),
    ensures
        destroy::<T>(c, handle).0.is_ok() ==> resolve::<T>(destroy::<T>(c, handle).1, handle) == (
            Err::<(), RegistryError>(RegistryError::NotFound),
            destroy::<T>(c, handle).1,
        ),
        resolve::<T>(unregister::<T>(c, handle).1, handle) == (
            Err::<(), RegistryError>(RegistryError::NotFound),
            unregister::<T>(c, handle).1,
        ),
{
    let l = T::list(c);
    let i = index_of::<T>(c, handle);
    lemma_contained(l, handle);
    lemma_index_of::<T>(c, handle, i);
    let after = l.remove(i);
    T::lemma_category(c, after, l, c.ids);
    T::lemma_category(c, l, l, c.ids);
    assert forall|k: int| !found_at(after, handle, k) by {
        if 0 <= k < after.len() {
            if k < i {
                assert(after[k] == l[k]);
                assert(l[k].object.handle_of() != l[i].object.handle_of());
            } else {
                assert(after[k] == l[k + 1]);
                assert(l[i].object.handle_of() != l[k + 1].object.handle_of());
            }
        }
    }
}

/// Round trip: decoding a handle and giving the reference back leaves the
/// registry as it was, in what it holds, in its order, and in what it says
/// of each object.
pub proof fn lemma_resolve_then_release<T: Dispatchable>(c: ContextView, handle: VkDispatchableHandle)
    requires
        c.wf(),
        resolve::<T>(c, handle).0.is_ok(),
    ensures
        give_back::<T>(resolve::<T>(c, handle).1, handle) == (Ok::<(), RegistryError>(()), c),
        holders::<T>(resolve::<T>(c, handle).1, handle) == holders::<T>(c, handle) + 1,
        live::<T>(resolve::<T>(c, handle).1, handle),
{
    let l = T::list(c);
    let i = index_of::<T>(c, handle);
    lemma_contained(l, handle);
    let e = l[i];
    let l1 = l.update(i, Shared { object: e.object, holders: (e.holders + 1) as u64 });
    let c1 = T::with_list(c, l1);
    T::lemma_category(c, l1, l1, c.ids);
    lemma_counted::<T>(c, i, (e.holders + 1) as u64);
    lemma_step::<T>(c, l1, c.ids);
    assert(found_at(l1, handle, i));
    lemma_index_of::<T>(c1, handle, i);
    let l2 = l1.update(i, Shared { object: e.object, holders: e.holders });
    T::lemma_category(c, l2, l1, c.ids);
    assert(l2 =~= l);
}

/// Destruction needs the sole reference: while a reference besides the
/// destroyer's own is outstanding the destruction is refused and changes
/// nothing, and once that reference is given back the destruction goes
/// through.
pub proof fn lemma_destroy_needs_sole_reference<T: Dispatchable>(
    c: ContextView,
    handle: VkDispatchableHandle,
)
    requires
        c.wf(),
        holders::<T>(c, handle) >= 1,
        resolve::<T>(c, handle).0.is_ok(),
    ensures
        destroy::<T>(resolve::<T>(c, handle).1, handle) == (
            Err::<(), RegistryError>(RegistryError::StillReferenced),
            resolve::<T>(c, handle).1,
        ),
        holders::<T>(c, handle) == 1 ==> destroy::<T>(
            give_back::<T>(resolve::<T>(c, handle).1, handle).1,
            handle,
        ) == (Ok::<(), RegistryError>(()), removed::<T>(c, handle)),
{
    lemma_resolve_then_release::<T>(c, handle);
    let i = index_of::<T>(c, handle);
    lemma_contained(T::list(c), handle);
    lemma_index_of::<T>(c, handle, i);
}

} // verus!
