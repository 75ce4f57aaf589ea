//! Take a value out of a mutable location, map it to a new value, and put
//! the new value back in its place.
//!
//! Safe code can only move a value out of a `&mut T` by leaving another
//! valid value behind. The fallback value plays that part here: it stands in
//! the slot while the transform runs. So the slot holds a whole value at every
//! point where other code could look at it. If the transform returns, its
//! result replaces the fallback value. If it unwinds, the slot keeps the
//! fallback value, and the unwinding goes on to the caller.
use vstd::prelude::*;

verus! {

/// Replaces the value in `dest` with `f` applied to it, making the fallback
/// value first.
///
/// `default` produces the value that stands in `dest` while `f` runs. It is
/// called once, before `f`; if it panics, `dest` is left as it was and `f` is
/// never called. When `f` returns, `dest` holds its result and the fallback
/// value is dropped. When `f` unwinds, `dest` holds the fallback value. The
/// old value is moved into `f`, which drops or reuses it.
pub fn replace_with<T, D: FnOnce() -> T, F: FnOnce(T) -> T>(dest: &mut T, default: D, f: F)
    requires
        default.requires(()),
        f.requires((*old(dest),)),
    ensures
        f.ensures((*old(dest),), *final(dest)),
{
    let mut taken = default();
    std::mem::swap(dest, &mut taken);
    *dest = f(taken);
}

/// Replaces the value in `dest` with `f` applied to it, making `T::default()`
/// first as the fallback value.
///
/// Same as [`replace_with`] with `T::default` for `default`, and so the same
/// as `*dest = f(std::mem::take(dest))`: the default value stands in `dest`
/// while `f` runs, and stays there if `f` unwinds.
pub fn replace_with_or_default<T: Default, F: FnOnce(T) -> T>(dest: &mut T, f: F)
    requires
        f.requires((*old(dest),)),
    ensures
        f.ensures((*old(dest),), *final(dest)),
{
    replace_with(dest, T::default, f);
}

/// When `f` gives one value `b` on the slot's old value `a`, a call of
/// [`replace_with`] or [`replace_with_or_default`] that returns leaves `b` in
/// the slot, whatever the fallback was.
pub proof fn lemma_normal_path_result<T, F: FnOnce(T) -> T>(f: F, a: T, b: T, slot_after: T)
    requires
        forall|r: T| #[trigger] f.ensures((a,), r) ==> r == b,
        f.ensures((a,), slot_after),
    ensures
        slot_after == b,
{
}

} // verus!
