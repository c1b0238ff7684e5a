//! Lazily filled and exclusively borrowed slots for single-threaded hosts.

use vstd::prelude::*;

verus! {

/// A slot that is filled on first use and never changes afterwards. Its view
/// is what it holds.
#[derive(Debug)]
pub struct OnceLock<T>(Option<T>);

impl<T> View for OnceLock<T> {
    type V = Option<T>;

    closed spec fn view(&self) -> Option<T> {
        self.0
    }
}

impl<T> OnceLock<T> {
    /// An empty slot.
    pub fn new() -> (slot: Self)
        ensures
            slot@ is None,
    {
        OnceLock(None)
    }

    /// The value in the slot, which `f` makes if the slot is empty. A slot
    /// that holds a value keeps it, and `f` is not called.
    pub fn get_or_init<F: FnOnce() -> T>(&mut self, f: F) -> (value: &T)
        requires
            old(self)@ is None ==> call_requires(f, ()),
        ensures
            old(self)@ is Some ==> *final(self) == *old(self),
            old(self)@ is None ==> call_ensures(f, (), *value),
            final(self)@ == Some(*value),
    {
        if self.0.is_none() {
            self.0 = Some(f());
        }
        self.0.as_ref().unwrap()
    }
}

/// A slot keeps the value of its first use: whatever a later use would make,
/// it gets that value, and nothing changes any more.
pub proof fn first_value_stays<T, F: FnOnce() -> T, G: FnOnce() -> T>(f: F, g: G)
    ensures
        forall|first: &mut OnceLock<T>, second: &mut OnceLock<T>, a: &T, b: &T|
            #![trigger call_ensures(OnceLock::<T>::get_or_init::<F>, (first, f), a), call_ensures(OnceLock::<T>::get_or_init::<G>, (second, g), b)]
            call_ensures(OnceLock::<T>::get_or_init::<F>, (first, f), a) && call_ensures(
                OnceLock::<T>::get_or_init::<G>,
                (second, g),
                b,
            ) && &*second == &*final(first) ==> *b == *a && &*final(second) == &*final(first),
{
}

/// A slot whose content is worked on in place. Its view is that content.
#[derive(Debug)]
pub struct SingleThreadLocal<T>(T);

impl<T> View for SingleThreadLocal<T> {
    type V = T;

    closed spec fn view(&self) -> T {
        self.0
    }
}

impl<T> SingleThreadLocal<T> {
    /// A slot that holds `value`.
    pub fn new(value: T) -> (slot: Self)
        ensures
            slot@ == value,
    {
        SingleThreadLocal(value)
    }

    /// Lends the content to `f` and returns what `f` returns. The slot then
    /// holds what `f` left.
    pub fn with_borrow_mut<R, F: FnOnce(&mut T) -> R>(&mut self, f: F) -> (result: R)
        requires
            forall|content: &mut T|
                *content == old(self)@ ==> #[trigger] call_requires(f, (content,)),
        ensures
            exists|content: &mut T|
                {
                    &&& #[trigger] call_ensures(f, (content,), result)
                    &&& *content == old(self)@
                    &&& *final(content) == final(self)@
                },
    {
        f(&mut self.0)
    }
}

} // verus!
