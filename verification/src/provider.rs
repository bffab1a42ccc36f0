//! The two interfaces between a container and its components.

use std::sync::Arc;
use vstd::prelude::*;

verus! {

/// What a component supplies to a container of type `C`: how to construct
/// it, and how to wire the dependencies that could not be supplied at
/// construction. Both may ask the container for other components.
pub trait Component<C>: Sized {
    /// Constructs a new instance, taking its dependencies from the
    /// container.
    fn __waiter_create(container: &C) -> Self;

    /// Wires late dependencies into an already constructed instance.
    fn __waiter_inject_deferred(container: &C, component: &Self);
}

/// The capability of a container to provide component `T` under the
/// container's profile.
pub trait Provider<T: ?Sized> {
    /// The concrete type that stands for `T`.
    type Impl;

    /// The container's singleton, constructed on first demand.
    fn get(&self) -> Arc<Self::Impl>;

    /// A new instance that is not cached.
    fn create(&self) -> Self::Impl;

    /// A borrow of the container's singleton, valid as long as the
    /// container.
    fn get_ref(&self) -> &Self::Impl;

    /// A new instance that is not cached, on the heap: whatever `create`
    /// promises of its result holds of the boxed value.
    fn create_boxed(&self) -> (boxed: Box<Self::Impl>)
        ensures
            call_ensures(Self::create, (self,), *boxed),
    {
        Box::new(self.create())
    }
}

/// Constructs an uncached instance: runs the component's create function
/// and then, at once, its late wiring on the fresh instance. No store is
/// involved. The result is what the create function yielded, and the late
/// wiring has run on it.
pub fn create_uncached<C, T: Component<C>>(container: &C) -> (component: T)
    ensures
        call_ensures(T::__waiter_create, (container,), component),
        call_ensures(T::__waiter_inject_deferred, (container, &component), ()),
{
    let component = T::__waiter_create(container);
    T::__waiter_inject_deferred(container, &component);
    component
}

} // verus!
