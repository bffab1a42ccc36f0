use std::cell::RefCell;
use std::marker::PhantomData;
use std::sync::Arc;

use ambient::profiles::{Dev, Test};
use ambient::provider::{create_uncached, Component, Provider};
use ambient::resolve::{begin, settle, stored, Outcome, Request, Step};
use ambient::store::Store;

struct Ctx<P> {
    profile: PhantomData<P>,
    greeter: RefCell<Store<Arc<Greeter>>>,
    clock: RefCell<Store<Arc<Clock>>>,
}

fn ctx<P>() -> Ctx<P> {
    Ctx {
        profile: PhantomData,
        greeter: RefCell::new(Store::new()),
        clock: RefCell::new(Store::new()),
    }
}

struct Greeter {
    greeting: &'static str,
}

struct Clock {
    ticks: u32,
    wired: std::cell::Cell<bool>,
}

fn cached<T>(slot: &RefCell<Store<Arc<T>>>, make: impl FnOnce() -> T) -> Arc<T> {
    let step = begin(&slot.borrow(), 0, Request::Get);
    if let Step::Construct = step {
        let candidate = Arc::new(make());
        let outcome = settle(&mut slot.borrow_mut(), 0, Request::Get, candidate);
        assert!(matches!(outcome, Outcome::Stored));
    }
    stored(&slot.borrow(), 0).clone()
}

impl Provider<Greeter> for Ctx<Dev> {
    type Impl = Greeter;

    fn get(&self) -> Arc<Greeter> {
        cached(&self.greeter, || Provider::<Greeter>::create(self))
    }

    fn create(&self) -> Greeter {
        Greeter { greeting: "hello from dev" }
    }

    fn get_ref(&self) -> &Greeter {
        panic!("not used")
    }
}

impl Provider<Greeter> for Ctx<Test> {
    type Impl = Greeter;

    fn get(&self) -> Arc<Greeter> {
        cached(&self.greeter, || Provider::<Greeter>::create(self))
    }

    fn create(&self) -> Greeter {
        Greeter { greeting: "hello from test" }
    }

    fn get_ref(&self) -> &Greeter {
        panic!("not used")
    }
}

impl<P> Component<Ctx<P>> for Clock {
    fn __waiter_create(_container: &Ctx<P>) -> Clock {
        Clock { ticks: 12, wired: std::cell::Cell::new(false) }
    }

    fn __waiter_inject_deferred(_container: &Ctx<P>, component: &Clock) {
        component.wired.set(true);
    }
}

impl<P> Provider<Clock> for Ctx<P> {
    type Impl = Clock;

    fn get(&self) -> Arc<Clock> {
        cached(&self.clock, || Provider::<Clock>::create(self))
    }

    fn create(&self) -> Clock {
        create_uncached::<Ctx<P>, Clock>(self)
    }

    fn get_ref(&self) -> &Clock {
        panic!("not used")
    }
}

#[test]
fn provider_is_selected_by_profile() {
    let dev: Ctx<Dev> = ctx();
    let test: Ctx<Test> = ctx();
    assert_eq!(Provider::<Greeter>::get(&dev).greeting, "hello from dev");
    assert_eq!(Provider::<Greeter>::get(&test).greeting, "hello from test");
    assert!(dev.profile == PhantomData);
}

#[test]
fn profile_agnostic_provider_resolves_under_any_profile() {
    let default: Ctx<ambient::profiles::Default> = ctx();
    let dev: Ctx<Dev> = ctx();
    let test: Ctx<Test> = ctx();
    assert_eq!(Provider::<Clock>::get(&default).ticks, 12);
    assert_eq!(Provider::<Clock>::get(&dev).ticks, 12);
    assert_eq!(Provider::<Clock>::get(&test).ticks, 12);
}

#[test]
fn containers_of_different_profiles_share_no_cache() {
    let dev: Ctx<Dev> = ctx();
    let test: Ctx<Test> = ctx();
    let from_dev = Provider::<Greeter>::get(&dev);
    let from_test = Provider::<Greeter>::get(&test);
    assert!(!Arc::ptr_eq(&from_dev, &from_test));
    assert!(Arc::ptr_eq(&from_dev, &Provider::<Greeter>::get(&dev)));
}

#[test]
fn create_boxed_boxes_a_fresh_instance() {
    let dev: Ctx<Dev> = ctx();
    let boxed: Box<Greeter> = Provider::<Greeter>::create_boxed(&dev);
    assert_eq!(boxed.greeting, "hello from dev");
    assert!(!dev.greeter.borrow().contains(0));
}

#[test]
fn create_uncached_constructs_then_wires() {
    let dev: Ctx<Dev> = ctx();
    let clock: Clock = create_uncached::<Ctx<Dev>, Clock>(&dev);
    assert_eq!(clock.ticks, 12);
    assert!(clock.wired.get());
    assert!(!dev.clock.borrow().contains(0));
}
