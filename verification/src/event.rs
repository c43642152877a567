//! The event value types and the `UpdateEvent` capability trait.

use core::cmp::Ordering;
use vstd::prelude::*;

use crate::float_bits;

verus! {

/// The type of time stamp.
///
/// Measured in milliseconds since initialization of window.
pub type TimeStamp = u32;

/// Used to identify events arguments provided by traits.
///
/// Use format `<api>/<event>` to avoid naming collision.
#[derive(Copy, Clone, PartialEq, Eq, PartialOrd, Ord, Debug, Hash)]
pub struct EventId(pub &'static str);

/// Update arguments, such as delta time in seconds.
#[derive(Copy, Clone, Debug)]
pub struct UpdateArgs {
    /// Delta time in seconds, carried as the bit pattern of an IEEE-754
    /// double so that it is preserved bit for bit.
    pub dt: u64,
}

/// Equality of update arguments: IEEE-754 equality of the delta times.
pub open spec fn args_eq(a: UpdateArgs, b: UpdateArgs) -> bool {
    float_bits::spec_eq(a.dt, b.dt)
}

/// Partial order of update arguments: the IEEE-754 order of the delta times.
pub open spec fn args_cmp(a: UpdateArgs, b: UpdateArgs) -> Option<Ordering> {
    float_bits::spec_cmp(a.dt, b.dt)
}

impl PartialEq for UpdateArgs {
    fn eq(&self, other: &UpdateArgs) -> (r: bool)
        ensures
            r == args_eq(*self, *other),
    {
        float_bits::eq(self.dt, other.dt)
    }
}

impl vstd::std_specs::cmp::PartialEqSpecImpl for UpdateArgs {
    open spec fn obeys_eq_spec() -> bool {
        true
    }

    open spec fn eq_spec(&self, other: &UpdateArgs) -> bool {
        args_eq(*self, *other)
    }
}

impl PartialOrd for UpdateArgs {
    fn partial_cmp(&self, other: &UpdateArgs) -> (r: Option<Ordering>)
        ensures
            r == args_cmp(*self, *other),
    {
        float_bits::cmp(self.dt, other.dt)
    }
}

impl vstd::std_specs::cmp::PartialOrdSpecImpl for UpdateArgs {
    open spec fn obeys_partial_cmp_spec() -> bool {
        true
    }

    open spec fn partial_cmp_spec(&self, other: &UpdateArgs) -> Option<Ordering> {
        args_cmp(*self, *other)
    }
}

/// Models loop events.
#[derive(Copy, Clone, Debug)]
pub enum Loop {
    /// Update the state of the application.
    Update(UpdateArgs),
    // Do background tasks that can be done incrementally.
    // Idle(IdleArgs),
}

/// Equality of loop events: same variant, equal inner data.
pub open spec fn loop_eq(a: Loop, b: Loop) -> bool {
    match (a, b) {
        (Loop::Update(x), Loop::Update(y)) => args_eq(x, y),
    }
}

/// Partial order of loop events: the natural order of their inner data.
pub open spec fn loop_cmp(a: Loop, b: Loop) -> Option<Ordering> {
    match (a, b) {
        (Loop::Update(x), Loop::Update(y)) => args_cmp(x, y),
    }
}

impl PartialEq for Loop {
    fn eq(&self, other: &Loop) -> (r: bool)
        ensures
            r == loop_eq(*self, *other),
    {
        match (self, other) {
            (Loop::Update(x), Loop::Update(y)) => x.eq(y),
        }
    }
}

impl vstd::std_specs::cmp::PartialEqSpecImpl for Loop {
    open spec fn obeys_eq_spec() -> bool {
        true
    }

    open spec fn eq_spec(&self, other: &Loop) -> bool {
        loop_eq(*self, *other)
    }
}

impl PartialOrd for Loop {
    fn partial_cmp(&self, other: &Loop) -> (r: Option<Ordering>)
        ensures
            r == loop_cmp(*self, *other),
    {
        match (self, other) {
            (Loop::Update(x), Loop::Update(y)) => x.partial_cmp(y),
        }
    }
}

impl vstd::std_specs::cmp::PartialOrdSpecImpl for Loop {
    open spec fn obeys_partial_cmp_spec() -> bool {
        true
    }

    open spec fn partial_cmp_spec(&self, other: &Loop) -> Option<Ordering> {
        loop_cmp(*self, *other)
    }
}

/// The shared, type-erased payload of a custom event.
///
/// Opaque to verification: nothing about the carried value is visible here.
/// Consumers attempt a checked downcast and must handle a mismatch.
#[verifier::external_body]
pub struct Payload {
    inner: std::sync::Arc<dyn std::any::Any + Send + Sync>,
}

impl Payload {
    /// Wraps a value in a shared, type-erased payload.
    ///
    /// Relies on `Arc::new` to place the value in shared storage.
    #[verifier::external_body]
    pub fn new<T: 'static + Send + Sync>(value: T) -> Payload {
        Payload { inner: std::sync::Arc::new(value) }
    }

    /// Borrows the payload as a value of type `T`, if that is the type it
    /// was constructed with.
    ///
    /// Relies on `Any::downcast_ref`, which returns `Some` exactly on a
    /// type match and never fails otherwise.
    #[verifier::external_body]
    pub fn downcast_ref<T: 'static>(&self) -> Option<&T> {
        self.inner.downcast_ref::<T>()
    }
}

impl Clone for Payload {
    /// Relies on `Arc::clone`: the clone is a new handle to the very same
    /// shared payload value, so it is equal to the original.
    #[verifier::external_body]
    fn clone(&self) -> (r: Self)
        ensures
            r == *self,
    {
        Payload { inner: std::sync::Arc::clone(&self.inner) }
    }
}

/// Models all events.
pub enum Event {
    /// Input events.
    ///
    /// Events that commonly used by event loops.
    Loop(Loop),
    /// Custom event.
    ///
    /// When comparing two custom events for equality,
    /// they always return `false`.
    ///
    /// When comparing partial order of two custom events,
    /// the result is `None`, whether or not the event ids are equal.
    ///
    /// Time stamp is ignored both when comparing custom events for equality and order.
    Custom(EventId, Payload, Option<TimeStamp>),
}

/// Equality of events: two loop events are equal when their inner data is;
/// a custom event is equal to nothing, not even to itself.
pub open spec fn event_eq(a: Event, b: Event) -> bool {
    match (a, b) {
        (Event::Loop(x), Event::Loop(y)) => loop_eq(x, y),
        _ => false,
    }
}

/// Partial order of events: two loop events order by their inner data;
/// every pair involving a custom event is incomparable, whether or not the
/// ids agree, and time stamps and payloads are never consulted.
pub open spec fn event_cmp(a: Event, b: Event) -> Option<Ordering> {
    match (a, b) {
        (Event::Loop(x), Event::Loop(y)) => loop_cmp(x, y),
        _ => None,
    }
}

impl PartialEq for Event {
    fn eq(&self, other: &Event) -> (r: bool)
        ensures
            r == event_eq(*self, *other),
    {
        match (self, other) {
            (Event::Loop(x), Event::Loop(y)) => x.eq(y),
            _ => false,
        }
    }
}

impl vstd::std_specs::cmp::PartialEqSpecImpl for Event {
    open spec fn obeys_eq_spec() -> bool {
        true
    }

    open spec fn eq_spec(&self, other: &Event) -> bool {
        event_eq(*self, *other)
    }
}

impl PartialOrd for Event {
    fn partial_cmp(&self, other: &Event) -> (r: Option<Ordering>)
        ensures
            r == event_cmp(*self, *other),
    {
        match (self, other) {
            (Event::Loop(x), Event::Loop(y)) => x.partial_cmp(y),
            _ => None,
        }
    }
}

impl vstd::std_specs::cmp::PartialOrdSpecImpl for Event {
    open spec fn obeys_partial_cmp_spec() -> bool {
        true
    }

    open spec fn partial_cmp_spec(&self, other: &Event) -> Option<Ordering> {
        event_cmp(*self, *other)
    }
}

impl Clone for Event {
    /// Cloning copies a loop event byte for byte and shares the payload of
    /// a custom event; either way the clone equals the original value.
    fn clone(&self) -> (r: Self)
        ensures
            r == *self,
    {
        match self {
            Event::Loop(l) => Event::Loop(*l),
            Event::Custom(id, payload, ts) => Event::Custom(*id, payload.clone(), *ts),
        }
    }
}

/// The event that wraps given update arguments: always a loop update.
pub open spec fn event_from_args(args: UpdateArgs) -> Event {
    Event::Loop(Loop::Update(args))
}

impl From<UpdateArgs> for Event {
    fn from(args: UpdateArgs) -> (r: Self)
        ensures
            r == event_from_args(args),
    {
        Event::Loop(Loop::Update(args))
    }
}

impl vstd::std_specs::convert::FromSpecImpl<UpdateArgs> for Event {
    open spec fn obeys_from_spec() -> bool {
        true
    }

    open spec fn from_spec(args: UpdateArgs) -> Event {
        event_from_args(args)
    }
}

/// When the application state should be updated.
///
/// A representation supplies the two models and the two primitive methods;
/// the convenience methods `from_dt` and `update_args` are derived once here
/// and pinned by their contracts to the same models, so no implementation
/// can give them different semantics.
pub trait UpdateEvent: Sized {
    /// The update arguments this event carries, if it is an update event.
    spec fn update_of(&self) -> Option<UpdateArgs>;

    /// The event this representation builds from given update arguments and
    /// a prior event; `None` only for a representation that cannot express
    /// an update event at all.
    spec fn built_from(args: UpdateArgs, old_event: Self) -> Option<Self>;

    /// Creates an update event.
    fn from_update_args(args: &UpdateArgs, old_event: &Self) -> (r: Option<Self>)
        ensures
            r == Self::built_from(*args, *old_event),
    ;

    /// Creates an update event with delta time, given as the bit pattern of
    /// an IEEE-754 double counting seconds.
    fn from_dt(dt: u64, old_event: &Self) -> (r: Option<Self>)
        ensures
            r == Self::built_from(UpdateArgs { dt }, *old_event),
    {
        UpdateEvent::from_update_args(&UpdateArgs { dt }, old_event)
    }

    /// Calls closure if this is an update event.
    fn update<U, F>(&self, f: F) -> (r: Option<U>) where F: Fn(&UpdateArgs) -> U
        requires
            forall|a: UpdateArgs| self.update_of() == Some(a) ==> call_requires(f, (&a,)),
        ensures
            self.update_of() is None ==> r is None,
            self.update_of() matches Some(a) ==> (r matches Some(u) && call_ensures(
                f,
                (&a,),
                u,
            )),
    ;

    /// Returns update arguments.
    fn update_args(&self) -> (r: Option<UpdateArgs>)
        ensures
            r == self.update_of(),
    {
        self.update(|args: &UpdateArgs| -> (res: UpdateArgs) ensures res == *args { *args })
    }
}

impl UpdateEvent for Event {
    open spec fn update_of(&self) -> Option<UpdateArgs> {
        match *self {
            Event::Loop(Loop::Update(args)) => Some(args),
            _ => None,
        }
    }

    open spec fn built_from(args: UpdateArgs, old_event: Event) -> Option<Event> {
        Some(event_from_args(args))
    }

    fn from_update_args(args: &UpdateArgs, _old_event: &Self) -> (r: Option<Self>) {
        Some(Event::Loop(Loop::Update(*args)))
    }

    fn update<U, F>(&self, f: F) -> (r: Option<U>) where F: Fn(&UpdateArgs) -> U {
        match self {
            Event::Loop(Loop::Update(args)) => Some(f(args)),
            _ => None,
        }
    }
}

/// Round trip: wrapping any update arguments in an event — whether through
/// the conversion from `UpdateArgs` or through `from_update_args` with any
/// prior event — yields an update event whose update arguments are exactly
/// the ones put in, delta time preserved bit for bit.
pub proof fn lemma_update_round_trip(args: UpdateArgs, old_event: Event)
    ensures
        event_from_args(args).update_of() == Some(args),
        Event::built_from(args, old_event) == Some(event_from_args(args)),
{
}

/// A custom event is never an update event: whatever its id, payload and
/// time stamp, it carries no update arguments.
pub proof fn lemma_custom_not_update(id: EventId, payload: Payload, ts: Option<TimeStamp>)
    ensures
        Event::Custom(id, payload, ts).update_of() is None,
{
}

/// Two custom events are never equal, even when built with the same id,
/// sharing one payload, and whatever their time stamps; nor is a custom
/// event ever equal to a loop event.
pub proof fn lemma_custom_never_equal(a: Event, b: Event)
    requires
        a is Custom || b is Custom,
    ensures
        !event_eq(a, b),
{
}

/// Any pair of events involving a custom event is incomparable: two custom
/// events yield no order whether or not their ids agree and whatever their
/// time stamps and payloads, and a custom event never compares with a loop
/// event.
pub proof fn lemma_custom_incomparable(a: Event, b: Event)
    requires
        a is Custom || b is Custom,
    ensures
        event_cmp(a, b) is None,
{
}

/// Loop events order as their delta times do: when `dt1` is below `dt2` in
/// the IEEE-754 order, the update event carrying `dt1` compares less than
/// the one carrying `dt2`, both as loop events and as events.
pub proof fn lemma_loop_order_follows_dt(a: UpdateArgs, b: UpdateArgs)
    requires
        float_bits::spec_lt(a.dt, b.dt),
    ensures
        loop_cmp(Loop::Update(a), Loop::Update(b)) == Some(Ordering::Less),
        event_cmp(Event::Loop(Loop::Update(a)), Event::Loop(Loop::Update(b))) == Some(
            Ordering::Less,
        ),
{
}

} // verus!
