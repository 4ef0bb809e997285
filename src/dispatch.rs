use vstd::prelude::*;
use std::marker::PhantomData;
use std::rc::Rc;
use crate::view::StyleClass;

verus! {

/// A single-slot callback relay: every handle cloned from one dispatcher
/// shares its one listener, which `send` calls synchronously.
pub struct EventDispatcher<A, F> {
    listener: Rc<F>,
    argument: PhantomData<A>,
}

impl<A, F> EventDispatcher<A, F> {
    /// The listener that this handle relays to.
    pub closed spec fn listener(&self) -> F {
        *self.listener
    }
}

impl<A, F> Clone for EventDispatcher<A, F> {
    /// Another handle on the same listener.
    fn clone(&self) -> (r: Self)
        ensures
            r.listener() == self.listener(),
    {
        EventDispatcher { listener: Rc::clone(&self.listener), argument: PhantomData }
    }
}

impl<A, F: Fn(A)> EventDispatcher<A, F> {
    pub fn new(listener: F) -> (r: Self)
        ensures
            r.listener() == listener,
    {
        EventDispatcher { listener: Rc::new(listener), argument: PhantomData }
    }

    /// Calls the listener once with `event`.
    pub fn send(&self, event: A)
        requires
            self.listener().requires((event,)),
        ensures
            self.listener().ensures((event,), ()),
    {
        let listener: &F = &self.listener;
        listener(event)
    }
}

/// Every handle on a dispatcher relays to one listener: what sending an
/// event through a clone does is what sending it through the first handle does.
pub proof fn lemma_clone_shares_listener<A, F: Fn(A)>(
    d: EventDispatcher<A, F>,
    c: EventDispatcher<A, F>,
    event: A,
)
    requires
        c.listener() == d.listener(),
    ensures
        c.listener().requires((event,)) == d.listener().requires((event,)),
        c.listener().ensures((event,), ()) == d.listener().ensures((event,), ()),
{
}

/// What a button reports to its callback.
#[derive(Clone, Copy, Debug, PartialEq, Eq, Structural)]
pub enum ButtonEvent {
    Clicked,
}

/// A button as emitted: a container in the shared button class around the
/// given children, whose clicks go to its own dispatcher.
pub struct ButtonView<C, F> {
    pub class: StyleClass,
    pub children: Vec<C>,
    pub dispatcher: EventDispatcher<ButtonEvent, F>,
}

pub struct Button {}

impl Button {
    /// A button around `children` whose clicks are sent to `on_event`.
    pub fn render<C, F: Fn(ButtonEvent)>(children: Vec<C>, on_event: F) -> (r: ButtonView<C, F>)
        ensures
            r.class == StyleClass::Button,
            r.children@ == children@,
            r.dispatcher.listener() == on_event,
    {
        ButtonView { class: StyleClass::Button, children, dispatcher: EventDispatcher::new(on_event) }
    }
}

impl<C, F: Fn(ButtonEvent)> ButtonView<C, F> {
    /// Handles one click: the callback is called once, with `Clicked`.
    pub fn click(&self)
        requires
            self.dispatcher.listener().requires((ButtonEvent::Clicked,)),
        ensures
            self.dispatcher.listener().ensures((ButtonEvent::Clicked,), ()),
    {
        self.dispatcher.send(ButtonEvent::Clicked)
    }
}

} // verus!
