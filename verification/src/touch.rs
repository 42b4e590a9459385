//! Direct touch as pointer events.
//!
//! The first finger that touches the screen acts as the left button until it is
//! lifted; other fingers are ignored.

use vstd::prelude::*;

use crate::events::{MouseButton, MouseEvent};

verus! {

/// What one finger does at a moment.
#[derive(Clone, Copy, Debug, PartialEq, Eq, Structural)]
pub struct TouchContact {
    pub contact_id: u8,
    pub x: i32,
    pub y: i32,
    pub down: bool,
    pub update: bool,
    pub up: bool,
    pub canceled: bool,
}

/// A coordinate moved into the range of the protocol.
pub open spec fn touch_coordinate(value: i32) -> u16 {
    if value < 0 {
        0
    } else if value > 65535 {
        65535
    } else {
        value as u16
    }
}

fn coordinate(value: i32) -> (clamped: u16)
    ensures
        clamped == touch_coordinate(value),
{
    if value < 0 {
        0
    } else if value > 65535 {
        65535
    } else {
        value as u16
    }
}

/// Where a finger touches the canvas.
pub fn touch_position(contact: &TouchContact) -> (position: (u16, u16))
    ensures
        position == (touch_coordinate(contact.x), touch_coordinate(contact.y)),
{
    (coordinate(contact.x), coordinate(contact.y))
}

/// What a finger does where `active` is the finger that acts as the button: the
/// acting finger afterwards, and the pointer event.
pub open spec fn contact_step(active: Option<u8>, contact: TouchContact) -> (
    Option<u8>,
    Option<MouseEvent>,
) {
    let x = touch_coordinate(contact.x);
    let y = touch_coordinate(contact.y);
    if contact.down && active is None {
        (
            Some(contact.contact_id),
            Some(MouseEvent::Button { x, y, button: MouseButton::Left, pressed: true }),
        )
    } else if active != Some(contact.contact_id) {
        (active, None)
    } else if contact.up || contact.canceled {
        (None, Some(MouseEvent::Button { x, y, button: MouseButton::Left, pressed: false }))
    } else if contact.update {
        (active, Some(MouseEvent::Move { x, y }))
    } else {
        (active, None)
    }
}

/// What fingers do one after another: the acting finger afterwards, and the
/// pointer events.
pub open spec fn contact_steps(active: Option<u8>, contacts: Seq<TouchContact>) -> (
    Option<u8>,
    Seq<MouseEvent>,
)
    decreases contacts.len(),
{
    if contacts.len() == 0 {
        (active, Seq::empty())
    } else {
        let (before, events) = contact_steps(active, contacts.drop_last());
        let (after, event) = contact_step(before, contacts.last());
        (
            after,
            match event {
                Some(event) => events.push(event),
                None => events,
            },
        )
    }
}

/// Turns the touches of one client into pointer events.
pub struct DirectTouchHandler {
    active_contact: Option<u8>,
}

impl DirectTouchHandler {
    /// The finger that acts as the button.
    pub closed spec fn active(self) -> Option<u8> {
        self.active_contact
    }

    /// A handler that has seen no touch.
    pub fn new() -> (handler: Self)
        ensures
            handler.active() is None,
    {
        DirectTouchHandler { active_contact: None }
    }

    /// Takes what one finger does.
    pub fn contact(&mut self, contact: &TouchContact) -> (event: Option<MouseEvent>)
        ensures
            (final(self).active(), event) == contact_step(old(self).active(), *contact),
    {
        let (x, y) = touch_position(contact);
        if contact.down && self.active_contact.is_none() {
            self.active_contact = Some(contact.contact_id);
            return Some(MouseEvent::Button { x, y, button: MouseButton::Left, pressed: true });
        }
        if self.active_contact != Some(contact.contact_id) {
            return None;
        }
        if contact.up || contact.canceled {
            self.active_contact = None;
            Some(MouseEvent::Button { x, y, button: MouseButton::Left, pressed: false })
        } else if contact.update {
            Some(MouseEvent::Move { x, y })
        } else {
            None
        }
    }

    /// Takes what several fingers do, one after another.
    pub fn touch(&mut self, contacts: &Vec<TouchContact>) -> (events: Vec<MouseEvent>)
        ensures
            (final(self).active(), events@) == contact_steps(old(self).active(), contacts@),
    {
        let ghost start = self.active();
        let mut events: Vec<MouseEvent> = Vec::new();
        let mut i: usize = 0;
        while i < contacts.len()
            invariant
                i <= contacts@.len(),
                (self.active(), events@) == contact_steps(start, contacts@.take(i as int)),
            decreases contacts@.len() - i,
        {
            proof {
                let next = contacts@.take(i + 1);
                assert(next.drop_last() =~= contacts@.take(i as int));
                assert(next.last() == contacts@[i as int]);
            }
            if let Some(event) = self.contact(&contacts[i]) {
                events.push(event);
            }
            i = i + 1;
        }
        assert(contacts@.take(contacts@.len() as int) =~= contacts@);
        events
    }
}

/// The number of button events of one kind.
pub open spec fn button_count(events: Seq<MouseEvent>, pressed: bool) -> int
    decreases events.len(),
{
    if events.len() == 0 {
        0
    } else {
        let earlier = button_count(events.drop_last(), pressed);
        match events.last() {
            MouseEvent::Button { pressed: kind, .. } => if kind == pressed {
                earlier + 1
            } else {
                earlier
            },
            _ => earlier,
        }
    }
}

/// However many fingers there are, the button is pressed once for each time that
/// it is released, but for the finger that still touches the screen.
pub proof fn law_touch_presses_and_releases_in_turn(
    active: Option<u8>,
    contacts: Seq<TouchContact>,
)
    ensures
        ({
            let (after, events) = contact_steps(active, contacts);
            button_count(events, true) - button_count(events, false) == (if after is Some {
                1int
            } else {
                0
            }) - (if active is Some {
                1int
            } else {
                0
            })
        }),
    decreases contacts.len(),
{
    if contacts.len() > 0 {
        law_touch_presses_and_releases_in_turn(active, contacts.drop_last());
        let (before, events) = contact_steps(active, contacts.drop_last());
        let (after, event) = contact_step(before, contacts.last());
        if let Some(event) = event {
            assert(events.push(event).drop_last() =~= events);
        }
    }
}

/// The first finger that touches the screen is the left button and stays it until it is
/// lifted or taken away: it presses where it touches, moves the pointer along, and
/// releases where it leaves. Every other finger does nothing meanwhile.
pub proof fn law_first_finger_is_the_button(contact: TouchContact, other: u8)
    ensures
        ({
            let x: u16 = if contact.x < 0 {
                0
            } else if contact.x > 65535 {
                65535
            } else {
                contact.x as u16
            };
            let y: u16 = if contact.y < 0 {
                0
            } else if contact.y > 65535 {
                65535
            } else {
                contact.y as u16
            };
            let own = Some(contact.contact_id);
            let press = MouseEvent::Button { x, y, button: MouseButton::Left, pressed: true };
            let release = MouseEvent::Button { x, y, button: MouseButton::Left, pressed: false };
            &&& contact.down ==> contact_step(None, contact) == (own, Some(press))
            &&& !contact.down ==> contact_step(None, contact) == (
                None::<u8>,
                None::<MouseEvent>,
            )
            &&& other != contact.contact_id ==> contact_step(Some(other), contact) == (
                Some(other),
                None::<MouseEvent>,
            )
            &&& contact.up || contact.canceled ==> contact_step(own, contact) == (
                None::<u8>,
                Some(release),
            )
            &&& !contact.up && !contact.canceled && contact.update ==> contact_step(own, contact)
                == (own, Some(MouseEvent::Move { x, y }))
            &&& !contact.up && !contact.canceled && !contact.update ==> contact_step(own, contact)
                == (own, None::<MouseEvent>)
        }),
{
}

/// Fingers are taken one after another: those of two reports in a row do what they would do
/// in one, the events of the first before those of the second.
pub proof fn law_reports_are_taken_in_order(
    active: Option<u8>,
    first: Seq<TouchContact>,
    second: Seq<TouchContact>,
)
    ensures
        ({
            let (between, before) = contact_steps(active, first);
            let (after, behind) = contact_steps(between, second);
            contact_steps(active, first + second) == (after, before + behind)
        }),
    decreases second.len(),
{
    let (between, before) = contact_steps(active, first);
    if second.len() == 0 {
        assert(first + second =~= first);
        assert(before + Seq::<MouseEvent>::empty() =~= before);
    } else {
        law_reports_are_taken_in_order(active, first, second.drop_last());
        assert((first + second).drop_last() =~= first + second.drop_last());
        assert((first + second).last() == second.last());
        let (middle, shorter) = contact_steps(between, second.drop_last());
        let (after, event) = contact_step(middle, second.last());
        if let Some(event) = event {
            assert((before + shorter).push(event) =~= before + shorter.push(event));
        }
    }
}

} // verus!
