use vstd::prelude::*;

verus! {

/// An event sent to a node.
#[derive(Clone, Copy, Debug, PartialEq, Eq, Structural)]
pub enum Event {
    Clicked { mouse_x: u64, mouse_y: u64 },
    Changed,
    RightClicked { mouse_x: u64, mouse_y: u64 },
    Hovered { mouse_x: u64, mouse_y: u64 },
    Scrolled { view_x: u64, view_y: u64 },
}

/// The kinds of events, without their data.
#[derive(Clone, Copy, Debug, PartialEq, Eq, Structural)]
pub enum EventVariants {
    Clicked,
    Changed,
    RightClicked,
    Hovered,
    Scrolled,
}

/// The kind of an event.
pub fn variant_of(event: &Event) -> (v: EventVariants)
    ensures
        v == match *event {
            Event::Clicked { .. } => EventVariants::Clicked,
            Event::Changed => EventVariants::Changed,
            Event::RightClicked { .. } => EventVariants::RightClicked,
            Event::Hovered { .. } => EventVariants::Hovered,
            Event::Scrolled { .. } => EventVariants::Scrolled,
        },
{
    match event {
        Event::Clicked { .. } => EventVariants::Clicked,
        Event::Changed => EventVariants::Changed,
        Event::RightClicked { .. } => EventVariants::RightClicked,
        Event::Hovered { .. } => EventVariants::Hovered,
        Event::Scrolled { .. } => EventVariants::Scrolled,
    }
}

} // verus!
