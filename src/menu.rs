use vstd::prelude::*;
use crate::geometry::Point;
use crate::parameter::{Value, value_after};

verus! {

/// A menu command, after the raw input has been interpreted.
#[derive(Clone, Copy, Debug, PartialEq, Eq, Hash, Structural)]
pub enum Event {
    Up,
    Down,
    Left,
    Right,
    Activate,
    MouseMove(Point),
}

/// Raw input from the window, reduced to what the menu reacts to.
#[derive(Clone, Copy, Debug, PartialEq, Eq, Hash, Structural)]
pub enum Input {
    Quit,
    KeyUp,
    KeyDown,
    KeyLeft,
    KeyRight,
    /// Space or return.
    KeyActivate,
    LeftButtonDown(Point),
    MiddleButtonDown,
    MouseMove(Point),
    ButtonUp,
    Other,
}

/// The state of the parameter menu: which row is selected, whether that row
/// is being edited, and whether the left mouse button is held.
#[derive(Clone, Copy, Debug, PartialEq, Eq, Structural)]
pub struct Menu {
    pub selected: usize,
    pub active: bool,
    pub mouse_button_down: bool,
}

/// The command that an input stands for, if any. Mouse moves count only while
/// the left button is held.
pub open spec fn event_of(mouse_button_down: bool, input: Input) -> Option<Event> {
    match input {
        Input::KeyUp => Some(Event::Up),
        Input::KeyDown => Some(Event::Down),
        Input::KeyLeft => Some(Event::Left),
        Input::KeyRight => Some(Event::Right),
        Input::KeyActivate => Some(Event::Activate),
        Input::LeftButtonDown(p) => Some(Event::MouseMove(p)),
        Input::MiddleButtonDown => Some(Event::Activate),
        Input::MouseMove(p) => if mouse_button_down {
            Some(Event::MouseMove(p))
        } else {
            None
        },
        _ => None,
    }
}

pub open spec fn mouse_down_after(mouse_button_down: bool, input: Input) -> bool {
    match input {
        Input::LeftButtonDown(_) => true,
        Input::ButtonUp => false,
        _ => mouse_button_down,
    }
}

/// The menu after a command, for a menu of `count` rows.
pub open spec fn menu_after(m: Menu, event: Event, count: int) -> Menu {
    match event {
        Event::Up if !m.active => Menu {
            selected: if m.selected > 0 { (m.selected - 1) as usize } else { (count - 1) as usize },
            ..m
        },
        Event::Down if !m.active => Menu {
            selected: if m.selected + 1 >= count { 0 } else { (m.selected + 1) as usize },
            ..m
        },
        Event::Activate => Menu { active: !m.active, ..m },
        _ => m,
    }
}

/// Whether a command edits the selected value rather than the menu.
pub open spec fn edits_value(m: Menu, event: Event) -> bool {
    match event {
        Event::Up | Event::Down => m.active,
        Event::Activate => false,
        _ => true,
    }
}

/// The values after a command.
pub open spec fn values_after(m: Menu, event: Event, values: Seq<Value>) -> Seq<Value> {
    if edits_value(m, event) {
        values.update(m.selected as int, value_after(values[m.selected as int], event))
    } else {
        values
    }
}

/// The menu after one input from the window.
pub open spec fn menu_after_input(m: Menu, input: Input, count: int) -> Menu {
    let held = Menu { mouse_button_down: mouse_down_after(m.mouse_button_down, input), ..m };
    match event_of(m.mouse_button_down, input) {
        Some(e) => menu_after(held, e, count),
        None => held,
    }
}

pub open spec fn values_after_input(m: Menu, input: Input, values: Seq<Value>) -> Seq<Value> {
    match event_of(m.mouse_button_down, input) {
        Some(e) => values_after(m, e, values),
        None => values,
    }
}

/// The menu and the values after a run of inputs, which ends early at the
/// first `Quit`.
pub open spec fn after_inputs(m: Menu, inputs: Seq<Input>, values: Seq<Value>) -> (Menu, Seq<Value>)
    decreases inputs.len(),
{
    if inputs.len() == 0 || inputs[0] == Input::Quit {
        (m, values)
    } else {
        after_inputs(
            menu_after_input(m, inputs[0], values.len() as int),
            inputs.drop_first(),
            values_after_input(m, inputs[0], values),
        )
    }
}

impl Menu {
    pub fn new() -> (r: Menu)
        ensures
            r.selected == 0,
            !r.active,
            !r.mouse_button_down,
    {
        Menu { selected: 0, active: false, mouse_button_down: false }
    }

    /// Applies a command: up and down move the selection, wrapping around,
    /// unless a row is being edited; activate starts or ends editing; the rest
    /// go to the selected value.
    pub fn apply_event(&mut self, event: Event, values: &mut Vec<Value>)
        requires
            old(self).selected < old(values).len(),
        ensures
            *final(self) == menu_after(*old(self), event, old(values).len() as int),
            final(values)@ == values_after(*old(self), event, old(values)@),
            final(self).selected < final(values).len(),
    {
        let count = values.len();
        match event {
            Event::Up if !self.active => {
                if self.selected > 0 {
                    self.selected = self.selected - 1;
                } else {
                    self.selected = count - 1;
                }
            },
            Event::Down if !self.active => {
                if self.selected + 1 >= count {
                    self.selected = 0;
                } else {
                    self.selected = self.selected + 1;
                }
            },
            Event::Activate => {
                self.active = !self.active;
            },
            _ => {
                let mut v = values[self.selected];
                v.handle_event(event);
                values.set(self.selected, v);
            },
        }
    }

    /// Handles one input from the window; returns whether the window was
    /// closed.
    pub fn handle_input(&mut self, input: Input, values: &mut Vec<Value>) -> (quit: bool)
        requires
            old(self).selected < old(values).len(),
        ensures
            quit == (input == Input::Quit),
            *final(self) == menu_after_input(*old(self), input, old(values).len() as int),
            final(values)@ == values_after_input(*old(self), input, old(values)@),
            final(self).selected < final(values).len(),
    {
        let event = match input {
            Input::Quit => {
                return true;
            },
            Input::KeyUp => Event::Up,
            Input::KeyDown => Event::Down,
            Input::KeyLeft => Event::Left,
            Input::KeyRight => Event::Right,
            Input::KeyActivate => Event::Activate,
            Input::LeftButtonDown(p) => {
                self.mouse_button_down = true;
                Event::MouseMove(p)
            },
            Input::MiddleButtonDown => Event::Activate,
            Input::MouseMove(p) => {
                if self.mouse_button_down {
                    Event::MouseMove(p)
                } else {
                    return false;
                }
            },
            Input::ButtonUp => {
                self.mouse_button_down = false;
                return false;
            },
            Input::Other => {
                return false;
            },
        };
        self.apply_event(event, values);
        false
    }

    /// Handles the inputs of one frame in order, stopping at the first
    /// `Quit`; returns whether there was one.
    pub fn handle_events(&mut self, inputs: &Vec<Input>, values: &mut Vec<Value>) -> (quit: bool)
        requires
            old(self).selected < old(values).len(),
        ensures
            quit == inputs@.contains(Input::Quit),
            (*final(self), final(values)@) == after_inputs(*old(self), inputs@, old(values)@),
            final(self).selected < final(values).len(),
    {
        let mut i: usize = 0;
        assert(inputs@.skip(0) =~= inputs@);
        while i < inputs.len()
            invariant
                i <= inputs.len(),
                self.selected < values.len(),
                values.len() == old(values).len(),
                forall|j: int| 0 <= j < i ==> inputs@[j] != Input::Quit,
                after_inputs(*old(self), inputs@, old(values)@) == after_inputs(
                    *self,
                    inputs@.skip(i as int),
                    values@,
                ),
            decreases inputs.len() - i,
        {
            assert(inputs@.skip(i as int).drop_first() =~= inputs@.skip(i as int + 1));
            if self.handle_input(inputs[i], values) {
                return true;
            }
            i = i + 1;
        }
        assert(inputs@.skip(i as int) =~= Seq::<Input>::empty());
        false
    }
}

} // verus!
