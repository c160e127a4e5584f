use vstd::prelude::*;
use crate::geometry::Point;
use crate::menu::Event;

verus! {

/// The current value of an editable parameter.
#[derive(Clone, Copy, Debug, PartialEq, Eq, Hash, Structural)]
pub enum Value {
    U32(u32),
    I32(i32),
    Point(Point),
}

/// A named value shown, and edited, in the menu.
#[derive(Debug)]
pub struct Parameter {
    pub name: String,
    pub value: Value,
}

/// One step down, stopping at `min`.
pub open spec fn step_down(v: int, min: int) -> int {
    if v > min {
        v - 1
    } else {
        v
    }
}

/// One step up, stopping at `max`.
pub open spec fn step_up(v: int, max: int) -> int {
    if v < max {
        v + 1
    } else {
        v
    }
}

/// What an event does to a value: the arrow keys step numbers and move points
/// by one, saturating at the type's bounds, and a mouse move puts a point
/// where the mouse is.
pub open spec fn value_after(v: Value, event: Event) -> Value {
    match v {
        Value::U32(n) => match event {
            Event::Down | Event::Left => Value::U32(step_down(n as int, 0) as u32),
            Event::Up | Event::Right => Value::U32(step_up(n as int, u32::MAX as int) as u32),
            _ => v,
        },
        Value::I32(n) => match event {
            Event::Down | Event::Left => Value::I32(step_down(n as int, i32::MIN as int) as i32),
            Event::Up | Event::Right => Value::I32(step_up(n as int, i32::MAX as int) as i32),
            _ => v,
        },
        Value::Point(p) => match event {
            Event::Left => Value::Point(Point { x: step_down(p.x as int, i32::MIN as int) as i32, ..p }),
            Event::Right => Value::Point(Point { x: step_up(p.x as int, i32::MAX as int) as i32, ..p }),
            Event::Up => Value::Point(Point { y: step_down(p.y as int, i32::MIN as int) as i32, ..p }),
            Event::Down => Value::Point(Point { y: step_up(p.y as int, i32::MAX as int) as i32, ..p }),
            Event::MouseMove(q) => Value::Point(q),
            _ => v,
        },
    }
}

impl Value {
    /// Applies an editing event to the value.
    pub fn handle_event(&mut self, event: Event)
        ensures
            *final(self) == value_after(*old(self), event),
    {
        match *self {
            Value::U32(n) => match event {
                Event::Down | Event::Left => {
                    if n > 0 {
                        *self = Value::U32(n - 1);
                    }
                },
                Event::Up | Event::Right => {
                    if n < u32::MAX {
                        *self = Value::U32(n + 1);
                    }
                },
                _ => {},
            },
            Value::I32(n) => match event {
                Event::Down | Event::Left => {
                    if n > i32::MIN {
                        *self = Value::I32(n - 1);
                    }
                },
                Event::Up | Event::Right => {
                    if n < i32::MAX {
                        *self = Value::I32(n + 1);
                    }
                },
                _ => {},
            },
            Value::Point(p) => match event {
                Event::Left => {
                    if p.x > i32::MIN {
                        *self = Value::Point(Point { x: p.x - 1, y: p.y });
                    }
                },
                Event::Right => {
                    if p.x < i32::MAX {
                        *self = Value::Point(Point { x: p.x + 1, y: p.y });
                    }
                },
                Event::Up => {
                    if p.y > i32::MIN {
                        *self = Value::Point(Point { x: p.x, y: p.y - 1 });
                    }
                },
                Event::Down => {
                    if p.y < i32::MAX {
                        *self = Value::Point(Point { x: p.x, y: p.y + 1 });
                    }
                },
                Event::MouseMove(q) => {
                    *self = Value::Point(q);
                },
                _ => {},
            },
        }
    }
}

impl Parameter {
    pub fn new(name: &str, value: Value) -> (r: Parameter)
        ensures
            r.name@ == name@,
            r.value == value,
    {
        Parameter { name: name.to_string(), value }
    }
}

/// The widest parameter name, in characters; zero when there is none.
pub fn max_name_width(parameters: &Vec<Parameter>) -> (r: usize)
    ensures
        forall|i: int| 0 <= i < parameters.len() ==> parameters[i].name@.len() <= r,
        r == 0 || exists|i: int| 0 <= i < parameters.len() && parameters[i].name@.len() == r,
{
    let mut widest: usize = 0;
    let mut k: usize = 0;
    while k < parameters.len()
        invariant
            k <= parameters.len(),
            forall|i: int| 0 <= i < k ==> parameters[i].name@.len() <= widest,
            widest == 0 || exists|i: int| 0 <= i < k && parameters[i].name@.len() == widest,
        decreases parameters.len() - k,
    {
        let w = parameters[k].name.unicode_len();
        if w > widest {
            widest = w;
        }
        k = k + 1;
    }
    widest
}

} // verus!
