use debug_tools::geometry::Point;
use debug_tools::menu::{Event, Input, Menu};
use debug_tools::parameter::{max_name_width, Parameter, Value};

fn values() -> Vec<Value> {
    vec![Value::U32(0), Value::I32(i32::MAX), Value::Point(Point::new(3, 4))]
}

#[test]
fn new_menu_selects_first_row() {
    let m = Menu::new();
    assert_eq!(m.selected, 0);
    assert!(!m.active);
    assert!(!m.mouse_button_down);
}

#[test]
fn up_and_down_wrap_around() {
    let mut m = Menu::new();
    let mut v = values();
    m.apply_event(Event::Up, &mut v);
    assert_eq!(m.selected, 2);
    m.apply_event(Event::Down, &mut v);
    assert_eq!(m.selected, 0);
    m.apply_event(Event::Down, &mut v);
    assert_eq!(m.selected, 1);
    assert_eq!(v, values());
}

#[test]
fn activate_toggles_editing() {
    let mut m = Menu::new();
    let mut v = values();
    m.apply_event(Event::Activate, &mut v);
    assert!(m.active);
    m.apply_event(Event::Up, &mut v);
    assert_eq!(m.selected, 0);
    assert_eq!(v[0], Value::U32(1));
    m.apply_event(Event::Down, &mut v);
    m.apply_event(Event::Down, &mut v);
    assert_eq!(m.selected, 0);
    assert_eq!(v[0], Value::U32(0));
    m.apply_event(Event::Activate, &mut v);
    assert!(!m.active);
}

#[test]
fn values_saturate() {
    let mut m = Menu::new();
    let mut v = values();
    m.apply_event(Event::Left, &mut v);
    assert_eq!(v[0], Value::U32(0));
    m.apply_event(Event::Right, &mut v);
    assert_eq!(v[0], Value::U32(1));
    m.apply_event(Event::Down, &mut v);
    m.apply_event(Event::Right, &mut v);
    assert_eq!(v[1], Value::I32(i32::MAX));
    m.apply_event(Event::Left, &mut v);
    assert_eq!(v[1], Value::I32(i32::MAX - 1));
}

#[test]
fn point_moves_with_keys_and_mouse() {
    let mut p = Value::Point(Point::new(3, 4));
    p.handle_event(Event::Left);
    p.handle_event(Event::Up);
    assert_eq!(p, Value::Point(Point::new(2, 3)));
    p.handle_event(Event::Right);
    p.handle_event(Event::Down);
    p.handle_event(Event::Down);
    assert_eq!(p, Value::Point(Point::new(3, 5)));
    p.handle_event(Event::MouseMove(Point::new(-7, 9)));
    assert_eq!(p, Value::Point(Point::new(-7, 9)));
    p.handle_event(Event::Activate);
    assert_eq!(p, Value::Point(Point::new(-7, 9)));
    let mut q = Value::Point(Point::new(i32::MIN, i32::MAX));
    q.handle_event(Event::Left);
    q.handle_event(Event::Down);
    assert_eq!(q, Value::Point(Point::new(i32::MIN, i32::MAX)));
}

#[test]
fn mouse_drags_only_while_held() {
    let mut m = Menu::new();
    let mut v = values();
    m.apply_event(Event::Up, &mut v);
    assert!(!m.handle_input(Input::MouseMove(Point::new(9, 9)), &mut v));
    assert_eq!(v[2], Value::Point(Point::new(3, 4)));
    m.handle_input(Input::LeftButtonDown(Point::new(5, 6)), &mut v);
    assert!(m.mouse_button_down);
    assert_eq!(v[2], Value::Point(Point::new(5, 6)));
    m.handle_input(Input::MouseMove(Point::new(7, 8)), &mut v);
    assert_eq!(v[2], Value::Point(Point::new(7, 8)));
    m.handle_input(Input::ButtonUp, &mut v);
    assert!(!m.mouse_button_down);
    m.handle_input(Input::MouseMove(Point::new(1, 1)), &mut v);
    assert_eq!(v[2], Value::Point(Point::new(7, 8)));
}

#[test]
fn events_stop_at_quit() {
    let mut m = Menu::new();
    let mut v = values();
    let inputs = vec![Input::KeyDown, Input::MiddleButtonDown, Input::Other, Input::KeyRight, Input::Quit, Input::KeyLeft];
    assert!(m.handle_events(&inputs, &mut v));
    assert_eq!(m.selected, 1);
    assert!(m.active);
    assert_eq!(v[1], Value::I32(i32::MAX));
    let inputs = vec![Input::KeyLeft, Input::KeyActivate, Input::KeyUp];
    assert!(!m.handle_events(&inputs, &mut v));
    assert_eq!(v[1], Value::I32(i32::MAX - 1));
    assert_eq!(m.selected, 0);
    assert!(!m.active);
}

#[test]
fn widest_name() {
    let ps = vec![
        Parameter::new("l1_start", Value::U32(1)),
        Parameter::new("width", Value::I32(-1)),
        Parameter::new("l12_end_pt", Value::Point(Point::new(0, 0))),
    ];
    assert_eq!(ps[1].name, "width");
    assert_eq!(max_name_width(&ps), 10);
    assert_eq!(max_name_width(&Vec::new()), 0);
}
