use vstd::prelude::*;

verus! {

/// The keys the renderer reacts to; every other key is `Other`.
#[derive(Clone, Copy, Debug, PartialEq, Eq, Structural)]
pub enum Key {
    W,
    A,
    S,
    D,
    Up,
    Down,
    Left,
    Right,
    Space,
    Escape,
    Other,
}

/// A surface size in physical pixels.
#[derive(Clone, Copy, Debug, PartialEq, Eq, Structural)]
pub struct SurfaceSize {
    pub width: u32,
    pub height: u32,
}

/// A window event, as far as the frame logic looks at it.
#[derive(Clone, Copy, Debug, PartialEq, Eq, Structural)]
pub enum InputEvent {
    /// A key went down (`pressed`) or up.
    KeyboardInput { key: Key, pressed: bool },
    /// The cursor moved over the window.
    CursorMoved,
    /// The surface changed size, or the window's scale factor changed it.
    Resized { size: SurfaceSize },
    /// The window was asked to close.
    CloseRequested,
    /// Anything else.
    Other,
}

/// A direction of camera movement.
#[derive(Clone, Copy, Debug, PartialEq, Eq, Structural)]
pub enum Direction {
    Forward,
    Backward,
    Left,
    Right,
}

/// The direction a key moves the camera in, if any.
pub open spec fn key_direction(key: Key) -> Option<Direction> {
    match key {
        Key::W | Key::Up => Some(Direction::Forward),
        Key::S | Key::Down => Some(Direction::Backward),
        Key::A | Key::Left => Some(Direction::Left),
        Key::D | Key::Right => Some(Direction::Right),
        _ => None,
    }
}

/// The direction `key` moves the camera in: W/Up forward, S/Down backward,
/// A/Left left and D/Right right.
pub fn direction_of(key: Key) -> (r: Option<Direction>)
    ensures
        r == key_direction(key),
{
    match key {
        Key::W | Key::Up => Some(Direction::Forward),
        Key::S | Key::Down => Some(Direction::Backward),
        Key::A | Key::Left => Some(Direction::Left),
        Key::D | Key::Right => Some(Direction::Right),
        _ => None,
    }
}

/// Which movement keys are held down.
#[derive(Clone, Copy, Debug, PartialEq, Eq, Structural)]
pub struct MovementKeys {
    pub is_forward_pressed: bool,
    pub is_backward_pressed: bool,
    pub is_left_pressed: bool,
    pub is_right_pressed: bool,
}

impl MovementKeys {
    /// `self` with the flag of `d` set to `pressed`.
    pub open spec fn with_direction(self, d: Direction, pressed: bool) -> MovementKeys {
        match d {
            Direction::Forward => MovementKeys { is_forward_pressed: pressed, ..self },
            Direction::Backward => MovementKeys { is_backward_pressed: pressed, ..self },
            Direction::Left => MovementKeys { is_left_pressed: pressed, ..self },
            Direction::Right => MovementKeys { is_right_pressed: pressed, ..self },
        }
    }

    /// The direction a movement event sets, if `event` is one.
    pub open spec fn event_direction(event: InputEvent) -> Option<(Direction, bool)> {
        match event {
            InputEvent::KeyboardInput { key, pressed } => match key_direction(key) {
                Some(d) => Some((d, pressed)),
                None => None,
            },
            _ => None,
        }
    }

    /// No key held.
    pub open spec fn new_spec() -> MovementKeys {
        MovementKeys {
            is_forward_pressed: false,
            is_backward_pressed: false,
            is_left_pressed: false,
            is_right_pressed: false,
        }
    }

    /// No key held.
    pub fn new() -> (r: MovementKeys)
        ensures
            r == MovementKeys::new_spec(),
    {
        MovementKeys {
            is_forward_pressed: false,
            is_backward_pressed: false,
            is_left_pressed: false,
            is_right_pressed: false,
        }
    }

    /// Records a movement key going down or up and reports it handled; any
    /// other event is left for other handlers and changes nothing.
    pub fn process_events(&mut self, event: &InputEvent) -> (handled: bool)
        ensures
            handled == MovementKeys::event_direction(*event).is_some(),
            match MovementKeys::event_direction(*event) {
                Some((d, pressed)) => *final(self) == old(self).with_direction(d, pressed),
                None => *final(self) == *old(self),
            },
    {
        match event {
            InputEvent::KeyboardInput { key, pressed } => match direction_of(*key) {
                Some(Direction::Forward) => {
                    self.is_forward_pressed = *pressed;
                    true
                },
                Some(Direction::Backward) => {
                    self.is_backward_pressed = *pressed;
                    true
                },
                Some(Direction::Left) => {
                    self.is_left_pressed = *pressed;
                    true
                },
                Some(Direction::Right) => {
                    self.is_right_pressed = *pressed;
                    true
                },
                None => false,
            },
            _ => false,
        }
    }
}

} // verus!
