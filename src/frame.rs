use vstd::prelude::*;
use crate::geometry::{index_count, shape_indices, Shape};
use crate::input::{InputEvent, Key, MovementKeys, SurfaceSize};
use crate::instances::{generate_instances, initial_grid, spin_all, spun, Instance};

verus! {

/// One of the two textures a draw samples.
#[derive(Clone, Copy, Debug, PartialEq, Eq, Structural)]
pub enum TextureChoice {
    /// The photograph.
    Diffuse,
    /// The procedural noise.
    Noise,
}

/// What a frame's single draw call binds and draws.
#[derive(Clone, Copy, Debug, PartialEq, Eq, Structural)]
pub struct DrawCall {
    pub shape: Shape,
    pub texture: TextureChoice,
    pub index_count: u32,
    pub instance_count: u32,
}

/// Why the next surface image could not be acquired.
#[derive(Clone, Copy, Debug, PartialEq, Eq, Structural)]
pub enum PresentError {
    Lost,
    Outdated,
    Timeout,
    OutOfMemory,
}

/// What the event loop does next.
#[derive(Clone, Copy, Debug, PartialEq, Eq, Structural)]
pub enum LoopAction {
    /// Nothing more to do for this event.
    Continue,
    /// Configure the surface at the stored size and recreate the depth
    /// texture to match.
    Reconfigure,
    /// Report the error and try again on the next frame.
    Report,
    /// Leave the loop.
    Exit,
}

/// The frame logic's state: the surface size, the two selection toggles, the
/// movement keys, the instances, and which GPU buffers await an upload.
#[derive(Debug)]
pub struct FrameState {
    pub size: SurfaceSize,
    /// Draw the hexagon rather than the square.
    pub geometry_toggle: bool,
    /// Sample the noise texture rather than the photograph.
    pub texture_toggle: bool,
    pub keys: MovementKeys,
    pub instances: Vec<Instance>,
    /// The camera uniform changed since it was last uploaded.
    pub camera_dirty: bool,
    /// The instance matrices changed since they were last uploaded.
    pub instances_dirty: bool,
}

/// A size that a surface can be configured with.
pub open spec fn is_usable_size(size: SurfaceSize) -> bool {
    size.width > 0 && size.height > 0
}

/// The key that flips both toggles, going down.
pub open spec fn is_toggle_press(event: InputEvent) -> bool {
    event == InputEvent::KeyboardInput { key: Key::Space, pressed: true }
}

/// A request to leave: the window closing, or Escape going down.
pub open spec fn is_exit_request(event: InputEvent) -> bool {
    event == InputEvent::CloseRequested || event == InputEvent::KeyboardInput {
        key: Key::Escape,
        pressed: true,
    }
}

/// Whether `FrameState::input` takes `event`.
pub open spec fn input_handled(event: InputEvent) -> bool {
    MovementKeys::event_direction(event).is_some() || event == InputEvent::CursorMoved
        || is_toggle_press(event)
}

/// The shape drawn for a geometry toggle.
pub open spec fn shape_for(geometry_toggle: bool) -> Shape {
    if geometry_toggle {
        Shape::Hexagon
    } else {
        Shape::Square
    }
}

/// The texture sampled for a texture toggle.
pub open spec fn texture_for(texture_toggle: bool) -> TextureChoice {
    if texture_toggle {
        TextureChoice::Noise
    } else {
        TextureChoice::Diffuse
    }
}

impl FrameState {
    /// `self` with both toggles flipped.
    pub open spec fn toggled(self) -> FrameState {
        FrameState {
            geometry_toggle: !self.geometry_toggle,
            texture_toggle: !self.texture_toggle,
            ..self
        }
    }

    /// `self` after `presses` presses of the toggle key.
    pub open spec fn after_toggle_presses(self, presses: nat) -> FrameState
        decreases presses,
    {
        if presses == 0 {
            self
        } else {
            self.after_toggle_presses((presses - 1) as nat).toggled()
        }
    }

    /// `self` after `FrameState::input` on `event`.
    pub open spec fn after_input(self, event: InputEvent) -> FrameState {
        match MovementKeys::event_direction(event) {
            Some((d, pressed)) => FrameState { keys: self.keys.with_direction(d, pressed), ..self },
            None => if is_toggle_press(event) {
                self.toggled()
            } else {
                self
            },
        }
    }

    /// The draw call for the current toggles.
    pub open spec fn spec_draw_call(self) -> DrawCall {
        DrawCall {
            shape: shape_for(self.geometry_toggle),
            texture: texture_for(self.texture_toggle),
            index_count: shape_indices(shape_for(self.geometry_toggle)).len() as u32,
            instance_count: self.instances@.len() as u32,
        }
    }

    /// A fresh state for a surface of `size`: the square with the photograph,
    /// no key held, the generated grid, nothing waiting for upload.
    pub fn new(size: SurfaceSize) -> (r: FrameState)
        ensures
            r.size == size,
            !r.geometry_toggle,
            !r.texture_toggle,
            r.keys == MovementKeys::new_spec(),
            r.instances@ == initial_grid(),
            !r.camera_dirty,
            !r.instances_dirty,
    {
        FrameState {
            size,
            geometry_toggle: false,
            texture_toggle: false,
            keys: MovementKeys::new(),
            instances: generate_instances(),
            camera_dirty: false,
            instances_dirty: false,
        }
    }

    /// Stores `new_size` and reports that the surface must be configured
    /// again, unless one of its sides is zero: then nothing changes.
    pub fn resize(&mut self, new_size: SurfaceSize) -> (reconfigure: bool)
        ensures
            reconfigure == is_usable_size(new_size),
            reconfigure ==> *final(self) == (FrameState { size: new_size, ..*old(self) }),
            !reconfigure ==> *final(self) == *old(self),
    {
        if new_size.width > 0 && new_size.height > 0 {
            self.size = new_size;
            true
        } else {
            false
        }
    }

    /// Offers `event` to the movement keys first; otherwise takes a cursor
    /// move, and the toggle key going down, which flips both toggles.
    /// Reports whether the event was taken.
    pub fn input(&mut self, event: &InputEvent) -> (handled: bool)
        ensures
            handled == input_handled(*event),
            *final(self) == old(self).after_input(*event),
    {
        if self.keys.process_events(event) {
            true
        } else {
            match event {
                InputEvent::CursorMoved => true,
                InputEvent::KeyboardInput { key: Key::Space, pressed: true } => {
                    self.geometry_toggle = !self.geometry_toggle;
                    self.texture_toggle = !self.texture_toggle;
                    true
                },
                _ => false,
            }
        }
    }

    /// Advances the instances by one frame of spin and marks the instance
    /// matrices and the camera uniform for upload.
    pub fn update(&mut self)
        ensures
            final(self).instances@ == spun(old(self).instances@, 1),
            final(self).camera_dirty,
            final(self).instances_dirty,
            final(self).size == old(self).size,
            final(self).geometry_toggle == old(self).geometry_toggle,
            final(self).texture_toggle == old(self).texture_toggle,
            final(self).keys == old(self).keys,
    {
        spin_all(&mut self.instances);
        self.camera_dirty = true;
        self.instances_dirty = true;
    }

    /// Records that the camera uniform and the instance matrices were
    /// uploaded.
    pub fn mark_uploaded(&mut self)
        ensures
            *final(self) == (FrameState {
                camera_dirty: false,
                instances_dirty: false,
                ..*old(self)
            }),
    {
        self.camera_dirty = false;
        self.instances_dirty = false;
    }

    /// The frame's draw call: the hexagon or the square by the geometry
    /// toggle, the noise or the photograph by the texture toggle, all of the
    /// shape's indices, one instance per element of the grid.
    pub fn draw_call(&self) -> (r: DrawCall)
        requires
            self.instances@.len() <= u32::MAX,
        ensures
            r == self.spec_draw_call(),
    {
        let shape = if self.geometry_toggle {
            Shape::Hexagon
        } else {
            Shape::Square
        };
        let texture = if self.texture_toggle {
            TextureChoice::Noise
        } else {
            TextureChoice::Diffuse
        };
        DrawCall {
            shape,
            texture,
            index_count: index_count(shape),
            instance_count: self.instances.len() as u32,
        }
    }

    /// Handles a window event: what `input` takes goes no further; then a
    /// close request or Escape leaves, and a resize to a usable size asks for
    /// the surface to be configured again.
    pub fn on_window_event(&mut self, event: &InputEvent) -> (r: LoopAction)
        ensures
            input_handled(*event) ==> r == LoopAction::Continue && *final(self) == old(
                self,
            ).after_input(*event),
            !input_handled(*event) ==> match *event {
                InputEvent::Resized { size } => if is_usable_size(size) {
                    r == LoopAction::Reconfigure && *final(self) == (FrameState {
                        size,
                        ..*old(self)
                    })
                } else {
                    r == LoopAction::Continue && *final(self) == *old(self)
                },
                _ => *final(self) == *old(self) && r == if is_exit_request(*event) {
                    LoopAction::Exit
                } else {
                    LoopAction::Continue
                },
            },
    {
        if self.input(event) {
            return LoopAction::Continue;
        }
        match event {
            InputEvent::CloseRequested => LoopAction::Exit,
            InputEvent::KeyboardInput { key: Key::Escape, pressed: true } => LoopAction::Exit,
            InputEvent::Resized { size } => {
                if self.resize(*size) {
                    LoopAction::Reconfigure
                } else {
                    LoopAction::Continue
                }
            },
            _ => LoopAction::Continue,
        }
    }

    /// What follows a frame's render: nothing after success; a lost surface
    /// is configured again at the stored size, where that size is usable; an
    /// out-of-memory error leaves; an outdated surface or a timeout is
    /// reported and retried on the next frame.
    pub fn after_render(&self, result: Result<(), PresentError>) -> (r: LoopAction)
        ensures
            r == match result {
                Ok(()) => LoopAction::Continue,
                Err(PresentError::Lost) => if is_usable_size(self.size) {
                    LoopAction::Reconfigure
                } else {
                    LoopAction::Continue
                },
                Err(PresentError::OutOfMemory) => LoopAction::Exit,
                Err(_) => LoopAction::Report,
            },
    {
        match result {
            Ok(()) => LoopAction::Continue,
            Err(PresentError::Lost) => {
                if self.size.width > 0 && self.size.height > 0 {
                    LoopAction::Reconfigure
                } else {
                    LoopAction::Continue
                }
            },
            Err(PresentError::OutOfMemory) => LoopAction::Exit,
            Err(_) => LoopAction::Report,
        }
    }
}

/// Pressing the toggle key an even number of times leaves both toggles as
/// they were; an odd number flips both. Nothing else changes.
pub proof fn lemma_toggle_parity(s: FrameState, presses: nat)
    ensures
        s.after_toggle_presses(presses).geometry_toggle == (s.geometry_toggle != (presses % 2
            == 1)),
        s.after_toggle_presses(presses).texture_toggle == (s.texture_toggle != (presses % 2 == 1)),
        s.after_toggle_presses(presses) == (FrameState {
            geometry_toggle: s.after_toggle_presses(presses).geometry_toggle,
            texture_toggle: s.after_toggle_presses(presses).texture_toggle,
            ..s
        }),
    decreases presses,
{
    if presses > 0 {
        lemma_toggle_parity(s, (presses - 1) as nat);
    }
}

/// A toggle-key press taken by `input` is one step of
/// `after_toggle_presses`.
pub proof fn lemma_input_toggle_step(s: FrameState, presses: nat)
    ensures
        s.after_toggle_presses(presses).after_input(
            InputEvent::KeyboardInput { key: Key::Space, pressed: true },
        ) == s.after_toggle_presses(presses + 1),
{
}

} // verus!
