//! Frame logic of an instanced-grid renderer with an orbit camera: input
//! dispatch, movement keys, the instance grid and its per-frame spin, shape
//! index data, surface sizing and the selection made for each draw call.

pub mod frame;
pub mod geometry;
pub mod input;
pub mod instances;

pub use frame::{DrawCall, FrameState, LoopAction, PresentError, TextureChoice};
pub use geometry::{index_bytes, index_count, indices, vertex_count, Shape};
pub use input::{direction_of, Direction, InputEvent, Key, MovementKeys, SurfaceSize};
pub use instances::{
    generate_instances, spin_all, Instance, Position, Rotation, INITIAL_TILT_DEGREES,
    NUM_INSTANCES_PER_ROW, SPIN_PERIOD_DEGREES,
};
