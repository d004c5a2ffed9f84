use orbit_render::{
    direction_of, generate_instances, index_bytes, index_count, indices, spin_all, vertex_count,
    Direction, DrawCall, FrameState, InputEvent, Key, LoopAction, MovementKeys, PresentError,
    Shape, SurfaceSize, TextureChoice, INITIAL_TILT_DEGREES, NUM_INSTANCES_PER_ROW,
};

fn size(width: u32, height: u32) -> SurfaceSize {
    SurfaceSize { width, height }
}

fn key(key: Key, pressed: bool) -> InputEvent {
    InputEvent::KeyboardInput { key, pressed }
}

#[test]
fn shape_index_data() {
    assert_eq!(indices(Shape::Square), vec![0, 2, 3, 0, 3, 1]);
    assert_eq!(
        indices(Shape::Hexagon),
        vec![0, 1, 2, 0, 2, 3, 0, 3, 4, 0, 4, 5, 0, 5, 6, 0, 6, 1]
    );
    assert_eq!(index_count(Shape::Square), 6);
    assert_eq!(index_count(Shape::Hexagon), 18);
    assert_eq!(vertex_count(Shape::Square), 4);
    assert_eq!(vertex_count(Shape::Hexagon), 7);
    for shape in [Shape::Square, Shape::Hexagon] {
        let idx = indices(shape);
        assert_eq!(idx.len() % 3, 0);
        assert!(idx.iter().all(|&i| (i as u32) < vertex_count(shape)));
    }
}

#[test]
fn index_bytes_are_native_order() {
    let bytes = index_bytes(Shape::Hexagon);
    assert_eq!(bytes.len(), 36);
    let decoded: Vec<u16> = bytes
        .chunks(2)
        .map(|c| u16::from_ne_bytes([c[0], c[1]]))
        .collect();
    assert_eq!(decoded, indices(Shape::Hexagon));
    let square = index_bytes(Shape::Square);
    assert_eq!(square.len(), 12);
    assert_eq!(u16::from_ne_bytes([square[4], square[5]]), 3);
}

#[test]
fn keys_map_to_directions() {
    assert_eq!(direction_of(Key::W), Some(Direction::Forward));
    assert_eq!(direction_of(Key::Up), Some(Direction::Forward));
    assert_eq!(direction_of(Key::S), Some(Direction::Backward));
    assert_eq!(direction_of(Key::Down), Some(Direction::Backward));
    assert_eq!(direction_of(Key::A), Some(Direction::Left));
    assert_eq!(direction_of(Key::Left), Some(Direction::Left));
    assert_eq!(direction_of(Key::D), Some(Direction::Right));
    assert_eq!(direction_of(Key::Right), Some(Direction::Right));
    assert_eq!(direction_of(Key::Space), None);
    assert_eq!(direction_of(Key::Escape), None);
    assert_eq!(direction_of(Key::Other), None);
}

#[test]
fn movement_keys_follow_presses() {
    let mut keys = MovementKeys::new();
    assert!(keys.process_events(&key(Key::W, true)));
    assert!(keys.is_forward_pressed);
    assert!(keys.process_events(&key(Key::Right, true)));
    assert!(keys.is_right_pressed);
    assert!(keys.process_events(&key(Key::Up, false)));
    assert!(!keys.is_forward_pressed);
    assert!(keys.is_right_pressed);
    assert!(keys.process_events(&key(Key::S, true)));
    assert!(keys.process_events(&key(Key::A, true)));
    assert!(keys.is_backward_pressed && keys.is_left_pressed);
    let before = keys;
    assert!(!keys.process_events(&key(Key::Space, true)));
    assert!(!keys.process_events(&InputEvent::CursorMoved));
    assert!(!keys.process_events(&InputEvent::CloseRequested));
    assert_eq!(keys, before);
}

#[test]
fn grid_layout_and_tilts() {
    let grid = generate_instances();
    let n = NUM_INSTANCES_PER_ROW as usize;
    assert_eq!(grid.len(), 100);
    for (i, inst) in grid.iter().enumerate() {
        assert_eq!(inst.position.x, (i % n) as i32 - 5);
        assert_eq!(inst.position.y, 0);
        assert_eq!(inst.position.z, (i / n) as i32 - 5);
        assert_eq!(inst.rotation.spin_degrees, 0);
        let at_origin = inst.position.x == 0 && inst.position.z == 0;
        assert_eq!(at_origin, i == 55);
        let tilt = if at_origin { 0 } else { INITIAL_TILT_DEGREES };
        assert_eq!(inst.rotation.tilt_degrees, tilt);
    }
    assert_eq!(grid[0].position.x, -5);
    assert_eq!(grid[99].position.z, 4);
}

#[test]
fn spin_wraps_at_quaternion_period() {
    let mut grid = generate_instances();
    let initial = grid.clone();
    for _ in 0..719 {
        spin_all(&mut grid);
    }
    assert!(grid.iter().all(|i| i.rotation.spin_degrees == 719));
    spin_all(&mut grid);
    assert_eq!(grid, initial);
}

#[test]
fn update_spins_every_instance_alike() {
    let mut state = FrameState::new(size(800, 600));
    let initial = state.instances.clone();
    for _ in 0..1000 {
        state.update();
    }
    for (now, before) in state.instances.iter().zip(initial.iter()) {
        assert_eq!(now.position, before.position);
        assert_eq!(now.rotation.tilt_degrees, before.rotation.tilt_degrees);
        assert_eq!(now.rotation.spin_degrees, 1000 % 720);
    }
    assert!(state.camera_dirty && state.instances_dirty);
    state.mark_uploaded();
    assert!(!state.camera_dirty && !state.instances_dirty);
}

#[test]
fn toggle_presses_parity() {
    let mut state = FrameState::new(size(800, 600));
    for presses in 1..=6u32 {
        assert!(state.input(&key(Key::Space, true)));
        let odd = presses % 2 == 1;
        assert_eq!(state.geometry_toggle, odd);
        assert_eq!(state.texture_toggle, odd);
    }
    assert!(!state.input(&key(Key::Space, false)));
    assert!(!state.geometry_toggle && !state.texture_toggle);
}

#[test]
fn input_dispatch() {
    let mut state = FrameState::new(size(800, 600));
    assert!(state.input(&InputEvent::CursorMoved));
    assert!(state.input(&key(Key::D, true)));
    assert!(state.keys.is_right_pressed);
    assert!(!state.input(&key(Key::Escape, true)));
    assert!(!state.input(&key(Key::Other, true)));
    assert!(!state.input(&InputEvent::Resized { size: size(10, 10) }));
    assert!(!state.input(&InputEvent::Other));
    assert_eq!(state.size, size(800, 600));
    assert!(!state.geometry_toggle);
}

#[test]
fn resize_ignores_zero_sides() {
    let mut state = FrameState::new(size(800, 600));
    assert!(!state.resize(size(0, 480)));
    assert_eq!(state.size, size(800, 600));
    assert!(!state.resize(size(640, 0)));
    assert_eq!(state.size, size(800, 600));
    assert!(!state.resize(size(0, 0)));
    assert_eq!(state.size, size(800, 600));
    assert!(state.resize(size(1024, 768)));
    assert_eq!(state.size, size(1024, 768));
    assert!(state.resize(size(u32::MAX, 1)));
    assert_eq!(state.size, size(u32::MAX, 1));
}

#[test]
fn default_frame_draws_square_with_photo() {
    let state = FrameState::new(size(800, 600));
    assert_eq!(
        state.draw_call(),
        DrawCall {
            shape: Shape::Square,
            texture: TextureChoice::Diffuse,
            index_count: 6,
            instance_count: 100,
        }
    );
}

#[test]
fn toggled_frame_draws_hexagon_with_noise() {
    let mut state = FrameState::new(size(800, 600));
    assert_eq!(
        state.on_window_event(&key(Key::Space, true)),
        LoopAction::Continue
    );
    assert_eq!(
        state.draw_call(),
        DrawCall {
            shape: Shape::Hexagon,
            texture: TextureChoice::Noise,
            index_count: 18,
            instance_count: 100,
        }
    );
}

#[test]
fn window_events_drive_the_loop() {
    let mut state = FrameState::new(size(800, 600));
    assert_eq!(state.on_window_event(&InputEvent::CloseRequested), LoopAction::Exit);
    assert_eq!(state.on_window_event(&key(Key::Escape, true)), LoopAction::Exit);
    assert_eq!(state.on_window_event(&key(Key::Escape, false)), LoopAction::Continue);
    assert_eq!(
        state.on_window_event(&InputEvent::Resized { size: size(0, 300) }),
        LoopAction::Continue
    );
    assert_eq!(state.size, size(800, 600));
    assert_eq!(
        state.on_window_event(&InputEvent::Resized { size: size(400, 300) }),
        LoopAction::Reconfigure
    );
    assert_eq!(state.size, size(400, 300));
    assert_eq!(state.on_window_event(&key(Key::W, true)), LoopAction::Continue);
    assert!(state.keys.is_forward_pressed);
    assert_eq!(state.on_window_event(&InputEvent::Other), LoopAction::Continue);
}

#[test]
fn render_errors_choose_recovery() {
    let state = FrameState::new(size(800, 600));
    assert_eq!(state.after_render(Ok(())), LoopAction::Continue);
    assert_eq!(state.after_render(Err(PresentError::Lost)), LoopAction::Reconfigure);
    assert_eq!(state.after_render(Err(PresentError::OutOfMemory)), LoopAction::Exit);
    assert_eq!(state.after_render(Err(PresentError::Outdated)), LoopAction::Report);
    assert_eq!(state.after_render(Err(PresentError::Timeout)), LoopAction::Report);
    let unsized_state = FrameState::new(size(0, 0));
    assert_eq!(unsized_state.after_render(Err(PresentError::Lost)), LoopAction::Continue);
}
