use vstd::prelude::*;

verus! {

/// Instances along each side of the square grid.
pub const NUM_INSTANCES_PER_ROW: u32 = 10;

/// Tilt of every instance off the grid's centre, in degrees.
pub const INITIAL_TILT_DEGREES: u32 = 45;

/// Quaternions repeat every 720 degrees of turn, so a spin angle taken modulo
/// this period names exactly one quaternion.
pub const SPIN_PERIOD_DEGREES: u32 = 720;

/// An instance's position; the grid puts every instance on whole units.
#[derive(Clone, Copy, Debug, PartialEq, Eq, Structural)]
pub struct Position {
    pub x: i32,
    pub y: i32,
    pub z: i32,
}

/// An instance's rotation as the quaternion product
/// `axis_angle(axis, tilt_degrees) * axis_angle(z, spin_degrees)`, where `axis`
/// is the instance's normalised position, or the z axis at the origin.
#[derive(Clone, Copy, Debug, PartialEq, Eq, Structural)]
pub struct Rotation {
    pub tilt_degrees: u32,
    pub spin_degrees: u32,
}

/// One drawn copy of the shape.
#[derive(Clone, Copy, Debug, PartialEq, Eq, Structural)]
pub struct Instance {
    pub position: Position,
    pub rotation: Rotation,
}

pub open spec fn is_origin(p: Position) -> bool {
    p.x == 0 && p.y == 0 && p.z == 0
}

/// The instance at place `i` of the grid, row by row along x: the cell
/// `(i % n, i / n)` moved back by half a row on x and z.
pub open spec fn grid_instance(i: int) -> Instance {
    let n = NUM_INSTANCES_PER_ROW as int;
    let half = n / 2;
    let position = Position { x: (i % n - half) as i32, y: 0, z: (i / n - half) as i32 };
    Instance {
        position,
        rotation: Rotation {
            tilt_degrees: if is_origin(position) { 0 } else { INITIAL_TILT_DEGREES },
            spin_degrees: 0,
        },
    }
}

/// The grid as it is generated.
pub open spec fn initial_grid() -> Seq<Instance> {
    let n = NUM_INSTANCES_PER_ROW as int;
    Seq::new((n * n) as nat, |i: int| grid_instance(i))
}

/// A rotation after `frames` more frames of spin, one degree each.
pub open spec fn spun_rotation(r: Rotation, frames: nat) -> Rotation {
    Rotation {
        tilt_degrees: r.tilt_degrees,
        spin_degrees: ((r.spin_degrees + frames) % (SPIN_PERIOD_DEGREES as int)) as u32,
    }
}

/// Every instance of `s` after `frames` more frames of spin.
pub open spec fn spun(s: Seq<Instance>, frames: nat) -> Seq<Instance> {
    s.map_values(
        |inst: Instance| Instance { position: inst.position, rotation: spun_rotation(inst.rotation, frames) },
    )
}

/// `s` after one frame of spin, `frames` times over.
pub open spec fn after_frames(s: Seq<Instance>, frames: nat) -> Seq<Instance>
    decreases frames,
{
    if frames == 0 {
        s
    } else {
        spun(after_frames(s, (frames - 1) as nat), 1)
    }
}

/// Builds the grid: `NUM_INSTANCES_PER_ROW` squared instances centred on the
/// origin, each tilted by 45 degrees about its own position, but the one at
/// the origin, which is not tilted.
pub fn generate_instances() -> (r: Vec<Instance>)
    ensures
        r@ == initial_grid(),
{
    let n: u32 = NUM_INSTANCES_PER_ROW;
    let half: i32 = (n / 2) as i32;
    let mut v: Vec<Instance> = Vec::new();
    let mut z: u32 = 0;
    while z < n
        invariant
            z <= n,
            n == NUM_INSTANCES_PER_ROW,
            half == 5,
            v.len() == z * n,
            forall|j: int| 0 <= j < v.len() ==> v@[j] == grid_instance(j),
        decreases n - z,
    {
        let mut x: u32 = 0;
        while x < n
            invariant
                x <= n,
                z < n,
                n == NUM_INSTANCES_PER_ROW,
                half == 5,
                v.len() == z * n + x,
                forall|j: int| 0 <= j < v.len() ==> v@[j] == grid_instance(j),
            decreases n - x,
        {
            let position = Position { x: x as i32 - half, y: 0, z: z as i32 - half };
            let tilt: u32 = if position.x == 0 && position.y == 0 && position.z == 0 {
                0
            } else {
                INITIAL_TILT_DEGREES
            };
            let inst = Instance { position, rotation: Rotation { tilt_degrees: tilt, spin_degrees: 0 } };
            proof {
                let k: int = v.len() as int;
                assert(k % 10 == x && k / 10 == z) by (nonlinear_arith)
                    requires
                        k == z * 10 + x,
                        0 <= x < 10,
                        0 <= z,
                ;
                assert(inst == grid_instance(k));
            }
            v.push(inst);
            x = x + 1;
        }
        z = z + 1;
    }
    assert(v@ =~= initial_grid());
    v
}

/// Turns every instance one degree further about the z axis; positions and
/// tilts stay as they are.
pub fn spin_all(instances: &mut Vec<Instance>)
    ensures
        final(instances)@ == spun(old(instances)@, 1),
{
    let len = instances.len();
    let mut i: usize = 0;
    while i < len
        invariant
            i <= len,
            len == old(instances)@.len(),
            instances@.len() == len,
            forall|j: int| 0 <= j < i ==> instances@[j] == spun(old(instances)@, 1)[j],
            forall|j: int| i <= j < len ==> instances@[j] == old(instances)@[j],
        decreases len - i,
    {
        let mut inst = instances[i];
        let spin = inst.rotation.spin_degrees;
        inst.rotation.spin_degrees = (spin % SPIN_PERIOD_DEGREES + 1) % SPIN_PERIOD_DEGREES;
        assert((spin as int % 720 + 1) % 720 == (spin as int + 1) % 720) by (nonlinear_arith);
        instances.set(i, inst);
        i = i + 1;
    }
    assert(instances@ =~= spun(old(instances)@, 1));
}

/// In the generated grid exactly one instance, the one at the centre cell,
/// sits at the origin and is not tilted; every other instance is tilted by
/// 45 degrees about its own position, and none has spun yet.
pub proof fn lemma_grid_rotations()
    ensures
        initial_grid().len() == 100,
        is_origin(initial_grid()[55].position),
        forall|i: int|
            #![trigger initial_grid()[i]]
            0 <= i < 100 ==> {
                &&& is_origin(initial_grid()[i].position) <==> i == 55
                &&& initial_grid()[i].rotation.tilt_degrees == if i == 55 {
                    0
                } else {
                    INITIAL_TILT_DEGREES
                }
                &&& initial_grid()[i].rotation.spin_degrees == 0
            },
{
    assert forall|i: int| 0 <= i < 100 implies (is_origin(initial_grid()[i].position) <==> i == 55) by {
        if is_origin(initial_grid()[i].position) {
            assert(i % 10 == 5 && i / 10 == 5);
        }
    }
}

/// Spinning by `a` frames and then by `b` frames is spinning by `a + b`.
pub proof fn lemma_spin_composes(s: Seq<Instance>, a: nat, b: nat)
    ensures
        spun(spun(s, a), b) == spun(s, a + b),
{
    assert forall|i: int| 0 <= i < s.len() implies #[trigger] spun(spun(s, a), b)[i] == spun(s, a + b)[i] by {
        let sp = s[i].rotation.spin_degrees as int;
        assert(((sp + a) % 720 + b) % 720 == (sp + a + b) % 720) by (nonlinear_arith);
    }
    assert(spun(spun(s, a), b) =~= spun(s, a + b));
}

/// Where no spin has reached a full period, `frames` single-frame spins are
/// one spin by `frames`.
pub proof fn lemma_after_frames_is_spun(s: Seq<Instance>, frames: nat)
    requires
        forall|i: int| 0 <= i < s.len() ==> s[i].rotation.spin_degrees < SPIN_PERIOD_DEGREES,
    ensures
        after_frames(s, frames) == spun(s, frames),
    decreases frames,
{
    if frames == 0 {
        assert(spun(s, 0) =~= s);
    } else {
        lemma_after_frames_is_spun(s, (frames - 1) as nat);
        lemma_spin_composes(s, (frames - 1) as nat, 1);
    }
}

/// After `frames` frames every instance keeps its position and tilt and has
/// spun by the same `frames` degrees, taken modulo the quaternion period: its
/// rotation is its initial rotation times the one-degree step `frames` times.
pub proof fn lemma_spin_after_frames(frames: nat)
    ensures
        after_frames(initial_grid(), frames).len() == initial_grid().len(),
        forall|i: int|
            0 <= i < initial_grid().len() ==> #[trigger] after_frames(initial_grid(), frames)[i]
                == (Instance {
                position: initial_grid()[i].position,
                rotation: Rotation {
                    tilt_degrees: initial_grid()[i].rotation.tilt_degrees,
                    spin_degrees: (frames % (SPIN_PERIOD_DEGREES as nat)) as u32,
                },
            }),
{
    lemma_after_frames_is_spun(initial_grid(), frames);
}

} // verus!
