use vstd::prelude::*;

verus! {

/// Vehicle mode of the avatar.
#[derive(Debug, Clone, Copy, PartialEq, Eq, Hash, Structural)]
pub enum GameMode {
    Cube,
    Ship,
}

/// One input token applied at a physics tick.
#[derive(Debug, Clone, Copy, PartialEq, Eq, Hash, Structural)]
pub enum Action {
    /// Leaves the press state as it is.
    Idle,
    /// Starts holding the button.
    Press,
    /// Stops holding the button.
    Release,
}

/// Press state after applying `a` to press state `pressing`.
pub open spec fn pressing_after(pressing: bool, a: Action) -> bool {
    match a {
        Action::Idle => pressing,
        Action::Press => true,
        Action::Release => false,
    }
}

/// Whether the input automaton admits `a` while the press state is `pressing`:
/// a press only while released, a release only while held.
pub open spec fn action_allowed(pressing: bool, a: Action) -> bool {
    match a {
        Action::Idle => true,
        Action::Press => !pressing,
        Action::Release => pressing,
    }
}

/// The actions that the search tries from a state, `Idle` first.
pub open spec fn candidates(pressing: bool, mode: GameMode, on_ground: bool) -> Seq<Action> {
    if pressing {
        seq![Action::Idle, Action::Release]
    } else {
        match mode {
            GameMode::Cube => if on_ground {
                seq![Action::Idle, Action::Press]
            } else {
                seq![Action::Idle]
            },
            GameMode::Ship => seq![Action::Idle, Action::Press],
        }
    }
}

/// Applies an action to the press state.
pub fn apply_action(pressing: bool, action: Action) -> (r: bool)
    ensures
        r == pressing_after(pressing, action),
{
    match action {
        Action::Idle => pressing,
        Action::Press => true,
        Action::Release => false,
    }
}

/// The candidate actions tried when expanding a state, in the order tried.
pub fn candidate_actions(pressing: bool, mode: GameMode, on_ground: bool) -> (r: Vec<Action>)
    ensures
        r@ == candidates(pressing, mode, on_ground),
{
    let mut r: Vec<Action> = Vec::new();
    r.push(Action::Idle);
    if pressing {
        r.push(Action::Release);
    } else {
        match mode {
            GameMode::Cube => {
                if on_ground {
                    r.push(Action::Press);
                }
            },
            GameMode::Ship => {
                r.push(Action::Press);
            },
        }
    }
    proof {
        assert(r@ =~= candidates(pressing, mode, on_ground));
    }
    r
}

/// Every candidate that the search tries respects the input automaton.
pub proof fn lemma_candidates_allowed(pressing: bool, mode: GameMode, on_ground: bool)
    ensures
        forall|i: int|
            0 <= i < candidates(pressing, mode, on_ground).len() ==> action_allowed(
                pressing,
                #[trigger] candidates(pressing, mode, on_ground)[i],
            ),
{
}

/// Cost of one tick in half ticks: two for the tick itself, plus a press
/// penalty of thirty (fifteen ticks) in Cube mode or one (half a tick) in
/// Ship mode when the action is a press.
pub open spec fn tick_cost(mode: GameMode, action: Action) -> u64 {
    match action {
        Action::Press => match mode {
            GameMode::Cube => 32,
            GameMode::Ship => 3,
        },
        _ => 2,
    }
}

/// The search cost of applying `action` in `mode`, in half ticks.
pub fn step_cost(mode: GameMode, action: Action) -> (c: u64)
    ensures
        c == tick_cost(mode, action),
        2 <= c <= 32,
{
    match action {
        Action::Press => match mode {
            GameMode::Cube => 32,
            GameMode::Ship => 3,
        },
        _ => 2,
    }
}

/// Whether a progress check is due: at least `interval` expansions have
/// passed since the last checkpoint (which cannot lie ahead of the count).
pub fn stagnation_check_due(nodes_expanded: usize, checkpoint_nodes: usize, interval: usize) -> (r:
    bool)
    requires
        checkpoint_nodes <= nodes_expanded,
    ensures
        r == (nodes_expanded >= checkpoint_nodes + interval),
{
    nodes_expanded - checkpoint_nodes >= interval
}

/// A state reduced to the integers that the closed set compares: positions and
/// vertical velocity already divided by their quantization steps and floored,
/// and the ship ceiling divided by 30 (or the sentinel 10000 when unbounded).
#[derive(Debug, Clone, Copy, PartialEq, Eq, Hash, Structural)]
pub struct QuantizedState {
    pub xi: i32,
    pub yi: i32,
    pub vyi: i32,
    pub ceiling_i: i32,
    pub on_ground: bool,
    pub gravity_flipped: bool,
    pub pressing: bool,
    pub mode: GameMode,
    /// Speed tier, 0 to 4.
    pub speed: usize,
}

/// A 128-bit packed fingerprint of a quantized state, the closed-set key.
#[derive(Debug, Clone, Copy, PartialEq, Eq, Hash, Structural)]
pub struct StateKey(pub u128);

/// Ceiling index used for states whose ceiling is unbounded.
pub const UNBOUNDED_CEILING_INDEX: i32 = 10000;

pub open spec fn bit_of(b: bool) -> u128 {
    if b {
        1
    } else {
        0
    }
}

pub open spec fn mode_bit(m: GameMode) -> u128 {
    match m {
        GameMode::Cube => 0,
        GameMode::Ship => 1,
    }
}

/// Bits 0..104: x (32 bits), y (32 bits), vertical velocity (low 24 bits of its
/// two's complement), ceiling index (low 16 bits).
pub open spec fn low_fields(q: QuantizedState) -> u128 {
    (q.xi as u32 as u128) | ((q.yi as u32 as u128) << 32u128) | (((q.vyi as u32 & 0xFF_FFFFu32)
        as u128) << 64u128) | (((q.ceiling_i as u32 & 0xFFFFu32) as u128) << 88u128)
}

/// Bits 104 and up: on_ground, gravity_flipped, pressing, mode, and the low three
/// bits of the speed tier.
pub open spec fn high_fields(q: QuantizedState) -> u128 {
    bit_of(q.on_ground) | (bit_of(q.gravity_flipped) << 1u128) | (bit_of(q.pressing) << 2u128) | (
    mode_bit(q.mode) << 3u128) | (((q.speed as u128) & 7u128) << 4u128)
}

/// The packed key of a quantized state.
pub open spec fn packed_key(q: QuantizedState) -> u128 {
    low_fields(q) | (high_fields(q) << 104u128)
}

proof fn lemma_low_bound(x: u32, y: u32, v: u32, c: u32)
    by (bit_vector)
    ensures
        ((x as u128) | ((y as u128) << 32u128) | (((v & 0xFF_FFFFu32) as u128) << 64u128) | (((c
            & 0xFFFFu32) as u128) << 88u128)) < (1u128 << 104u128),
{
}

proof fn lemma_split(lo: u128, hi: u128)
    by (bit_vector)
    requires
        lo < (1u128 << 104u128),
        hi < 128u128,
    ensures
        (lo | (hi << 104u128)) >> 104u128 == hi,
        (lo | (hi << 104u128)) & 0xFF_FFFF_FFFF_FFFF_FFFF_FFFF_FFFFu128 == lo,
{
}

proof fn lemma_high_bits(g: u128, f: u128, p: u128, m: u128, s: u128)
    by (bit_vector)
    requires
        g <= 1,
        f <= 1,
        p <= 1,
        m <= 1,
        s <= 7,
    ensures
        (g | (f << 1u128) | (p << 2u128) | (m << 3u128) | (s << 4u128)) & 1u128 == g,
        ((g | (f << 1u128) | (p << 2u128) | (m << 3u128) | (s << 4u128)) >> 1u128) & 1u128 == f,
        ((g | (f << 1u128) | (p << 2u128) | (m << 3u128) | (s << 4u128)) >> 2u128) & 1u128 == p,
        ((g | (f << 1u128) | (p << 2u128) | (m << 3u128) | (s << 4u128)) >> 3u128) & 1u128 == m,
        (g | (f << 1u128) | (p << 2u128) | (m << 3u128) | (s << 4u128)) >> 4u128 == s,
        (g | (f << 1u128) | (p << 2u128) | (m << 3u128) | (s << 4u128)) < 128u128,
{
}

proof fn lemma_speed_bits(s: u128)
    by (bit_vector)
    ensures
        s & 7u128 <= 7u128,
{
}

/// The packed key splits back into its low fields and its flag bits.
proof fn lemma_key_parts(q: QuantizedState)
    ensures
        packed_key(q) >> 104u128 == high_fields(q),
        packed_key(q) & 0xFF_FFFF_FFFF_FFFF_FFFF_FFFF_FFFFu128 == low_fields(q),
        high_fields(q) & 1u128 == bit_of(q.on_ground),
        (high_fields(q) >> 1u128) & 1u128 == bit_of(q.gravity_flipped),
        (high_fields(q) >> 2u128) & 1u128 == bit_of(q.pressing),
        (high_fields(q) >> 3u128) & 1u128 == mode_bit(q.mode),
        high_fields(q) >> 4u128 == (q.speed as u128) & 7u128,
{
    lemma_low_bound(q.xi as u32, q.yi as u32, q.vyi as u32, q.ceiling_i as u32);
    lemma_speed_bits(q.speed as u128);
    lemma_high_bits(
        bit_of(q.on_ground),
        bit_of(q.gravity_flipped),
        bit_of(q.pressing),
        mode_bit(q.mode),
        (q.speed as u128) & 7u128,
    );
    lemma_split(low_fields(q), high_fields(q));
}

impl StateKey {
    /// Packs a quantized state: x in bits 0..32, y in 32..64, vertical velocity
    /// in 64..88, ceiling index in 88..104, then on_ground, gravity_flipped,
    /// pressing, mode and speed tier from bit 104 up.
    pub fn from_quantized(q: &QuantizedState) -> (k: StateKey)
        ensures
            k.0 == packed_key(*q),
    {
        let mut low: u128 = q.xi as u32 as u128;
        low = low | ((q.yi as u32 as u128) << 32u128);
        low = low | (((q.vyi as u32 & 0xFF_FFFFu32) as u128) << 64u128);
        low = low | (((q.ceiling_i as u32 & 0xFFFFu32) as u128) << 88u128);
        let g: u128 = if q.on_ground {
            1
        } else {
            0
        };
        let f: u128 = if q.gravity_flipped {
            1
        } else {
            0
        };
        let p: u128 = if q.pressing {
            1
        } else {
            0
        };
        let m: u128 = match q.mode {
            GameMode::Cube => 0,
            GameMode::Ship => 1,
        };
        let high: u128 = g | (f << 1u128) | (p << 2u128) | (m << 3u128) | (((q.speed as u128)
            & 7u128) << 4u128);
        StateKey(low | (high << 104u128))
    }
}

/// Keys agree whenever the quantized fields agree in the bits that the key
/// keeps: all of x and y, the low 24 bits of the vertical velocity, the low 16
/// bits of the ceiling index, the flags, the mode and the low three bits of the
/// speed tier. Nothing below the quantization steps reaches the key.
pub proof fn lemma_key_stable(a: QuantizedState, b: QuantizedState)
    requires
        a.xi == b.xi,
        a.yi == b.yi,
        a.vyi as u32 & 0xFF_FFFFu32 == b.vyi as u32 & 0xFF_FFFFu32,
        a.ceiling_i as u32 & 0xFFFFu32 == b.ceiling_i as u32 & 0xFFFFu32,
        a.on_ground == b.on_ground,
        a.gravity_flipped == b.gravity_flipped,
        a.pressing == b.pressing,
        a.mode == b.mode,
        a.speed == b.speed,
    ensures
        packed_key(a) == packed_key(b),
{
}

/// States that differ in mode, gravity orientation, ground contact, press
/// state or speed tier (each tier within 0 to 4) never share a key.
pub proof fn lemma_key_separates(a: QuantizedState, b: QuantizedState)
    requires
        a.speed <= 4,
        b.speed <= 4,
        a.mode != b.mode || a.gravity_flipped != b.gravity_flipped || a.on_ground
            != b.on_ground || a.pressing != b.pressing || a.speed != b.speed,
    ensures
        packed_key(a) != packed_key(b),
{
    lemma_key_parts(a);
    lemma_key_parts(b);
    if packed_key(a) == packed_key(b) {
        assert(high_fields(a) == high_fields(b));
        let sa = a.speed as u128;
        let sb = b.speed as u128;
        assert(sa & 7u128 == sa) by (bit_vector)
            requires
                sa <= 4,
        ;
        assert(sb & 7u128 == sb) by (bit_vector)
            requires
                sb <= 4,
        ;
    }
}

} // verus!
