use redox_core::state::{
    apply_action, candidate_actions, stagnation_check_due, step_cost, Action, GameMode, QuantizedState,
    StateKey, UNBOUNDED_CEILING_INDEX,
};

fn base() -> QuantizedState {
    QuantizedState {
        xi: 1,
        yi: 2,
        vyi: -1,
        ceiling_i: UNBOUNDED_CEILING_INDEX,
        on_ground: true,
        gravity_flipped: false,
        pressing: false,
        mode: GameMode::Cube,
        speed: 1,
    }
}

#[test]
fn key_packs_fields_at_their_offsets() {
    let k = StateKey::from_quantized(&base());
    let expected: u128 = 1u128
        | (2u128 << 32)
        | (0xFF_FFFFu128 << 64)
        | (10000u128 << 88)
        | (1u128 << 104)
        | (1u128 << 108);
    assert_eq!(k, StateKey(expected));
}

#[test]
fn key_packs_negative_positions_as_two_complement() {
    let mut q = base();
    q.xi = -1;
    q.yi = -2;
    q.vyi = 5;
    q.ceiling_i = -1;
    q.on_ground = false;
    q.gravity_flipped = true;
    q.pressing = true;
    q.mode = GameMode::Ship;
    q.speed = 4;
    let expected: u128 = 0xFFFF_FFFFu128
        | (0xFFFF_FFFEu128 << 32)
        | (5u128 << 64)
        | (0xFFFFu128 << 88)
        | (1u128 << 105)
        | (1u128 << 106)
        | (1u128 << 107)
        | (4u128 << 108);
    assert_eq!(StateKey::from_quantized(&q).0, expected);
}

#[test]
fn key_stable_for_equal_quantized_fields() {
    let a = base();
    let mut b = base();
    assert_eq!(StateKey::from_quantized(&a), StateKey::from_quantized(&b));
    // Velocities that agree in the low 24 bits share the key.
    b.vyi = -1 - (1 << 24);
    assert_eq!(StateKey::from_quantized(&a), StateKey::from_quantized(&b));
}

#[test]
fn key_separates_flags_mode_and_speed() {
    let a = base();
    let k = StateKey::from_quantized(&a);
    let mut variants = Vec::new();
    let mut q = a;
    q.on_ground = false;
    variants.push(q);
    let mut q = a;
    q.gravity_flipped = true;
    variants.push(q);
    let mut q = a;
    q.pressing = true;
    variants.push(q);
    let mut q = a;
    q.mode = GameMode::Ship;
    variants.push(q);
    for s in [0usize, 2, 3, 4] {
        let mut q = a;
        q.speed = s;
        variants.push(q);
    }
    for v in &variants {
        assert_ne!(StateKey::from_quantized(v), k);
    }
    for i in 0..variants.len() {
        for j in (i + 1)..variants.len() {
            assert_ne!(
                StateKey::from_quantized(&variants[i]),
                StateKey::from_quantized(&variants[j])
            );
        }
    }
}

#[test]
fn apply_action_updates_press_state() {
    assert!(apply_action(false, Action::Press));
    assert!(!apply_action(true, Action::Release));
    assert!(apply_action(true, Action::Idle));
    assert!(!apply_action(false, Action::Idle));
}

#[test]
fn candidates_depend_on_press_mode_and_ground() {
    assert_eq!(candidate_actions(true, GameMode::Cube, true), vec![Action::Idle, Action::Release]);
    assert_eq!(candidate_actions(true, GameMode::Ship, false), vec![Action::Idle, Action::Release]);
    assert_eq!(candidate_actions(false, GameMode::Cube, true), vec![Action::Idle, Action::Press]);
    assert_eq!(candidate_actions(false, GameMode::Cube, false), vec![Action::Idle]);
    assert_eq!(candidate_actions(false, GameMode::Ship, false), vec![Action::Idle, Action::Press]);
}

#[test]
fn stagnation_check_due_after_interval() {
    assert!(!stagnation_check_due(9, 0, 10));
    assert!(stagnation_check_due(10, 0, 10));
    assert!(stagnation_check_due(25, 15, 10));
    // A huge interval never comes due and does not overflow.
    assert!(!stagnation_check_due(usize::MAX - 1, 5, usize::MAX));
}

#[test]
fn step_costs_in_half_ticks() {
    assert_eq!(step_cost(GameMode::Cube, Action::Idle), 2);
    assert_eq!(step_cost(GameMode::Cube, Action::Release), 2);
    assert_eq!(step_cost(GameMode::Cube, Action::Press), 32);
    assert_eq!(step_cost(GameMode::Ship, Action::Press), 3);
    assert_eq!(step_cost(GameMode::Ship, Action::Idle), 2);
}
