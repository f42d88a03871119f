use stale_snake::battle::{
    attack_damage, calculate_combo_bonus, calculate_effective_stat, decide_winner,
    execute_basic_battle, execute_battle, resolve, BattleAlgorithm, BattleStrategy, FighterStats,
    PlayerBattleData, MAX_EFFECTIVE_STAT, STANCE_AGGRESSIVE, STANCE_BALANCED, STANCE_DEFENSIVE,
    STAT_ATTACK, STAT_DEFENSE, STAT_SPEED,
};

fn player(attack: u16, defense: u16, speed: u16, stance: u8) -> PlayerBattleData {
    PlayerBattleData {
        fighter_stats: FighterStats { attack, defense, speed, special_move: 9 },
        strategy: BattleStrategy { stance, target_stat: 0, combo1: 0, combo2: 0, combo3: 0 },
        stake_amount: 100,
    }
}

#[test]
fn effective_stat_applies_stance_and_roll() {
    assert_eq!(calculate_effective_stat(100, STANCE_BALANCED, STAT_ATTACK, 10), 120);
    assert_eq!(calculate_effective_stat(90, STANCE_AGGRESSIVE, STAT_ATTACK, 10), 117);
    assert_eq!(calculate_effective_stat(60, STANCE_AGGRESSIVE, STAT_DEFENSE, 10), 66);
    assert_eq!(calculate_effective_stat(50, STANCE_DEFENSIVE, STAT_DEFENSE, 0), 60);
    assert_eq!(calculate_effective_stat(50, STANCE_DEFENSIVE, STAT_SPEED, 0), 50);
    assert_eq!(calculate_effective_stat(50, 7, STAT_ATTACK, 0), 50);
    // Only the roll modulo 20 counts.
    assert_eq!(calculate_effective_stat(100, 7, STAT_SPEED, 39), 119);
    // Rounds down.
    assert_eq!(calculate_effective_stat(7, STANCE_BALANCED, STAT_SPEED, 3), 7);
}

#[test]
fn effective_stat_of_largest_base_does_not_wrap() {
    assert_eq!(calculate_effective_stat(65535, STANCE_AGGRESSIVE, STAT_ATTACK, 19), 91093);
    assert_eq!(MAX_EFFECTIVE_STAT, 91093);
}

#[test]
fn combo_bonuses() {
    assert_eq!(calculate_combo_bonus(5, 5, 1, 5), 15);
    assert_eq!(calculate_combo_bonus(0, 0, 0, 0), 15);
    assert_eq!(calculate_combo_bonus(1, 2, 3, 9), 10);
    assert_eq!(calculate_combo_bonus(1, 2, 4, 9), 0);
    assert_eq!(calculate_combo_bonus(5, 6, 7, 5), 10);
    assert_eq!(calculate_combo_bonus(254, 255, 0, 9), 0);
    assert_eq!(calculate_combo_bonus(255, 0, 1, 9), 0);
}

#[test]
fn damage_never_underflows() {
    assert_eq!(attack_damage(10, 200), 0);
    assert_eq!(attack_damage(0, 1), 0);
    assert_eq!(attack_damage(5, 5), 0);
    assert_eq!(attack_damage(120, 66), 54);
}

#[test]
fn winner_codes() {
    assert_eq!(decide_winner(64, 57), 1);
    assert_eq!(decide_winner(57, 64), 2);
    assert_eq!(decide_winner(5, 5), 0);
}

#[test]
fn extended_battle_fixed_inputs_are_deterministic() {
    let p1 = player(100, 50, 80, STANCE_BALANCED);
    let p2 = player(90, 60, 70, STANCE_AGGRESSIVE);
    // Player 1: 10 first strike + (120 - 66) = 64; player 2: 117 - 60 = 57.
    for _ in 0..5 {
        assert_eq!(execute_battle(p1, p2, 10, 10, 10), 1);
    }
    // A draw of 110 rolls the same 10.
    assert_eq!(execute_battle(p1, p2, 110, 210, 1010), 1);
}

#[test]
fn speed_tie_awards_first_strike_to_player_two() {
    let p = player(100, 100, 80, STANCE_BALANCED);
    // Identical fighters: only the first-strike bonus separates them.
    assert_eq!(execute_battle(p, p, 3, 4, 5), 2);
    assert_eq!(execute_battle(p, p, 3, 4, 5), 2);
    // Equal effective speed from different bases and stances.
    let fast = player(0, 0, 110, 7);
    let balanced = player(0, 0, 100, STANCE_BALANCED);
    assert_eq!(calculate_effective_stat(110, 7, STAT_SPEED, 0), 110);
    assert_eq!(calculate_effective_stat(100, STANCE_BALANCED, STAT_SPEED, 0), 110);
    assert_eq!(execute_battle(fast, balanced, 0, 0, 0), 2);
    assert_eq!(execute_battle(balanced, fast, 0, 0, 0), 2);
}

#[test]
fn stronger_defense_blocks_without_underflow() {
    let weak = player(10, 0, 0, 7);
    let wall = player(0, 200, 0, 7);
    // Player 1 deals nothing; player 2 gets only the tie's first strike.
    assert_eq!(execute_battle(weak, wall, 0, 0, 0), 2);
}

#[test]
fn combos_can_decide_the_battle() {
    let mut p1 = player(50, 50, 50, 7);
    let p2 = player(50, 50, 50, 7);
    // Without combos player 2 wins on the speed tie.
    assert_eq!(execute_battle(p1, p2, 0, 0, 0), 2);
    p1.strategy.combo1 = 9;
    p1.strategy.combo2 = 9;
    assert_eq!(execute_battle(p1, p2, 0, 0, 0), 1);
    p1.strategy.combo1 = 3;
    p1.strategy.combo2 = 4;
    p1.strategy.combo3 = 5;
    assert_eq!(execute_battle(p1, p2, 0, 0, 0), 0);
}

#[test]
fn basic_battle_scores() {
    let p = player(10, 10, 10, 0);
    // 30 + 5 against 30 + 95 mod 20 = 45.
    assert_eq!(execute_basic_battle(p, p, 5), 2);
    // 30 + 10 against 30 + 50 mod 20 = 40.
    assert_eq!(execute_basic_battle(p, p, 50), 0);
    assert_eq!(execute_basic_battle(p, p, 150), 0);
    // 30 + 19 against 30 + 81 mod 20 = 31.
    assert_eq!(execute_basic_battle(p, p, 19), 1);
    let strong = player(100, 10, 10, 0);
    assert_eq!(execute_basic_battle(strong, p, 0), 1);
}

#[test]
fn resolve_selects_the_algorithm() {
    let p1 = player(100, 50, 80, STANCE_BALANCED);
    let p2 = player(90, 60, 70, STANCE_AGGRESSIVE);
    assert_eq!(resolve(BattleAlgorithm::Extended, p1, p2, 10, 10, 10), 1);
    // Basic: 230 + 10 against 220 + 10.
    assert_eq!(resolve(BattleAlgorithm::Basic, p1, p2, 10, 99, 99), 1);
    let p = player(10, 10, 10, 0);
    assert_eq!(resolve(BattleAlgorithm::Basic, p, p, 5, 0, 0), 2);
    assert_eq!(resolve(BattleAlgorithm::Extended, p, p, 5, 0, 0), 2);
    assert_eq!(resolve(BattleAlgorithm::Basic, p, p, 50, 0, 0), 0);
}
