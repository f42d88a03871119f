//! Battle resolution: maps two players' fighter data plus random draws to a
//! winner code (0 = draw, 1 = player 1 wins, 2 = player 2 wins).

use vstd::prelude::*;

verus! {

/// Stance code that boosts attack.
pub const STANCE_AGGRESSIVE: u8 = 0;
/// Stance code that boosts defense.
pub const STANCE_DEFENSIVE: u8 = 1;
/// Stance code that gives a smaller boost to every stat.
pub const STANCE_BALANCED: u8 = 2;

/// Stat kind codes.
pub const STAT_ATTACK: u8 = 0;
pub const STAT_DEFENSE: u8 = 1;
pub const STAT_SPEED: u8 = 2;

/// Winner codes.
pub const OUTCOME_DRAW: u8 = 0;
pub const OUTCOME_PLAYER1: u8 = 1;
pub const OUTCOME_PLAYER2: u8 = 2;

/// Bonus for the player who strikes first.
pub const FIRST_STRIKE_BONUS: u32 = 10;
/// Bonus when the first two combo slots both hold the special move.
pub const DOUBLE_SPECIAL_BONUS: u32 = 15;
/// Bonus when the three combo slots climb by one.
pub const SEQUENTIAL_COMBO_BONUS: u32 = 10;

/// Fighter stats for the battle.
#[derive(Clone, Copy, Debug, PartialEq, Eq, Structural)]
pub struct FighterStats {
    pub attack: u16,
    pub defense: u16,
    pub speed: u16,
    pub special_move: u8,
}

/// Battle strategy chosen by a player.
#[derive(Clone, Copy, Debug, PartialEq, Eq, Structural)]
pub struct BattleStrategy {
    /// One of the `STANCE_*` codes; any other value gives no boost.
    pub stance: u8,
    pub target_stat: u8,
    pub combo1: u8,
    pub combo2: u8,
    pub combo3: u8,
}

/// Everything the battle reads of one player.
#[derive(Clone, Copy, Debug, PartialEq, Eq, Structural)]
pub struct PlayerBattleData {
    pub fighter_stats: FighterStats,
    pub strategy: BattleStrategy,
    pub stake_amount: u64,
}

/// The resolution algorithm a duel is played under.
#[derive(Clone, Copy, Debug, PartialEq, Eq, Structural)]
pub enum BattleAlgorithm {
    /// Sum of the three stats plus one shared random draw.
    Basic,
    /// Stance-adjusted stats, first strike, damage and combo bonuses.
    Extended,
}

/// Percentage multiplier that a stance gives to a stat kind.
pub open spec fn stance_multiplier(stance: u8, stat_kind: u8) -> int {
    if stance == STANCE_AGGRESSIVE && stat_kind == STAT_ATTACK {
        120
    } else if stance == STANCE_DEFENSIVE && stat_kind == STAT_DEFENSE {
        120
    } else if stance == STANCE_BALANCED {
        110
    } else {
        100
    }
}

/// `base × (multiplier + (r mod 20)) / 100`, rounded down.
pub open spec fn effective_stat(base: u16, stance: u8, stat_kind: u8, r: int) -> int {
    (base as int) * (stance_multiplier(stance, stat_kind) + r % 20) / 100
}

/// Damage an attack deals through a defense: the excess, never below zero.
pub open spec fn damage(attack: int, defense: int) -> int {
    if attack > defense {
        attack - defense
    } else {
        0
    }
}

/// Combo bonus: double special and sequential run, which stack.
pub open spec fn combo_bonus(combo1: u8, combo2: u8, combo3: u8, special_move: u8) -> int {
    (if combo1 == special_move && combo2 == special_move {
        DOUBLE_SPECIAL_BONUS as int
    } else {
        0
    }) + (if combo1 + 1 == combo2 && combo2 + 1 == combo3 {
        SEQUENTIAL_COMBO_BONUS as int
    } else {
        0
    })
}

pub open spec fn player_combo_bonus(p: PlayerBattleData) -> int {
    combo_bonus(
        p.strategy.combo1,
        p.strategy.combo2,
        p.strategy.combo3,
        p.fighter_stats.special_move,
    )
}

pub open spec fn effective_attack(p: PlayerBattleData, r1: int) -> int {
    effective_stat(p.fighter_stats.attack, p.strategy.stance, STAT_ATTACK, r1)
}

pub open spec fn effective_defense(p: PlayerBattleData, r2: int) -> int {
    effective_stat(p.fighter_stats.defense, p.strategy.stance, STAT_DEFENSE, r2)
}

pub open spec fn effective_speed(p: PlayerBattleData, r3: int) -> int {
    effective_stat(p.fighter_stats.speed, p.strategy.stance, STAT_SPEED, r3)
}

/// First-strike bonuses of both players: the strictly faster one gets it, and
/// player 2 gets it on a tie.
pub open spec fn first_strike(speed1: int, speed2: int) -> (int, int) {
    if speed1 > speed2 {
        (FIRST_STRIKE_BONUS as int, 0)
    } else {
        (0, FIRST_STRIKE_BONUS as int)
    }
}

/// Scores of both players under the extended algorithm, with per-stat
/// randomness `r1` (attack), `r2` (defense), `r3` (speed) shared by both.
pub open spec fn extended_scores(
    p1: PlayerBattleData,
    p2: PlayerBattleData,
    r1: int,
    r2: int,
    r3: int,
) -> (int, int) {
    let strike = first_strike(effective_speed(p1, r3), effective_speed(p2, r3));
    (
        strike.0 + damage(effective_attack(p1, r1), effective_defense(p2, r2))
            + player_combo_bonus(p1),
        strike.1 + damage(effective_attack(p2, r1), effective_defense(p1, r2))
            + player_combo_bonus(p2),
    )
}

/// Scores of both players under the basic algorithm, with one draw `r`.
pub open spec fn basic_scores(p1: PlayerBattleData, p2: PlayerBattleData, r: int) -> (int, int) {
    (
        p1.fighter_stats.attack + p1.fighter_stats.defense + p1.fighter_stats.speed + r % 20,
        p2.fighter_stats.attack + p2.fighter_stats.defense + p2.fighter_stats.speed + (100 - r)
            % 20,
    )
}

/// Winner code for two scores.
pub open spec fn winner_code(score1: int, score2: int) -> u8 {
    if score1 > score2 {
        OUTCOME_PLAYER1
    } else if score2 > score1 {
        OUTCOME_PLAYER2
    } else {
        OUTCOME_DRAW
    }
}

/// A random draw reduced to the range `[0, 100)`.
pub open spec fn roll(draw: u64) -> int {
    (draw % 100) as int
}

pub open spec fn extended_outcome(
    p1: PlayerBattleData,
    p2: PlayerBattleData,
    draw1: u64,
    draw2: u64,
    draw3: u64,
) -> u8 {
    let s = extended_scores(p1, p2, roll(draw1), roll(draw2), roll(draw3));
    winner_code(s.0, s.1)
}

pub open spec fn basic_outcome(p1: PlayerBattleData, p2: PlayerBattleData, draw: u64) -> u8 {
    let s = basic_scores(p1, p2, roll(draw));
    winner_code(s.0, s.1)
}

pub open spec fn outcome(
    algorithm: BattleAlgorithm,
    p1: PlayerBattleData,
    p2: PlayerBattleData,
    draw1: u64,
    draw2: u64,
    draw3: u64,
) -> u8 {
    match algorithm {
        BattleAlgorithm::Basic => basic_outcome(p1, p2, draw1),
        BattleAlgorithm::Extended => extended_outcome(p1, p2, draw1, draw2, draw3),
    }
}

/// Upper bound of an effective stat: 65535 × 139 / 100.
pub const MAX_EFFECTIVE_STAT: u32 = 91093;

/// Stat adjusted by stance and randomness; `rng` is a roll in `[0, 100)`.
pub fn calculate_effective_stat(base_stat: u16, stance: u8, stat_type: u8, rng: u16) -> (r: u32)
    ensures
        r == effective_stat(base_stat, stance, stat_type, rng as int),
        r <= MAX_EFFECTIVE_STAT,
{
    let mut multiplier: u32 = 100;
    if stance == STANCE_AGGRESSIVE && stat_type == STAT_ATTACK {
        multiplier = 120;
    } else if stance == STANCE_DEFENSIVE && stat_type == STAT_DEFENSE {
        multiplier = 120;
    } else if stance == STANCE_BALANCED {
        multiplier = 110;
    }
    let random_boost: u32 = (rng % 20) as u32;
    let factor: u32 = multiplier + random_boost;
    let base: u32 = base_stat as u32;
    assert(base * factor <= 65535 * 139) by (nonlinear_arith)
        requires
            base <= 65535,
            factor <= 139,
    ;
    let product: u32 = base * factor;
    product / 100
}

/// Combo bonus of one player.
pub fn calculate_combo_bonus(combo1: u8, combo2: u8, combo3: u8, special_move: u8) -> (r: u32)
    ensures
        r == combo_bonus(combo1, combo2, combo3, special_move),
{
    let mut bonus: u32 = 0;
    if combo1 == special_move && combo2 == special_move {
        bonus += DOUBLE_SPECIAL_BONUS;
    }
    if (combo1 as u16) + 1 == combo2 as u16 && (combo2 as u16) + 1 == combo3 as u16 {
        bonus += SEQUENTIAL_COMBO_BONUS;
    }
    bonus
}

/// Damage of an attack through a defense; zero when the defense holds.
pub fn attack_damage(attack: u32, defense: u32) -> (r: u32)
    ensures
        r == damage(attack as int, defense as int),
        defense > attack ==> r == 0,
{
    if attack > defense {
        attack - defense
    } else {
        0
    }
}

/// Winner code for two scores.
pub fn decide_winner(score1: u32, score2: u32) -> (r: u8)
    ensures
        r == winner_code(score1 as int, score2 as int),
{
    if score1 > score2 {
        OUTCOME_PLAYER1
    } else if score2 > score1 {
        OUTCOME_PLAYER2
    } else {
        OUTCOME_DRAW
    }
}

/// Extended algorithm. Each draw is reduced to `[0, 100)`; the first draw
/// perturbs attack, the second defense, the third speed, identically for both
/// players.
pub fn execute_battle(
    player1_data: PlayerBattleData,
    player2_data: PlayerBattleData,
    draw1: u64,
    draw2: u64,
    draw3: u64,
) -> (r: u8)
    ensures
        r == extended_outcome(player1_data, player2_data, draw1, draw2, draw3),
{
    let p1 = player1_data;
    let p2 = player2_data;
    let rng_factor1: u16 = (draw1 % 100) as u16;
    let rng_factor2: u16 = (draw2 % 100) as u16;
    let rng_factor3: u16 = (draw3 % 100) as u16;

    let p1_effective_attack = calculate_effective_stat(
        p1.fighter_stats.attack,
        p1.strategy.stance,
        STAT_ATTACK,
        rng_factor1,
    );
    let p1_effective_defense = calculate_effective_stat(
        p1.fighter_stats.defense,
        p1.strategy.stance,
        STAT_DEFENSE,
        rng_factor2,
    );
    let p1_effective_speed = calculate_effective_stat(
        p1.fighter_stats.speed,
        p1.strategy.stance,
        STAT_SPEED,
        rng_factor3,
    );
    let p2_effective_attack = calculate_effective_stat(
        p2.fighter_stats.attack,
        p2.strategy.stance,
        STAT_ATTACK,
        rng_factor1,
    );
    let p2_effective_defense = calculate_effective_stat(
        p2.fighter_stats.defense,
        p2.strategy.stance,
        STAT_DEFENSE,
        rng_factor2,
    );
    let p2_effective_speed = calculate_effective_stat(
        p2.fighter_stats.speed,
        p2.strategy.stance,
        STAT_SPEED,
        rng_factor3,
    );

    let mut p1_score: u32 = 0;
    let mut p2_score: u32 = 0;

    // The strictly faster fighter strikes first; a tie goes to player 2.
    if p1_effective_speed > p2_effective_speed {
        p1_score += FIRST_STRIKE_BONUS;
    } else {
        p2_score += FIRST_STRIKE_BONUS;
    }

    p1_score += attack_damage(p1_effective_attack, p2_effective_defense);
    p2_score += attack_damage(p2_effective_attack, p1_effective_defense);

    p1_score += calculate_combo_bonus(
        p1.strategy.combo1,
        p1.strategy.combo2,
        p1.strategy.combo3,
        p1.fighter_stats.special_move,
    );
    p2_score += calculate_combo_bonus(
        p2.strategy.combo1,
        p2.strategy.combo2,
        p2.strategy.combo3,
        p2.fighter_stats.special_move,
    );

    decide_winner(p1_score, p2_score)
}

/// Basic algorithm: each player's stat sum plus a share of one draw, reduced
/// to `[0, 100)`; player 1 adds `r mod 20`, player 2 `(100 - r) mod 20`.
pub fn execute_basic_battle(
    player1_data: PlayerBattleData,
    player2_data: PlayerBattleData,
    draw: u64,
) -> (r: u8)
    ensures
        r == basic_outcome(player1_data, player2_data, draw),
{
    let f1 = player1_data.fighter_stats;
    let f2 = player2_data.fighter_stats;
    let r: u32 = (draw % 100) as u32;
    let score1: u32 = f1.attack as u32 + f1.defense as u32 + f1.speed as u32 + r % 20;
    let score2: u32 = f2.attack as u32 + f2.defense as u32 + f2.speed as u32 + (100 - r) % 20;
    decide_winner(score1, score2)
}

/// Resolves a battle under the chosen algorithm. The basic algorithm reads
/// only the first draw.
pub fn resolve(
    algorithm: BattleAlgorithm,
    player1_data: PlayerBattleData,
    player2_data: PlayerBattleData,
    draw1: u64,
    draw2: u64,
    draw3: u64,
) -> (r: u8)
    ensures
        r == outcome(algorithm, player1_data, player2_data, draw1, draw2, draw3),
        r <= OUTCOME_PLAYER2,
{
    match algorithm {
        BattleAlgorithm::Basic => execute_basic_battle(player1_data, player2_data, draw1),
        BattleAlgorithm::Extended => execute_battle(
            player1_data,
            player2_data,
            draw1,
            draw2,
            draw3,
        ),
    }
}

/// On equal effective speed the first-strike bonus goes to player 2 and not
/// to player 1.
pub proof fn lemma_speed_tie_favours_player2(
    p1: PlayerBattleData,
    p2: PlayerBattleData,
    r1: int,
    r2: int,
    r3: int,
)
    requires
        effective_speed(p1, r3) == effective_speed(p2, r3),
    ensures
        first_strike(effective_speed(p1, r3), effective_speed(p2, r3)) == (
        0int,
        FIRST_STRIKE_BONUS as int,
        ),
        extended_scores(p1, p2, r1, r2, r3) == (
        damage(effective_attack(p1, r1), effective_defense(p2, r2)) + player_combo_bonus(p1),
        FIRST_STRIKE_BONUS as int + damage(effective_attack(p2, r1), effective_defense(p1, r2))
            + player_combo_bonus(p2),
        ),
{
}

/// When a defense is strictly greater than the opposing attack, that attack
/// contributes exactly zero to the attacker's score, for either player.
pub proof fn lemma_no_damage_through_stronger_defense(
    p1: PlayerBattleData,
    p2: PlayerBattleData,
    r1: int,
    r2: int,
    r3: int,
)
    ensures
        effective_defense(p2, r2) > effective_attack(p1, r1) ==> extended_scores(
            p1,
            p2,
            r1,
            r2,
            r3,
        ).0 == first_strike(effective_speed(p1, r3), effective_speed(p2, r3)).0
            + player_combo_bonus(p1),
        effective_defense(p1, r2) > effective_attack(p2, r1) ==> extended_scores(
            p1,
            p2,
            r1,
            r2,
            r3,
        ).1 == first_strike(effective_speed(p1, r3), effective_speed(p2, r3)).1
            + player_combo_bonus(p2),
        forall|a: int, d: int| #![auto] d > a ==> damage(a, d) == 0,
        forall|a: int, d: int| #![auto] damage(a, d) >= 0,
{
}

} // verus!
