//! The duel lifecycle: staking, matching, battle submission, the battle
//! callback and reward claims, with the escrow vault's balance tracked
//! alongside.
//!
//! Each operation is described by a spec function from the duel before the
//! call to the result and the duel after it; the executable operations are
//! proved equal to them, and the laws of the protocol are proved over them.

use vstd::prelude::*;

use crate::battle::BattleAlgorithm;
use crate::key::AccountKey;

verus! {

/// Fee basis points in a whole.
pub const BPS_DENOMINATOR: u16 = 10000;

/// Largest stake: the vault must be able to hold two of them.
pub const MAX_STAKE: u64 = 9223372036854775807;

/// Winner codes revealed by the battle computation.
pub const RESULT_PLAYER1: u8 = 1;
pub const RESULT_PLAYER2: u8 = 2;

/// Ciphertexts of a player's battle inputs: fighter attributes and strategy.
#[derive(Clone, Copy, Debug)]
pub struct EncryptedStats {
    pub attack: [u8; 32],
    pub defense: [u8; 32],
    pub speed: [u8; 32],
    pub special_move: [u8; 32],
    pub stance: [u8; 32],
    pub target_stat: [u8; 32],
    pub combo1: [u8; 32],
    pub combo2: [u8; 32],
    pub combo3: [u8; 32],
}

/// Lifecycle of a duel: `Open → Matched → InBattle → {Completed, Draw}`.
#[derive(Clone, Copy, Debug, PartialEq, Eq, Structural)]
pub enum DuelStatus {
    /// One player has staked; waiting for an opponent.
    Open,
    /// Both players have staked; ready to battle.
    Matched,
    /// The battle computation was submitted and has not answered.
    InBattle,
    /// A player won.
    Completed,
    /// Nobody won.
    Draw,
}

/// Protocol constants fixed for a duel when it is created.
#[derive(Clone, Copy, Debug)]
pub struct DuelConfig {
    /// Protocol fee on the winner's payout, in basis points.
    pub fee_bps: u16,
    /// Battle resolution algorithm the duel is played under.
    pub algorithm: BattleAlgorithm,
}

impl DuelConfig {
    pub open spec fn valid(&self) -> bool {
        self.fee_bps <= BPS_DENOMINATOR
    }

    /// A configuration, if the fee is at most the whole payout.
    pub fn new(fee_bps: u16, algorithm: BattleAlgorithm) -> (r: Option<DuelConfig>)
        ensures
            r is Some <==> fee_bps <= BPS_DENOMINATOR,
            r matches Some(c) ==> c.fee_bps == fee_bps && c.algorithm == algorithm && c.valid(),
    {
        if fee_bps <= BPS_DENOMINATOR {
            Some(DuelConfig { fee_bps, algorithm })
        } else {
            None
        }
    }
}

/// A player bound to a duel.
#[derive(Clone, Copy, Debug)]
pub struct Participant {
    pub key: AccountKey,
    /// The asset the player staked.
    pub mint: AccountKey,
    pub stats: EncryptedStats,
}

/// The durable record of one duel.
#[derive(Clone, Copy, Debug)]
pub struct DuelOrder {
    pub duel_id: u64,
    pub config: DuelConfig,
    pub player1: Participant,
    pub player2: Option<Participant>,
    /// Stake of each player.
    pub stake_amount: u64,
    /// What the duel's escrow vault holds.
    pub vault_balance: u64,
    /// Correlation id of the battle computation awaiting its callback.
    pub pending_computation: Option<u64>,
    /// The winner once completed; `None` before that and on a draw.
    pub winner: Option<AccountKey>,
    pub status: DuelStatus,
    pub player1_claimed: bool,
    pub player2_claimed: bool,
}

/// Errors of the duel operations. None of them changes the duel.
#[derive(Clone, Copy, Debug, PartialEq, Eq, Structural)]
pub enum ErrorCode {
    DuelNotOpen,
    CannotDuelYourself,
    InvalidStake,
    BattleNotReady,
    UnexpectedCallback,
    BattleFailed,
    BattleNotCompleted,
    NotAParticipant,
    WinningsAlreadyClaimed,
}

/// What the battle computation answered.
#[derive(Clone, Copy, Debug, PartialEq, Eq, Structural)]
pub enum ComputationOutcome {
    Success(u8),
    Failure,
}

/// One ordered argument of a battle computation.
#[derive(Clone, Copy, Debug)]
pub enum BattleArgument {
    ArcisPubkey([u8; 32]),
    PlaintextU64(u64),
    PlaintextU128(u128),
    EncryptedU8([u8; 32]),
    EncryptedU16([u8; 32]),
}

#[derive(Clone, Copy, Debug)]
pub struct PlayerJoinedEvent {
    pub duel_id: u64,
    pub player: AccountKey,
    pub stake: u64,
}

#[derive(Clone, Copy, Debug)]
pub struct BattleCompletedEvent {
    pub duel_id: u64,
    pub winner: Option<AccountKey>,
}

#[derive(Clone, Copy, Debug)]
pub struct RewardClaimedEvent {
    pub duel_id: u64,
    pub player: AccountKey,
    pub amount: u64,
}

/// Inputs of a staking call; `duel_order` is `None` while no duel exists.
#[derive(Clone, Copy, Debug)]
pub struct StakeAndJoin {
    pub player: AccountKey,
    pub token_mint: AccountKey,
    /// Used when the call creates the duel.
    pub config: DuelConfig,
    pub duel_order: Option<DuelOrder>,
}

#[derive(Clone, Copy, Debug)]
pub struct StartBattle {
    pub duel_order: DuelOrder,
}

#[derive(Clone, Copy, Debug)]
pub struct BattleResultCallback {
    pub duel_order: DuelOrder,
}

#[derive(Clone, Copy, Debug)]
pub struct ClaimRewards {
    pub claimant: AccountKey,
    pub duel_order: DuelOrder,
}

/// `floor(amount × fee_bps / 10000)`.
pub open spec fn fee_of(amount: int, fee_bps: int) -> int {
    amount * fee_bps / (BPS_DENOMINATOR as int)
}

pub open spec fn is_terminal(s: DuelStatus) -> bool {
    s == DuelStatus::Completed || s == DuelStatus::Draw
}

/// Position of a status in the lifecycle.
pub open spec fn status_rank(s: DuelStatus) -> int {
    match s {
        DuelStatus::Open => 0,
        DuelStatus::Matched => 1,
        DuelStatus::InBattle => 2,
        DuelStatus::Completed => 3,
        DuelStatus::Draw => 3,
    }
}

/// Whether a duel may go from status `a` to status `b` in one operation.
pub open spec fn status_step(a: DuelStatus, b: DuelStatus) -> bool {
    a == b || (a == DuelStatus::Open && b == DuelStatus::Matched) || (a == DuelStatus::Matched
        && b == DuelStatus::InBattle) || (a == DuelStatus::InBattle && is_terminal(b))
}

impl DuelOrder {
    pub open spec fn is_participant(&self, who: AccountKey) -> bool {
        self.player1.key == who || (self.player2 matches Some(p) && p.key == who)
    }

    pub open spec fn has_claimed(&self, who: AccountKey) -> bool {
        if self.player1.key == who {
            self.player1_claimed
        } else {
            self.player2_claimed
        }
    }

    /// The winner's payout: both stakes less the protocol fee.
    pub open spec fn winner_payout(&self) -> int {
        2 * self.stake_amount - fee_of(2 * self.stake_amount, self.config.fee_bps as int)
    }

    /// What a claim by `who` releases from the vault.
    pub open spec fn payout(&self, who: AccountKey) -> int {
        if self.status == DuelStatus::Draw {
            self.stake_amount as int
        } else if self.status == DuelStatus::Completed && self.winner == Some(who) {
            self.winner_payout()
        } else {
            0
        }
    }

    /// Sum of the stakes deposited into the vault.
    pub open spec fn deposits(&self) -> int {
        if self.player2 is Some {
            2 * self.stake_amount
        } else {
            self.stake_amount as int
        }
    }

    /// Sum of the payouts released from the vault.
    pub open spec fn released(&self) -> int {
        (if self.player1_claimed {
            self.payout(self.player1.key)
        } else {
            0
        }) + (if self.player2_claimed && self.player2 is Some {
            self.payout(self.player2.unwrap().key)
        } else {
            0
        })
    }

    pub open spec fn wf(&self) -> bool {
        &&& self.config.valid()
        &&& 0 < self.stake_amount <= MAX_STAKE
        &&& (self.status == DuelStatus::Open) == (self.player2 is None)
        &&& self.player2 matches Some(p) ==> p.key != self.player1.key
        &&& (self.pending_computation is Some) == (self.status == DuelStatus::InBattle)
        &&& self.status == DuelStatus::Completed ==> (self.winner == Some(self.player1.key) || (
        self.player2 matches Some(p) && self.winner == Some(p.key)))
        &&& self.status != DuelStatus::Completed ==> self.winner is None
        &&& !is_terminal(self.status) ==> !self.player1_claimed && !self.player2_claimed
        &&& self.vault_balance == self.deposits() - self.released()
    }
}

/// The duel a first staking call creates.
pub open spec fn created_duel(
    duel_id: u64,
    player: AccountKey,
    mint: AccountKey,
    config: DuelConfig,
    stake_amount: u64,
    stats: EncryptedStats,
) -> DuelOrder {
    DuelOrder {
        duel_id,
        config,
        player1: Participant { key: player, mint, stats },
        player2: None,
        stake_amount,
        vault_balance: stake_amount,
        pending_computation: None,
        winner: None,
        status: DuelStatus::Open,
        player1_claimed: false,
        player2_claimed: false,
    }
}

/// Creating a duel: the stake is deposited and the duel is open.
pub open spec fn create_spec(
    duel_id: u64,
    player: AccountKey,
    mint: AccountKey,
    config: DuelConfig,
    stake_amount: u64,
    stats: EncryptedStats,
) -> Result<DuelOrder, ErrorCode> {
    if stake_amount == 0 || stake_amount > MAX_STAKE {
        Err(ErrorCode::InvalidStake)
    } else {
        Ok(created_duel(duel_id, player, mint, config, stake_amount, stats))
    }
}

/// Joining an open duel: the opponent deposits the same stake of the same
/// asset.
pub open spec fn join_spec(
    d: DuelOrder,
    player: AccountKey,
    mint: AccountKey,
    stake_amount: u64,
    stats: EncryptedStats,
) -> Result<DuelOrder, ErrorCode> {
    if d.status != DuelStatus::Open {
        Err(ErrorCode::DuelNotOpen)
    } else if player == d.player1.key {
        Err(ErrorCode::CannotDuelYourself)
    } else if stake_amount != d.stake_amount || mint != d.player1.mint {
        Err(ErrorCode::InvalidStake)
    } else {
        Ok(
            DuelOrder {
                player2: Some(Participant { key: player, mint, stats }),
                vault_balance: (d.vault_balance + stake_amount) as u64,
                status: DuelStatus::Matched,
                ..d
            },
        )
    }
}

/// A staking call: creates the duel when none exists, else joins it.
pub open spec fn stake_and_join_spec(
    ctx: StakeAndJoin,
    duel_id: u64,
    stake_amount: u64,
    stats: EncryptedStats,
) -> (Result<PlayerJoinedEvent, ErrorCode>, StakeAndJoin) {
    let step = match ctx.duel_order {
        None => create_spec(duel_id, ctx.player, ctx.token_mint, ctx.config, stake_amount, stats),
        Some(d) => join_spec(d, ctx.player, ctx.token_mint, stake_amount, stats),
    };
    match step {
        Ok(nd) => (
            Ok(PlayerJoinedEvent { duel_id: nd.duel_id, player: ctx.player, stake: stake_amount }),
            StakeAndJoin { duel_order: Some(nd), ..ctx },
        ),
        Err(e) => (Err(e), ctx),
    }
}

/// Arguments of one player, in order: its session key and nonce, the
/// ciphertexts of its fighter attributes and strategy in the order the battle
/// reads them, and the stake in plaintext.
pub open spec fn player_arguments(
    pubkey: [u8; 32],
    nonce: u128,
    stats: EncryptedStats,
    stake_amount: u64,
) -> Seq<BattleArgument> {
    seq![
        BattleArgument::ArcisPubkey(pubkey),
        BattleArgument::PlaintextU128(nonce),
        BattleArgument::EncryptedU16(stats.attack),
        BattleArgument::EncryptedU16(stats.defense),
        BattleArgument::EncryptedU16(stats.speed),
        BattleArgument::EncryptedU8(stats.special_move),
        BattleArgument::EncryptedU8(stats.stance),
        BattleArgument::EncryptedU8(stats.target_stat),
        BattleArgument::EncryptedU8(stats.combo1),
        BattleArgument::EncryptedU8(stats.combo2),
        BattleArgument::EncryptedU8(stats.combo3),
        BattleArgument::PlaintextU64(stake_amount),
    ]
}

/// Arguments of the battle computation: player 1's, then player 2's.
pub open spec fn battle_arguments(
    d: DuelOrder,
    player1_pubkey: [u8; 32],
    player1_nonce: u128,
    player2_pubkey: [u8; 32],
    player2_nonce: u128,
) -> Seq<BattleArgument> {
    player_arguments(player1_pubkey, player1_nonce, d.player1.stats, d.stake_amount)
        + player_arguments(player2_pubkey, player2_nonce, d.player2.unwrap().stats, d.stake_amount)
}

/// Starting a matched duel's battle: the computation is registered under
/// `computation_offset` and the duel waits for its callback.
pub open spec fn start_battle_spec(
    d: DuelOrder,
    computation_offset: u64,
    player1_pubkey: [u8; 32],
    player1_nonce: u128,
    player2_pubkey: [u8; 32],
    player2_nonce: u128,
) -> (Result<Seq<BattleArgument>, ErrorCode>, DuelOrder) {
    if d.status != DuelStatus::Matched {
        (Err(ErrorCode::BattleNotReady), d)
    } else {
        (
            Ok(battle_arguments(d, player1_pubkey, player1_nonce, player2_pubkey, player2_nonce)),
            DuelOrder {
                pending_computation: Some(computation_offset),
                status: DuelStatus::InBattle,
                ..d
            },
        )
    }
}

/// The battle callback: only the awaited computation is accepted, and a
/// failed computation leaves the duel in battle.
pub open spec fn callback_spec(
    d: DuelOrder,
    computation_offset: u64,
    output: ComputationOutcome,
) -> (Result<BattleCompletedEvent, ErrorCode>, DuelOrder) {
    if d.status != DuelStatus::InBattle || d.pending_computation != Some(computation_offset) {
        (Err(ErrorCode::UnexpectedCallback), d)
    } else {
        match output {
            ComputationOutcome::Failure => (Err(ErrorCode::BattleFailed), d),
            ComputationOutcome::Success(code) => {
                let winner = if code == RESULT_PLAYER1 {
                    Some(d.player1.key)
                } else if code == RESULT_PLAYER2 {
                    Some(d.player2.unwrap().key)
                } else {
                    None
                };
                let status = if winner is Some {
                    DuelStatus::Completed
                } else {
                    DuelStatus::Draw
                };
                (
                    Ok(BattleCompletedEvent { duel_id: d.duel_id, winner }),
                    DuelOrder { pending_computation: None, winner, status, ..d },
                )
            },
        }
    }
}

/// A claim by `who`: participants only, after the battle, once each.
pub open spec fn claim_spec(d: DuelOrder, who: AccountKey) -> (
    Result<RewardClaimedEvent, ErrorCode>,
    DuelOrder,
) {
    if !d.is_participant(who) {
        (Err(ErrorCode::NotAParticipant), d)
    } else if !is_terminal(d.status) {
        (Err(ErrorCode::BattleNotCompleted), d)
    } else if d.has_claimed(who) {
        (Err(ErrorCode::WinningsAlreadyClaimed), d)
    } else {
        let amount = d.payout(who);
        let nd = if d.player1.key == who {
            DuelOrder { player1_claimed: true, vault_balance: (d.vault_balance - amount) as u64, ..d }
        } else {
            DuelOrder { player2_claimed: true, vault_balance: (d.vault_balance - amount) as u64, ..d }
        };
        (
            Ok(RewardClaimedEvent { duel_id: d.duel_id, player: who, amount: amount as u64 }),
            nd,
        )
    }
}

/// Creating a duel yields a well-formed duel.
pub proof fn lemma_create_wf(
    duel_id: u64,
    player: AccountKey,
    mint: AccountKey,
    config: DuelConfig,
    stake_amount: u64,
    stats: EncryptedStats,
)
    requires
        config.valid(),
    ensures
        create_spec(duel_id, player, mint, config, stake_amount, stats) matches Ok(nd) ==> nd.wf(),
{
}

/// Joining keeps a duel well-formed.
pub proof fn lemma_join_wf(
    d: DuelOrder,
    player: AccountKey,
    mint: AccountKey,
    stake_amount: u64,
    stats: EncryptedStats,
)
    requires
        d.wf(),
    ensures
        join_spec(d, player, mint, stake_amount, stats) matches Ok(nd) ==> nd.wf(),
{
}

/// Starting the battle keeps a duel well-formed.
pub proof fn lemma_start_battle_wf(
    d: DuelOrder,
    computation_offset: u64,
    player1_pubkey: [u8; 32],
    player1_nonce: u128,
    player2_pubkey: [u8; 32],
    player2_nonce: u128,
)
    requires
        d.wf(),
    ensures
        start_battle_spec(
            d,
            computation_offset,
            player1_pubkey,
            player1_nonce,
            player2_pubkey,
            player2_nonce,
        ).1.wf(),
{
}

/// The battle callback keeps a duel well-formed.
pub proof fn lemma_callback_wf(d: DuelOrder, computation_offset: u64, output: ComputationOutcome)
    requires
        d.wf(),
    ensures
        callback_spec(d, computation_offset, output).1.wf(),
{
}

/// A claim keeps a duel well-formed.
pub proof fn lemma_claim_wf(d: DuelOrder, who: AccountKey)
    requires
        d.wf(),
    ensures
        claim_spec(d, who).1.wf(),
{
    fee_bounds(2 * d.stake_amount, d.config.fee_bps as int);
}

/// The fee is a part of the amount it is taken from.
pub proof fn fee_bounds(amount: int, fee_bps: int)
    requires
        0 <= amount,
        0 <= fee_bps <= BPS_DENOMINATOR,
    ensures
        0 <= fee_of(amount, fee_bps) <= amount,
{
    assert(0 <= amount * fee_bps <= amount * 10000) by (nonlinear_arith)
        requires
            0 <= amount,
            0 <= fee_bps <= 10000,
    ;
}

impl DuelOrder {
    /// What a claim by `who` would release, for a duel whose stake and fee
    /// are in range.
    fn payout_of(&self, who: &AccountKey) -> (r: u64)
        requires
            self.config.valid(),
            self.stake_amount <= MAX_STAKE,
        ensures
            r == self.payout(*who),
    {
        proof {
            fee_bounds(2 * self.stake_amount, self.config.fee_bps as int);
        }
        let is_winner = match self.winner {
            Some(w) => w.same(who),
            None => false,
        };
        if self.status == DuelStatus::Draw {
            self.stake_amount
        } else if self.status == DuelStatus::Completed && is_winner {
            let both: u64 = self.stake_amount * 2;
            both - protocol_fee(both, self.config.fee_bps)
        } else {
            0
        }
    }

    /// Whether the duel is well-formed: the operations accept exactly these.
    pub fn is_well_formed(&self) -> (r: bool)
        ensures
            r == self.wf(),
    {
        if self.config.fee_bps > BPS_DENOMINATOR || self.stake_amount == 0 || self.stake_amount
            > MAX_STAKE {
            return false;
        }
        if (self.status == DuelStatus::Open) != self.player2.is_none() {
            return false;
        }
        if let Some(p) = self.player2 {
            if p.key.same(&self.player1.key) {
                return false;
            }
        }
        if self.pending_computation.is_some() != (self.status == DuelStatus::InBattle) {
            return false;
        }
        let winner_ok = match self.winner {
            Some(w) => self.status == DuelStatus::Completed && (w.same(&self.player1.key)
                || match self.player2 {
                Some(p) => w.same(&p.key),
                None => false,
            }),
            None => self.status != DuelStatus::Completed,
        };
        if !winner_ok {
            return false;
        }
        let terminal = self.status == DuelStatus::Completed || self.status == DuelStatus::Draw;
        if !terminal && (self.player1_claimed || self.player2_claimed) {
            return false;
        }
        let stake: u128 = self.stake_amount as u128;
        let deposits: u128 = if self.player2.is_some() {
            2 * stake
        } else {
            stake
        };
        let released1: u128 = if self.player1_claimed {
            self.payout_of(&self.player1.key) as u128
        } else {
            0
        };
        let released2: u128 = match self.player2 {
            Some(p) => if self.player2_claimed {
                self.payout_of(&p.key) as u128
            } else {
                0
            },
            None => 0,
        };
        deposits - released1 - released2 == self.vault_balance as u128
    }
}

/// `floor(amount × fee_bps / 10000)`.
pub fn protocol_fee(amount: u64, fee_bps: u16) -> (r: u64)
    requires
        fee_bps <= BPS_DENOMINATOR,
    ensures
        r == fee_of(amount as int, fee_bps as int),
        r <= amount,
{
    proof {
        fee_bounds(amount as int, fee_bps as int);
    }
    let wide: u128 = amount as u128;
    assert(wide * (fee_bps as u128) <= 18446744073709551615u128 * 10000) by (nonlinear_arith)
        requires
            wide <= 18446744073709551615u128,
            fee_bps <= 10000,
    ;
    let fee: u128 = wide * (fee_bps as u128) / (BPS_DENOMINATOR as u128);
    fee as u64
}

/// Step 1: a player stakes. The first call for a duel creates it with the
/// caller as player 1; the next one joins it as player 2, with the same stake
/// of the same asset.
/// On success the returned event's `stake` is what the caller must deposit
/// into the duel's vault.
pub fn stake_and_join(
    ctx: &mut StakeAndJoin,
    duel_id: u64,
    stake_amount: u64,
    encrypted_stats: EncryptedStats,
) -> (r: Result<PlayerJoinedEvent, ErrorCode>)
    requires
        old(ctx).config.valid(),
        old(ctx).duel_order matches Some(d) ==> d.wf(),
    ensures
        (r, *final(ctx)) == stake_and_join_spec(*old(ctx), duel_id, stake_amount, encrypted_stats),
        final(ctx).duel_order matches Some(d) ==> d.wf(),
{
    proof {
        lemma_create_wf(duel_id, ctx.player, ctx.token_mint, ctx.config, stake_amount, encrypted_stats);
        if let Some(d) = ctx.duel_order {
            lemma_join_wf(d, ctx.player, ctx.token_mint, stake_amount, encrypted_stats);
        }
    }
    let player = Participant { key: ctx.player, mint: ctx.token_mint, stats: encrypted_stats };
    match ctx.duel_order {
        None => {
            if stake_amount == 0 || stake_amount > MAX_STAKE {
                return Err(ErrorCode::InvalidStake);
            }
            ctx.duel_order = Some(
                DuelOrder {
                    duel_id,
                    config: ctx.config,
                    player1: player,
                    player2: None,
                    stake_amount,
                    vault_balance: stake_amount,
                    pending_computation: None,
                    winner: None,
                    status: DuelStatus::Open,
                    player1_claimed: false,
                    player2_claimed: false,
                },
            );
            Ok(PlayerJoinedEvent { duel_id, player: ctx.player, stake: stake_amount })
        },
        Some(d) => {
            if d.status != DuelStatus::Open {
                return Err(ErrorCode::DuelNotOpen);
            }
            if ctx.player.same(&d.player1.key) {
                return Err(ErrorCode::CannotDuelYourself);
            }
            if stake_amount != d.stake_amount || !ctx.token_mint.same(&d.player1.mint) {
                return Err(ErrorCode::InvalidStake);
            }
            let mut joined = d;
            joined.player2 = Some(player);
            joined.vault_balance = d.vault_balance + stake_amount;
            joined.status = DuelStatus::Matched;
            ctx.duel_order = Some(joined);
            Ok(PlayerJoinedEvent { duel_id: d.duel_id, player: ctx.player, stake: stake_amount })
        },
    }
}

/// Appends one player's battle arguments.
fn push_player_arguments(
    args: &mut Vec<BattleArgument>,
    pubkey: [u8; 32],
    nonce: u128,
    stats: &EncryptedStats,
    stake_amount: u64,
)
    ensures
        final(args)@ == old(args)@ + player_arguments(pubkey, nonce, *stats, stake_amount),
{
    args.push(BattleArgument::ArcisPubkey(pubkey));
    args.push(BattleArgument::PlaintextU128(nonce));
    args.push(BattleArgument::EncryptedU16(stats.attack));
    args.push(BattleArgument::EncryptedU16(stats.defense));
    args.push(BattleArgument::EncryptedU16(stats.speed));
    args.push(BattleArgument::EncryptedU8(stats.special_move));
    args.push(BattleArgument::EncryptedU8(stats.stance));
    args.push(BattleArgument::EncryptedU8(stats.target_stat));
    args.push(BattleArgument::EncryptedU8(stats.combo1));
    args.push(BattleArgument::EncryptedU8(stats.combo2));
    args.push(BattleArgument::EncryptedU8(stats.combo3));
    args.push(BattleArgument::PlaintextU64(stake_amount));
    proof {
        assert(args@ =~= old(args)@ + player_arguments(pubkey, nonce, *stats, stake_amount));
    }
}

/// Step 2: submits a matched duel's battle to the confidential computation
/// under the correlation id `computation_offset`, and puts the duel in battle.
/// Returns the ordered arguments of the computation.
pub fn start_battle(
    ctx: &mut StartBattle,
    computation_offset: u64,
    player1_pubkey: [u8; 32],
    player1_nonce: u128,
    player2_pubkey: [u8; 32],
    player2_nonce: u128,
) -> (r: Result<Vec<BattleArgument>, ErrorCode>)
    requires
        old(ctx).duel_order.wf(),
    ensures
        ({
            let (sr, sd) = start_battle_spec(
                old(ctx).duel_order,
                computation_offset,
                player1_pubkey,
                player1_nonce,
                player2_pubkey,
                player2_nonce,
            );
            &&& final(ctx).duel_order == sd
            &&& match r {
                Ok(args) => sr == Ok::<Seq<BattleArgument>, ErrorCode>(args@),
                Err(e) => sr == Err::<Seq<BattleArgument>, ErrorCode>(e),
            }
        }),
        final(ctx).duel_order.wf(),
{
    proof {
        lemma_start_battle_wf(
            ctx.duel_order,
            computation_offset,
            player1_pubkey,
            player1_nonce,
            player2_pubkey,
            player2_nonce,
        );
    }
    let duel = ctx.duel_order;
    if duel.status != DuelStatus::Matched {
        return Err(ErrorCode::BattleNotReady);
    }
    let s1 = duel.player1.stats;
    let s2 = match duel.player2 {
        Some(p) => p.stats,
        None => {
            return Err(ErrorCode::BattleNotReady);
        },
    };
    let mut args: Vec<BattleArgument> = Vec::new();
    push_player_arguments(&mut args, player1_pubkey, player1_nonce, &s1, duel.stake_amount);
    push_player_arguments(&mut args, player2_pubkey, player2_nonce, &s2, duel.stake_amount);
    proof {
        assert(args@ =~= battle_arguments(
            duel,
            player1_pubkey,
            player1_nonce,
            player2_pubkey,
            player2_nonce,
        ));
    }
    ctx.duel_order.pending_computation = Some(computation_offset);
    ctx.duel_order.status = DuelStatus::InBattle;
    Ok(args)
}

/// Step 3: the confidential computation's answer for the duel. Only the
/// computation the duel awaits is accepted; a winner code of 1 or 2 completes
/// the duel with that player as winner, any other code is a draw.
pub fn execute_battle_callback(
    ctx: &mut BattleResultCallback,
    computation_offset: u64,
    output: ComputationOutcome,
) -> (r: Result<BattleCompletedEvent, ErrorCode>)
    requires
        old(ctx).duel_order.wf(),
    ensures
        (r, final(ctx).duel_order) == callback_spec(old(ctx).duel_order, computation_offset, output),
        final(ctx).duel_order.wf(),
{
    proof {
        lemma_callback_wf(ctx.duel_order, computation_offset, output);
    }
    let duel = ctx.duel_order;
    let awaited = match duel.pending_computation {
        Some(offset) => offset == computation_offset,
        None => false,
    };
    if duel.status != DuelStatus::InBattle || !awaited {
        return Err(ErrorCode::UnexpectedCallback);
    }
    let code = match output {
        ComputationOutcome::Success(code) => code,
        ComputationOutcome::Failure => {
            return Err(ErrorCode::BattleFailed);
        },
    };
    let winner = if code == RESULT_PLAYER1 {
        Some(duel.player1.key)
    } else if code == RESULT_PLAYER2 {
        match duel.player2 {
            Some(p) => Some(p.key),
            None => None,
        }
    } else {
        None
    };
    ctx.duel_order.pending_computation = None;
    ctx.duel_order.winner = winner;
    ctx.duel_order.status = if winner.is_some() {
        DuelStatus::Completed
    } else {
        DuelStatus::Draw
    };
    Ok(BattleCompletedEvent { duel_id: duel.duel_id, winner })
}

/// Step 4: a participant claims from a finished duel, once. The winner
/// receives both stakes less the protocol fee, which stays in the vault; on a
/// draw each player gets back their own stake; the loser's claim succeeds and
/// releases nothing. The returned event's `amount` is what leaves the vault.
pub fn claim_rewards(ctx: &mut ClaimRewards) -> (r: Result<RewardClaimedEvent, ErrorCode>)
    requires
        old(ctx).duel_order.wf(),
    ensures
        (r, final(ctx).duel_order) == claim_spec(old(ctx).duel_order, old(ctx).claimant),
        final(ctx).claimant == old(ctx).claimant,
        final(ctx).duel_order.wf(),
{
    proof {
        lemma_claim_wf(ctx.duel_order, ctx.claimant);
        fee_bounds(2 * ctx.duel_order.stake_amount, ctx.duel_order.config.fee_bps as int);
    }
    let duel = ctx.duel_order;
    let caller = ctx.claimant;
    let is_player1 = caller.same(&duel.player1.key);
    let is_player2 = match duel.player2 {
        Some(p) => caller.same(&p.key),
        None => false,
    };
    if !is_player1 && !is_player2 {
        return Err(ErrorCode::NotAParticipant);
    }
    if duel.status != DuelStatus::Completed && duel.status != DuelStatus::Draw {
        return Err(ErrorCode::BattleNotCompleted);
    }
    let already = if is_player1 {
        duel.player1_claimed
    } else {
        duel.player2_claimed
    };
    if already {
        return Err(ErrorCode::WinningsAlreadyClaimed);
    }
    let is_winner = match duel.winner {
        Some(w) => caller.same(&w),
        None => false,
    };
    let amount: u64 = if duel.status == DuelStatus::Draw {
        duel.stake_amount
    } else if is_winner {
        let both: u64 = duel.stake_amount * 2;
        both - protocol_fee(both, duel.config.fee_bps)
    } else {
        0
    };
    ctx.duel_order.vault_balance = duel.vault_balance - amount;
    if is_player1 {
        ctx.duel_order.player1_claimed = true;
    } else {
        ctx.duel_order.player2_claimed = true;
    }
    Ok(RewardClaimedEvent { duel_id: duel.duel_id, player: caller, amount })
}

/// A second claim by a party whose claim succeeded fails with
/// `WinningsAlreadyClaimed` and changes nothing: the vault keeps its balance.
pub proof fn lemma_claim_idempotent(d: DuelOrder, who: AccountKey)
    requires
        d.wf(),
        claim_spec(d, who).0 is Ok,
    ensures
        ({
            let once = claim_spec(d, who).1;
            let twice = claim_spec(once, who);
            &&& twice.0 == Err::<RewardClaimedEvent, ErrorCode>(ErrorCode::WinningsAlreadyClaimed)
            &&& twice.1 == once
            &&& twice.1.vault_balance == once.vault_balance
        }),
{
}

/// After both players have staked, the vault holds twice the stake.
pub proof fn lemma_vault_after_deposits(
    duel_id: u64,
    config: DuelConfig,
    stake_amount: u64,
    player1: AccountKey,
    mint1: AccountKey,
    stats1: EncryptedStats,
    player2: AccountKey,
    mint2: AccountKey,
    stats2: EncryptedStats,
)
    requires
        config.valid(),
        create_spec(duel_id, player1, mint1, config, stake_amount, stats1) is Ok,
        join_spec(
            create_spec(duel_id, player1, mint1, config, stake_amount, stats1)->Ok_0,
            player2,
            mint2,
            stake_amount,
            stats2,
        ) is Ok,
    ensures
        join_spec(
            create_spec(duel_id, player1, mint1, config, stake_amount, stats1)->Ok_0,
            player2,
            mint2,
            stake_amount,
            stats2,
        )->Ok_0.vault_balance == 2 * stake_amount,
{
}

/// Escrow is conserved: a successful claim takes from the vault exactly the
/// amount it pays out. Once the winner has claimed, the vault holds exactly
/// the protocol fee `floor(2 × stake × fee_bps / 10000)` (nothing without a
/// fee) and the winner was paid the rest; once both players of a draw have
/// claimed, the vault is empty.
pub proof fn lemma_escrow_conservation(d: DuelOrder, who: AccountKey)
    requires
        d.wf(),
    ensures
        claim_spec(d, who) matches (Ok(ev), nd) ==> nd.vault_balance + ev.amount
            == d.vault_balance,
        claim_spec(d, who) matches (Ok(ev), nd) ==> nd.wf(),
        d.status == DuelStatus::Completed && d.has_claimed(d.winner.unwrap()) ==> d.vault_balance
            == fee_of(2 * d.stake_amount, d.config.fee_bps as int),
        d.status == DuelStatus::Completed ==> d.winner_payout() + fee_of(
            2 * d.stake_amount,
            d.config.fee_bps as int,
        ) == 2 * d.stake_amount,
        d.config.fee_bps == 0 ==> fee_of(2 * d.stake_amount, d.config.fee_bps as int) == 0,
        d.status == DuelStatus::Draw && d.player1_claimed && d.player2_claimed ==> d.vault_balance
            == 0,
{
    lemma_claim_wf(d, who);
    fee_bounds(2 * d.stake_amount, d.config.fee_bps as int);
    if d.config.fee_bps == 0 {
        assert((2 * d.stake_amount) * 0 == 0);
    }
}

/// The status only moves forward along `Open → Matched → InBattle →
/// {Completed, Draw}`: creating opens a duel and every other operation keeps
/// the status or takes one step. Joining a duel that is not open fails with
/// `DuelNotOpen`; starting a battle that is not matched fails with
/// `BattleNotReady`.
pub proof fn lemma_status_monotonic(
    d: DuelOrder,
    player: AccountKey,
    mint: AccountKey,
    stake_amount: u64,
    stats: EncryptedStats,
    computation_offset: u64,
    player1_pubkey: [u8; 32],
    player1_nonce: u128,
    player2_pubkey: [u8; 32],
    player2_nonce: u128,
    output: ComputationOutcome,
    who: AccountKey,
)
    requires
        d.wf(),
    ensures
        create_spec(d.duel_id, player, mint, d.config, stake_amount, stats) matches Ok(nd)
            ==> nd.status == DuelStatus::Open,
        join_spec(d, player, mint, stake_amount, stats) matches Ok(nd) ==> status_step(
            d.status,
            nd.status,
        ),
        status_step(
            d.status,
            start_battle_spec(
                d,
                computation_offset,
                player1_pubkey,
                player1_nonce,
                player2_pubkey,
                player2_nonce,
            ).1.status,
        ),
        status_step(d.status, callback_spec(d, computation_offset, output).1.status),
        status_step(d.status, claim_spec(d, who).1.status),
        d.status != DuelStatus::Open ==> join_spec(d, player, mint, stake_amount, stats) == Err::<
            DuelOrder,
            ErrorCode,
        >(ErrorCode::DuelNotOpen),
        d.status != DuelStatus::Matched ==> start_battle_spec(
            d,
            computation_offset,
            player1_pubkey,
            player1_nonce,
            player2_pubkey,
            player2_nonce,
        ) == (Err::<Seq<BattleArgument>, ErrorCode>(ErrorCode::BattleNotReady), d),
        forall|a: DuelStatus, b: DuelStatus| #[trigger]
            status_step(a, b) ==> status_rank(a) <= status_rank(b),
{
}

/// A caller bound as neither player gets `NotAParticipant`, whatever the
/// duel's status, and the duel is unchanged.
pub proof fn lemma_outsider_claim_rejected(d: DuelOrder, who: AccountKey)
    requires
        !d.is_participant(who),
    ensures
        claim_spec(d, who) == (
        Err::<RewardClaimedEvent, ErrorCode>(ErrorCode::NotAParticipant),
        d,
        ),
{
}

} // verus!
