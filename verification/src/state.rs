use crate::error::ErrorCode;
use crate::{FEE_SCALE, VAULT_VERSION};
use vstd::prelude::*;

verus! {

/// Number of simultaneous positions allowed
pub const MAX_POSITIONS: usize = 3;

/// Number of reward tokens a pool hands out
pub const WHIRLPOOL_NUM_REWARDS: usize = 3;

/// The address of an account: 32 bytes, held as two halves. Nothing is read
/// from an address but whether it equals another.
#[derive(Clone, Copy, Debug, PartialEq, Eq, Structural)]
pub struct Pubkey {
    pub hi: u128,
    pub lo: u128,
}

impl Default for Pubkey {
    fn default() -> (r: Pubkey)
        ensures
            r == Pubkey::unset(),
    {
        Pubkey { hi: 0, lo: 0 }
    }
}

impl Pubkey {
    /// The all-zero address, which stands for "none".
    pub open spec fn unset() -> Pubkey {
        Pubkey { hi: 0, lo: 0 }
    }
}

/// PDA bump seeds
#[derive(Clone, Copy, Debug, PartialEq, Eq, Structural)]
pub struct Bumps {
    pub vault: u8,
    pub lp_token_mint: u8,
}

impl Bumps {
    /// The bytes one takes when stored.
    pub const SIZE: usize = 1 + 1;
}

impl Default for Bumps {
    fn default() -> (r: Bumps)
        ensures
            r == (Bumps { vault: 0, lp_token_mint: 0 }),
    {
        Bumps { vault: 0, lp_token_mint: 0 }
    }
}

/// Position information
#[derive(Clone, Copy, Debug, PartialEq, Eq, Structural)]
pub struct PositionInfo {
    /// Position pubkey
    pub pubkey: Pubkey,
    /// Position lower tick
    pub lower_tick: i32,
    /// Position upper tick
    pub upper_tick: i32,
}

impl PositionInfo {
    /// The bytes one takes when stored.
    pub const SIZE: usize = 32 + 4 + 4;
}

impl Default for PositionInfo {
    fn default() -> (r: PositionInfo)
        ensures
            r == (PositionInfo { pubkey: Pubkey::unset(), lower_tick: 0, upper_tick: 0 }),
    {
        PositionInfo { pubkey: Pubkey::default(), lower_tick: 0, upper_tick: 0 }
    }
}

/// What is done with the rewards of one reward token.
#[derive(Clone, Copy, Debug, PartialEq, Eq, Structural)]
pub enum MarketRewards {
    NotSet,
    Transfer,
    OrcaV2,
    Whirlpool,
}

impl MarketRewards {
    /// The bytes one takes when stored.
    pub const SIZE: usize = 1 + 1;
}

impl Default for MarketRewards {
    fn default() -> (r: MarketRewards)
        ensures
            r == MarketRewards::NotSet,
    {
        MarketRewards::NotSet
    }
}

/// The market entry of one reward token: what is done with the rewards in
/// that token.
#[derive(Clone, Copy, Debug, PartialEq, Eq, Structural)]
pub struct MarketRewardsInfo {
    /// Id of market associated
    pub id: MarketRewards,
    /// Pubkey of the rewards token mint
    pub rewards_mint: Pubkey,
    /// Destination account
    pub destination_token_account: Pubkey,
    /// Minimum number of lamports to receive during swap
    pub min_amount_out: u64,
}

impl Default for MarketRewardsInfo {
    fn default() -> (r: MarketRewardsInfo)
        ensures
            r == MarketRewardsInfo::unset(),
    {
        MarketRewardsInfo {
            id: MarketRewards::NotSet,
            rewards_mint: Pubkey::default(),
            destination_token_account: Pubkey::default(),
            min_amount_out: 0,
        }
    }
}

impl MarketRewardsInfo {
    /// The bytes one takes when stored.
    pub const SIZE: usize = 2 + 32 + 32 + 8;

    /// The entry of a reward token that the pool does not hand out.
    pub open spec fn unset() -> MarketRewardsInfo {
        MarketRewardsInfo {
            id: MarketRewards::NotSet,
            rewards_mint: Pubkey::unset(),
            destination_token_account: Pubkey::unset(),
            min_amount_out: 0,
        }
    }

    /// What `validate` returns. An entry without a rewards mint, or one not
    /// set, is always accepted. A transfer must go to an account of the
    /// rewards mint. A swap must sell a token that is neither of the pool's
    /// two, into one of the pool's two, for more than nothing.
    pub open spec fn validate_spec(
        &self,
        destination_mint: Pubkey,
        token_a_mint: Pubkey,
        token_b_mint: Pubkey,
    ) -> Result<(), ErrorCode> {
        if self.rewards_mint == Pubkey::unset() {
            Ok(())
        } else {
            match self.id {
                MarketRewards::NotSet => Ok(()),
                MarketRewards::Transfer => if self.rewards_mint == destination_mint {
                    Ok(())
                } else {
                    Err(ErrorCode::MarketInvalidDestination)
                },
                _ => if self.rewards_mint == token_a_mint || self.rewards_mint == token_b_mint {
                    Err(ErrorCode::MarketInvalidMint)
                } else if destination_mint != token_a_mint && destination_mint != token_b_mint {
                    Err(ErrorCode::MarketInvalidDestination)
                } else if self.min_amount_out == 0 {
                    Err(ErrorCode::MarketInvalidZeroAmount)
                } else {
                    Ok(())
                },
            }
        }
    }

    /// Checks the entry against the mint of its destination account and the
    /// pool's two mints.
    pub fn validate(
        &self,
        destination_mint: Pubkey,
        token_a_mint: Pubkey,
        token_b_mint: Pubkey,
    ) -> (r: Result<(), ErrorCode>)
        ensures
            r == self.validate_spec(destination_mint, token_a_mint, token_b_mint),
    {
        if self.rewards_mint == Pubkey::default() {
            return Ok(());
        }
        match self.id {
            MarketRewards::NotSet => {},
            MarketRewards::Transfer => {
                if !(self.rewards_mint == destination_mint) {
                    return Err(ErrorCode::MarketInvalidDestination);
                }
            },
            _ => {
                if !(self.rewards_mint != token_a_mint && self.rewards_mint != token_b_mint) {
                    return Err(ErrorCode::MarketInvalidMint);
                }
                if !(destination_mint == token_a_mint || destination_mint == token_b_mint) {
                    return Err(ErrorCode::MarketInvalidDestination);
                }
                if !(self.min_amount_out > 0) {
                    return Err(ErrorCode::MarketInvalidZeroAmount);
                }
            },
        };
        Ok(())
    }
}

/// What a new vault is made from.
pub struct VaultAccountParams {
    /// Vault id
    pub id: u8,
    /// PDA bump seeds
    pub bumps: Bumps,
    /// Whirlpool pubkey
    pub whirlpool_id: Pubkey,
    /// Pool input token_a mint address
    pub input_token_a_mint_pubkey: Pubkey,
    /// Pool input token_b mint address
    pub input_token_b_mint_pubkey: Pubkey,
    /// Fee percentage using FEE_SCALE
    pub fee: u64,
    /// Minimum number of elapsed slots required for reinvesting
    pub min_slots_for_reinvest: u64,
}

/// Strategy vault account
#[derive(Debug)]
pub struct VaultAccount {
    /// Vault version
    pub version: u8,
    /// Vault number for a given whirlpool
    pub id: u8,
    /// The vault refuses deposits, withdrawals and harvests while paused
    pub is_paused: bool,
    /// PDA bump seeds
    pub bumps: Bumps,
    /// Whirlpool pubkey
    pub whirlpool_id: Pubkey,
    /// Pool input token_a mint address
    pub input_token_a_mint_pubkey: Pubkey,
    /// Pool input token_b mint address
    pub input_token_b_mint_pubkey: Pubkey,
    /// Last reinvestment liquidity increase
    pub last_liquidity_increase: u128,
    /// Slot of the last reinvestment
    pub last_reinvestment_slot: u64,
    /// Minimum number of elapsed slots required for reinvesting
    pub min_slots_for_reinvest: u64,
    /// Fee percentage using FEE_SCALE. Fee applied on earnings
    pub fee: u64,
    /// Total rewards earned by the vault
    pub earned_rewards_token_a: u64,
    pub earned_rewards_token_b: u64,
    /// The market where to sell the rewards
    pub market_rewards: [MarketRewardsInfo; 3],
    /// Information about the opened positions (max = MAX_POSITIONS)
    pub positions: Vec<PositionInfo>,
}

/// Some entry of `positions` spans the ticks `lower` to `upper`.
pub open spec fn holds_range(positions: Seq<PositionInfo>, lower: i32, upper: i32) -> bool {
    exists|i: int|
        0 <= i < positions.len() && (#[trigger] positions[i]).lower_tick == lower
            && positions[i].upper_tick == upper
}

/// Some entry of `positions` has the address `key`.
pub open spec fn holds_key(positions: Seq<PositionInfo>, key: Pubkey) -> bool {
    exists|i: int| 0 <= i < positions.len() && (#[trigger] positions[i]).pubkey == key
}

/// `i` is the first entry of `positions` with the address `key`.
pub open spec fn first_with_key(positions: Seq<PositionInfo>, key: Pubkey, i: int) -> bool {
    &&& 0 <= i < positions.len()
    &&& positions[i].pubkey == key
    &&& forall|j: int| 0 <= j < i ==> (#[trigger] positions[j]).pubkey != key
}

/// No two entries of `positions` span the same ticks.
pub open spec fn ranges_distinct(positions: Seq<PositionInfo>) -> bool {
    forall|i: int, j: int|
        0 <= i < j < positions.len() ==> !((#[trigger] positions[i]).lower_tick == (
        #[trigger] positions[j]).lower_tick && positions[i].upper_tick == positions[j].upper_tick)
}

impl VaultAccount {
    /// The bytes a vault takes when stored.
    pub const SIZE: usize = 1 + 1 + 1 + 2 + 32 + 32 + 32 + 16 + 8 + 8 + 8 + 8 + 8 + 3 * 74 + 4 + 3
        * 40;

    /// What every operation keeps: at most `MAX_POSITIONS` positions, no two
    /// over the same range, and a fee of at most `FEE_SCALE`. The active
    /// position, where there is one, is the first.
    pub open spec fn wf(&self) -> bool {
        &&& self.positions@.len() <= MAX_POSITIONS
        &&& ranges_distinct(self.positions@)
        &&& self.fee <= FEE_SCALE
    }

    /// Create a new vault
    pub fn new(params: VaultAccountParams) -> (r: VaultAccount)
        ensures
            r.version == VAULT_VERSION,
            r.id == params.id,
            r.bumps == params.bumps,
            r.whirlpool_id == params.whirlpool_id,
            r.input_token_a_mint_pubkey == params.input_token_a_mint_pubkey,
            r.input_token_b_mint_pubkey == params.input_token_b_mint_pubkey,
            r.fee == params.fee,
            r.min_slots_for_reinvest == params.min_slots_for_reinvest,
            !r.is_paused,
            r.last_liquidity_increase == 0,
            r.last_reinvestment_slot == 0,
            r.earned_rewards_token_a == 0,
            r.earned_rewards_token_b == 0,
            forall|i: int| 0 <= i < 3 ==> r.market_rewards[i] == MarketRewardsInfo::unset(),
            r.positions@ == Seq::<PositionInfo>::empty(),
            params.fee <= FEE_SCALE ==> r.wf(),
    {
        VaultAccount {
            version: VAULT_VERSION,
            id: params.id,
            is_paused: false,
            bumps: params.bumps,
            whirlpool_id: params.whirlpool_id,
            input_token_a_mint_pubkey: params.input_token_a_mint_pubkey,
            input_token_b_mint_pubkey: params.input_token_b_mint_pubkey,
            last_liquidity_increase: 0,
            last_reinvestment_slot: 0,
            min_slots_for_reinvest: params.min_slots_for_reinvest,
            fee: params.fee,
            earned_rewards_token_a: 0,
            earned_rewards_token_b: 0,
            market_rewards: [
                MarketRewardsInfo::default(),
                MarketRewardsInfo::default(),
                MarketRewardsInfo::default(),
            ],
            positions: Vec::new(),
        }
    }

    /// Whether the vault has the layout version that this library reads and
    /// writes.
    pub fn check_version(&self) -> (r: Result<(), ErrorCode>)
        ensures
            self.version == VAULT_VERSION ==> r == Ok::<(), ErrorCode>(()),
            self.version != VAULT_VERSION ==> r == Err::<(), ErrorCode>(
                ErrorCode::InvalidVaultVersion,
            ),
    {
        if !(self.version == VAULT_VERSION) {
            return Err(ErrorCode::InvalidVaultVersion);
        }
        Ok(())
    }

    /// Check the existence of a position
    pub fn position_exists(&self, tick_lower_index: i32, tick_upper_index: i32) -> (r: bool)
        ensures
            r == holds_range(self.positions@, tick_lower_index, tick_upper_index),
    {
        let mut i: usize = 0;
        while i < self.positions.len()
            invariant
                i <= self.positions@.len(),
                forall|j: int|
                    0 <= j < i ==> !((#[trigger] self.positions@[j]).lower_tick
                        == tick_lower_index && self.positions@[j].upper_tick == tick_upper_index),
            decreases self.positions@.len() - i,
        {
            if self.positions[i].lower_tick == tick_lower_index && self.positions[i].upper_tick
                == tick_upper_index {
                return true;
            }
            i = i + 1;
        }
        false
    }

    /// The index of the first position with the address `key`.
    pub fn position_index(&self, key: Pubkey) -> (r: Option<usize>)
        ensures
            match r {
                Some(i) => first_with_key(self.positions@, key, i as int),
                None => !holds_key(self.positions@, key),
            },
    {
        let mut i: usize = 0;
        while i < self.positions.len()
            invariant
                i <= self.positions@.len(),
                forall|j: int| 0 <= j < i ==> (#[trigger] self.positions@[j]).pubkey != key,
            decreases self.positions@.len() - i,
        {
            if self.positions[i].pubkey == key {
                return Some(i);
            }
            i = i + 1;
        }
        None
    }

    /// Check if the given pubkey is a valid position
    pub fn position_address_exists(&self, key: Pubkey) -> (r: bool)
        ensures
            r == holds_key(self.positions@, key),
    {
        self.position_index(key).is_some()
    }

    /// Return the current active position pubkey
    pub fn active_position_key(&self) -> (r: Pubkey)
        requires
            self.positions@.len() > 0,
        ensures
            r == self.positions@[0].pubkey,
    {
        self.positions[0].pubkey
    }

    /// The active position, which is the first one.
    pub fn active_position(&self) -> (r: Result<PositionInfo, ErrorCode>)
        ensures
            self.positions@.len() == 0 ==> r == Err::<PositionInfo, ErrorCode>(
                ErrorCode::PositionNonExistence,
            ),
            self.positions@.len() > 0 ==> r == Ok::<PositionInfo, ErrorCode>(self.positions@[0]),
    {
        if self.positions.len() == 0 {
            Err(ErrorCode::PositionNonExistence)
        } else {
            Ok(self.positions[0])
        }
    }

    /// Update the current active position
    pub fn update_active_position(&mut self, key: Pubkey)
        requires
            holds_key(old(self).positions@, key),
        ensures
            exists|i: int|
                first_with_key(old(self).positions@, key, i) && final(self).positions@ == old(
                    self,
                ).positions@.update(0, old(self).positions@[i]).update(
                    i,
                    old(self).positions@[0],
                ),
            final(self).positions@[0].pubkey == key,
            final(self).positions@.len() == old(self).positions@.len(),
            final(self).same_but_positions(*old(self)),
            old(self).wf() ==> final(self).wf(),
    {
        let index = self.position_index(key).unwrap();
        let first = self.positions[0];
        let found = self.positions[index];
        self.positions.set(0, found);
        self.positions.set(index, first);
        proof {
            let before = old(self).positions@;
            let after = self.positions@;
            let i = index as int;
            assert(first_with_key(before, key, i));
            assert(after == before.update(0, before[i]).update(i, before[0]));
            if old(self).wf() {
                assert forall|a: int, b: int| 0 <= a < b < after.len() implies !((
                #[trigger] after[a]).lower_tick == (#[trigger] after[b]).lower_tick
                    && after[a].upper_tick == after[b].upper_tick) by {
                    let pa = if a == 0 {
                        i
                    } else if a == i {
                        0
                    } else {
                        a
                    };
                    let pb = if b == 0 {
                        i
                    } else if b == i {
                        0
                    } else {
                        b
                    };
                    assert(after[a] == before[pa]);
                    assert(after[b] == before[pb]);
                    if pa < pb {
                        assert(!(before[pa].lower_tick == before[pb].lower_tick
                            && before[pa].upper_tick == before[pb].upper_tick));
                    } else {
                        assert(!(before[pb].lower_tick == before[pa].lower_tick
                            && before[pb].upper_tick == before[pa].upper_tick));
                    }
                }
            }
        }
    }

    /// Whether the position `key` can be made the active one: it must be
    /// registered, and not be the active one already.
    pub open spec fn promote_check(&self, key: Pubkey) -> Result<(), ErrorCode> {
        if !holds_key(self.positions@, key) {
            Err(ErrorCode::PositionNotActive)
        } else if self.positions@[0].pubkey == key {
            Err(ErrorCode::RebalanceIntoActivePosition)
        } else {
            Ok(())
        }
    }

    /// Makes the registered position `key` the active one: it changes
    /// places with the first position. A position that is not registered, or
    /// is active already, is an error and leaves the vault as it is.
    pub fn promote(&mut self, key: Pubkey) -> (r: Result<(), ErrorCode>)
        ensures
            r == old(self).promote_check(key),
            r is Err ==> *final(self) == *old(self),
            r is Ok ==> exists|i: int|
                first_with_key(old(self).positions@, key, i) && i > 0 && final(self).positions@
                    == old(self).positions@.update(0, old(self).positions@[i]).update(
                    i,
                    old(self).positions@[0],
                ),
            r is Ok ==> final(self).positions@[0].pubkey == key && final(self).positions@.len()
                == old(self).positions@.len(),
            r is Ok ==> final(self).same_but_positions(*old(self)),
            r is Ok && old(self).wf() ==> final(self).wf(),
    {
        if !self.position_address_exists(key) {
            return Err(ErrorCode::PositionNotActive);
        }
        if self.positions[0].pubkey == key {
            return Err(ErrorCode::RebalanceIntoActivePosition);
        }
        self.update_active_position(key);
        Ok(())
    }

    /// Registers a position over the ticks `lower_tick` to `upper_tick`.
    pub open spec fn open_check(&self, lower_tick: i32, upper_tick: i32) -> Result<
        (),
        ErrorCode,
    > {
        if holds_range(self.positions@, lower_tick, upper_tick) {
            Err(ErrorCode::PositionAlreadyOpened)
        } else if self.positions@.len() >= MAX_POSITIONS {
            Err(ErrorCode::PositionLimitReached)
        } else {
            Ok(())
        }
    }

    /// The first of the three market entries that is for the rewards token
    /// `mint`, if there is one.
    pub open spec fn market_of(&self, mint: Pubkey) -> Option<MarketRewardsInfo> {
        if self.market_rewards[0].rewards_mint == mint {
            Some(self.market_rewards[0])
        } else if self.market_rewards[1].rewards_mint == mint {
            Some(self.market_rewards[1])
        } else if self.market_rewards[2].rewards_mint == mint {
            Some(self.market_rewards[2])
        } else {
            None
        }
    }

    /// The market entry for the rewards token `mint`.
    pub fn market_for(&self, mint: Pubkey) -> (r: Option<MarketRewardsInfo>)
        ensures
            r == self.market_of(mint),
    {
        let mut i: usize = 0;
        while i < 3
            invariant
                i <= 3,
                forall|j: int| 0 <= j < i ==> self.market_rewards[j].rewards_mint != mint,
            decreases 3 - i,
        {
            if self.market_rewards[i].rewards_mint == mint {
                return Some(self.market_rewards[i]);
            }
            i = i + 1;
        }
        None
    }

    /// Every field but `positions` is the same in `self` and `other`.
    pub open spec fn same_but_positions(&self, other: VaultAccount) -> bool {
        &&& self.version == other.version
        &&& self.id == other.id
        &&& self.is_paused == other.is_paused
        &&& self.bumps == other.bumps
        &&& self.whirlpool_id == other.whirlpool_id
        &&& self.input_token_a_mint_pubkey == other.input_token_a_mint_pubkey
        &&& self.input_token_b_mint_pubkey == other.input_token_b_mint_pubkey
        &&& self.last_liquidity_increase == other.last_liquidity_increase
        &&& self.last_reinvestment_slot == other.last_reinvestment_slot
        &&& self.min_slots_for_reinvest == other.min_slots_for_reinvest
        &&& self.fee == other.fee
        &&& self.earned_rewards_token_a == other.earned_rewards_token_a
        &&& self.earned_rewards_token_b == other.earned_rewards_token_b
        &&& self.market_rewards == other.market_rewards
    }
}

} // verus!
