//! The portfolio record and the oracle refresh that writes its prices.

use vstd::prelude::*;

use crate::errors::ErrorCode;

verus! {

/// Whole allocation, in thousandths.
pub const PER_MILLE: u16 = 1000;

/// A 32-byte account or mint identity.
#[derive(Clone, Copy, Debug, PartialEq, Eq)]
pub struct Pubkey {
    pub bytes: [u8; 32],
}

impl Pubkey {
    pub fn new(bytes: [u8; 32]) -> (r: Pubkey)
        ensures
            r.bytes@ == bytes@,
    {
        Pubkey { bytes }
    }

    /// Whether two identities are the same, byte for byte.
    pub fn same_as(&self, other: &Pubkey) -> (r: bool)
        ensures
            r == (self.bytes@ == other.bytes@),
    {
        let mut i: usize = 0;
        while i < 32
            invariant
                i <= 32,
                self.bytes@.len() == 32,
                other.bytes@.len() == 32,
                forall|j: int| 0 <= j < i ==> self.bytes@[j] == other.bytes@[j],
            decreases 32 - i,
        {
            if self.bytes[i] != other.bytes[i] {
                return false;
            }
            i = i + 1;
        }
        proof {
            assert(self.bytes@ =~= other.bytes@);
        }
        true
    }
}

/// The record of one custodied portfolio: the two risk assets and the quote
/// currency, their vaults, the cached oracle prices and the target shares.
#[derive(Clone, Copy, Debug, PartialEq, Eq)]
pub struct PortfolioInfo {
    pub owner: Pubkey,
    pub token_a_mint: Pubkey,
    pub token_a_decimals: u8,
    pub token_b_mint: Pubkey,
    pub token_b_decimals: u8,
    pub pc_mint: Pubkey,
    pub pc_decimals: u8,
    pub token_a_vault: Pubkey,
    pub token_b_vault: Pubkey,
    pub pc_vault: Pubkey,
    pub token_a_price_feed: Pubkey,
    pub token_b_price_feed: Pubkey,
    pub token_a_price: i128,
    pub token_b_price: i128,
    /// Target share of asset A, in thousandths.
    pub token_a_percentage: u16,
    /// Target share of asset B, in thousandths.
    pub token_b_percentage: u16,
    pub vault_signer_bump: u8,
    /// When the cached prices were last written, in seconds since the epoch.
    pub last_update_unix: i64,
}

impl PortfolioInfo {
    /// The target shares make up the whole portfolio.
    pub open spec fn wf(&self) -> bool {
        self.token_a_percentage + self.token_b_percentage == PER_MILLE
    }

    /// Fills in a new record; `now` is the creation time, which also stamps
    /// the initial prices.
    pub fn init(
        &mut self,
        owner: Pubkey,
        token_a_mint: Pubkey,
        token_a_decimals: u8,
        token_b_mint: Pubkey,
        token_b_decimals: u8,
        token_a_vault: Pubkey,
        token_b_vault: Pubkey,
        token_a_price_feed: Pubkey,
        token_b_price_feed: Pubkey,
        token_a_price: i128,
        token_b_price: i128,
        pc_vault: Pubkey,
        pc_mint: Pubkey,
        pc_decimals: u8,
        token_a_percentage: u16,
        token_b_percentage: u16,
        vault_signer_bump: u8,
        now: i64,
    ) -> (r: Result<(), ErrorCode>)
        requires
            token_a_percentage + token_b_percentage == PER_MILLE,
        ensures
            r is Ok,
            final(self).wf(),
            *final(self) == (PortfolioInfo {
                owner,
                token_a_mint,
                token_a_decimals,
                token_b_mint,
                token_b_decimals,
                pc_mint,
                pc_decimals,
                token_a_vault,
                token_b_vault,
                pc_vault,
                token_a_price_feed,
                token_b_price_feed,
                token_a_price,
                token_b_price,
                token_a_percentage,
                token_b_percentage,
                vault_signer_bump,
                last_update_unix: now,
            }),
    {
        self.owner = owner;
        self.token_a_mint = token_a_mint;
        self.token_a_decimals = token_a_decimals;
        self.token_b_mint = token_b_mint;
        self.token_b_decimals = token_b_decimals;
        self.token_a_vault = token_a_vault;
        self.token_b_vault = token_b_vault;
        self.token_a_price_feed = token_a_price_feed;
        self.token_b_price_feed = token_b_price_feed;
        self.token_a_price = token_a_price;
        self.token_b_price = token_b_price;
        self.pc_vault = pc_vault;
        self.pc_mint = pc_mint;
        self.pc_decimals = pc_decimals;
        self.token_a_percentage = token_a_percentage;
        self.token_b_percentage = token_b_percentage;
        self.vault_signer_bump = vault_signer_bump;
        self.last_update_unix = now;
        Ok(())
    }
}

/// Writes fresh oracle quotes into the record and stamps them with `now`.
///
/// A quote is `None` when the feed does not vouch for it; then the refresh
/// fails with `InvalidPrice` and the record is left as it was.
pub fn refresh_prices(
    portfolio_info: &mut PortfolioInfo,
    token_a_quote: Option<i64>,
    token_b_quote: Option<i64>,
    now: i64,
) -> (r: Result<(), ErrorCode>)
    ensures
        r is Ok <==> (token_a_quote is Some && token_b_quote is Some),
        r is Err ==> r == Err::<(), ErrorCode>(ErrorCode::InvalidPrice) && *final(portfolio_info)
            == *old(portfolio_info),
        r is Ok ==> *final(portfolio_info) == (PortfolioInfo {
            token_a_price: token_a_quote->Some_0 as i128,
            token_b_price: token_b_quote->Some_0 as i128,
            last_update_unix: now,
            ..*old(portfolio_info)
        }),
{
    match (token_a_quote, token_b_quote) {
        (Some(price_a), Some(price_b)) => {
            portfolio_info.token_a_price = price_a as i128;
            portfolio_info.token_b_price = price_b as i128;
            portfolio_info.last_update_unix = now;
            Ok(())
        },
        _ => Err(ErrorCode::InvalidPrice),
    }
}

} // verus!
