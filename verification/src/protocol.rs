use vstd::prelude::*;

use crate::constants::MAX_BPS;
use crate::errors::ErrorCode;

verus! {

/// Protocol-wide durable state: the administrative authority, fee
/// configuration, and global counters.
#[derive(Clone, Copy, Debug, PartialEq, Eq, Structural)]
pub struct ProtocolState {
    /// Account allowed to administer the protocol.
    pub admin_authority: u64,
    /// Account that collects protocol fees; never the unset account.
    pub treasury: u64,
    /// Protocol fee in basis points, at most `MAX_BPS`.
    pub protocol_fee_bps: u16,
    /// While paused, no new services or API keys are created.
    pub paused: bool,
    /// How many services have been created.
    pub service_count: u64,
    /// How many API keys have been created.
    pub api_key_count: u64,
    /// How many usage checkpoints have been reconciled, protocol-wide.
    pub total_usage_checkpoints: u64,
}

impl ProtocolState {
    /// A protocol record is well formed when its fee is within bounds and
    /// its treasury is set.
    pub open spec fn valid(self) -> bool {
        self.protocol_fee_bps <= MAX_BPS && self.treasury != 0
    }

    /// Validate the configuration and build the initial protocol record:
    /// unpaused, all counters at zero.
    pub fn initialize_protocol(
        admin_authority: u64,
        protocol_fee_bps: u16,
        treasury: u64,
    ) -> (r: Result<ProtocolState, ErrorCode>)
        ensures
            r is Ok <==> protocol_fee_bps <= MAX_BPS && treasury != 0,
            r matches Ok(p) ==> p == (ProtocolState {
                admin_authority,
                treasury,
                protocol_fee_bps,
                paused: false,
                service_count: 0,
                api_key_count: 0,
                total_usage_checkpoints: 0,
            }),
            protocol_fee_bps > MAX_BPS ==> r == Err::<ProtocolState, ErrorCode>(
                ErrorCode::InvalidProtocolFee),
            protocol_fee_bps <= MAX_BPS && treasury == 0 ==> r == Err::<ProtocolState, ErrorCode>(
                ErrorCode::InvalidInput),
            r matches Ok(p) ==> p.valid(),
    {
        if protocol_fee_bps > MAX_BPS {
            return Err(ErrorCode::InvalidProtocolFee);
        }
        if treasury == 0 {
            return Err(ErrorCode::InvalidInput);
        }
        Ok(ProtocolState {
            admin_authority,
            treasury,
            protocol_fee_bps,
            paused: false,
            service_count: 0,
            api_key_count: 0,
            total_usage_checkpoints: 0,
        })
    }

    /// Field-wise partial update of fee, treasury and pause flag. The whole
    /// request is validated before anything is written: a rejected update
    /// leaves the record unchanged.
    pub fn update_protocol(
        &mut self,
        new_fee_bps: Option<u16>,
        new_treasury: Option<u64>,
        paused: Option<bool>,
    ) -> (r: Result<(), ErrorCode>)
        ensures
            r is Ok <==> (new_fee_bps matches Some(f) ==> f <= MAX_BPS)
                && (new_treasury matches Some(t) ==> t != 0),
            r is Ok ==> *final(self) == (ProtocolState {
                protocol_fee_bps: match new_fee_bps {
                    Some(f) => f,
                    None => old(self).protocol_fee_bps,
                },
                treasury: match new_treasury {
                    Some(t) => t,
                    None => old(self).treasury,
                },
                paused: match paused {
                    Some(p) => p,
                    None => old(self).paused,
                },
                ..*old(self)
            }),
            r is Err ==> *final(self) == *old(self),
            (new_fee_bps matches Some(f) && f > MAX_BPS) ==> r == Err::<(), ErrorCode>(
                ErrorCode::InvalidProtocolFee),
            ((new_fee_bps matches Some(f) ==> f <= MAX_BPS)
                && (new_treasury matches Some(t) && t == 0)) ==> r == Err::<(), ErrorCode>(
                ErrorCode::InvalidInput),
    {
        let new_fee = match new_fee_bps {
            Some(f) => {
                if f > MAX_BPS {
                    return Err(ErrorCode::InvalidProtocolFee);
                }
                f
            }
            None => self.protocol_fee_bps,
        };
        let new_treasury_value = match new_treasury {
            Some(t) => {
                if t == 0 {
                    return Err(ErrorCode::InvalidInput);
                }
                t
            }
            None => self.treasury,
        };
        self.protocol_fee_bps = new_fee;
        self.treasury = new_treasury_value;
        if let Some(p) = paused {
            self.paused = p;
        }
        Ok(())
    }
}

} // verus!
