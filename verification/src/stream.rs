//! Streaming-contract parameters: the caller-supplied policy arguments and
//! the full parameter set composed for the external streaming service.

use vstd::prelude::*;

verus! {

/// Number of bytes in a stream's fixed-width name.
pub const STREAM_NAME_LEN: usize = 64;

/// Policy arguments a release caller supplies for the resulting stream.
#[derive(Clone, Copy)]
pub struct CreateSfIxArgs {
    pub start_time: u64,
    pub cancelable_by_sender: bool,
    pub cancelable_by_recipient: bool,
    pub automatic_withdrawal: bool,
    pub transferable_by_sender: bool,
    pub transferable_by_recipient: bool,
    pub can_topup: bool,
    pub stream_name: [u8; 64],
    pub withdraw_frequency: u64,
    pub pausable: Option<bool>,
    pub can_update_rate: Option<bool>,
}

/// The full parameter set handed to the streaming service's create entry
/// point.
#[derive(Clone, Copy)]
#[verifier::ext_equal]
pub struct StreamParams {
    pub start_time: u64,
    pub net_amount_deposited: u64,
    pub period: u64,
    pub amount_per_period: u64,
    pub cliff: u64,
    pub cliff_amount: u64,
    pub cancelable_by_sender: bool,
    pub cancelable_by_recipient: bool,
    pub automatic_withdrawal: bool,
    pub transferable_by_sender: bool,
    pub transferable_by_recipient: bool,
    pub can_topup: bool,
    pub stream_name: [u8; 64],
    pub withdraw_frequency: u64,
    pub pausable: Option<bool>,
    pub can_update_rate: Option<bool>,
}

/// The immediate-release parameter set: the net amount is streamed as one
/// single period with no cliff delay, the caller's policy flags and name
/// pass through unchanged.
pub open spec fn spec_stream_params(args: CreateSfIxArgs, net_amount: u64) -> StreamParams {
    StreamParams {
        start_time: args.start_time,
        net_amount_deposited: net_amount,
        period: 1u64,
        amount_per_period: net_amount,
        cliff: 0u64,
        cliff_amount: net_amount,
        cancelable_by_sender: args.cancelable_by_sender,
        cancelable_by_recipient: args.cancelable_by_recipient,
        automatic_withdrawal: args.automatic_withdrawal,
        transferable_by_sender: args.transferable_by_sender,
        transferable_by_recipient: args.transferable_by_recipient,
        can_topup: args.can_topup,
        stream_name: args.stream_name,
        withdraw_frequency: args.withdraw_frequency,
        pausable: args.pausable,
        can_update_rate: args.can_update_rate,
    }
}

/// Builds the single-period stream parameters for `net_amount`.
pub fn build_stream_params(args: &CreateSfIxArgs, net_amount: u64) -> (r: StreamParams)
    ensures
        r == spec_stream_params(*args, net_amount),
{
    let r = StreamParams {
        start_time: args.start_time,
        net_amount_deposited: net_amount,
        period: 1u64,
        amount_per_period: net_amount,
        cliff: 0u64,
        cliff_amount: net_amount,
        cancelable_by_sender: args.cancelable_by_sender,
        cancelable_by_recipient: args.cancelable_by_recipient,
        automatic_withdrawal: args.automatic_withdrawal,
        transferable_by_sender: args.transferable_by_sender,
        transferable_by_recipient: args.transferable_by_recipient,
        can_topup: args.can_topup,
        stream_name: args.stream_name,
        withdraw_frequency: args.withdraw_frequency,
        pausable: args.pausable,
        can_update_rate: args.can_update_rate,
    };
    proof {
        assert(r =~= spec_stream_params(*args, net_amount));
    }
    r
}

} // verus!
