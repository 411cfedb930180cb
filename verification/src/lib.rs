//! Verified decision logic of the fund operation commands of a liquid
//! restaking fund: which item each command works on next, how much it moves,
//! how the fund's bookkeeping changes, and how a command entry is laid out in
//! the fund account's fixed-size slot.
pub mod pubkey;
pub mod errors;
pub mod programs;
pub mod math;
pub mod pricing;
pub mod iteration;
pub mod cmd13_restake_vst;
pub mod cmd11_stake_sol;
pub mod operation_command;
pub mod cmd10_stake_sol;
pub mod cmd9_process_withdrawal_batch;
pub mod cmd3_claim_unrestaked_vst;
pub mod cmd9_unrestake_vrt;
pub mod cmd10_harvest_restaking_yield;
pub mod cmd10_harvest_performance_fee;
pub mod cmd7_unstake_lst;
pub mod cmd5_claim_unstaked_sol;
pub mod cmd7_claim_unstaked_sol;
pub mod cmd4_denormalize_nt;
pub mod cmd12_normalize_st;
pub mod cmd14_delegate_vst;
pub mod cmd13_delegate_vst;
pub mod cmd10_undelegate_vst;
pub mod cmd1_initialize;
pub mod cmd2_enqueue_withdrawal_batch;
pub mod cmd5_undelegate_vst;
pub mod cmd6_unrestake_vrt;
pub mod cmd8_unstake_lst;
pub mod cmd10_harvest_reward;
pub mod cmd7_harvest_reward;
