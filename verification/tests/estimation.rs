use solana_client_ext::account::budget_program_account;
use solana_client_ext::account::AccountId;
use solana_client_ext::budget::encode_set_limit;
use solana_client_ext::budget::pad_limit_fixed;
use solana_client_ext::budget::pad_limit_percent;
use solana_client_ext::error::EstimateError;
use solana_client_ext::local::check_accounts_resolved;
use solana_client_ext::local::optimize_from_replay;
use solana_client_ext::local::units_from_replay;
use solana_client_ext::message::sanitize;
use solana_client_ext::message::CompiledIx;
use solana_client_ext::message::Message;
use solana_client_ext::optimizer::optimize_with_units_fixed;
use solana_client_ext::optimizer::optimize_with_units_percent;
use solana_client_ext::remote::optimize_from_simulation;
use solana_client_ext::remote::units_from_simulation;

fn account(tag: u128) -> AccountId {
    AccountId { hi: tag, lo: tag.wrapping_mul(31) }
}

/// A message with one transfer instruction: fee payer, destination, and the
/// transfer program in the account table, one signer required.
fn transfer_message() -> Message {
    let transfer = CompiledIx {
        program_id_index: 2,
        accounts: vec![0, 1],
        data: vec![2, 0, 0, 0, 16, 39, 0, 0, 0, 0, 0, 0],
    };
    Message {
        num_required_signatures: 1,
        account_keys: vec![account(1), account(2), account(3)],
        instructions: vec![transfer],
    }
}

#[test]
fn sanitize_accepts_well_formed_message() {
    let m = transfer_message();
    assert_eq!(sanitize(&m), Ok(()));
}

#[test]
fn sanitize_rejects_missing_fee_payer() {
    let mut m = transfer_message();
    m.num_required_signatures = 0;
    assert_eq!(sanitize(&m), Err(EstimateError::Sanitization));
}

#[test]
fn sanitize_rejects_more_signers_than_keys() {
    let mut m = transfer_message();
    m.num_required_signatures = 4;
    assert_eq!(sanitize(&m), Err(EstimateError::Sanitization));
}

#[test]
fn sanitize_rejects_duplicate_account_keys() {
    let mut m = transfer_message();
    m.account_keys[2] = account(1);
    assert_eq!(sanitize(&m), Err(EstimateError::Sanitization));
}

#[test]
fn sanitize_rejects_program_index_out_of_bounds() {
    let mut m = transfer_message();
    m.instructions[0].program_id_index = 3;
    assert_eq!(sanitize(&m), Err(EstimateError::Sanitization));
}

#[test]
fn sanitize_rejects_account_index_out_of_bounds() {
    let mut m = transfer_message();
    m.instructions[0].accounts = vec![0, 5];
    assert_eq!(sanitize(&m), Err(EstimateError::Sanitization));
}

#[test]
fn resolved_accounts_pass_the_fetch_check() {
    assert_eq!(check_accounts_resolved(&vec![true, true, true]), Ok(()));
    assert_eq!(check_accounts_resolved(&vec![]), Ok(()));
}

#[test]
fn unresolved_account_fails_fast() {
    assert_eq!(
        check_accounts_resolved(&vec![true, false, true]),
        Err(EstimateError::AccountFetch)
    );
}

#[test]
fn replay_success_reports_units_as_measured() {
    assert_eq!(units_from_replay(true, 1200), Ok(1200));
    assert_eq!(units_from_replay(true, 0), Ok(0));
}

#[test]
fn replay_fault_is_an_execution_error() {
    assert_eq!(units_from_replay(false, 1200), Err(EstimateError::Execution));
    assert_eq!(units_from_replay(false, 0), Err(EstimateError::Execution));
}

#[test]
fn missing_units_field_is_an_incomplete_response() {
    assert_eq!(units_from_simulation(None), Err(EstimateError::ComputeUnits));
}

#[test]
fn zero_simulated_units_is_a_failed_simulation() {
    assert_eq!(
        units_from_simulation(Some(0)),
        Err(EstimateError::SimulationFailed)
    );
}

#[test]
fn positive_simulated_units_pass_through() {
    assert_eq!(units_from_simulation(Some(1)), Ok(1));
    assert_eq!(units_from_simulation(Some(u64::MAX)), Ok(u64::MAX));
}

#[test]
fn fixed_margin_pads_by_150_units() {
    assert_eq!(pad_limit_fixed(1200), Ok(1350));
    assert_eq!(pad_limit_fixed(0), Ok(150));
    assert_eq!(pad_limit_fixed(u32::MAX - 150), Ok(u32::MAX));
}

#[test]
fn fixed_margin_overflow_is_rejected() {
    assert_eq!(pad_limit_fixed(u32::MAX - 149), Err(EstimateError::Overflow));
    assert_eq!(pad_limit_fixed(u32::MAX), Err(EstimateError::Overflow));
}

#[test]
fn percent_margin_pads_by_a_fifth_of_each_hundred() {
    assert_eq!(pad_limit_percent(1200), Ok(1440));
    assert_eq!(pad_limit_percent(99), Ok(99));
    assert_eq!(pad_limit_percent(100), Ok(120));
    assert_eq!(pad_limit_percent(0), Ok(0));
}

#[test]
fn percent_margin_overflow_is_rejected_not_wrapped() {
    assert_eq!(
        pad_limit_percent(u32::MAX - 10),
        Err(EstimateError::Overflow)
    );
    assert_eq!(pad_limit_percent(u32::MAX), Err(EstimateError::Overflow));
}

#[test]
fn limit_payload_is_tag_then_little_endian() {
    assert_eq!(encode_set_limit(1350), vec![2, 0x46, 0x05, 0x00, 0x00]);
    assert_eq!(encode_set_limit(0x11223344), vec![2, 0x44, 0x33, 0x22, 0x11]);
    assert_eq!(encode_set_limit(0), vec![2, 0, 0, 0, 0]);
    assert_eq!(encode_set_limit(u32::MAX), vec![2, 0xff, 0xff, 0xff, 0xff]);
}

#[test]
fn transfer_estimated_locally_gets_a_1350_unit_limit() {
    let mut m = transfer_message();
    let keys_before = m.account_keys.len();
    let limit = optimize_with_units_fixed(&mut m, 1200).unwrap();
    assert_eq!(limit, 1350);
    assert_eq!(m.account_keys.len(), keys_before + 1);
    assert_eq!(m.account_keys[3], budget_program_account());
    assert_eq!(m.instructions.len(), 2);
    let first = &m.instructions[0];
    assert_eq!(first.program_id_index, 3);
    assert_eq!(first.accounts, Vec::<u8>::new());
    assert_eq!(first.data, vec![2, 0x46, 0x05, 0x00, 0x00]);
}

#[test]
fn optimized_message_keeps_prior_instructions_in_order() {
    let mut m = transfer_message();
    let original_ix = m.instructions[0].clone();
    optimize_with_units_percent(&mut m, 1200).unwrap();
    assert_eq!(m.instructions.len(), 2);
    assert_eq!(m.instructions[1], original_ix);
    assert_eq!(sanitize(&m), Ok(()));
}

#[test]
fn percent_path_returns_the_padded_limit() {
    let mut m = transfer_message();
    let limit = optimize_with_units_percent(&mut m, 1200).unwrap();
    assert_eq!(limit, 1440);
    assert_eq!(m.instructions[0].data, vec![2, 0xa0, 0x05, 0x00, 0x00]);
}

#[test]
fn a_second_pass_adds_a_second_limit_instruction() {
    let mut m = transfer_message();
    let first_limit = optimize_with_units_fixed(&mut m, 1200).unwrap();
    let second_limit = optimize_with_units_fixed(&mut m, 2000).unwrap();
    assert_eq!(first_limit, 1350);
    assert_eq!(second_limit, 2150);
    assert_eq!(m.instructions.len(), 3);
    assert_eq!(m.instructions[0].data, encode_set_limit(2150));
    assert_eq!(m.instructions[1].data, encode_set_limit(1350));
    assert_eq!(m.account_keys.len(), 5);
    assert_eq!(m.account_keys[3], budget_program_account());
    assert_eq!(m.account_keys[4], budget_program_account());
    let stale = &m.instructions[1];
    assert_eq!(stale.program_id_index, 3);
}

#[test]
fn failed_simulation_leaves_the_message_unmutated() {
    let mut m = transfer_message();
    let before = m.clone();
    let r = optimize_from_simulation(&mut m, Some(0));
    assert_eq!(r, Err(EstimateError::SimulationFailed));
    assert_eq!(m, before);
}

#[test]
fn incomplete_simulation_response_leaves_the_message_unmutated() {
    let mut m = transfer_message();
    let before = m.clone();
    let r = optimize_from_simulation(&mut m, None);
    assert_eq!(r, Err(EstimateError::ComputeUnits));
    assert_eq!(m, before);
}

#[test]
fn simulated_units_drive_the_fixed_margin_splice() {
    let mut m = transfer_message();
    let limit = optimize_from_simulation(&mut m, Some(900)).unwrap();
    assert_eq!(limit, 1050);
    assert_eq!(m.instructions[0].data, encode_set_limit(1050));
    assert_eq!(m.account_keys.len(), 4);
}

#[test]
fn replay_fault_leaves_the_message_unmutated() {
    let mut m = transfer_message();
    let before = m.clone();
    let r = optimize_from_replay(&mut m, false, 1200);
    assert_eq!(r, Err(EstimateError::Execution));
    assert_eq!(m, before);
}

#[test]
fn replay_units_drive_the_percent_margin_splice() {
    let mut m = transfer_message();
    let limit = optimize_from_replay(&mut m, true, 1200).unwrap();
    assert_eq!(limit, 1440);
    assert_eq!(m.instructions[0].data, encode_set_limit(1440));
}

#[test]
fn overflowing_percent_margin_fails_and_leaves_the_message_unmutated() {
    let mut m = transfer_message();
    let before = m.clone();
    let r = optimize_with_units_percent(&mut m, (u32::MAX - 10) as u64);
    assert_eq!(r, Err(EstimateError::Overflow));
    assert_eq!(m, before);
}

#[test]
fn estimate_beyond_32_bits_fails_and_leaves_the_message_unmutated() {
    let mut m = transfer_message();
    let before = m.clone();
    let r = optimize_with_units_fixed(&mut m, u64::MAX);
    assert_eq!(r, Err(EstimateError::Overflow));
    assert_eq!(m, before);
    let p = optimize_with_units_percent(&mut m, (u32::MAX as u64) + 1);
    assert_eq!(p, Err(EstimateError::Overflow));
    assert_eq!(m, before);
}

#[test]
fn budget_program_identifier_has_the_well_known_bytes() {
    let id = budget_program_account();
    let mut bytes = [0u8; 32];
    bytes[..16].copy_from_slice(&id.hi.to_be_bytes());
    bytes[16..].copy_from_slice(&id.lo.to_be_bytes());
    assert_eq!(
        bytes,
        [
            3, 6, 70, 111, 229, 33, 23, 50, 255, 236, 173, 186, 114, 195, 155, 231, 188, 140,
            229, 187, 197, 247, 18, 107, 44, 67, 155, 58, 64, 0, 0, 0
        ]
    );
}

#[test]
fn repeated_estimation_with_fixed_state_is_deterministic() {
    let outcome_units = 1200;
    let first = units_from_replay(true, outcome_units);
    let second = units_from_replay(true, outcome_units);
    assert_eq!(first, second);
    let mut m1 = transfer_message();
    let mut m2 = transfer_message();
    let l1 = optimize_from_replay(&mut m1, true, outcome_units);
    let l2 = optimize_from_replay(&mut m2, true, outcome_units);
    assert_eq!(l1, l2);
    assert_eq!(m1, m2);
}
