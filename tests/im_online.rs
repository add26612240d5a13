use im_online::ledger::{Heartbeat, Ledger, LivenessEntry, OpaqueNetworkState};
use im_online::offence::UnresponsivenessOffence;
use im_online::pallet::{submission_outcome, Authority, HeartbeatError, ImOnline, OffchainErr};
use im_online::perbill::Perbill;

fn authorities(ids: &[u64]) -> Vec<Authority> {
    ids.iter()
        .map(|&id| Authority { validator_id: id, full_identification: id, key: id })
        .collect()
}

fn authorities_with_key(ids: &[u64], key: u64) -> Vec<Authority> {
    ids.iter()
        .map(|&id| Authority { validator_id: id, full_identification: id, key })
        .collect()
}

fn network_state() -> OpaqueNetworkState {
    OpaqueNetworkState { peer_id: vec![1], external_addresses: vec![] }
}

/// A state in session 2 with validators 1, 2, 3, the next set being 1 to 6.
fn session_two() -> ImOnline {
    ImOnline::new(2, authorities(&[1, 2, 3]))
}

/// Builds a heartbeat signed by `id`, runs both admission phases and
/// reports the transaction layer's message on refusal.
fn heartbeat(
    im: &mut ImOnline,
    block_number: u64,
    session_index: u32,
    authority_index: u32,
    id: u64,
) -> Result<(), &'static str> {
    let hb = Heartbeat {
        block_number,
        network_state: network_state(),
        session_index,
        authority_index,
    };
    let signature_valid = im
        .authorities()
        .get(authority_index as usize)
        .map(|a| a.key == id)
        .unwrap_or(false);
    im.validate_heartbeat(&hb, signature_valid).map_err(|e| e.message())?;
    im.heartbeat(hb).map_err(|e| e.message())
}

#[test]
fn test_unresponsiveness_slash_fraction() {
    // A single case of unresponsiveness is not slashed.
    assert_eq!(UnresponsivenessOffence::slash_fraction(1, 50), Perbill::zero());

    assert_eq!(
        UnresponsivenessOffence::slash_fraction(5, 50),
        Perbill::zero(), // 0%
    );

    assert_eq!(
        UnresponsivenessOffence::slash_fraction(7, 50),
        Perbill::from_parts(4200000), // 0.42%
    );

    // One third offline should be punished around 5%.
    assert_eq!(
        UnresponsivenessOffence::slash_fraction(17, 50),
        Perbill::from_parts(46200000), // 4.62%
    );
}

#[test]
fn should_report_offline_validators() {
    let block = 1;
    let mut im = session_two();
    let validators = authorities(&[1, 2, 3, 4, 5, 6]);

    // we end current session and start the next one
    let offence = im.on_before_session_ending();
    im.on_new_session(3, validators.clone());
    assert_eq!(
        offence,
        Some(UnresponsivenessOffence {
            session_index: 2,
            validator_set_count: 3,
            offenders: vec![(1, 1), (2, 2), (3, 3)],
        })
    );

    // should not report when heartbeat is sent
    for (idx, v) in validators.iter().take(4).enumerate() {
        heartbeat(&mut im, block, 3, idx as u32, v.key).unwrap();
    }
    let offence = im.on_before_session_ending();
    im.on_new_session(4, validators.clone());
    assert_eq!(
        offence,
        Some(UnresponsivenessOffence {
            session_index: 3,
            validator_set_count: 6,
            offenders: vec![(5, 5), (6, 6)],
        })
    );
}

#[test]
fn should_mark_online_validator_when_heartbeat_is_received() {
    let mut im = session_two();
    assert_eq!(im.current_index(), 2);
    assert_eq!(im.authorities(), &authorities(&[1, 2, 3]));

    assert!(!im.is_online(0));
    assert!(!im.is_online(1));
    assert!(!im.is_online(2));

    // when
    heartbeat(&mut im, 1, 2, 0, 1).unwrap();

    // then
    assert!(im.is_online(0));
    assert!(!im.is_online(1));
    assert!(!im.is_online(2));

    // and when
    heartbeat(&mut im, 1, 2, 2, 3).unwrap();

    // then
    assert!(im.is_online(0));
    assert!(!im.is_online(1));
    assert!(im.is_online(2));
}

#[test]
fn late_heartbeat_should_fail() {
    let mut im = session_two();
    assert_eq!(im.current_index(), 2);
    assert_eq!(im.authorities(), &authorities(&[1, 2, 3]));

    // when
    assert_eq!(heartbeat(&mut im, 1, 3, 0, 1), Err("Transaction is outdated"));
    assert_eq!(heartbeat(&mut im, 1, 1, 0, 1), Err("Transaction is outdated"));
    assert!(!im.is_online(0));
}

#[test]
fn should_generate_heartbeats() {
    let block = 1;
    // All validators have `0` as their session key.
    let im = ImOnline::new(2, authorities_with_key(&[1, 2, 3], 0));

    // when
    let mut duties = im.send_heartbeats(block, &vec![0, 1, 2]);

    // then
    let last = duties.pop().unwrap().unwrap();
    assert_eq!(duties.len(), 2);

    let hb = last.into_heartbeat(network_state());
    assert_eq!(
        hb,
        Heartbeat {
            block_number: block,
            network_state: network_state(),
            session_index: 2,
            authority_index: 2,
        }
    );
}

#[test]
fn should_cleanup_received_heartbeats_on_session_end() {
    let mut im = session_two();
    assert_eq!(im.current_index(), 2);

    // send an heartbeat from authority id 0 at session 2
    heartbeat(&mut im, 1, 2, 0, 1).unwrap();

    // the heartbeat is stored
    assert!(!im.received_heartbeats(2, 0).is_none());

    let _ = im.on_before_session_ending();
    im.on_new_session(3, authorities(&[1, 2, 3]));

    // after the session has ended the heartbeats of the previous session are pruned.
    assert!(im.received_heartbeats(2, 0).is_none());
}

#[test]
fn should_mark_online_validator_when_block_is_authored() {
    let mut im = session_two();
    assert_eq!(im.current_index(), 2);

    for i in 0..3 {
        assert!(!im.is_online(i));
    }

    // when
    im.note_author(1);
    im.note_uncle(2, 0);

    // then
    assert!(im.is_online(0));
    assert!(im.is_online(1));
    assert!(!im.is_online(2));
}

#[test]
fn should_not_send_a_report_if_already_online() {
    // all authorities use session key 0
    let mut im = ImOnline::new(2, authorities_with_key(&[1, 2, 3], 0));
    im.note_author(2);
    im.note_uncle(3, 0);

    // when
    let res = im.send_heartbeats(4, &vec![0]);
    assert_eq!(res.len(), 3);
    let request = res[0].unwrap();
    assert_eq!(res[1], Err(OffchainErr::AlreadyOnline(1)));
    assert_eq!(res[2], Err(OffchainErr::AlreadyOnline(2)));
    assert_eq!(submission_outcome(true, true), Ok(()));

    // then
    assert_eq!(
        request.into_heartbeat(network_state()),
        Heartbeat {
            block_number: 4,
            network_state: network_state(),
            session_index: 2,
            authority_index: 0,
        }
    );
}

#[test]
fn single_offender_never_slashed() {
    for n in [1u32, 2, 9, 10, 11, 50, 1000, u32::MAX] {
        assert_eq!(UnresponsivenessOffence::slash_fraction(1, n), Perbill::zero());
    }
}

#[test]
fn slash_fraction_is_monotone() {
    for n in [1u32, 3, 10, 50, 101] {
        let mut prev = 0;
        for k in 0..=(n + 5) {
            let parts = UnresponsivenessOffence::slash_fraction(k, n).deconstruct();
            assert!(prev <= parts);
            prev = parts;
        }
    }
}

#[test]
fn slash_fraction_saturates_at_seven_percent() {
    assert_eq!(UnresponsivenessOffence::slash_fraction(50, 50), Perbill::from_percent(7));
    assert_eq!(
        UnresponsivenessOffence::slash_fraction(u32::MAX, u32::MAX),
        Perbill::from_parts(70_000_000)
    );
    // three excess offenders out of ten: the ratio 9/10 stays below one
    assert_eq!(UnresponsivenessOffence::slash_fraction(5, 10), Perbill::from_parts(63_000_000));
}

#[test]
fn perbill_constructors() {
    assert_eq!(Perbill::from_parts(2_000_000_000), Perbill::one());
    assert_eq!(Perbill::from_percent(250), Perbill::one());
    assert_eq!(Perbill::from_percent(7).deconstruct(), 70_000_000);
    assert!(Perbill::zero().is_zero());
    assert!(!Perbill::from_parts(1).is_zero());
}

#[test]
fn offenders_listed_after_three_heartbeats() {
    let mut im = ImOnline::new(5, authorities(&[11, 12, 13, 14, 15, 16]));
    for idx in 0..3u32 {
        heartbeat(&mut im, 7, 5, idx, 11 + idx as u64).unwrap();
    }
    let offence = im.on_before_session_ending().unwrap();
    assert_eq!(offence.session_index, 5);
    assert_eq!(offence.validator_set_count, 6);
    assert_eq!(offence.offenders, vec![(14, 14), (15, 15), (16, 16)]);
}

#[test]
fn authorship_marks_online_and_leaves_others_offending() {
    let mut im = ImOnline::new(1, authorities(&[10, 20, 30, 40]));
    im.note_author(20);
    im.note_uncle(30, 3);
    // a foreign identity changes nothing
    im.note_author(99);
    // authoring again does not count twice
    im.note_author(20);
    assert!(!im.is_online(0));
    assert!(im.is_online(1));
    assert!(im.is_online(2));
    assert_eq!(im.received_heartbeats(1, 1), Some(&LivenessEntry::Authored));
    let offence = im.on_before_session_ending().unwrap();
    assert_eq!(offence.offenders, vec![(10, 10), (40, 40)]);
}

#[test]
fn no_offence_when_everyone_is_online() {
    let mut im = ImOnline::new(1, authorities(&[1, 2]));
    im.note_author(1);
    heartbeat(&mut im, 3, 1, 1, 2).unwrap();
    assert_eq!(im.on_before_session_ending(), None);
}

#[test]
fn heartbeat_online_until_session_ends() {
    let mut im = ImOnline::new(8, authorities(&[1, 2, 3]));
    heartbeat(&mut im, 2, 8, 1, 2).unwrap();
    assert!(im.is_online(1));
    let offence = im.on_before_session_ending().unwrap();
    assert_eq!(offence.offenders, vec![(1, 1), (3, 3)]);
    // still queryable after the offenders were computed
    assert!(im.received_heartbeats(8, 1).is_some());
    im.on_new_session(9, authorities(&[1, 2, 3]));
    assert!(im.received_heartbeats(8, 1).is_none());
    assert!(!im.is_online(1));
}

#[test]
fn already_online_key_is_skipped_other_is_planned() {
    let mut im = ImOnline::new(4, authorities(&[1, 2, 3]));
    im.note_author(1);
    let duties = im.send_heartbeats(9, &vec![1, 2]);
    assert_eq!(duties.len(), 2);
    assert_eq!(duties[0], Err(OffchainErr::AlreadyOnline(0)));
    let request = duties[1].unwrap();
    assert_eq!(request.authority_index, 1);
    assert_eq!(request.session_index, 4);
    assert_eq!(request.block_number, 9);
    assert_eq!(request.key, 2);
}

#[test]
fn adjacent_sessions_are_stale() {
    let mut im = ImOnline::new(10, authorities(&[1, 2, 3]));
    for session in [9u32, 11, 0, u32::MAX] {
        let hb = Heartbeat { block_number: 1, network_state: network_state(), session_index: session, authority_index: 0 };
        assert_eq!(im.validate_heartbeat(&hb, true), Err(HeartbeatError::Stale));
        assert_eq!(im.validate_heartbeat(&hb, false), Err(HeartbeatError::Stale));
        // an index outside the set is stale first too
        let far = Heartbeat { authority_index: 40, ..hb.clone() };
        assert_eq!(im.validate_heartbeat(&far, true), Err(HeartbeatError::Stale));
        assert_eq!(im.heartbeat(hb), Err(HeartbeatError::Stale));
    }
    assert!(!im.is_online(0));
}

#[test]
fn duplicate_heartbeat_rejected_and_first_kept() {
    let mut im = ImOnline::new(2, authorities(&[1, 2, 3]));
    heartbeat(&mut im, 1, 2, 0, 1).unwrap();
    let second = Heartbeat { block_number: 5, network_state: network_state(), session_index: 2, authority_index: 0 };
    assert_eq!(im.validate_heartbeat(&second, true), Err(HeartbeatError::DuplicateIndex));
    assert_eq!(im.heartbeat(second), Err(HeartbeatError::DuplicateIndex));
    match im.received_heartbeats(2, 0) {
        Some(LivenessEntry::Received(hb)) => assert_eq!(hb.block_number, 1),
        other => panic!("unexpected entry {:?}", other),
    }
    assert_eq!(heartbeat(&mut im, 1, 2, 0, 1), Err("Duplicated heartbeat"));
}

#[test]
fn bad_signature_and_unknown_index() {
    let mut im = ImOnline::new(2, authorities(&[1, 2, 3]));
    assert_eq!(heartbeat(&mut im, 1, 2, 0, 2), Err("Transaction has a bad signature"));
    let outside = Heartbeat { block_number: 1, network_state: network_state(), session_index: 2, authority_index: 3 };
    assert_eq!(im.validate_heartbeat(&outside, true), Err(HeartbeatError::BadSignature));
    assert_eq!(im.heartbeat(outside), Err(HeartbeatError::BadSignature));
    assert!(!im.is_online(0));
}

#[test]
fn submission_failures_reported_per_key() {
    assert_eq!(submission_outcome(false, true), Err(OffchainErr::FailedSigning));
    assert_eq!(submission_outcome(false, false), Err(OffchainErr::FailedSigning));
    assert_eq!(submission_outcome(true, false), Err(OffchainErr::SubmitTransaction));
}

#[test]
fn ledger_records_once_and_prunes_idempotently() {
    let mut ledger = Ledger::new();
    assert!(ledger.record_if_absent(1, 0, LivenessEntry::Authored));
    assert!(!ledger.record_if_absent(1, 0, LivenessEntry::Authored));
    assert!(ledger.record_if_absent(2, 0, LivenessEntry::Authored));
    assert!(ledger.contains(1, 0));
    ledger.prune(1);
    assert!(!ledger.contains(1, 0));
    assert!(ledger.contains(2, 0));
    ledger.prune(1);
    ledger.prune(7);
    assert!(ledger.contains(2, 0));
    assert_eq!(ledger.get(2, 0), Some(&LivenessEntry::Authored));
    assert_eq!(ledger.get(1, 0), None);
}
