use parity_scale_codec::{Decode, Encode};
use pvf_host::security::{ConfigError, SecurityStatus, WorkerHandshake, STATUS_ENCODED_LEN};

fn all_statuses() -> Vec<SecurityStatus> {
    let mut out = Vec::new();
    for bits in 0u8..16 {
        out.push(SecurityStatus::from_probes(
            bits & 1 != 0,
            bits & 2 != 0,
            bits & 4 != 0,
            bits & 8 != 0,
        ));
    }
    out
}

#[test]
fn default_status_has_nothing() {
    let status = SecurityStatus::default();
    assert!(!status.secure_validator_mode);
    assert!(!status.can_enable_landlock);
    assert!(!status.can_enable_seccomp);
    assert!(!status.can_unshare_user_namespace_and_change_root);
    assert_eq!(status, SecurityStatus::from_probes(false, false, false, false));
}

#[test]
fn from_probes_keeps_each_flag_in_its_place() {
    let status = SecurityStatus::from_probes(true, false, true, false);
    assert!(status.secure_validator_mode);
    assert!(!status.can_enable_landlock);
    assert!(status.can_enable_seccomp);
    assert!(!status.can_unshare_user_namespace_and_change_root);
}

#[test]
fn secure_mode_with_a_missing_feature_fails_startup() {
    for status in all_statuses() {
        let all = status.can_enable_landlock
            && status.can_enable_seccomp
            && status.can_unshare_user_namespace_and_change_root;
        assert_eq!(status.has_all_features(), all);
        let expected = if status.secure_validator_mode && !all {
            Err(ConfigError::SecureModeUnavailable)
        } else {
            Ok(())
        };
        assert_eq!(status.check_startup(), expected);
        assert_eq!(status.satisfies(true), all);
        assert!(status.satisfies(false));
    }
    assert_eq!(
        SecurityStatus::from_probes(true, true, true, false).check_startup(),
        Err(ConfigError::SecureModeUnavailable)
    );
    assert_eq!(
        SecurityStatus::from_probes(true, true, false, true).check_startup(),
        Err(ConfigError::SecureModeUnavailable)
    );
    assert_eq!(
        SecurityStatus::from_probes(true, false, true, true).check_startup(),
        Err(ConfigError::SecureModeUnavailable)
    );
    assert_eq!(SecurityStatus::from_probes(true, true, true, true).check_startup(), Ok(()));
    assert_eq!(SecurityStatus::from_probes(false, false, false, false).check_startup(), Ok(()));
}

#[test]
fn status_encoding_is_one_byte_per_flag() {
    assert_eq!(STATUS_ENCODED_LEN, 4);
    assert_eq!(SecurityStatus::from_probes(true, false, true, true).encode(), vec![1, 0, 1, 1]);
    assert_eq!(SecurityStatus::default().encode(), vec![0, 0, 0, 0]);
    assert_eq!(
        WorkerHandshake::new(SecurityStatus::from_probes(false, true, false, false)).encode(),
        vec![0, 1, 0, 0]
    );
}

#[test]
fn status_encoding_agrees_with_the_codec_on_a_tuple_of_flags() {
    for status in all_statuses() {
        let flags = (
            status.secure_validator_mode,
            status.can_enable_landlock,
            status.can_enable_seccomp,
            status.can_unshare_user_namespace_and_change_root,
        );
        assert_eq!(status.encode(), flags.encode());
        let decoded = <(bool, bool, bool, bool)>::decode(&mut &status.encode()[..]).unwrap();
        assert_eq!(decoded, flags);
    }
}

#[test]
fn status_round_trip() {
    for status in all_statuses() {
        assert_eq!(SecurityStatus::decode(&status.encode()), Some(status));
        let mut longer = status.encode();
        longer.extend_from_slice(&[9, 9]);
        assert_eq!(SecurityStatus::decode(&longer), Some(status));
        let handshake = WorkerHandshake::new(status);
        assert_eq!(WorkerHandshake::decode(&handshake.encode()), Some(handshake));
    }
}

#[test]
fn status_decode_refuses_short_input_and_bad_flags() {
    assert_eq!(SecurityStatus::decode(&[]), None);
    assert_eq!(SecurityStatus::decode(&[1, 1, 1]), None);
    assert_eq!(SecurityStatus::decode(&[2, 0, 0, 0]), None);
    assert_eq!(SecurityStatus::decode(&[0, 0, 0, 255]), None);
    assert_eq!(SecurityStatus::decode(&[0, 1, 7, 1]), None);
    assert_eq!(WorkerHandshake::decode(&[0, 1, 7, 1]), None);
    assert_eq!(
        SecurityStatus::decode(&[0, 1, 0, 1]),
        Some(SecurityStatus::from_probes(false, true, false, true))
    );
}
