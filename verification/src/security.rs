//! The security status of a worker and the handshake that carries it.

use parity_scale_codec::{Decode, Encode};
use vstd::prelude::*;

verus! {

/// Status of security features on the current system.
#[derive(Debug, Clone, Copy, PartialEq, Eq, Structural)]
pub struct SecurityStatus {
    /// Whether Secure Validator Mode is enabled. This mode enforces that all
    /// required security features are present. All features are enabled on a
    /// best-effort basis regardless.
    pub secure_validator_mode: bool,
    /// Whether the landlock features we use are fully available on this system.
    pub can_enable_landlock: bool,
    /// Whether the seccomp features we use are fully available on this system.
    pub can_enable_seccomp: bool,
    /// Whether we are able to unshare the user namespace and change the
    /// filesystem root.
    pub can_unshare_user_namespace_and_change_root: bool,
}

/// A handshake with information for the worker.
#[derive(Debug, Clone, Copy, PartialEq, Eq, Structural)]
pub struct WorkerHandshake {
    pub security_status: SecurityStatus,
}

/// A worker configuration that the system cannot honour.
#[derive(Debug, Clone, Copy, PartialEq, Eq, Structural)]
pub enum ConfigError {
    /// Secure Validator Mode was asked for and a feature it needs is missing.
    SecureModeUnavailable,
}

/// Number of bytes in an encoded security status: one per flag.
pub const STATUS_ENCODED_LEN: usize = 4;

/// The byte that stands for a flag.
pub open spec fn flag_byte(flag: bool) -> u8 {
    if flag {
        1u8
    } else {
        0u8
    }
}

/// The flag that a byte stands for, if it stands for one.
pub open spec fn byte_flag(byte: u8) -> Option<bool> {
    if byte == 0 {
        Some(false)
    } else if byte == 1 {
        Some(true)
    } else {
        None
    }
}

/// The encoding of a status: its four flags in the order of declaration.
pub open spec fn status_bytes(status: SecurityStatus) -> Seq<u8> {
    seq![
        flag_byte(status.secure_validator_mode),
        flag_byte(status.can_enable_landlock),
        flag_byte(status.can_enable_seccomp),
        flag_byte(status.can_unshare_user_namespace_and_change_root),
    ]
}

/// The status that `bytes` starts with, if its first four bytes are flags.
pub open spec fn bytes_status(bytes: Seq<u8>) -> Option<SecurityStatus> {
    if bytes.len() >= 4 && byte_flag(bytes[0]).is_some() && byte_flag(bytes[1]).is_some()
        && byte_flag(bytes[2]).is_some() && byte_flag(bytes[3]).is_some() {
        Some(
            SecurityStatus {
                secure_validator_mode: byte_flag(bytes[0]).unwrap(),
                can_enable_landlock: byte_flag(bytes[1]).unwrap(),
                can_enable_seccomp: byte_flag(bytes[2]).unwrap(),
                can_unshare_user_namespace_and_change_root: byte_flag(bytes[3]).unwrap(),
            },
        )
    } else {
        None
    }
}

/// `parity_scale_codec`'s `Encode::encode` on a `bool`: one byte, 1 for
/// `true` and 0 for `false`.
#[verifier::external_body]
fn scale_encode_flag(flag: bool) -> (bytes: Vec<u8>)
    ensures
        bytes@ == seq![flag_byte(flag)],
{
    flag.encode()
}

/// `parity_scale_codec`'s `Decode::decode` for `bool` on a one-byte input:
/// 0 is `false`, 1 is `true`, and every other byte is refused.
#[verifier::external_body]
fn scale_decode_flag(byte: u8) -> (flag: Option<bool>)
    ensures
        flag == byte_flag(byte),
{
    bool::decode(&mut &[byte][..]).ok()
}

impl SecurityStatus {
    /// Whether every hardening feature is available.
    pub open spec fn all_features(&self) -> bool {
        self.can_enable_landlock && self.can_enable_seccomp
            && self.can_unshare_user_namespace_and_change_root
    }

    /// Whether a worker with this status may start: Secure Validator Mode
    /// asks for every feature, and without it nothing is asked.
    pub open spec fn may_start(&self) -> bool {
        self.secure_validator_mode ==> self.all_features()
    }

    /// Whether a worker with this status may run a job under the given
    /// enforcement level.
    pub open spec fn meets(&self, secure_mode_required: bool) -> bool {
        secure_mode_required ==> self.all_features()
    }

    /// The status made of the operator's request and the three probe results.
    pub fn from_probes(
        secure_validator_mode: bool,
        can_enable_landlock: bool,
        can_enable_seccomp: bool,
        can_unshare_user_namespace_and_change_root: bool,
    ) -> (status: SecurityStatus)
        ensures
            status == (SecurityStatus {
                secure_validator_mode,
                can_enable_landlock,
                can_enable_seccomp,
                can_unshare_user_namespace_and_change_root,
            }),
    {
        SecurityStatus {
            secure_validator_mode,
            can_enable_landlock,
            can_enable_seccomp,
            can_unshare_user_namespace_and_change_root,
        }
    }

    /// Whether every hardening feature is available.
    pub fn has_all_features(&self) -> (all: bool)
        ensures
            all == self.all_features(),
    {
        self.can_enable_landlock && self.can_enable_seccomp
            && self.can_unshare_user_namespace_and_change_root
    }

    /// Whether this status satisfies the given enforcement level.
    pub fn satisfies(&self, secure_mode_required: bool) -> (ok: bool)
        ensures
            ok == self.meets(secure_mode_required),
    {
        !secure_mode_required || self.has_all_features()
    }

    /// The check a worker makes before it touches any job: it refuses to
    /// start exactly when Secure Validator Mode is on and a feature is
    /// missing.
    pub fn check_startup(&self) -> (res: Result<(), ConfigError>)
        ensures
            self.may_start() ==> res == Ok::<(), ConfigError>(()),
            !self.may_start() ==> res == Err::<(), ConfigError>(ConfigError::SecureModeUnavailable),
    {
        if self.secure_validator_mode && !self.has_all_features() {
            Err(ConfigError::SecureModeUnavailable)
        } else {
            Ok(())
        }
    }

    /// The four bytes that stand for this status on the wire.
    pub fn encode(&self) -> (bytes: Vec<u8>)
        ensures
            bytes@ == status_bytes(*self),
    {
        let mut bytes: Vec<u8> = scale_encode_flag(self.secure_validator_mode);
        let mut landlock: Vec<u8> = scale_encode_flag(self.can_enable_landlock);
        let mut seccomp: Vec<u8> = scale_encode_flag(self.can_enable_seccomp);
        let mut unshare: Vec<u8> = scale_encode_flag(
            self.can_unshare_user_namespace_and_change_root,
        );
        bytes.append(&mut landlock);
        bytes.append(&mut seccomp);
        bytes.append(&mut unshare);
        assert(bytes@ =~= status_bytes(*self));
        bytes
    }

    /// Reads a status from the start of `bytes`. It is there exactly when
    /// `bytes` has four bytes or more and each of the first four is a flag;
    /// what follows them is not looked at.
    pub fn decode(bytes: &[u8]) -> (status: Option<SecurityStatus>)
        ensures
            status == bytes_status(bytes@),
    {
        if bytes.len() < STATUS_ENCODED_LEN {
            return None;
        }
        let mode: Option<bool> = scale_decode_flag(bytes[0]);
        let landlock: Option<bool> = scale_decode_flag(bytes[1]);
        let seccomp: Option<bool> = scale_decode_flag(bytes[2]);
        let unshare: Option<bool> = scale_decode_flag(bytes[3]);
        match (mode, landlock, seccomp, unshare) {
            (Some(mode), Some(landlock), Some(seccomp), Some(unshare)) => Some(
                SecurityStatus::from_probes(mode, landlock, seccomp, unshare),
            ),
            _ => None,
        }
    }
}

impl Default for SecurityStatus {
    /// No enforcement asked for and no feature available.
    fn default() -> (status: SecurityStatus)
        ensures
            status == (SecurityStatus {
                secure_validator_mode: false,
                can_enable_landlock: false,
                can_enable_seccomp: false,
                can_unshare_user_namespace_and_change_root: false,
            }),
    {
        SecurityStatus::from_probes(false, false, false, false)
    }
}

impl WorkerHandshake {
    /// The handshake that reports `security_status`.
    pub fn new(security_status: SecurityStatus) -> (handshake: WorkerHandshake)
        ensures
            handshake.security_status == security_status,
    {
        WorkerHandshake { security_status }
    }

    /// The handshake's bytes on the wire: those of its status.
    pub fn encode(&self) -> (bytes: Vec<u8>)
        ensures
            bytes@ == status_bytes(self.security_status),
    {
        self.security_status.encode()
    }

    /// Reads a handshake from the start of `bytes`.
    pub fn decode(bytes: &[u8]) -> (handshake: Option<WorkerHandshake>)
        ensures
            handshake.is_some() == bytes_status(bytes@).is_some(),
            handshake.is_some() ==> handshake.unwrap().security_status == bytes_status(
                bytes@,
            ).unwrap(),
    {
        match SecurityStatus::decode(bytes) {
            Some(security_status) => Some(WorkerHandshake { security_status }),
            None => None,
        }
    }
}

/// Reading back an encoded status gives the status, whatever bytes follow it.
pub proof fn lemma_status_round_trip(status: SecurityStatus, rest: Seq<u8>)
    ensures
        status_bytes(status).len() == 4,
        bytes_status(status_bytes(status) + rest) == Some(status),
{
}

/// Under Secure Validator Mode a single failed probe keeps the worker from
/// starting, whichever probe it is.
pub proof fn lemma_secure_mode_needs_every_probe(status: SecurityStatus)
    requires
        status.secure_validator_mode,
        !status.can_enable_landlock || !status.can_enable_seccomp
            || !status.can_unshare_user_namespace_and_change_root,
    ensures
        !status.may_start(),
        !status.meets(true),
{
}

} // verus!
