//! Requests, states and status codes of DFU 1.1.

use vstd::prelude::*;

verus! {

/// `DFU_DETACH`.
pub const DETACH: u8 = 0;

/// `DFU_DNLOAD`.
pub const DNLOAD: u8 = 1;

/// `DFU_UPLOAD`.
pub const UPLOAD: u8 = 2;

/// `DFU_GETSTATUS`.
pub const GETSTATUS: u8 = 3;

/// `DFU_CLRSTATUS`.
pub const CLRSTATUS: u8 = 4;

/// `DFU_GETSTATE`.
pub const GETSTATE: u8 = 5;

/// `DFU_ABORT`.
pub const ABORT: u8 = 6;

/// State of a DFU interface.
#[derive(Debug, Clone, Copy, PartialEq, Eq, Structural)]
pub enum State {
    /// `appIDLE`.
    AppIdle,
    /// `appDETACH`.
    AppDetach,
    /// `dfuIDLE`.
    DfuIdle,
    /// `dfuDNLOAD-SYNC`.
    DnloadSync,
    /// `dfuDNBUSY`.
    DnBusy,
    /// `dfuDNLOAD-IDLE`.
    DnloadIdle,
    /// `dfuMANIFEST-SYNC`.
    ManifestSync,
    /// `dfuMANIFEST`.
    Manifest,
    /// `dfuMANIFEST-WAIT-RESET`.
    ManifestWaitReset,
    /// `dfuUPLOAD-IDLE`.
    UploadIdle,
    /// `dfuERROR`.
    Error,
}

impl State {
    /// The number that stands for this state.
    pub open spec fn spec_code(self) -> u8 {
        match self {
            State::AppIdle => 0,
            State::AppDetach => 1,
            State::DfuIdle => 2,
            State::DnloadSync => 3,
            State::DnBusy => 4,
            State::DnloadIdle => 5,
            State::ManifestSync => 6,
            State::Manifest => 7,
            State::ManifestWaitReset => 8,
            State::UploadIdle => 9,
            State::Error => 10,
        }
    }

    /// The number that stands for this state.
    pub fn code(self) -> (n: u8)
        ensures
            n == self.spec_code(),
    {
        match self {
            State::AppIdle => 0,
            State::AppDetach => 1,
            State::DfuIdle => 2,
            State::DnloadSync => 3,
            State::DnBusy => 4,
            State::DnloadIdle => 5,
            State::ManifestSync => 6,
            State::Manifest => 7,
            State::ManifestWaitReset => 8,
            State::UploadIdle => 9,
            State::Error => 10,
        }
    }
}

/// Status of a DFU interface.
#[derive(Debug, Clone, Copy, PartialEq, Eq, Structural)]
pub enum Status {
    /// No error.
    Okay,
    /// The file is not meant for this device.
    ErrTarget,
    /// The file fails a vendor-specific check.
    ErrFile,
    /// Memory could not be written.
    ErrWrite,
    /// Memory could not be erased.
    ErrErase,
    /// Memory was not erased.
    ErrCheckErased,
    /// Memory could not be programmed.
    ErrProg,
    /// Memory does not hold what was programmed.
    ErrVerify,
    /// An address is out of range.
    ErrAddress,
    /// The end of the data came before it was expected.
    ErrNotDone,
    /// The firmware is corrupt.
    ErrFirmware,
    /// A vendor-specific error.
    ErrVendor,
    /// An unexpected USB reset.
    ErrUsbr,
    /// An unexpected power-on reset.
    ErrPor,
    /// Something unexpected.
    ErrUnknown,
    /// An unexpected request.
    ErrStalledPkt,
}

impl Status {
    /// The number that stands for this status.
    pub open spec fn spec_code(self) -> u8 {
        match self {
            Status::Okay => 0,
            Status::ErrTarget => 1,
            Status::ErrFile => 2,
            Status::ErrWrite => 3,
            Status::ErrErase => 4,
            Status::ErrCheckErased => 5,
            Status::ErrProg => 6,
            Status::ErrVerify => 7,
            Status::ErrAddress => 8,
            Status::ErrNotDone => 9,
            Status::ErrFirmware => 10,
            Status::ErrVendor => 11,
            Status::ErrUsbr => 12,
            Status::ErrPor => 13,
            Status::ErrUnknown => 14,
            Status::ErrStalledPkt => 15,
        }
    }

    /// The number that stands for this status.
    pub fn code(self) -> (n: u8)
        ensures
            n == self.spec_code(),
    {
        match self {
            Status::Okay => 0,
            Status::ErrTarget => 1,
            Status::ErrFile => 2,
            Status::ErrWrite => 3,
            Status::ErrErase => 4,
            Status::ErrCheckErased => 5,
            Status::ErrProg => 6,
            Status::ErrVerify => 7,
            Status::ErrAddress => 8,
            Status::ErrNotDone => 9,
            Status::ErrFirmware => 10,
            Status::ErrVendor => 11,
            Status::ErrUsbr => 12,
            Status::ErrPor => 13,
            Status::ErrUnknown => 14,
            Status::ErrStalledPkt => 15,
        }
    }
}

/// The answer to `DFU_GETSTATUS`.
#[derive(Debug, Clone, Copy)]
pub struct GetStatus {
    /// Status of the last request.
    pub status: Status,
    /// Time the host has to wait before the next one, in milliseconds.
    pub poll_timeout_ms: u32,
    /// State after this request.
    pub state: State,
    /// String that describes the status.
    pub string_index: u8,
}

impl GetStatus {
    /// The six bytes of the answer. The timeout has three of them, least
    /// significant first.
    pub open spec fn layout(self) -> Seq<u8> {
        seq![
            self.status.spec_code(),
            (self.poll_timeout_ms % 0x100) as u8,
            (self.poll_timeout_ms / 0x100 % 0x100) as u8,
            (self.poll_timeout_ms / 0x1_0000 % 0x100) as u8,
            self.state.spec_code(),
            self.string_index,
        ]
    }

    /// The six bytes of the answer.
    pub fn to_bytes(&self) -> (bytes: [u8; 6])
        ensures
            bytes@ == self.layout(),
    {
        let bytes: [u8; 6] = [
            self.status.code(),
            (self.poll_timeout_ms % 0x100) as u8,
            (self.poll_timeout_ms / 0x100 % 0x100) as u8,
            (self.poll_timeout_ms / 0x1_0000 % 0x100) as u8,
            self.state.code(),
            self.string_index,
        ];
        assert(bytes@ =~= self.layout());
        bytes
    }
}

// ---------------------------------------------------------------------------
// Laws
// ---------------------------------------------------------------------------

/// The numbers that DFU 1.1 gives the requests and the states of an interface.
pub proof fn law_state_numbers(state: State, n: u8)
    requires
        call_ensures(State::code, (state,), n),
    ensures
        DETACH == 0 && DNLOAD == 1 && UPLOAD == 2 && GETSTATUS == 3 && CLRSTATUS == 4 && GETSTATE
            == 5 && ABORT == 6,
        state is AppIdle ==> n == 0,
        state is AppDetach ==> n == 1,
        state is DfuIdle ==> n == 2,
        state is DnloadSync ==> n == 3,
        state is DnBusy ==> n == 4,
        state is DnloadIdle ==> n == 5,
        state is ManifestSync ==> n == 6,
        state is Manifest ==> n == 7,
        state is ManifestWaitReset ==> n == 8,
        state is UploadIdle ==> n == 9,
        state is Error ==> n == 10,
{
}

/// The numbers that DFU 1.1 gives the status of an interface.
pub proof fn law_status_numbers(status: Status, n: u8)
    requires
        call_ensures(Status::code, (status,), n),
    ensures
        status is Okay ==> n == 0,
        status is ErrTarget ==> n == 1,
        status is ErrFile ==> n == 2,
        status is ErrWrite ==> n == 3,
        status is ErrErase ==> n == 4,
        status is ErrCheckErased ==> n == 5,
        status is ErrProg ==> n == 6,
        status is ErrVerify ==> n == 7,
        status is ErrAddress ==> n == 8,
        status is ErrNotDone ==> n == 9,
        status is ErrFirmware ==> n == 10,
        status is ErrVendor ==> n == 11,
        status is ErrUsbr ==> n == 12,
        status is ErrPor ==> n == 13,
        status is ErrUnknown ==> n == 14,
        status is ErrStalledPkt ==> n == 15,
{
}

/// The answer is the status, three bytes of timeout of which the first counts
/// ones, the second 256s and the third 65536s, the state and the string.
pub proof fn law_status_bytes(answer: GetStatus, bytes: [u8; 6], status: u8, state: u8)
    requires
        call_ensures(GetStatus::to_bytes, (&answer,), bytes),
        call_ensures(Status::code, (answer.status,), status),
        call_ensures(State::code, (answer.state,), state),
    ensures
        bytes@.len() == 6,
        bytes@[0] == status,
        bytes@[1] + 256 * bytes@[2] + 65536 * bytes@[3] == answer.poll_timeout_ms % 16777216,
        bytes@[4] == state,
        bytes@[5] == answer.string_index,
{
    let t = answer.poll_timeout_ms;
    assert(t % 256 + 256 * (t / 256 % 256) + 65536 * (t / 65536 % 256) == t % 16777216);
}

} // verus!
