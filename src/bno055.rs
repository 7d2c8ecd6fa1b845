//! The register layout and power-on sequence of the absolute orientation
//! sensor, and how its status register reads.
use vstd::prelude::*;

verus! {

/// The register that selects the operation mode.
pub const OPR_MODE_REGISTER: u8 = 0x3D;

/// The operation mode in which the chip accepts configuration.
pub const MODE_CONFIG: u8 = 0x00;

/// The operation mode that fuses all nine degrees of freedom.
pub const MODE_NDOF: u8 = 0x0C;

/// The register that selects the power mode.
pub const POWER_MODE_REGISTER: u8 = 0x3E;

/// The normal power mode.
pub const POWER_MODE_NORMAL: u8 = 0x00;

/// The register that resets the chip and selects its clock source.
pub const SYS_TRIGGER_REGISTER: u8 = 0x3F;

/// The value of the trigger register that resets the chip.
pub const SYS_TRIGGER_RESET: u8 = 0x20;

/// The value of the trigger register that selects the internal oscillator.
pub const SYS_TRIGGER_INTERNAL_CLOCK: u8 = 0x00;

/// The register that selects the register page.
pub const PAGE_ID_REGISTER: u8 = 0x07;

/// The register that holds the chip identifier.
pub const CHIP_ID_REGISTER: u8 = 0x00;

/// The register that holds the accelerometer's revision.
pub const ACCEL_REV_ID_REGISTER: u8 = 0x01;

/// The register that holds the system status.
pub const SYSTEM_STATUS_REGISTER: u8 = 0x39;

/// The register that holds the system error code.
pub const SYSTEM_ERROR_REGISTER: u8 = 0x3A;

/// The system status that reports an error.
pub const SYSTEM_STATUS_ERROR: u8 = 0x01;

/// The first register of the Euler angle vector.
pub const EULER_VECTOR_REGISTER: u8 = 0x1A;

/// The first register of the gravity vector.
pub const GRAVITY_VECTOR_REGISTER: u8 = 0x2E;

/// The system status of the chip, with the error code where the status
/// reports one.
#[derive(Debug, Clone, Copy, PartialEq, Eq)]
pub struct Bno055Status {
    pub status: u8,
    pub error: Option<u8>,
}

/// Whether a system status reports an error, so that the error register
/// has to be read.
pub fn reports_error(status: u8) -> (r: bool)
    ensures
        r == (status == SYSTEM_STATUS_ERROR),
{
    status == SYSTEM_STATUS_ERROR
}

impl Bno055Status {
    /// The status made of the status register and, where that reports an
    /// error, the error register; an error code read for a status that
    /// reports none is left out.
    pub fn new(status: u8, error: Option<u8>) -> (r: Bno055Status)
        ensures
            r.status == status,
            r.error == (if status == SYSTEM_STATUS_ERROR {
                error
            } else {
                None
            }),
    {
        if reports_error(status) {
            Bno055Status { status, error }
        } else {
            Bno055Status { status, error: None }
        }
    }
}

/// The register of one axis of a vector of three 16-bit values that
/// starts at `start`: two registers per axis.
pub fn axis_register(start: u8, axis: u8) -> (r: u8)
    requires
        axis < 3,
        start + 2 * axis <= u8::MAX,
    ensures
        r == start + 2 * axis,
{
    start + 2 * axis
}

/// One register write of the power-on sequence.
#[derive(Debug, Clone, Copy, PartialEq, Eq)]
pub struct InitStep {
    pub register: u8,
    pub value: u8,
    /// Whether a failed write aborts the power-on.
    pub checked: bool,
    /// Milliseconds to wait after the write.
    pub settle_ms: u64,
}

/// The power-on sequence: select page 0, enter config mode, select page 0
/// again, reset, then normal power, the internal oscillator and fusion
/// mode.
///
/// Three writes are not checked, because the chip may rightly leave them
/// unacknowledged. The first page select is the first transfer after
/// power-up, and the chip may still be booting. The second page select
/// follows the switch to config mode, which the chip may still be making.
/// On reset, the chip restarts before it acknowledges. In each case, the
/// checked config-mode and power-mode writes that follow detect a chip
/// that is really unreachable.
pub open spec fn power_on_steps() -> Seq<InitStep> {
    seq![
        InitStep { register: PAGE_ID_REGISTER, value: 0, checked: false, settle_ms: 0 },
        InitStep { register: OPR_MODE_REGISTER, value: MODE_CONFIG, checked: true, settle_ms: 20 },
        InitStep { register: PAGE_ID_REGISTER, value: 0, checked: false, settle_ms: 0 },
        InitStep {
            register: SYS_TRIGGER_REGISTER,
            value: SYS_TRIGGER_RESET,
            checked: false,
            settle_ms: 650,
        },
        InitStep {
            register: POWER_MODE_REGISTER,
            value: POWER_MODE_NORMAL,
            checked: true,
            settle_ms: 0,
        },
        InitStep {
            register: SYS_TRIGGER_REGISTER,
            value: SYS_TRIGGER_INTERNAL_CLOCK,
            checked: true,
            settle_ms: 0,
        },
        InitStep { register: OPR_MODE_REGISTER, value: MODE_NDOF, checked: true, settle_ms: 20 },
    ]
}

/// The register writes that bring the chip into fusion mode, in order.
pub fn power_on_sequence() -> (r: Vec<InitStep>)
    ensures
        r@ == power_on_steps(),
{
    let r = vec![
        InitStep { register: PAGE_ID_REGISTER, value: 0, checked: false, settle_ms: 0 },
        InitStep { register: OPR_MODE_REGISTER, value: MODE_CONFIG, checked: true, settle_ms: 20 },
        InitStep { register: PAGE_ID_REGISTER, value: 0, checked: false, settle_ms: 0 },
        InitStep {
            register: SYS_TRIGGER_REGISTER,
            value: SYS_TRIGGER_RESET,
            checked: false,
            settle_ms: 650,
        },
        InitStep {
            register: POWER_MODE_REGISTER,
            value: POWER_MODE_NORMAL,
            checked: true,
            settle_ms: 0,
        },
        InitStep {
            register: SYS_TRIGGER_REGISTER,
            value: SYS_TRIGGER_INTERNAL_CLOCK,
            checked: true,
            settle_ms: 0,
        },
        InitStep { register: OPR_MODE_REGISTER, value: MODE_NDOF, checked: true, settle_ms: 20 },
    ];
    proof {
        assert(r@ =~= power_on_steps());
    }
    r
}

} // verus!
