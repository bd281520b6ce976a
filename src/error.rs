use vstd::prelude::*;

verus! {

/// Failures of the driver. Bus failures carry the transport's own error,
/// tagged by the operation that failed; protocol failures carry nothing.
#[derive(Debug, Clone, PartialEq, Eq)]
pub enum Error<E> {
    /// The bus failed while reading a register.
    GettingRegister(E),
    /// The bus failed while selecting a register for a burst read.
    RequestingRegister(E),
    /// The bus failed while writing a register.
    SettingRegister(E),
    /// The device never reported that it powered up.
    PowerupFailed,
    /// The bus failed while reading a conversion result.
    ReadingData(E),
    /// No conversion became ready in time.
    ReadTimeout,
    /// The device reported that calibration failed.
    CalibrationFailure,
}

} // verus!
