//! Firmware update and data download states of LWM2M objects, with the
//! numbers that stand for them on the wire.

use vstd::prelude::*;

verus! {

/// State according to LWM2M standard (urn:oma:lwm2m:oma:5).
#[derive(Clone, Copy, Debug, PartialEq, Eq, Structural)]
pub enum FirmwareUpdateState {
    Idle,
    Downloading,
    DownloadComplete,
    Updating,
}

impl FirmwareUpdateState {
    /// The number that stands for this variant.
    pub open spec fn spec_to_u32(self) -> u32 {
        match self {
            FirmwareUpdateState::Idle => 0,
            FirmwareUpdateState::Downloading => 1,
            FirmwareUpdateState::DownloadComplete => 2,
            FirmwareUpdateState::Updating => 3,
        }
    }

    /// The variant that `n` stands for, if any.
    pub open spec fn spec_from_u32(n: u32) -> Option<Self> {
        if n == 0 {
            Some(FirmwareUpdateState::Idle)
        }         else if n == 1 {
            Some(FirmwareUpdateState::Downloading)
        }         else if n == 2 {
            Some(FirmwareUpdateState::DownloadComplete)
        }         else if n == 3 {
            Some(FirmwareUpdateState::Updating)
        } else {
            None
        }
    }

    /// The number that stands for this variant.
    pub fn to_u32(&self) -> (n: u32)
        ensures
            n == self.spec_to_u32(),
            Self::spec_from_u32(n) == Some(*self),
    {
        match self {
            FirmwareUpdateState::Idle => 0,
            FirmwareUpdateState::Downloading => 1,
            FirmwareUpdateState::DownloadComplete => 2,
            FirmwareUpdateState::Updating => 3,
        }
    }

    /// The variant that `n` stands for, if any.
    pub fn from_u32(n: u32) -> (r: Option<Self>)
        ensures
            r == Self::spec_from_u32(n),
            r matches Some(v) ==> v.spec_to_u32() == n,
    {
        if n == 0 {
            Some(FirmwareUpdateState::Idle)
        }         else if n == 1 {
            Some(FirmwareUpdateState::Downloading)
        }         else if n == 2 {
            Some(FirmwareUpdateState::DownloadComplete)
        }         else if n == 3 {
            Some(FirmwareUpdateState::Updating)
        } else {
            None
        }
    }
}

/// Update result according to LWM2M standard (urn:oma:lwm2m:oma:5).
#[derive(Clone, Copy, Debug, PartialEq, Eq, Structural)]
pub enum FirmwareUpdateResult {
    Initial,
    Success,
    NoFlash,
    NoRam,
    ConnectionLost,
    IntegrityCheckFail,
    UnsupportedPackageType,
    InvalidUri,
    UpdateFailed,
    UnsupportedProtocol,
}

impl FirmwareUpdateResult {
    /// The number that stands for this variant.
    pub open spec fn spec_to_u32(self) -> u32 {
        match self {
            FirmwareUpdateResult::Initial => 0,
            FirmwareUpdateResult::Success => 1,
            FirmwareUpdateResult::NoFlash => 2,
            FirmwareUpdateResult::NoRam => 3,
            FirmwareUpdateResult::ConnectionLost => 4,
            FirmwareUpdateResult::IntegrityCheckFail => 5,
            FirmwareUpdateResult::UnsupportedPackageType => 6,
            FirmwareUpdateResult::InvalidUri => 7,
            FirmwareUpdateResult::UpdateFailed => 8,
            FirmwareUpdateResult::UnsupportedProtocol => 9,
        }
    }

    /// The variant that `n` stands for, if any.
    pub open spec fn spec_from_u32(n: u32) -> Option<Self> {
        if n == 0 {
            Some(FirmwareUpdateResult::Initial)
        }         else if n == 1 {
            Some(FirmwareUpdateResult::Success)
        }         else if n == 2 {
            Some(FirmwareUpdateResult::NoFlash)
        }         else if n == 3 {
            Some(FirmwareUpdateResult::NoRam)
        }         else if n == 4 {
            Some(FirmwareUpdateResult::ConnectionLost)
        }         else if n == 5 {
            Some(FirmwareUpdateResult::IntegrityCheckFail)
        }         else if n == 6 {
            Some(FirmwareUpdateResult::UnsupportedPackageType)
        }         else if n == 7 {
            Some(FirmwareUpdateResult::InvalidUri)
        }         else if n == 8 {
            Some(FirmwareUpdateResult::UpdateFailed)
        }         else if n == 9 {
            Some(FirmwareUpdateResult::UnsupportedProtocol)
        } else {
            None
        }
    }

    /// The number that stands for this variant.
    pub fn to_u32(&self) -> (n: u32)
        ensures
            n == self.spec_to_u32(),
            Self::spec_from_u32(n) == Some(*self),
    {
        match self {
            FirmwareUpdateResult::Initial => 0,
            FirmwareUpdateResult::Success => 1,
            FirmwareUpdateResult::NoFlash => 2,
            FirmwareUpdateResult::NoRam => 3,
            FirmwareUpdateResult::ConnectionLost => 4,
            FirmwareUpdateResult::IntegrityCheckFail => 5,
            FirmwareUpdateResult::UnsupportedPackageType => 6,
            FirmwareUpdateResult::InvalidUri => 7,
            FirmwareUpdateResult::UpdateFailed => 8,
            FirmwareUpdateResult::UnsupportedProtocol => 9,
        }
    }

    /// The variant that `n` stands for, if any.
    pub fn from_u32(n: u32) -> (r: Option<Self>)
        ensures
            r == Self::spec_from_u32(n),
            r matches Some(v) ==> v.spec_to_u32() == n,
    {
        if n == 0 {
            Some(FirmwareUpdateResult::Initial)
        }         else if n == 1 {
            Some(FirmwareUpdateResult::Success)
        }         else if n == 2 {
            Some(FirmwareUpdateResult::NoFlash)
        }         else if n == 3 {
            Some(FirmwareUpdateResult::NoRam)
        }         else if n == 4 {
            Some(FirmwareUpdateResult::ConnectionLost)
        }         else if n == 5 {
            Some(FirmwareUpdateResult::IntegrityCheckFail)
        }         else if n == 6 {
            Some(FirmwareUpdateResult::UnsupportedPackageType)
        }         else if n == 7 {
            Some(FirmwareUpdateResult::InvalidUri)
        }         else if n == 8 {
            Some(FirmwareUpdateResult::UpdateFailed)
        }         else if n == 9 {
            Some(FirmwareUpdateResult::UnsupportedProtocol)
        } else {
            None
        }
    }
}

/// Data download status according to GARDENA spec (urn:oma:lwm2m:x:28174).
#[derive(Clone, Copy, Debug, PartialEq, Eq, Structural)]
pub enum DataDownloadStatus {
    Initial,
    Uploading,
    Activating,
    Activated,
    UploadFailed,
    ActivationFailed,
}

impl DataDownloadStatus {
    /// The number that stands for this variant.
    pub open spec fn spec_to_u32(self) -> u32 {
        match self {
            DataDownloadStatus::Initial => 0,
            DataDownloadStatus::Uploading => 1,
            DataDownloadStatus::Activating => 2,
            DataDownloadStatus::Activated => 3,
            DataDownloadStatus::UploadFailed => 4,
            DataDownloadStatus::ActivationFailed => 5,
        }
    }

    /// The variant that `n` stands for, if any.
    pub open spec fn spec_from_u32(n: u32) -> Option<Self> {
        if n == 0 {
            Some(DataDownloadStatus::Initial)
        }         else if n == 1 {
            Some(DataDownloadStatus::Uploading)
        }         else if n == 2 {
            Some(DataDownloadStatus::Activating)
        }         else if n == 3 {
            Some(DataDownloadStatus::Activated)
        }         else if n == 4 {
            Some(DataDownloadStatus::UploadFailed)
        }         else if n == 5 {
            Some(DataDownloadStatus::ActivationFailed)
        } else {
            None
        }
    }

    /// The number that stands for this variant.
    pub fn to_u32(&self) -> (n: u32)
        ensures
            n == self.spec_to_u32(),
            Self::spec_from_u32(n) == Some(*self),
    {
        match self {
            DataDownloadStatus::Initial => 0,
            DataDownloadStatus::Uploading => 1,
            DataDownloadStatus::Activating => 2,
            DataDownloadStatus::Activated => 3,
            DataDownloadStatus::UploadFailed => 4,
            DataDownloadStatus::ActivationFailed => 5,
        }
    }

    /// The variant that `n` stands for, if any.
    pub fn from_u32(n: u32) -> (r: Option<Self>)
        ensures
            r == Self::spec_from_u32(n),
            r matches Some(v) ==> v.spec_to_u32() == n,
    {
        if n == 0 {
            Some(DataDownloadStatus::Initial)
        }         else if n == 1 {
            Some(DataDownloadStatus::Uploading)
        }         else if n == 2 {
            Some(DataDownloadStatus::Activating)
        }         else if n == 3 {
            Some(DataDownloadStatus::Activated)
        }         else if n == 4 {
            Some(DataDownloadStatus::UploadFailed)
        }         else if n == 5 {
            Some(DataDownloadStatus::ActivationFailed)
        } else {
            None
        }
    }
}

impl Default for FirmwareUpdateState {
    fn default() -> (r: Self)
        ensures
            r == FirmwareUpdateState::Idle,
    {
        FirmwareUpdateState::Idle
    }
}

impl Default for FirmwareUpdateResult {
    fn default() -> (r: Self)
        ensures
            r == FirmwareUpdateResult::Initial,
    {
        FirmwareUpdateResult::Initial
    }
}

impl Default for DataDownloadStatus {
    fn default() -> (r: Self)
        ensures
            r == DataDownloadStatus::Initial,
    {
        DataDownloadStatus::Initial
    }
}

/// The numbers of the `FirmwareUpdateState` variants are those that the LWM2M firmware-update object gives
/// them, both ways.
pub proof fn law_firmware_update_state_numbers()
    ensures
        FirmwareUpdateState::Idle.spec_to_u32() == 0,
        FirmwareUpdateState::Downloading.spec_to_u32() == 1,
        FirmwareUpdateState::DownloadComplete.spec_to_u32() == 2,
        FirmwareUpdateState::Updating.spec_to_u32() == 3,
        FirmwareUpdateState::spec_from_u32(0) == Some(FirmwareUpdateState::Idle),
        FirmwareUpdateState::spec_from_u32(1) == Some(FirmwareUpdateState::Downloading),
        FirmwareUpdateState::spec_from_u32(2) == Some(FirmwareUpdateState::DownloadComplete),
        FirmwareUpdateState::spec_from_u32(3) == Some(FirmwareUpdateState::Updating),
{
}

/// The numbers of the `FirmwareUpdateResult` variants are those that the LWM2M firmware-update object gives
/// them, both ways.
pub proof fn law_firmware_update_result_numbers()
    ensures
        FirmwareUpdateResult::Initial.spec_to_u32() == 0,
        FirmwareUpdateResult::Success.spec_to_u32() == 1,
        FirmwareUpdateResult::NoFlash.spec_to_u32() == 2,
        FirmwareUpdateResult::NoRam.spec_to_u32() == 3,
        FirmwareUpdateResult::ConnectionLost.spec_to_u32() == 4,
        FirmwareUpdateResult::IntegrityCheckFail.spec_to_u32() == 5,
        FirmwareUpdateResult::UnsupportedPackageType.spec_to_u32() == 6,
        FirmwareUpdateResult::InvalidUri.spec_to_u32() == 7,
        FirmwareUpdateResult::UpdateFailed.spec_to_u32() == 8,
        FirmwareUpdateResult::UnsupportedProtocol.spec_to_u32() == 9,
        FirmwareUpdateResult::spec_from_u32(0) == Some(FirmwareUpdateResult::Initial),
        FirmwareUpdateResult::spec_from_u32(1) == Some(FirmwareUpdateResult::Success),
        FirmwareUpdateResult::spec_from_u32(2) == Some(FirmwareUpdateResult::NoFlash),
        FirmwareUpdateResult::spec_from_u32(3) == Some(FirmwareUpdateResult::NoRam),
        FirmwareUpdateResult::spec_from_u32(4) == Some(FirmwareUpdateResult::ConnectionLost),
        FirmwareUpdateResult::spec_from_u32(5) == Some(FirmwareUpdateResult::IntegrityCheckFail),
        FirmwareUpdateResult::spec_from_u32(6) == Some(FirmwareUpdateResult::UnsupportedPackageType),
        FirmwareUpdateResult::spec_from_u32(7) == Some(FirmwareUpdateResult::InvalidUri),
        FirmwareUpdateResult::spec_from_u32(8) == Some(FirmwareUpdateResult::UpdateFailed),
        FirmwareUpdateResult::spec_from_u32(9) == Some(FirmwareUpdateResult::UnsupportedProtocol),
{
}

/// The numbers of the `DataDownloadStatus` variants are those that the LWM2M firmware-update object gives
/// them, both ways.
pub proof fn law_data_download_status_numbers()
    ensures
        DataDownloadStatus::Initial.spec_to_u32() == 0,
        DataDownloadStatus::Uploading.spec_to_u32() == 1,
        DataDownloadStatus::Activating.spec_to_u32() == 2,
        DataDownloadStatus::Activated.spec_to_u32() == 3,
        DataDownloadStatus::UploadFailed.spec_to_u32() == 4,
        DataDownloadStatus::ActivationFailed.spec_to_u32() == 5,
        DataDownloadStatus::spec_from_u32(0) == Some(DataDownloadStatus::Initial),
        DataDownloadStatus::spec_from_u32(1) == Some(DataDownloadStatus::Uploading),
        DataDownloadStatus::spec_from_u32(2) == Some(DataDownloadStatus::Activating),
        DataDownloadStatus::spec_from_u32(3) == Some(DataDownloadStatus::Activated),
        DataDownloadStatus::spec_from_u32(4) == Some(DataDownloadStatus::UploadFailed),
        DataDownloadStatus::spec_from_u32(5) == Some(DataDownloadStatus::ActivationFailed),
{
}

} // verus!
