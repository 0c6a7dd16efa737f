//! The path fragment of each resource.
//!
//! A fragment is relative to the API root and ends in a slash. An
//! identifier stands in it in decimal notation.

use vstd::prelude::*;
use crate::decimal::decimal;

verus! {

/// The managers of the system.
pub open spec fn managers() -> Seq<char> {
    "Managers/"@
}

/// Power state of the chassis.
pub open spec fn power() -> Seq<char> {
    "Chassis/1/Power/"@
}

/// Thermal state of the chassis.
pub open spec fn thermal() -> Seq<char> {
    "Chassis/1/Thermal/"@
}

/// All array controllers.
pub open spec fn array_controllers() -> Seq<char> {
    "Systems/1/SmartStorage/ArrayControllers/"@
}

/// One array controller.
pub open spec fn array_controller(controller_id: u64) -> Seq<char> {
    "Systems/1/SmartStorage/ArrayControllers/"@ + decimal(controller_id as nat) + "/"@
}

/// The logical drives of one array controller.
pub open spec fn logical_drives(controller_id: u64) -> Seq<char> {
    "Systems/1/SmartStorage/ArrayControllers/"@ + decimal(controller_id as nat)
        + "/LogicalDrives/"@
}

/// The physical drives of one array controller.
pub open spec fn physical_drives(controller_id: u64) -> Seq<char> {
    "Systems/1/SmartStorage/ArrayControllers/"@ + decimal(controller_id as nat) + "/DiskDrives/"@
}

/// One physical drive of one array controller.
pub open spec fn physical_drive(controller_id: u64, drive_id: u64) -> Seq<char> {
    "Systems/1/SmartStorage/ArrayControllers/"@ + decimal(controller_id as nat) + "/DiskDrives/"@
        + decimal(drive_id as nat) + "/"@
}

/// The storage enclosures of one array controller.
pub open spec fn storage_enclosures(controller_id: u64) -> Seq<char> {
    "Systems/1/SmartStorage/ArrayControllers/"@ + decimal(controller_id as nat)
        + "/StorageEnclosures/"@
}

/// One storage enclosure of one array controller.
pub open spec fn storage_enclosure(controller_id: u64, enclosure_id: u64) -> Seq<char> {
    "Systems/1/SmartStorage/ArrayControllers/"@ + decimal(controller_id as nat)
        + "/StorageEnclosures/"@ + decimal(enclosure_id as nat) + "/"@
}

} // verus!
