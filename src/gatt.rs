use vstd::prelude::*;

use crate::error::FlowerError;

verus! {

/// Characteristic holding the battery level (byte 0) and the firmware
/// version text (bytes 2 onward).
pub const VERSION_BATTERY_UUID: u128 = 0x00001a02_0000_1000_8000_00805f9b34fb;

/// Characteristic that notifies real-time sensor frames.
pub const REAL_TIME_DATA_UUID: u128 = 0x00001a01_0000_1000_8000_00805f9b34fb;

/// Characteristic that takes the mode-switch command.
pub const MODE_CONTROL_UUID: u128 = 0x00001a00_0000_1000_8000_00805f9b34fb;

/// The two command bytes that switch the device into real-time reporting.
pub const MODE_SWITCH_BYTE_0: u8 = 0xA0;

pub const MODE_SWITCH_BYTE_1: u8 = 0x1F;

/// The logical characteristics the driver needs. Version and battery share
/// one physical characteristic.
#[derive(Clone, Copy, Debug, PartialEq, Eq, Structural)]
pub enum CharacteristicRole {
    VersionBattery,
    RealTimeData,
    ModeControl,
}

pub open spec fn role_uuid_spec(role: CharacteristicRole) -> u128 {
    match role {
        CharacteristicRole::VersionBattery => VERSION_BATTERY_UUID,
        CharacteristicRole::RealTimeData => REAL_TIME_DATA_UUID,
        CharacteristicRole::ModeControl => MODE_CONTROL_UUID,
    }
}

/// The UUID a role is identified by on the device.
pub fn role_uuid(role: CharacteristicRole) -> (r: u128)
    ensures
        r == role_uuid_spec(role),
{
    match role {
        CharacteristicRole::VersionBattery => VERSION_BATTERY_UUID,
        CharacteristicRole::RealTimeData => REAL_TIME_DATA_UUID,
        CharacteristicRole::ModeControl => MODE_CONTROL_UUID,
    }
}

/// `i` is the first position of `u` in `uuids`.
pub open spec fn is_first_index(uuids: Seq<u128>, u: u128, i: int) -> bool {
    &&& 0 <= i < uuids.len()
    &&& uuids[i] == u
    &&& forall|j: int| 0 <= j < i ==> uuids[j] != u
}

/// Finds the first discovered characteristic whose UUID is `uuid`.
pub fn find_characteristic(uuids: &Vec<u128>, uuid: u128) -> (r: Option<usize>)
    ensures
        r is None <==> !uuids@.contains(uuid),
        r matches Some(i) ==> is_first_index(uuids@, uuid, i as int),
{
    let mut i: usize = 0;
    while i < uuids.len()
        invariant
            i <= uuids@.len(),
            forall|j: int| 0 <= j < i ==> uuids@[j] != uuid,
        decreases uuids@.len() - i,
    {
        if uuids[i] == uuid {
            return Some(i);
        }
        i = i + 1;
    }
    None
}

/// Positions, in the list of discovered characteristics, of the one
/// characteristic resolved for each role.
#[derive(Clone, Copy, Debug, PartialEq, Eq, Structural)]
pub struct CharacteristicRegistry {
    pub version_battery: usize,
    pub real_time_data: usize,
    pub mode_control: usize,
}

impl CharacteristicRegistry {
    pub open spec fn handle_spec(&self, role: CharacteristicRole) -> usize {
        match role {
            CharacteristicRole::VersionBattery => self.version_battery,
            CharacteristicRole::RealTimeData => self.real_time_data,
            CharacteristicRole::ModeControl => self.mode_control,
        }
    }

    /// Each role is resolved to the first discovered characteristic that
    /// carries its UUID.
    pub open spec fn resolves(&self, uuids: Seq<u128>) -> bool {
        forall|role: CharacteristicRole|
            is_first_index(uuids, role_uuid_spec(role), #[trigger] self.handle_spec(role) as int)
    }

    /// The position resolved for `role`.
    pub fn handle(&self, role: CharacteristicRole) -> (r: usize)
        ensures
            r == self.handle_spec(role),
    {
        match role {
            CharacteristicRole::VersionBattery => self.version_battery,
            CharacteristicRole::RealTimeData => self.real_time_data,
            CharacteristicRole::ModeControl => self.mode_control,
        }
    }
}

/// What resolving the roles against the discovered UUIDs gives. Roles are
/// looked up in the order they are used: mode control, real-time data,
/// version and battery; the first one missing is reported.
pub open spec fn resolve_error_spec(uuids: Seq<u128>) -> Option<FlowerError> {
    if !uuids.contains(MODE_CONTROL_UUID) {
        Some(FlowerError::CharacteristicNotFound(CharacteristicRole::ModeControl))
    } else if !uuids.contains(REAL_TIME_DATA_UUID) {
        Some(FlowerError::CharacteristicNotFound(CharacteristicRole::RealTimeData))
    } else if !uuids.contains(VERSION_BATTERY_UUID) {
        Some(FlowerError::CharacteristicNotFound(CharacteristicRole::VersionBattery))
    } else {
        None
    }
}

/// The registry that resolution gives, or the error it stops with. The
/// registry is the one that `resolves` the UUIDs; there is exactly one.
pub open spec fn resolve_spec(uuids: Seq<u128>) -> Result<CharacteristicRegistry, FlowerError> {
    match resolve_error_spec(uuids) {
        Some(e) => Err(e),
        None => Ok(choose|reg: CharacteristicRegistry| reg.resolves(uuids)),
    }
}

proof fn lemma_first_index_unique(uuids: Seq<u128>, u: u128, i: int, j: int)
    requires
        is_first_index(uuids, u, i),
        is_first_index(uuids, u, j),
    ensures
        i == j,
{
    if i < j {
        assert(uuids[i] != u);
    } else if j < i {
        assert(uuids[j] != u);
    }
}

proof fn lemma_resolves_unique(uuids: Seq<u128>, a: CharacteristicRegistry, b: CharacteristicRegistry)
    requires
        a.resolves(uuids),
        b.resolves(uuids),
    ensures
        a == b,
{
    let vb = CharacteristicRole::VersionBattery;
    let rt = CharacteristicRole::RealTimeData;
    let mc = CharacteristicRole::ModeControl;
    lemma_first_index_unique(
        uuids,
        role_uuid_spec(vb),
        a.handle_spec(vb) as int,
        b.handle_spec(vb) as int,
    );
    lemma_first_index_unique(
        uuids,
        role_uuid_spec(rt),
        a.handle_spec(rt) as int,
        b.handle_spec(rt) as int,
    );
    lemma_first_index_unique(
        uuids,
        role_uuid_spec(mc),
        a.handle_spec(mc) as int,
        b.handle_spec(mc) as int,
    );
}

/// Builds the registry from the UUIDs of the characteristics found during
/// service discovery, in the order the transport lists them. A missing role
/// is a hard error: no partial registry is returned.
pub fn resolve_characteristics(uuids: &Vec<u128>) -> (r: Result<CharacteristicRegistry, FlowerError>)
    ensures
        r == resolve_spec(uuids@),
        r is Ok <==> resolve_error_spec(uuids@) is None,
        r matches Err(e) ==> resolve_error_spec(uuids@) == Some(e),
        r matches Ok(reg) ==> reg.resolves(uuids@),
        !uuids@.contains(MODE_CONTROL_UUID) ==> r == Err::<CharacteristicRegistry, FlowerError>(
            FlowerError::CharacteristicNotFound(CharacteristicRole::ModeControl),
        ),
{
    let mode_control = match find_characteristic(uuids, MODE_CONTROL_UUID) {
        Some(i) => i,
        None => {
            return Err(FlowerError::CharacteristicNotFound(CharacteristicRole::ModeControl));
        },
    };
    let real_time_data = match find_characteristic(uuids, REAL_TIME_DATA_UUID) {
        Some(i) => i,
        None => {
            return Err(FlowerError::CharacteristicNotFound(CharacteristicRole::RealTimeData));
        },
    };
    let version_battery = match find_characteristic(uuids, VERSION_BATTERY_UUID) {
        Some(i) => i,
        None => {
            return Err(FlowerError::CharacteristicNotFound(CharacteristicRole::VersionBattery));
        },
    };
    let reg = CharacteristicRegistry { version_battery, real_time_data, mode_control };
    assert forall|role: CharacteristicRole|
        is_first_index(uuids@, role_uuid_spec(role), #[trigger] reg.handle_spec(role) as int) by {
        match role {
            CharacteristicRole::VersionBattery => {},
            CharacteristicRole::RealTimeData => {},
            CharacteristicRole::ModeControl => {},
        }
    }
    proof {
        assert(reg.resolves(uuids@));
        assert(exists|c: CharacteristicRegistry| c.resolves(uuids@));
        lemma_resolves_unique(uuids@, reg, choose|c: CharacteristicRegistry| c.resolves(uuids@));
    }
    Ok(reg)
}

/// A missing mode-control characteristic always stops resolution with
/// `CharacteristicNotFound(ModeControl)`, whatever else was discovered.
pub proof fn lemma_missing_mode_control_is_fatal(uuids: Seq<u128>)
    requires
        !uuids.contains(MODE_CONTROL_UUID),
    ensures
        resolve_error_spec(uuids) == Some(
            FlowerError::CharacteristicNotFound(CharacteristicRole::ModeControl),
        ),
        resolve_spec(uuids) == Err::<CharacteristicRegistry, FlowerError>(
            FlowerError::CharacteristicNotFound(CharacteristicRole::ModeControl),
        ),
{
}

/// The command written to the mode-control characteristic to start
/// real-time reporting.
pub fn mode_switch_command() -> (r: Vec<u8>)
    ensures
        r@ == seq![MODE_SWITCH_BYTE_0, MODE_SWITCH_BYTE_1],
{
    vec![MODE_SWITCH_BYTE_0, MODE_SWITCH_BYTE_1]
}

/// Tells whether a notification came from the real-time data characteristic.
pub fn is_real_time_source(uuid: u128) -> (r: bool)
    ensures
        r == (uuid == REAL_TIME_DATA_UUID),
{
    uuid == REAL_TIME_DATA_UUID
}

} // verus!
