//! The registry of device variables: each symbolic name with the field name
//! that stands for it on the wire.
//!
//! The field names are those of the `gree` crate, which speaks the protocol.

use vstd::prelude::*;

verus! {

/// A property of the appliance that can be read or written.
#[derive(Debug, Clone, Copy, PartialEq, Eq, Hash, Structural)]
pub enum Variable {
    /// Power state: 0 off, 1 on.
    Power,
    /// Mode of operation.
    Mode,
    /// Set temperature, in the unit that `TemperatureUnit` gives.
    SetTemperature,
    /// Unit of the set temperature: 0 Celsius, 1 Fahrenheit.
    TemperatureUnit,
    /// Fan speed.
    FanSpeed,
    /// Fresh air valve.
    FreshAir,
    /// Keeps the fan running for a while after switching off.
    Blow,
    /// Cold plasma mode.
    Health,
    /// Sleep mode.
    Sleep,
    /// Indicators and display of the unit.
    Light,
    /// Swing of the horizontal blades.
    SwingHorizontal,
    /// Swing of the vertical blades.
    SwingVertical,
    /// Quiet mode.
    Quiet,
    /// Fan at its maximum.
    Turbo,
    /// Keeps the room from freezing.
    SteadyHeat,
    /// Kind of heating and cooling.
    HeatCoolType,
    /// Tells two Fahrenheit values apart.
    TemperatureRecord,
    /// Energy saving mode.
    EnergySaving,
    /// Reading of the temperature sensor, with an offset of 40.
    TemperatureSensor,
    /// Time of the device.
    Time,
}

/// How many variables the registry holds.
pub const VARIABLES: usize = 20;

/// The field names, in the order of the registry.
pub open spec fn wire_table() -> Seq<Seq<char>> {
    seq![
        "Pow"@,
        "Mod"@,
        "SetTem"@,
        "TemUn"@,
        "WdSpd"@,
        "Air"@,
        "Blo"@,
        "Health"@,
        "SwhSlp"@,
        "Lig"@,
        "SwingLfRig"@,
        "SwUpDn"@,
        "Quiet"@,
        "Tur"@,
        "StHt"@,
        "HeatCoolType"@,
        "TemRec"@,
        "SvSt"@,
        "TemSen"@,
        "time"@,
    ]
}

/// `gree::vars::ALL`, the crate's list of the field names it knows. The
/// contract claims that the list has twenty entries and that they are, in
/// order, the texts of `wire_table`.
#[verifier::external_body]
fn wire_names() -> (names: Vec<&'static str>)
    ensures
        names@.len() == VARIABLES,
        forall|i: int| 0 <= i < VARIABLES ==> (#[trigger] names@[i])@ == wire_table()[i],
{
    gree::vars::ALL.to_vec()
}

impl Variable {
    /// The place of the variable in the registry.
    pub open spec fn index(self) -> int {
        match self {
            Variable::Power => 0,
            Variable::Mode => 1,
            Variable::SetTemperature => 2,
            Variable::TemperatureUnit => 3,
            Variable::FanSpeed => 4,
            Variable::FreshAir => 5,
            Variable::Blow => 6,
            Variable::Health => 7,
            Variable::Sleep => 8,
            Variable::Light => 9,
            Variable::SwingHorizontal => 10,
            Variable::SwingVertical => 11,
            Variable::Quiet => 12,
            Variable::Turbo => 13,
            Variable::SteadyHeat => 14,
            Variable::HeatCoolType => 15,
            Variable::TemperatureRecord => 16,
            Variable::EnergySaving => 17,
            Variable::TemperatureSensor => 18,
            Variable::Time => 19,
        }
    }

    /// The field name that stands for the variable on the wire.
    pub open spec fn wire(self) -> Seq<char> {
        wire_table()[self.index()]
    }

    /// The place of the variable in the registry.
    pub fn position(self) -> (i: usize)
        ensures
            i == self.index(),
            i < VARIABLES,
    {
        match self {
            Variable::Power => 0,
            Variable::Mode => 1,
            Variable::SetTemperature => 2,
            Variable::TemperatureUnit => 3,
            Variable::FanSpeed => 4,
            Variable::FreshAir => 5,
            Variable::Blow => 6,
            Variable::Health => 7,
            Variable::Sleep => 8,
            Variable::Light => 9,
            Variable::SwingHorizontal => 10,
            Variable::SwingVertical => 11,
            Variable::Quiet => 12,
            Variable::Turbo => 13,
            Variable::SteadyHeat => 14,
            Variable::HeatCoolType => 15,
            Variable::TemperatureRecord => 16,
            Variable::EnergySaving => 17,
            Variable::TemperatureSensor => 18,
            Variable::Time => 19,
        }
    }

    /// The field name that stands for the variable on the wire.
    pub fn wire_name(self) -> (name: &'static str)
        ensures
            name@ == self.wire(),
    {
        let names = wire_names();
        names[self.position()]
    }
}

/// The registry is one to one: two variables with the same field name are
/// the same variable.
pub proof fn lemma_wire_names_distinct(a: Variable, b: Variable)
    ensures
        a.wire() == b.wire() ==> a == b,
{
    reveal_strlit("Pow");
    reveal_strlit("Mod");
    reveal_strlit("SetTem");
    reveal_strlit("TemUn");
    reveal_strlit("WdSpd");
    reveal_strlit("Air");
    reveal_strlit("Blo");
    reveal_strlit("Health");
    reveal_strlit("SwhSlp");
    reveal_strlit("Lig");
    reveal_strlit("SwingLfRig");
    reveal_strlit("SwUpDn");
    reveal_strlit("Quiet");
    reveal_strlit("Tur");
    reveal_strlit("StHt");
    reveal_strlit("HeatCoolType");
    reveal_strlit("TemRec");
    reveal_strlit("SvSt");
    reveal_strlit("TemSen");
    reveal_strlit("time");
    if a.wire() == b.wire() {
        assert(a.wire().len() == b.wire().len());
        assert(a.wire()[0] == b.wire()[0]);
        assert(a.wire()[1] == b.wire()[1]);
        assert(a.wire()[2] == b.wire()[2]);
        assert(a.wire()[3] == b.wire()[3]);
    }
}

} // verus!
