use vstd::prelude::*;

verus! {

/// The charge state reported by the operating system, as the battery crate
/// hands it over. Its variants are visible to the verifier, so the mapping
/// below is verified against each of them.
#[verifier::external_type_specification]
pub struct ExOsState(battery::State);

/// The five charge states a battery record can show.
#[derive(Clone, Copy, Debug, PartialEq, Eq, Structural)]
pub enum ChargeState {
    Charging,
    Discharging,
    Full,
    Empty,
    Unknown,
}

/// Which charge state an operating-system state stands for; anything that is
/// not one of the four known states is `Unknown`.
pub open spec fn state_of_os(s: battery::State) -> ChargeState {
    match s {
        battery::State::Charging => ChargeState::Charging,
        battery::State::Discharging => ChargeState::Discharging,
        battery::State::Full => ChargeState::Full,
        battery::State::Empty => ChargeState::Empty,
        _ => ChargeState::Unknown,
    }
}

impl ChargeState {
    pub fn from_os(s: battery::State) -> (r: ChargeState)
        ensures
            r == state_of_os(s),
            s is Charging ==> r is Charging,
            s is Discharging ==> r is Discharging,
            s is Full ==> r is Full,
            s is Empty ==> r is Empty,
            !(s is Charging || s is Discharging || s is Full || s is Empty) ==> r is Unknown,
    {
        match s {
            battery::State::Charging => ChargeState::Charging,
            battery::State::Discharging => ChargeState::Discharging,
            battery::State::Full => ChargeState::Full,
            battery::State::Empty => ChargeState::Empty,
            _ => ChargeState::Unknown,
        }
    }
}

/// What one battery reports, in whole thousandths of the display units.
#[derive(Clone, Copy)]
pub struct Reading {
    /// Terminal voltage, in millivolts.
    pub voltage_mv: u32,
    /// Energy rate, in milliwatts.
    pub energy_rate_mw: i32,
    /// The charge state as the operating system reports it.
    pub state: battery::State,
    /// State of charge, in thousandths of a percent (100% is 100000).
    pub percentage_milli: u32,
}

/// Why no battery could be listed at all.
#[derive(Clone, Copy, Debug, PartialEq, Eq, Structural)]
pub enum HardwareQueryError {
    /// The battery manager could not be created.
    ManagerUnavailable,
    /// The manager could not list the batteries.
    EnumerationFailed,
}

/// The mathematical content of a battery record.
pub struct BatteryRecord {
    pub name: Seq<char>,
    pub voltage_mv: int,
    pub current_ma: int,
    pub power_mw: int,
    pub state: ChargeState,
    pub percentage_milli: int,
}

/// One battery, ready for display.
#[derive(Clone, Debug)]
pub struct BatteryInfo {
    /// Display label of the battery.
    pub name: String,
    /// Voltage, in millivolts.
    pub voltage_mv: u32,
    /// Current derived from energy rate and voltage, in milliamperes.
    pub current_ma: i64,
    /// Power (the energy rate), in milliwatts.
    pub power_mw: i32,
    pub state: ChargeState,
    /// State of charge, in thousandths of a percent; zero means not reported.
    pub percentage_milli: u32,
}

impl View for BatteryInfo {
    type V = BatteryRecord;

    open spec fn view(&self) -> BatteryRecord {
        BatteryRecord {
            name: self.name@,
            voltage_mv: self.voltage_mv as int,
            current_ma: self.current_ma as int,
            power_mw: self.power_mw as int,
            state: self.state,
            percentage_milli: self.percentage_milli as int,
        }
    }
}

/// The label every battery is shown under: the source offers no stable
/// identifier.
pub open spec fn battery_label() -> Seq<char> {
    "Battery"@
}

/// Current in milliamperes from an energy rate in milliwatts and a voltage in
/// millivolts: the quotient mW / mV in amperes, truncated toward zero to whole
/// milliamperes, and zero when the voltage is zero.
pub open spec fn current_ma_of(energy_rate_mw: int, voltage_mv: int) -> int {
    if voltage_mv == 0 {
        0
    } else if energy_rate_mw >= 0 {
        (energy_rate_mw * 1000) / voltage_mv
    } else {
        -((-energy_rate_mw * 1000) / voltage_mv)
    }
}

/// The record made from one reading.
pub open spec fn record_of(r: Reading) -> BatteryRecord {
    BatteryRecord {
        name: battery_label(),
        voltage_mv: r.voltage_mv as int,
        current_ma: current_ma_of(r.energy_rate_mw as int, r.voltage_mv as int),
        power_mw: r.energy_rate_mw as int,
        state: state_of_os(r.state),
        percentage_milli: r.percentage_milli as int,
    }
}

/// The records made from a sequence of per-battery reads: a failed read is
/// skipped, the others keep their order.
pub open spec fn records_of(reads: Seq<Option<Reading>>) -> Seq<BatteryRecord>
    decreases reads.len(),
{
    if reads.len() == 0 {
        Seq::empty()
    } else {
        let rest = records_of(reads.drop_last());
        match reads.last() {
            Some(r) => rest.push(record_of(r)),
            None => rest,
        }
    }
}

/// The derived current is the quotient of the energy rate in milliwatts by the
/// voltage in millivolts, to within one milliampere toward zero; at zero
/// voltage it is exactly zero.
pub proof fn lemma_current_is_quotient(energy_rate_mw: int, voltage_mv: int)
    requires
        voltage_mv >= 0,
    ensures
        voltage_mv == 0 ==> current_ma_of(energy_rate_mw, voltage_mv) == 0,
        voltage_mv > 0 && energy_rate_mw >= 0 ==> {
            let c = current_ma_of(energy_rate_mw, voltage_mv);
            c >= 0 && c * voltage_mv <= energy_rate_mw * 1000 < (c + 1) * voltage_mv
        },
        voltage_mv > 0 && energy_rate_mw < 0 ==> current_ma_of(energy_rate_mw, voltage_mv)
            == -current_ma_of(-energy_rate_mw, voltage_mv),
{
    if voltage_mv > 0 && energy_rate_mw >= 0 {
        let n = energy_rate_mw * 1000;
        let c = n / voltage_mv;
        assert(n == c * voltage_mv + n % voltage_mv) by (nonlinear_arith)
            requires
                voltage_mv > 0,
                c == n / voltage_mv,
        ;
        assert(c >= 0) by (nonlinear_arith)
            requires
                voltage_mv > 0,
                n >= 0,
                c == n / voltage_mv,
        ;
        assert((c + 1) * voltage_mv == c * voltage_mv + voltage_mv) by (nonlinear_arith);
    }
}

/// Derives the current, in milliamperes, from an energy rate in milliwatts and
/// a voltage in millivolts.
pub fn derive_current_ma(energy_rate_mw: i32, voltage_mv: u32) -> (r: i64)
    ensures
        r == current_ma_of(energy_rate_mw as int, voltage_mv as int),
{
    if voltage_mv == 0 {
        return 0;
    }
    let e: i64 = energy_rate_mw as i64;
    let magnitude: u64 = if e < 0 {
        (-e) as u64
    } else {
        e as u64
    };
    let q: u64 = magnitude * 1000 / (voltage_mv as u64);
    assert(q <= magnitude * 1000);
    if e < 0 {
        -(q as i64)
    } else {
        q as i64
    }
}

/// Turns raw battery readings into display records.
pub struct PowerSupplyMonitor;

impl PowerSupplyMonitor {
    pub fn new() -> (r: PowerSupplyMonitor) {
        PowerSupplyMonitor
    }

    /// The record for one battery that was read.
    pub fn convert_battery_to_info(&self, reading: &Reading) -> (r: BatteryInfo)
        ensures
            r@ == record_of(*reading),
    {
        let name = String::from_str("Battery");
        BatteryInfo {
            name,
            voltage_mv: reading.voltage_mv,
            current_ma: derive_current_ma(reading.energy_rate_mw, reading.voltage_mv),
            power_mw: reading.energy_rate_mw,
            state: ChargeState::from_os(reading.state),
            percentage_milli: reading.percentage_milli,
        }
    }

    /// The records for a listing of batteries. A battery whose read failed is
    /// left out; a listing that could not be made at all is passed on as the
    /// error.
    pub fn get_batteries(
        &self,
        listing: Result<Vec<Option<Reading>>, HardwareQueryError>,
    ) -> (r: Result<Vec<BatteryInfo>, HardwareQueryError>)
        ensures
            match listing {
                Ok(reads) => r is Ok && r->Ok_0@.map_values(|b: BatteryInfo| b@) == records_of(
                    reads@,
                ),
                Err(e) => r == Err::<Vec<BatteryInfo>, HardwareQueryError>(e),
            },
    {
        match listing {
            Err(e) => Err(e),
            Ok(reads) => {
                let mut out: Vec<BatteryInfo> = Vec::new();
                let mut i: usize = 0;
                while i < reads.len()
                    invariant
                        i <= reads@.len(),
                        out@.map_values(|b: BatteryInfo| b@) == records_of(
                            reads@.subrange(0, i as int),
                        ),
                    decreases reads@.len() - i,
                {
                    proof {
                        assert(reads@.subrange(0, i as int + 1).drop_last() == reads@.subrange(
                            0,
                            i as int,
                        ));
                    }
                    match &reads[i] {
                        Some(reading) => {
                            let info = self.convert_battery_to_info(reading);
                            out.push(info);
                        },
                        None => {},
                    }
                    proof {
                        assert(out@.map_values(|b: BatteryInfo| b@) =~= records_of(
                            reads@.subrange(0, i as int + 1),
                        ));
                    }
                    i = i + 1;
                }
                proof {
                    assert(reads@.subrange(0, reads@.len() as int) == reads@);
                }
                Ok(out)
            },
        }
    }
}

} // verus!
