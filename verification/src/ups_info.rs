//! The summary of a device: its well-known variables under names of their
//! own, and every other variable in a sorted list.

use vstd::prelude::*;
use crate::table::{ascending, distinct_names, lists, pairs_of, VariableTable};
use crate::text::{precedes_is_irreflexive, text_of};

verus! {

/// The value that `m` holds under `key`, if it holds one.
pub open spec fn lookup(m: Map<Seq<char>, Seq<char>>, key: Seq<char>) -> Option<Seq<char>> {
    if m.contains_key(key) {
        Some(m[key])
    } else {
        None
    }
}

/// Whether `key` names one of the fourteen variables that the summary holds
/// in a field of its own.
pub open spec fn well_known(key: Seq<char>) -> bool {
    ||| key == "ups.status"@
    ||| key == "ups.model"@
    ||| key == "ups.mfr"@
    ||| key == "ups.serial"@
    ||| key == "ups.type"@
    ||| key == "ups.load"@
    ||| key == "ups.realpower"@
    ||| key == "battery.charge"@
    ||| key == "battery.runtime"@
    ||| key == "battery.voltage"@
    ||| key == "input.voltage"@
    ||| key == "output.voltage"@
    ||| key == "input.frequency"@
    ||| key == "output.frequency"@
}

/// The entries of `m` whose key is not well known.
pub open spec fn rest_of(m: Map<Seq<char>, Seq<char>>) -> Map<Seq<char>, Seq<char>> {
    Map::new(|k: Seq<char>| m.contains_key(k) && !well_known(k), |k: Seq<char>| m[k])
}

/// The second component of the pair of `pairs` whose first component is
/// `key`, if there is such a pair.
pub open spec fn value_in(pairs: Seq<(Seq<char>, Seq<char>)>, key: Seq<char>) -> Option<Seq<char>> {
    if exists|i: int| 0 <= i < pairs.len() && #[trigger] pairs[i].0 == key {
        Some(pairs[choose|i: int| 0 <= i < pairs.len() && #[trigger] pairs[i].0 == key].1)
    } else {
        None
    }
}

/// The most common values of a device. A field is `None` where the device
/// does not report the variable.
#[derive(Debug, Clone)]
pub struct UpsInfo {
    pub ups_name: String,
    /// `ups.status`
    pub status: Option<String>,
    /// `ups.model`
    pub model: Option<String>,
    /// `ups.mfr`
    pub manufacturer: Option<String>,
    /// `ups.serial`
    pub serial: Option<String>,
    /// `ups.type`
    pub ups_type: Option<String>,
    /// `ups.load`
    pub load_percent: Option<String>,
    /// `ups.realpower`
    pub realpower_watts: Option<String>,
    /// `battery.charge`
    pub battery_charge_percent: Option<String>,
    /// `battery.runtime`
    pub battery_runtime_seconds: Option<String>,
    /// `battery.voltage`
    pub battery_voltage: Option<String>,
    /// `input.voltage`
    pub input_voltage: Option<String>,
    /// `output.voltage`
    pub output_voltage: Option<String>,
    /// `input.frequency`
    pub input_frequency_hz: Option<String>,
    /// `output.frequency`
    pub output_frequency_hz: Option<String>,
    /// Every other variable, by name, in ascending order of the names.
    pub extra: Vec<(String, String)>,
}

/// No two of the well-known names are the same.
proof fn lemma_names_differ()
    ensures
        "ups.status"@ != "ups.model"@,
        "ups.status"@ != "ups.mfr"@,
        "ups.status"@ != "ups.serial"@,
        "ups.status"@ != "ups.type"@,
        "ups.status"@ != "ups.load"@,
        "ups.status"@ != "ups.realpower"@,
        "ups.status"@ != "battery.charge"@,
        "ups.status"@ != "battery.runtime"@,
        "ups.status"@ != "battery.voltage"@,
        "ups.status"@ != "input.voltage"@,
        "ups.status"@ != "output.voltage"@,
        "ups.status"@ != "input.frequency"@,
        "ups.status"@ != "output.frequency"@,
        "ups.model"@ != "ups.mfr"@,
        "ups.model"@ != "ups.serial"@,
        "ups.model"@ != "ups.type"@,
        "ups.model"@ != "ups.load"@,
        "ups.model"@ != "ups.realpower"@,
        "ups.model"@ != "battery.charge"@,
        "ups.model"@ != "battery.runtime"@,
        "ups.model"@ != "battery.voltage"@,
        "ups.model"@ != "input.voltage"@,
        "ups.model"@ != "output.voltage"@,
        "ups.model"@ != "input.frequency"@,
        "ups.model"@ != "output.frequency"@,
        "ups.mfr"@ != "ups.serial"@,
        "ups.mfr"@ != "ups.type"@,
        "ups.mfr"@ != "ups.load"@,
        "ups.mfr"@ != "ups.realpower"@,
        "ups.mfr"@ != "battery.charge"@,
        "ups.mfr"@ != "battery.runtime"@,
        "ups.mfr"@ != "battery.voltage"@,
        "ups.mfr"@ != "input.voltage"@,
        "ups.mfr"@ != "output.voltage"@,
        "ups.mfr"@ != "input.frequency"@,
        "ups.mfr"@ != "output.frequency"@,
        "ups.serial"@ != "ups.type"@,
        "ups.serial"@ != "ups.load"@,
        "ups.serial"@ != "ups.realpower"@,
        "ups.serial"@ != "battery.charge"@,
        "ups.serial"@ != "battery.runtime"@,
        "ups.serial"@ != "battery.voltage"@,
        "ups.serial"@ != "input.voltage"@,
        "ups.serial"@ != "output.voltage"@,
        "ups.serial"@ != "input.frequency"@,
        "ups.serial"@ != "output.frequency"@,
        "ups.type"@ != "ups.load"@,
        "ups.type"@ != "ups.realpower"@,
        "ups.type"@ != "battery.charge"@,
        "ups.type"@ != "battery.runtime"@,
        "ups.type"@ != "battery.voltage"@,
        "ups.type"@ != "input.voltage"@,
        "ups.type"@ != "output.voltage"@,
        "ups.type"@ != "input.frequency"@,
        "ups.type"@ != "output.frequency"@,
        "ups.load"@ != "ups.realpower"@,
        "ups.load"@ != "battery.charge"@,
        "ups.load"@ != "battery.runtime"@,
        "ups.load"@ != "battery.voltage"@,
        "ups.load"@ != "input.voltage"@,
        "ups.load"@ != "output.voltage"@,
        "ups.load"@ != "input.frequency"@,
        "ups.load"@ != "output.frequency"@,
        "ups.realpower"@ != "battery.charge"@,
        "ups.realpower"@ != "battery.runtime"@,
        "ups.realpower"@ != "battery.voltage"@,
        "ups.realpower"@ != "input.voltage"@,
        "ups.realpower"@ != "output.voltage"@,
        "ups.realpower"@ != "input.frequency"@,
        "ups.realpower"@ != "output.frequency"@,
        "battery.charge"@ != "battery.runtime"@,
        "battery.charge"@ != "battery.voltage"@,
        "battery.charge"@ != "input.voltage"@,
        "battery.charge"@ != "output.voltage"@,
        "battery.charge"@ != "input.frequency"@,
        "battery.charge"@ != "output.frequency"@,
        "battery.runtime"@ != "battery.voltage"@,
        "battery.runtime"@ != "input.voltage"@,
        "battery.runtime"@ != "output.voltage"@,
        "battery.runtime"@ != "input.frequency"@,
        "battery.runtime"@ != "output.frequency"@,
        "battery.voltage"@ != "input.voltage"@,
        "battery.voltage"@ != "output.voltage"@,
        "battery.voltage"@ != "input.frequency"@,
        "battery.voltage"@ != "output.frequency"@,
        "input.voltage"@ != "output.voltage"@,
        "input.voltage"@ != "input.frequency"@,
        "input.voltage"@ != "output.frequency"@,
        "output.voltage"@ != "input.frequency"@,
        "output.voltage"@ != "output.frequency"@,
        "input.frequency"@ != "output.frequency"@,
{
    reveal_strlit("ups.status");
    reveal_strlit("ups.model");
    reveal_strlit("ups.mfr");
    reveal_strlit("ups.serial");
    reveal_strlit("ups.type");
    reveal_strlit("ups.load");
    reveal_strlit("ups.realpower");
    reveal_strlit("battery.charge");
    reveal_strlit("battery.runtime");
    reveal_strlit("battery.voltage");
    reveal_strlit("input.voltage");
    reveal_strlit("output.voltage");
    reveal_strlit("input.frequency");
    reveal_strlit("output.frequency");
    assert("ups.status"@.len() != "ups.model"@.len());
    assert("ups.status"@.len() != "ups.mfr"@.len());
    assert("ups.status"@[5] != "ups.serial"@[5]);
    assert("ups.status"@.len() != "ups.type"@.len());
    assert("ups.status"@.len() != "ups.load"@.len());
    assert("ups.status"@.len() != "ups.realpower"@.len());
    assert("ups.status"@.len() != "battery.charge"@.len());
    assert("ups.status"@.len() != "battery.runtime"@.len());
    assert("ups.status"@.len() != "battery.voltage"@.len());
    assert("ups.status"@.len() != "input.voltage"@.len());
    assert("ups.status"@.len() != "output.voltage"@.len());
    assert("ups.status"@.len() != "input.frequency"@.len());
    assert("ups.status"@.len() != "output.frequency"@.len());
    assert("ups.model"@.len() != "ups.mfr"@.len());
    assert("ups.model"@.len() != "ups.serial"@.len());
    assert("ups.model"@.len() != "ups.type"@.len());
    assert("ups.model"@.len() != "ups.load"@.len());
    assert("ups.model"@.len() != "ups.realpower"@.len());
    assert("ups.model"@.len() != "battery.charge"@.len());
    assert("ups.model"@.len() != "battery.runtime"@.len());
    assert("ups.model"@.len() != "battery.voltage"@.len());
    assert("ups.model"@.len() != "input.voltage"@.len());
    assert("ups.model"@.len() != "output.voltage"@.len());
    assert("ups.model"@.len() != "input.frequency"@.len());
    assert("ups.model"@.len() != "output.frequency"@.len());
    assert("ups.mfr"@.len() != "ups.serial"@.len());
    assert("ups.mfr"@.len() != "ups.type"@.len());
    assert("ups.mfr"@.len() != "ups.load"@.len());
    assert("ups.mfr"@.len() != "ups.realpower"@.len());
    assert("ups.mfr"@.len() != "battery.charge"@.len());
    assert("ups.mfr"@.len() != "battery.runtime"@.len());
    assert("ups.mfr"@.len() != "battery.voltage"@.len());
    assert("ups.mfr"@.len() != "input.voltage"@.len());
    assert("ups.mfr"@.len() != "output.voltage"@.len());
    assert("ups.mfr"@.len() != "input.frequency"@.len());
    assert("ups.mfr"@.len() != "output.frequency"@.len());
    assert("ups.serial"@.len() != "ups.type"@.len());
    assert("ups.serial"@.len() != "ups.load"@.len());
    assert("ups.serial"@.len() != "ups.realpower"@.len());
    assert("ups.serial"@.len() != "battery.charge"@.len());
    assert("ups.serial"@.len() != "battery.runtime"@.len());
    assert("ups.serial"@.len() != "battery.voltage"@.len());
    assert("ups.serial"@.len() != "input.voltage"@.len());
    assert("ups.serial"@.len() != "output.voltage"@.len());
    assert("ups.serial"@.len() != "input.frequency"@.len());
    assert("ups.serial"@.len() != "output.frequency"@.len());
    assert("ups.type"@[4] != "ups.load"@[4]);
    assert("ups.type"@.len() != "ups.realpower"@.len());
    assert("ups.type"@.len() != "battery.charge"@.len());
    assert("ups.type"@.len() != "battery.runtime"@.len());
    assert("ups.type"@.len() != "battery.voltage"@.len());
    assert("ups.type"@.len() != "input.voltage"@.len());
    assert("ups.type"@.len() != "output.voltage"@.len());
    assert("ups.type"@.len() != "input.frequency"@.len());
    assert("ups.type"@.len() != "output.frequency"@.len());
    assert("ups.load"@.len() != "ups.realpower"@.len());
    assert("ups.load"@.len() != "battery.charge"@.len());
    assert("ups.load"@.len() != "battery.runtime"@.len());
    assert("ups.load"@.len() != "battery.voltage"@.len());
    assert("ups.load"@.len() != "input.voltage"@.len());
    assert("ups.load"@.len() != "output.voltage"@.len());
    assert("ups.load"@.len() != "input.frequency"@.len());
    assert("ups.load"@.len() != "output.frequency"@.len());
    assert("ups.realpower"@.len() != "battery.charge"@.len());
    assert("ups.realpower"@.len() != "battery.runtime"@.len());
    assert("ups.realpower"@.len() != "battery.voltage"@.len());
    assert("ups.realpower"@[0] != "input.voltage"@[0]);
    assert("ups.realpower"@.len() != "output.voltage"@.len());
    assert("ups.realpower"@.len() != "input.frequency"@.len());
    assert("ups.realpower"@.len() != "output.frequency"@.len());
    assert("battery.charge"@.len() != "battery.runtime"@.len());
    assert("battery.charge"@.len() != "battery.voltage"@.len());
    assert("battery.charge"@.len() != "input.voltage"@.len());
    assert("battery.charge"@[0] != "output.voltage"@[0]);
    assert("battery.charge"@.len() != "input.frequency"@.len());
    assert("battery.charge"@.len() != "output.frequency"@.len());
    assert("battery.runtime"@[8] != "battery.voltage"@[8]);
    assert("battery.runtime"@.len() != "input.voltage"@.len());
    assert("battery.runtime"@.len() != "output.voltage"@.len());
    assert("battery.runtime"@[0] != "input.frequency"@[0]);
    assert("battery.runtime"@.len() != "output.frequency"@.len());
    assert("battery.voltage"@.len() != "input.voltage"@.len());
    assert("battery.voltage"@.len() != "output.voltage"@.len());
    assert("battery.voltage"@[0] != "input.frequency"@[0]);
    assert("battery.voltage"@.len() != "output.frequency"@.len());
    assert("input.voltage"@.len() != "output.voltage"@.len());
    assert("input.voltage"@.len() != "input.frequency"@.len());
    assert("input.voltage"@.len() != "output.frequency"@.len());
    assert("output.voltage"@.len() != "input.frequency"@.len());
    assert("output.voltage"@.len() != "output.frequency"@.len());
    assert("input.frequency"@.len() != "output.frequency"@.len());
}

impl UpsInfo {
    /// Whether this is the summary of the table `m` of the device `name`:
    /// each well-known variable stands in its field, and `extra` lists the
    /// other entries of `m` in ascending order.
    pub open spec fn summarizes(&self, name: Seq<char>, m: Map<Seq<char>, Seq<char>>) -> bool {
        &&& self.ups_name@ == name
        &&& text_of(self.status) == lookup(m, "ups.status"@)
        &&& text_of(self.model) == lookup(m, "ups.model"@)
        &&& text_of(self.manufacturer) == lookup(m, "ups.mfr"@)
        &&& text_of(self.serial) == lookup(m, "ups.serial"@)
        &&& text_of(self.ups_type) == lookup(m, "ups.type"@)
        &&& text_of(self.load_percent) == lookup(m, "ups.load"@)
        &&& text_of(self.realpower_watts) == lookup(m, "ups.realpower"@)
        &&& text_of(self.battery_charge_percent) == lookup(m, "battery.charge"@)
        &&& text_of(self.battery_runtime_seconds) == lookup(m, "battery.runtime"@)
        &&& text_of(self.battery_voltage) == lookup(m, "battery.voltage"@)
        &&& text_of(self.input_voltage) == lookup(m, "input.voltage"@)
        &&& text_of(self.output_voltage) == lookup(m, "output.voltage"@)
        &&& text_of(self.input_frequency_hz) == lookup(m, "input.frequency"@)
        &&& text_of(self.output_frequency_hz) == lookup(m, "output.frequency"@)
        &&& ascending(pairs_of(self.extra@))
        &&& lists(pairs_of(self.extra@), rest_of(m))
    }

    /// The value that the summary holds for the variable `key`: that of the
    /// field of a well-known variable, else that of the entry of `extra`.
    pub open spec fn field(&self, key: Seq<char>) -> Option<Seq<char>> {
        if key == "ups.status"@ {
            text_of(self.status)
        } else if key == "ups.model"@ {
            text_of(self.model)
        } else if key == "ups.mfr"@ {
            text_of(self.manufacturer)
        } else if key == "ups.serial"@ {
            text_of(self.serial)
        } else if key == "ups.type"@ {
            text_of(self.ups_type)
        } else if key == "ups.load"@ {
            text_of(self.load_percent)
        } else if key == "ups.realpower"@ {
            text_of(self.realpower_watts)
        } else if key == "battery.charge"@ {
            text_of(self.battery_charge_percent)
        } else if key == "battery.runtime"@ {
            text_of(self.battery_runtime_seconds)
        } else if key == "battery.voltage"@ {
            text_of(self.battery_voltage)
        } else if key == "input.voltage"@ {
            text_of(self.input_voltage)
        } else if key == "output.voltage"@ {
            text_of(self.output_voltage)
        } else if key == "input.frequency"@ {
            text_of(self.input_frequency_hz)
        } else if key == "output.frequency"@ {
            text_of(self.output_frequency_hz)
        } else {
            value_in(pairs_of(self.extra@), key)
        }
    }

    /// Sorts the variables of a device into a summary. The well-known
    /// variables leave the table for their fields; what is left becomes
    /// `extra`, in ascending order of the names.
    pub fn from_var_map(ups_name: &str, vars: VariableTable) -> (info: UpsInfo)
        ensures
            info.summarizes(ups_name@, vars@),
    {
        let ghost m = vars@;
        let mut vars = vars;
        proof {
            lemma_names_differ();
        }
        let status = vars.remove("ups.status");
        let model = vars.remove("ups.model");
        let manufacturer = vars.remove("ups.mfr");
        let serial = vars.remove("ups.serial");
        let ups_type = vars.remove("ups.type");
        assert(text_of(ups_type) == lookup(m, "ups.type"@));

        let load_percent = vars.remove("ups.load");
        let realpower_watts = vars.remove("ups.realpower");

        let battery_charge_percent = vars.remove("battery.charge");
        let battery_runtime_seconds = vars.remove("battery.runtime");
        let battery_voltage = vars.remove("battery.voltage");
        assert(text_of(battery_voltage) == lookup(m, "battery.voltage"@));

        let input_voltage = vars.remove("input.voltage");
        let output_voltage = vars.remove("output.voltage");
        let input_frequency_hz = vars.remove("input.frequency");
        let output_frequency_hz = vars.remove("output.frequency");
        assert(text_of(output_frequency_hz) == lookup(m, "output.frequency"@));

        assert(vars@ =~= rest_of(m));
        let extra = vars.sorted();

        UpsInfo {
            ups_name: ups_name.to_owned(),
            status,
            model,
            manufacturer,
            serial,
            ups_type,
            load_percent,
            realpower_watts,
            battery_charge_percent,
            battery_runtime_seconds,
            battery_voltage,
            input_voltage,
            output_voltage,
            input_frequency_hz,
            output_frequency_hz,
            extra,
        }
    }
}

/// A summary loses nothing and repeats nothing: read by variable name, the
/// summary of a table gives what the table gives, no entry of `extra` is
/// well known, and no name occurs twice in `extra`.
pub proof fn summary_keeps_every_variable(info: UpsInfo, name: Seq<char>, m: Map<Seq<char>, Seq<char>>)
    requires
        info.summarizes(name, m),
    ensures
        forall|k: Seq<char>| info.field(k) == lookup(m, k),
        forall|i: int| 0 <= i < info.extra@.len() ==> !well_known(#[trigger] pairs_of(info.extra@)[i].0),
        distinct_names(pairs_of(info.extra@)),
{
    let extra = pairs_of(info.extra@);
    assert forall|i: int| 0 <= i < extra.len() implies !well_known(#[trigger] extra[i].0) by {
        assert(rest_of(m).contains_key(extra[i].0));
    }
    assert forall|i: int, j: int| 0 <= i < j < extra.len() implies #[trigger] extra[i].0
        != #[trigger] extra[j].0 by {
        precedes_is_irreflexive(extra[i].0);
    }
    assert forall|k: Seq<char>| info.field(k) == lookup(m, k) by {
        if !well_known(k) {
            if m.contains_key(k) {
                assert(rest_of(m).contains_key(k));
                let c = choose|i: int| 0 <= i < extra.len() && #[trigger] extra[i].0 == k;
                assert(rest_of(m)[extra[c].0] == extra[c].1);
            } else {
                if exists|i: int| 0 <= i < extra.len() && #[trigger] extra[i].0 == k {
                    let c = choose|i: int| 0 <= i < extra.len() && #[trigger] extra[i].0 == k;
                    assert(rest_of(m).contains_key(extra[c].0));
                }
            }
        }
    }
}

} // verus!
