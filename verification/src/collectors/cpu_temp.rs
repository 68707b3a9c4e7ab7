//! The CPU temperature as a reading that is ready to be written.

use vstd::prelude::*;

verus! {

/// A CPU temperature in degrees Celsius, held as the two notations of its
/// value in which the agent writes it. Whoever reads the sensor makes both
/// from the one number read, so that every finite reading can be held.
#[derive(Debug)]
pub struct Temperature {
    /// The value as a decimal number, as the exposition text shows it.
    pub celsius: String,
    /// The value as a JSON number, as the pushed document shows it.
    pub celsius_json: String,
}

/// A temperature with its notations as sequences of characters.
pub struct TemperatureView {
    pub celsius: Seq<char>,
    pub celsius_json: Seq<char>,
}

impl View for Temperature {
    type V = TemperatureView;

    open spec fn view(&self) -> TemperatureView {
        TemperatureView { celsius: self.celsius@, celsius_json: self.celsius_json@ }
    }
}

impl Clone for Temperature {
    fn clone(&self) -> (r: Self)
        ensures
            r@ == self@,
    {
        Temperature { celsius: self.celsius.clone(), celsius_json: self.celsius_json.clone() }
    }
}

/// The view of a reading that may be absent.
pub open spec fn reading_view(reading: Option<Temperature>) -> Option<TemperatureView> {
    match reading {
        Some(t) => Some(t@),
        None => None,
    }
}

/// A copy of a reading that may be absent.
pub fn clone_reading(reading: &Option<Temperature>) -> (r: Option<Temperature>)
    ensures
        reading_view(r) == reading_view(*reading),
{
    match reading {
        Some(t) => Some(t.clone()),
        None => None,
    }
}

} // verus!
