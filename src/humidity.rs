use vstd::prelude::*;

verus! {

/// The humidity measure that feeds the Universal Thermal Climate Index.
#[derive(Clone, Copy, Debug, PartialEq)]
pub enum HumidityInput<T> {
    /// A water vapour pressure given directly, in hPa.
    VapourPressure(T),
    /// A dew point temperature in Kelvin, from which the vapour pressure is
    /// derived.
    DewPoint(T),
}

/// Errors of the index evaluation, distinct from an undefined result.
#[derive(Clone, Copy, Debug, PartialEq, Eq, Structural)]
pub enum ThermalError {
    /// Neither a dew point nor a vapour pressure was supplied.
    MissingHumidityInput,
}

/// The measure that the resolution policy selects: a supplied vapour
/// pressure wins; otherwise a supplied dew point; otherwise nothing.
pub open spec fn resolved_humidity<T>(dew_point: Option<T>, vapour_pressure: Option<T>) -> Result<
    HumidityInput<T>,
    ThermalError,
> {
    match vapour_pressure {
        Some(v) => Ok(HumidityInput::VapourPressure(v)),
        None => match dew_point {
            Some(d) => Ok(HumidityInput::DewPoint(d)),
            None => Err(ThermalError::MissingHumidityInput),
        },
    }
}

/// Selects the humidity measure for the Universal Thermal Climate Index.
///
/// A vapour pressure, when given, is used as it stands, whether or not a dew
/// point is given too. Without one the dew point is used. With neither the
/// evaluation cannot proceed, and the result is
/// `ThermalError::MissingHumidityInput`.
pub fn resolve_humidity_input<T>(dew_point: Option<T>, vapour_pressure: Option<T>) -> (r: Result<
    HumidityInput<T>,
    ThermalError,
>)
    ensures
        r == resolved_humidity(dew_point, vapour_pressure),
        r is Err <==> (dew_point is None && vapour_pressure is None),
        vapour_pressure is Some ==> r == Ok::<HumidityInput<T>, ThermalError>(
            HumidityInput::VapourPressure(vapour_pressure->0),
        ),
        (vapour_pressure is None && dew_point is Some) ==> r == Ok::<
            HumidityInput<T>,
            ThermalError,
        >(HumidityInput::DewPoint(dew_point->0)),
{
    match vapour_pressure {
        Some(v) => Ok(HumidityInput::VapourPressure(v)),
        None => match dew_point {
            Some(d) => Ok(HumidityInput::DewPoint(d)),
            None => Err(ThermalError::MissingHumidityInput),
        },
    }
}

} // verus!
