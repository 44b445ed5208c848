//! Points on the map.
use crate::json::{as_decimal, member, opt_member_decimal, opt_member_i64, Decimal, Json, JsonValue};
use vstd::prelude::*;

verus! {

/// The model of a location.
pub struct LocationView {
    pub longitude: Decimal,
    pub latitude: Decimal,
    pub horizontal_accuracy: Option<Decimal>,
    pub live_period: Option<i64>,
    pub heading: Option<i64>,
    pub proximity_alert_radius: Option<i64>,
}

/// A point on the map, in degrees.
#[derive(Clone, Copy, Debug, PartialEq, Eq, Structural)]
pub struct Location {
    pub longitude: Decimal,
    pub latitude: Decimal,
    /// Radius of uncertainty in meters, 0-1500.
    pub horizontal_accuracy: Option<Decimal>,
    /// Seconds for which a live location can be updated.
    pub live_period: Option<i64>,
    /// Direction of movement in degrees, 1-360.
    pub heading: Option<i64>,
    /// Distance in meters for proximity alerts.
    pub proximity_alert_radius: Option<i64>,
}

impl View for Location {
    type V = LocationView;

    open spec fn view(&self) -> LocationView {
        LocationView {
            longitude: self.longitude,
            latitude: self.latitude,
            horizontal_accuracy: self.horizontal_accuracy,
            live_period: self.live_period,
            heading: self.heading,
            proximity_alert_radius: self.proximity_alert_radius,
        }
    }
}

/// The location a JSON object holds.
pub open spec fn location_of_json(j: Json) -> Option<LocationView> {
    match (
        as_decimal(member(j, "longitude"@)),
        as_decimal(member(j, "latitude"@)),
        opt_member_decimal(j, "horizontal_accuracy"@),
        opt_member_i64(j, "live_period"@),
        opt_member_i64(j, "heading"@),
        opt_member_i64(j, "proximity_alert_radius"@),
    ) {
        (
            Some(longitude),
            Some(latitude),
            Some(horizontal_accuracy),
            Some(live_period),
            Some(heading),
            Some(proximity_alert_radius),
        ) => Some(
            LocationView {
                longitude,
                latitude,
                horizontal_accuracy,
                live_period,
                heading,
                proximity_alert_radius,
            },
        ),
        _ => None,
    }
}

/// An optional location member: absent or `null` gives `Some(None)`.
pub open spec fn opt_location(j: Json, k: Seq<char>) -> Option<Option<LocationView>> {
    match member(j, k) {
        None => Some(None),
        Some(Json::Null) => Some(None),
        Some(v) => match location_of_json(v) {
            Some(l) => Some(Some(l)),
            None => None,
        },
    }
}

impl Location {
    /// The location a JSON value holds.
    pub fn from_json(j: &JsonValue) -> (r: Option<Location>)
        ensures
            match location_of_json(j@) {
                Some(v) => r is Some && r->0@ == v,
                None => r is None,
            },
    {
        match (
            j.get_decimal("longitude"),
            j.get_decimal("latitude"),
            j.get_opt_decimal("horizontal_accuracy"),
            j.get_opt_i64("live_period"),
            j.get_opt_i64("heading"),
            j.get_opt_i64("proximity_alert_radius"),
        ) {
            (
                Some(longitude),
                Some(latitude),
                Some(horizontal_accuracy),
                Some(live_period),
                Some(heading),
                Some(proximity_alert_radius),
            ) => Some(
                Location {
                    longitude,
                    latitude,
                    horizontal_accuracy,
                    live_period,
                    heading,
                    proximity_alert_radius,
                },
            ),
            _ => None,
        }
    }

    /// An optional location member `key`: absent and `null` both read as `None`.
    pub fn from_member(j: &JsonValue, key: &str) -> (r: Option<Option<Location>>)
        ensures
            match opt_location(j@, key@) {
                Some(Some(v)) => r matches Some(Some(l)) && l@ == v,
                Some(None) => r matches Some(None),
                None => r is None,
            },
    {
        match j.get(key) {
            None => Some(None),
            Some(JsonValue::Null) => Some(None),
            Some(v) => match Location::from_json(v) {
                Some(l) => Some(Some(l)),
                None => None,
            },
        }
    }
}

} // verus!
