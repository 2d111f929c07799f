//! Resources: what every resource type provides, and the resource types
//! themselves.

pub mod adsb;
pub mod asset_group;
pub mod base;
pub mod group;
pub mod itinerary_flight_plan;
pub mod user;
pub mod user_group;
pub mod vehicle_group;
pub mod vertipad;
