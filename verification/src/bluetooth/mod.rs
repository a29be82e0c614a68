//! Bluetooth Low Energy: advertisement beacons and radio test patterns.

pub mod beacon;
pub mod test_patterns;
