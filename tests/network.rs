use fuel_sim::actuator::{Pump, Valve};
use fuel_sim::fuel_system::{FuelSystem, TankId, PUMP_COUNT};
use fuel_sim::tank::Tank;

#[test]
fn tank_clamps_at_capacity_and_at_zero() {
    let mut t = Tank::new(100);
    assert_eq!(t.capacity(), 100);
    assert_eq!(t.current_volume(), 0);
    t.add_fuel(150);
    assert_eq!(t.current_volume(), 100);
    t.remove_fuel(200);
    assert_eq!(t.current_volume(), 0);
}

#[test]
fn tank_adds_and_removes_within_bounds() {
    let mut t = Tank::new(1_000);
    t.add_fuel(300);
    t.add_fuel(200);
    assert_eq!(t.current_volume(), 500);
    t.remove_fuel(120);
    assert_eq!(t.current_volume(), 380);
    t.add_fuel(620);
    assert_eq!(t.current_volume(), 1_000);
    t.add_fuel(u64::MAX);
    assert_eq!(t.current_volume(), 1_000);
    assert_eq!(t.capacity(), 1_000);
}

#[test]
fn pump_toggles() {
    let mut p = Pump::new();
    assert!(!p.is_active());
    p.activate();
    assert!(p.is_active());
    p.deactivate();
    assert!(!p.is_active());
}

#[test]
fn valve_toggles() {
    let mut v = Valve::new();
    assert!(!v.is_open());
    v.open();
    assert!(v.is_open());
    v.close();
    assert!(!v.is_open());
}

#[test]
fn new_fuel_system_layout() {
    let fs = FuelSystem::new();
    let ids = [
        TankId::Center,
        TankId::LeftInner,
        TankId::LeftOuter,
        TankId::RightInner,
        TankId::RightOuter,
    ];
    let liters: Vec<u64> = ids.iter().map(|id| fs.tank(*id).capacity() / 1_000_000).collect();
    assert_eq!(liters, vec![24_000, 15_000, 5_000, 15_000, 5_000]);
    for id in ids {
        assert_eq!(fs.tank(id).current_volume(), 0);
    }
    assert!(!fs.crossfeed_valve().is_open());
    assert_eq!(fs.pump_count(), 5);
    assert_eq!(PUMP_COUNT, 5);
    for i in 0..fs.pump_count() {
        assert!(!fs.pump(i).is_active());
    }
}

#[test]
fn update_leaves_the_network_as_it_is() {
    let mut fs = FuelSystem::new();
    fs.update(1_000);
    assert_eq!(fs.tank(TankId::Center).capacity(), 24_000_000_000);
    assert_eq!(fs.tank(TankId::RightOuter).current_volume(), 0);
    assert!(!fs.crossfeed_valve().is_open());
    assert_eq!(fs.pump_count(), 5);
}
