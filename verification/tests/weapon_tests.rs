use multi_transport::weapon::{Score, Weapon, WeaponType};

#[test]
fn weapon_cycle() {
    assert_eq!(WeaponType::default(), WeaponType::Hitscan);
    assert_eq!(WeaponType::Hitscan.next(), WeaponType::Bullet);
    assert_eq!(WeaponType::Bullet.next(), WeaponType::Hitscan);
    for w in [WeaponType::Hitscan, WeaponType::Bullet] {
        assert_ne!(w.next(), w);
        assert_eq!(w.next().next(), w);
    }
}

#[test]
fn weapon_names_and_rates() {
    assert_eq!(WeaponType::Hitscan.name(), "Hitscan");
    assert_eq!(WeaponType::Bullet.name(), "Linear Projectile");
    assert_eq!(WeaponType::Hitscan.fire_rate(), 5);
    assert_eq!(WeaponType::Bullet.fire_rate(), 2);
}

#[test]
fn weapon_starts_unfired() {
    assert_eq!(Weapon::default().last_fire_tick, None);
}

#[test]
fn hits_add_up() {
    let mut s = Score(0);
    s.record_hit();
    s.record_hit();
    assert_eq!(s, Score(2));
}
