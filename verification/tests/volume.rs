use vollibrespot::volume::{initial_volume, nearest_percent, percent_in_range, volume_from_percent};
use vollibrespot::volume::volume_percent;
use vollibrespot::volume::{VolumePercent, VOLUME_MAX};

#[test]
fn half_volume_is_32768() {
    assert_eq!(volume_from_percent(50), 32768);
}

#[test]
fn the_ends_of_the_scale() {
    assert_eq!(VOLUME_MAX, 65535);
    assert_eq!(volume_from_percent(0), 0);
    assert_eq!(volume_from_percent(100), 65535);
    assert_eq!(volume_percent(0), VolumePercent { whole: 0, rest: 0 });
    assert_eq!(volume_percent(65535), VolumePercent { whole: 100, rest: 0 });
}

#[test]
fn scaling_rounds_to_the_nearest_step() {
    // 1 % is 655.35, 99 % is 64879.65, 33 % is 21626.55
    assert_eq!(volume_from_percent(1), 655);
    assert_eq!(volume_from_percent(99), 64880);
    assert_eq!(volume_from_percent(33), 21627);
}

#[test]
fn an_operand_above_100_is_cut_to_16_bits() {
    assert_eq!(volume_from_percent(200), 65534);
    assert_eq!(volume_from_percent(255), 36042);
}

#[test]
fn the_percentage_is_the_volume_over_65535_times_100() {
    assert_eq!(volume_percent(32768), VolumePercent { whole: 50, rest: 50 });
    assert_eq!(volume_percent(1), VolumePercent { whole: 0, rest: 100 });
    assert_eq!(volume_percent(655), VolumePercent { whole: 0, rest: 65500 });
    assert_eq!(volume_percent(656), VolumePercent { whole: 1, rest: 65 });
    for raw in 0..=u16::MAX {
        let p = volume_percent(raw);
        assert!(p.rest < 65535);
        assert_eq!(p.whole as u64 * 65535 + p.rest as u64, raw as u64 * 100);
        let float = raw as f64 / 65535.0 * 100.0;
        let exact = p.whole as f64 + p.rest as f64 / 65535.0;
        assert!((float - exact).abs() < 1e-9);
    }
}

#[test]
fn the_percentage_grows_with_the_volume() {
    let mut last = volume_percent(0);
    for raw in 1..=u16::MAX {
        let p = volume_percent(raw);
        assert!((p.whole, p.rest) > (last.whole, last.rest));
        last = p;
    }
}

#[test]
fn a_percentage_sent_back_is_found_again() {
    for percent in 0..=100u8 {
        let raw = volume_from_percent(percent);
        let exact = percent as i64 * 65535;
        assert!((raw as i64 * 100 - exact).abs() <= 50);
        assert_eq!(nearest_percent(raw), percent);
    }
}

#[test]
fn nearest_percent_of_some_volumes() {
    assert_eq!(nearest_percent(0), 0);
    assert_eq!(nearest_percent(327), 0);
    assert_eq!(nearest_percent(328), 1);
    assert_eq!(nearest_percent(32768), 50);
    assert_eq!(nearest_percent(65535), 100);
}

#[test]
fn the_initial_volume_is_cut_off_not_rounded() {
    assert_eq!(initial_volume(50), 32767);
    assert_eq!(initial_volume(0), 0);
    assert_eq!(initial_volume(100), 65535);
    assert_eq!(initial_volume(1), 655);
    assert_eq!(initial_volume(200), 65534);
}

#[test]
fn a_percentage_is_at_most_100() {
    assert!(percent_in_range(0));
    assert!(percent_in_range(100));
    assert!(!percent_in_range(101));
    assert!(!percent_in_range(u16::MAX));
}
