use selene::params::{Parameters, DEFAULT_AMPLITUDE_BITS};

#[test]
fn default_store_values() {
    let p = Parameters::default();
    assert_eq!(p.get_parameter(0), DEFAULT_AMPLITUDE_BITS);
    assert_eq!(f32::from_bits(p.get_parameter(0)), 0.75f32);
    for i in 1..=16 {
        assert_eq!(f32::from_bits(p.get_parameter(i)), 0.0f32);
    }
}

#[test]
fn set_then_get_round_trips_every_slot() {
    let mut p = Parameters::default();
    for i in 0..=16i32 {
        let val = (0.03125f32 * i as f32).to_bits();
        p.set_parameter(i, val);
        assert_eq!(p.get_parameter(i), val);
    }
    // Later writes left the earlier slots alone.
    for i in 0..=16i32 {
        let val = (0.03125f32 * i as f32).to_bits();
        assert_eq!(p.get_parameter(i), val);
    }
}

#[test]
fn out_of_range_reads_as_zero() {
    let p = Parameters::default();
    assert_eq!(f32::from_bits(p.get_parameter(17)), 0.0f32);
    assert_eq!(f32::from_bits(p.get_parameter(-1)), 0.0f32);
}

#[test]
fn out_of_range_write_has_no_effect() {
    let mut p = Parameters::default();
    let before: Vec<u32> = (0..=16).map(|i| p.get_parameter(i)).collect();
    p.set_parameter(17, 0.5f32.to_bits());
    p.set_parameter(-1, 0.5f32.to_bits());
    let after: Vec<u32> = (0..=16).map(|i| p.get_parameter(i)).collect();
    assert_eq!(before, after);
}

#[test]
fn parameter_names() {
    let p = Parameters::default();
    assert_eq!(p.get_parameter_name(0), "Oscillator A Amplitude");
    assert_eq!(p.get_parameter_name(1), "Oscillator A Partial 1");
    assert_eq!(p.get_parameter_name(7), "Oscillator A Partial 7");
    assert_eq!(p.get_parameter_name(16), "Oscillator A Partial 16");
    assert_eq!(p.get_parameter_name(17), "");
    assert_eq!(p.get_parameter_name(-1), "");
}
