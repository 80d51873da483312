use bdk::FeeRate;
use fee_spec::FeeSpec;

#[test]
fn height_is_written_with_its_prefix() {
    assert_eq!(FeeSpec::Height(5).to_string(), "in-blocks:5");
    assert_eq!(FeeSpec::Height(0).to_string(), "in-blocks:0");
    assert_eq!(FeeSpec::Height(10).to_string(), "in-blocks:10");
    assert_eq!(FeeSpec::Height(u32::MAX).to_string(), "in-blocks:4294967295");
}

#[test]
fn rate_is_written_as_a_bare_number() {
    assert_eq!(
        FeeSpec::Rate(FeeRate::from_sat_per_vb(3.5)).to_string(),
        "rate:3.5"
    );
    assert_eq!(
        FeeSpec::Rate(FeeRate::from_sat_per_vb(1.0)).to_string(),
        "rate:1"
    );
    assert_eq!(
        FeeSpec::Rate(FeeRate::from_sat_per_vb(0.25)).to_string(),
        "rate:0.25"
    );
}

#[test]
fn absolute_is_written_with_its_unit() {
    assert_eq!(FeeSpec::Absolute(300).to_string(), "abs:0.00000300 BTC");
    assert_eq!(FeeSpec::Absolute(0).to_string(), "abs:0.00000000 BTC");
    assert_eq!(
        FeeSpec::Absolute(123_456_789_012).to_string(),
        "abs:1234.56789012 BTC"
    );
}

#[test]
fn height_round_trips() {
    for blocks in [0u32, 1, 2, 9, 10, 11, 99, 100, 144, 1008, 65_535, 4_294_967_294, u32::MAX] {
        let spec = FeeSpec::Height(blocks);
        assert_eq!(FeeSpec::from_str(&spec.to_string()), Ok(spec));
    }
}

#[test]
fn rate_round_trips() {
    for rate in [
        0.0f32,
        1.0,
        3.5,
        0.1,
        0.001,
        1.0e-10,
        12345.678,
        1.0e20,
        f32::MAX,
        f32::MIN_POSITIVE,
        f32::INFINITY,
    ] {
        let spec = FeeSpec::Rate(FeeRate::from_sat_per_vb(rate));
        assert_eq!(FeeSpec::from_str(&spec.to_string()), Ok(spec));
    }
}

#[test]
fn absolute_round_trips() {
    for sat in [0u64, 1, 300, 99_999_999, 100_000_000, 2_100_000_000_000_000, i64::MAX as u64] {
        let spec = FeeSpec::Absolute(sat);
        assert_eq!(FeeSpec::from_str(&spec.to_string()), Ok(spec));
    }
}

#[test]
fn default_round_trips() {
    let spec = FeeSpec::default();
    assert_eq!(spec.to_string(), "in-blocks:1");
    assert_eq!(FeeSpec::from_str("in-blocks:1"), Ok(spec));
}
