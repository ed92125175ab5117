use spatial_audio::{is_blank_source, Observation, Readiness};

#[test]
fn levels_map_to_readiness() {
    assert_eq!(Readiness::from_level(0), Readiness::Nothing);
    assert_eq!(Readiness::from_level(1), Readiness::Metadata);
    assert_eq!(Readiness::from_level(2), Readiness::CurrentData);
    assert_eq!(Readiness::from_level(3), Readiness::FutureData);
    assert_eq!(Readiness::from_level(4), Readiness::EnoughData);
    assert_eq!(Readiness::from_level(9), Readiness::EnoughData);
}

#[test]
fn threshold_is_future_data() {
    assert!(!Readiness::Nothing.is_ready());
    assert!(!Readiness::Metadata.is_ready());
    assert!(!Readiness::CurrentData.is_ready());
    assert!(Readiness::FutureData.is_ready());
    assert!(Readiness::EnoughData.is_ready());
}

#[test]
fn blank_sources() {
    assert!(is_blank_source(""));
    assert!(is_blank_source(" "));
    assert!(is_blank_source(" \t\r\n "));
    assert!(!is_blank_source("a.ogg"));
    assert!(!is_blank_source("  a.ogg  "));
}

#[test]
fn observation_reads_raw_properties() {
    let o = Observation::read("  ", false, 2);
    assert!(!o.has_source);
    assert!(!o.paused);
    assert_eq!(o.readiness, Readiness::CurrentData);
    let o = Observation::read("https://example.org/x.ogg", true, 3);
    assert!(o.has_source);
    assert!(o.paused);
    assert!(o.readiness.is_ready());
}
