use sine_generator::WavSpec;

#[test]
fn new_is_some() {
    let spec = WavSpec::new(1, 44100, 8);
    assert!(spec.is_some());
    let spec = WavSpec::new(1, 44100, 16);
    assert!(spec.is_some());
    let spec = WavSpec::new(2, 44100, 8);
    assert!(spec.is_some());
    let spec = WavSpec::new(2, 44100, 16);
    assert!(spec.is_some());
}

#[test]
fn new_is_none() {
    let spec = WavSpec::new(0, 44100, 8);
    assert!(spec.is_none());
    let spec = WavSpec::new(1, 44100, 24);
    assert!(spec.is_none());
}
