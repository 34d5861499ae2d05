use cea708_types::Framerate;

#[test]
fn framerate_cea608_pairs_per_frame() {
    assert_eq!(Framerate::new(60, 1).cea608_pairs_per_frame(), 1);
    assert_eq!(Framerate::new(30, 1).cea608_pairs_per_frame(), 2);
}

#[test]
fn framerate_max_cc_count() {
    assert_eq!(Framerate::new(60, 1).max_cc_count(), 10);
    assert_eq!(Framerate::new(30, 1).max_cc_count(), 20);
}

#[test]
fn framerate_new() {
    let fps = Framerate::new(30, 8);
    assert_eq!(fps.numer(), 30);
    assert_eq!(fps.denom(), 8);
}
