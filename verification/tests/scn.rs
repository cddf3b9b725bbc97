use physis::scn::ScnLayerSetsSection;

#[test]
fn test_scnlayersetssection_size() {
    assert!(std::mem::size_of::<ScnLayerSetsSection>() > 0);
}
