use bonding_curve::PumpError;

#[test]
fn every_rejection_has_its_message() {
    assert_eq!(PumpError::BondingCurveComplete.message(), "Bonding curve is complete");
    assert_eq!(PumpError::InsufficientTokens.message(), "Insufficient tokens");
    assert_eq!(PumpError::InvalidCalculation.message(), "Invalid calculation");
    assert_eq!(PumpError::Overflow.message(), "Overflow");
    assert_eq!(PumpError::SlippageExceeded.message(), "Slippage exceeded");
}

#[test]
fn rejections_are_distinct() {
    let all = [
        PumpError::BondingCurveComplete,
        PumpError::InsufficientTokens,
        PumpError::InvalidCalculation,
        PumpError::Overflow,
        PumpError::SlippageExceeded,
    ];
    for (i, a) in all.iter().enumerate() {
        for (j, b) in all.iter().enumerate() {
            assert_eq!(a == b, i == j);
            assert_eq!(a.message() == b.message(), i == j);
        }
    }
}
