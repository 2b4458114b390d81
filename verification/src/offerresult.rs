use vstd::prelude::*;

verus! {

/// # Reject Reason
///
/// The reason for why an offer was rejected.
///
/// Used for both testing and updating AMV based on this reason.
#[derive(Debug, PartialEq, Eq, Structural)]
pub enum RejectReason {
    /// Rejected because the AMV loss was way to large relative to
    /// the AMV gained from the offer.
    HardThresholdFailure,
    /// The catch all reason for not accepting, IE, it did not meet the the thresholds
    /// for success.
    ///
    /// Failed to increase Satisfaction, Density, or AMV
    NotAccepted,
}

/// # Accept Reason
///
/// The reason why we accepted the offer. Should only be a few reasons.
///
/// Currently for Logging and Testing purposes, but could also be used for market
/// adjustment as well.
#[derive(Debug, PartialEq, Eq, Structural)]
pub enum AcceptReason {
    /// The Price Hint offered was met, any more detailed reason is lost on us.
    PriceHint,
    /// Increases number of steps, no other reason needed.
    Steps,
    /// Satisfaction increased, no other reason needed.
    Satisfaction,
    /// Increases Density of the Satisfaction.
    Density,
    /// Steps, Satisfaction, and Density have remained the same, but AMV of the
    /// goods have increased.
    AMV,
}

} // verus!
