use vstd::prelude::*;

verus! {

/// Which emotion share of a population's sentiment to read or adjust.
///
/// The shares themselves are fractions of the pop and live with the
/// sentiment value; this names the five axes.
#[derive(Debug, Clone, Copy, PartialEq, Eq, Hash, Structural)]
pub enum SentimentKind {
    Happiness,
    Contentment,
    Anger,
    Fear,
    Hope,
}

/// The slot of each axis in the stable order of [`SentimentKind::ALL`].
pub open spec fn kind_slot(kind: SentimentKind) -> int {
    match kind {
        SentimentKind::Happiness => 0,
        SentimentKind::Contentment => 1,
        SentimentKind::Anger => 2,
        SentimentKind::Fear => 3,
        SentimentKind::Hope => 4,
    }
}

impl SentimentKind {
    /// All axes in a stable order.
    pub const ALL: [SentimentKind; 5] = [
        SentimentKind::Happiness,
        SentimentKind::Contentment,
        SentimentKind::Anger,
        SentimentKind::Fear,
        SentimentKind::Hope,
    ];

    /// # Kind Index
    ///
    /// The position of the axis in a five-slot table of shares, in the order of
    /// [`Self::ALL`].
    pub fn kind_index(kind: SentimentKind) -> (i: usize)
        ensures
            i == kind_slot(kind),
            i < 5,
    {
        match kind {
            SentimentKind::Happiness => 0,
            SentimentKind::Contentment => 1,
            SentimentKind::Anger => 2,
            SentimentKind::Fear => 3,
            SentimentKind::Hope => 4,
        }
    }
}

/// The five-slot order of axes is a one-to-one numbering: each slot is in
/// `0..5`, two axes share a slot only when they are the same axis, and the
/// axis listed at each slot of [`SentimentKind::ALL`] has that slot.
pub proof fn kind_slots_are_a_numbering()
    ensures
        forall|k: SentimentKind| 0 <= #[trigger] kind_slot(k) < 5,
        forall|a: SentimentKind, b: SentimentKind|
            #[trigger] kind_slot(a) == #[trigger] kind_slot(b) ==> a == b,
        SentimentKind::ALL@.len() == 5,
        forall|i: int| 0 <= i < 5 ==> kind_slot(#[trigger] SentimentKind::ALL@[i]) == i,
{
}

} // verus!
