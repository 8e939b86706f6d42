//! The kinds of second-order filter sections.

use vstd::prelude::*;

verus! {

/// The response shapes that a biquad section can take.
#[derive(Debug, Clone, Copy, PartialEq, Eq, Structural)]
pub enum FilterType {
    Lowpass,
    Highpass,
    Bandpass,
    Notch,
    Allpass,
    Peaking,
    LowShelf,
    HighShelf,
}

impl FilterType {
    /// Whether the gain parameter shapes the response: it does for the
    /// peaking section and the two shelves, and for no other.
    pub fn uses_gain(&self) -> (uses: bool)
        ensures
            uses == (self is Peaking || self is LowShelf || self is HighShelf),
    {
        match self {
            FilterType::Peaking => true,
            FilterType::LowShelf => true,
            FilterType::HighShelf => true,
            _ => false,
        }
    }
}

} // verus!
