use vstd::prelude::*;

verus! {

/// One configured hotkey: the key combination and the devices it selects.
pub struct HotkeyMapping {
    /// The key combination, such as `Ctrl+Alt+1`.
    pub keys: String,
    /// The output device to make the default.
    pub device_name: String,
    /// The input device to make the default as well, where one is named.
    pub input_device_name: Option<String>,
}

/// How configured names are compared with device names in fuzzy mode.
#[derive(Clone, Copy, Debug, PartialEq, Eq, Structural)]
pub enum FuzzyMatchAlgorithm {
    /// Subsequence scoring; the best score wins, with no acceptance bound.
    Skim,
    /// Normalized edit-distance similarity, accepted from a threshold on.
    Levenshtein,
}

/// The least similarity that a Levenshtein match needs, as the fraction
/// `num / den`.
#[derive(Clone, Copy, Debug, PartialEq, Eq, Structural)]
pub struct Threshold {
    pub num: u64,
    pub den: u64,
}

impl Threshold {
    /// A threshold is a fraction in `[0, 1]`.
    pub open spec fn valid(self) -> bool {
        self.den > 0 && self.num <= self.den
    }

    /// The fraction `num / den`, where it lies in `[0, 1]`.
    pub fn new(num: u64, den: u64) -> (r: Option<Threshold>)
        ensures
            r matches Some(t) ==> t.num == num && t.den == den,
            r is Some <==> (Threshold { num, den }).valid(),
    {
        if den > 0 && num <= den {
            Some(Threshold { num, den })
        } else {
            None
        }
    }
}

/// The matching policy that the configuration selects.
#[derive(Clone, Copy, Debug, PartialEq, Eq, Structural)]
pub struct MatchPolicy {
    pub fuzzy_enabled: bool,
    pub algorithm: FuzzyMatchAlgorithm,
    pub threshold: Threshold,
}

/// The application's configuration.
pub struct Config {
    /// Fuzzy matching of device names; exact matching where false.
    pub fuzzy_match: bool,
    pub fuzzy_match_algorithm: FuzzyMatchAlgorithm,
    pub fuzzy_match_threshold: Threshold,
    pub hotkeys: Vec<HotkeyMapping>,
}

impl Config {
    /// The matching policy of this configuration.
    pub open spec fn policy_spec(&self) -> MatchPolicy {
        MatchPolicy {
            fuzzy_enabled: self.fuzzy_match,
            algorithm: self.fuzzy_match_algorithm,
            threshold: self.fuzzy_match_threshold,
        }
    }

    /// The matching policy of this configuration.
    pub fn policy(&self) -> (r: MatchPolicy)
        ensures
            r == self.policy_spec(),
    {
        MatchPolicy {
            fuzzy_enabled: self.fuzzy_match,
            algorithm: self.fuzzy_match_algorithm,
            threshold: self.fuzzy_match_threshold,
        }
    }
}

} // verus!
