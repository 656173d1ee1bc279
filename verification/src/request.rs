//! The immutable description of one scan: where to start, where (if anywhere)
//! to stop explicitly, how large each page is, the thresholds of the two
//! stopping heuristics, and the optional hard caps on work done.

use vstd::prelude::*;

verus! {

/// How many messages one page request asks for when the caller does not say.
pub const DEFAULT_PAGE_SIZE: usize = 100;

/// Relative age gap, in seconds, between two consecutively processed messages
/// beyond which the scan assumes the posting session ended: eighteen hours.
pub const DEFAULT_AGE_THRESHOLD_SECONDS: u64 = 3600 * 18;

/// How many consecutive messages without media the scan tolerates before it
/// assumes the relevant content region has been left behind.
pub const DEFAULT_EMPTY_STREAK_THRESHOLD: usize = 50;

/// The immutable input of one scan, constructed once from command arguments.
pub struct ScanRequest {
    /// The scan starts with the messages immediately preceding this position.
    pub anchor_id: u64,
    /// Identifier of the last message to process, inclusive; `0` means that
    /// no explicit end was given and the stopping heuristics are in force.
    pub explicit_end_id: u64,
    /// How many messages each page request asks for; at least 1.
    pub page_size: usize,
    /// Age gap between consecutive messages, in seconds, at which the age
    /// heuristic stops the scan.
    pub age_threshold_seconds: u64,
    /// Length of a run of media-less messages at which the starvation
    /// heuristic stops the scan.
    pub empty_streak_threshold: usize,
    /// Hard cap on messages processed, if any.
    pub max_messages: Option<usize>,
    /// Hard cap on pages fetched, if any.
    pub max_iterations: Option<usize>,
}

impl ScanRequest {
    /// A request is usable when its pages are not empty by construction.
    pub open spec fn wf(self) -> bool {
        self.page_size >= 1
    }

    /// Whether the stopping heuristics apply: they are disabled entirely
    /// whenever an explicit end was given.
    pub open spec fn heuristics_active(self) -> bool {
        self.explicit_end_id == 0
    }

    /// A request that starts before `anchor_id`, runs on the default page
    /// size and heuristic thresholds, stops at no explicit end, and is not
    /// capped.
    pub fn new(anchor_id: u64) -> (req: ScanRequest)
        ensures
            req == (ScanRequest {
                anchor_id,
                explicit_end_id: 0,
                page_size: DEFAULT_PAGE_SIZE,
                age_threshold_seconds: DEFAULT_AGE_THRESHOLD_SECONDS,
                empty_streak_threshold: DEFAULT_EMPTY_STREAK_THRESHOLD,
                max_messages: None::<usize>,
                max_iterations: None::<usize>,
            }),
            req.wf(),
            req.heuristics_active(),
    {
        ScanRequest {
            anchor_id,
            explicit_end_id: 0,
            page_size: DEFAULT_PAGE_SIZE,
            age_threshold_seconds: DEFAULT_AGE_THRESHOLD_SECONDS,
            empty_streak_threshold: DEFAULT_EMPTY_STREAK_THRESHOLD,
            max_messages: None,
            max_iterations: None,
        }
    }

    /// The same request with an explicit, inclusive end position; a value of
    /// `0` keeps the heuristics in force.
    pub fn ending_at(self, explicit_end_id: u64) -> (req: ScanRequest)
        ensures
            req == (ScanRequest { explicit_end_id, ..self }),
    {
        ScanRequest { explicit_end_id, ..self }
    }
}

} // verus!
