//! The scan's mutable state and its transition functions: one per processed
//! message and one per fetched page, with the stopping decisions made
//! explicit as a five-way termination cause (plus the optional hard cap).
//!
//! The order of the checks on each message is fixed: the cap, then the age
//! heuristic, then the starvation heuristic, then media extraction, then the
//! explicit end.  The two heuristics are in force only when no explicit end
//! was given.  A page shorter than the requested page size is the
//! unconditional final page.

use vstd::prelude::*;

use crate::history::{message_media, push_message_media, ScanMessage};
use crate::request::ScanRequest;
use crate::text::string_views;

verus! {

/// Why a scan is over, or that it is not: each stopping condition is its own
/// state, so the termination cause stays observable.
#[derive(Clone, Copy, Debug, PartialEq, Eq, Structural)]
pub enum ScanStatus {
    /// The scan goes on; more pages may be requested.
    Scanning,
    /// The age heuristic fired: a message was too much older than the one
    /// processed before it.
    StoppedByAge,
    /// The starvation heuristic fired: too many consecutive messages carried
    /// no media.
    StoppedByStarvation,
    /// The message named as the explicit end was processed.
    StoppedByExplicitEnd,
    /// A page came back shorter than requested: the history is exhausted.
    StoppedByHistoryExhausted,
    /// A hard cap on messages processed or pages fetched was reached.
    StoppedByCap,
}

/// The mathematical image of a scan's state.
#[verifier::ext_equal]
pub struct ScanModel {
    /// Cursor for the next page request: the last processed message, or the
    /// anchor while nothing has been processed.
    pub cursor: u64,
    /// Timestamp of the most recently processed message, once there is one.
    pub last_seen_timestamp: Option<u64>,
    /// How many messages have been fully processed.
    pub messages_processed: int,
    /// Length of the current run of processed messages without media.
    pub consecutive_empty: int,
    /// How many pages have been fetched.
    pub pages_fetched: int,
    /// Every media link collected so far, in discovery order.
    pub links: Seq<Seq<char>>,
    /// Whether the scan goes on, and if not, why it stopped.
    pub status: ScanStatus,
}

/// The state a scan starts from: cursor at the anchor, no timestamp seen,
/// all counters zero, no links, scanning.
pub open spec fn initial_model(req: ScanRequest) -> ScanModel {
    ScanModel {
        cursor: req.anchor_id,
        last_seen_timestamp: None,
        messages_processed: 0,
        consecutive_empty: 0,
        pages_fetched: 0,
        links: Seq::empty(),
        status: ScanStatus::Scanning,
    }
}

/// Whether the hard cap on processed messages has been reached.
pub open spec fn message_cap_hit(req: ScanRequest, m: ScanModel) -> bool {
    req.max_messages is Some && m.messages_processed >= req.max_messages->0 as int
}

/// Whether the hard cap on fetched pages has been reached.
pub open spec fn iteration_cap_hit(req: ScanRequest, m: ScanModel) -> bool {
    req.max_iterations is Some && m.pages_fetched >= req.max_iterations->0 as int
}

/// Whether the age heuristic stops the scan at `msg`: heuristics are in
/// force, some message was processed before, and `msg` is older than that
/// message by at least the age threshold.
pub open spec fn age_gap_stop(req: ScanRequest, m: ScanModel, msg: ScanMessage) -> bool {
    req.heuristics_active() && m.last_seen_timestamp is Some && m.last_seen_timestamp->0 as int
        - msg.timestamp as int >= req.age_threshold_seconds as int
}

/// Whether the starvation heuristic stops the scan before `msg` is touched:
/// heuristics are in force and the run of media-less messages has reached
/// the threshold.
pub open spec fn starvation_stop(req: ScanRequest, m: ScanModel) -> bool {
    req.heuristics_active() && m.consecutive_empty >= req.empty_streak_threshold as int
}

/// Whether `msg` is the explicit, inclusive end of the scan.
pub open spec fn explicit_end_hit(req: ScanRequest, msg: ScanMessage) -> bool {
    req.explicit_end_id != 0 && msg.id == req.explicit_end_id
}

/// The transition one message makes, in the fixed order of checks: cap, age
/// heuristic, starvation heuristic, media extraction, explicit end, advance.
/// A stop by the cap or a heuristic leaves the message untouched; a stop at
/// the explicit end keeps the message's media but does not advance the
/// cursor or the counters past it.
pub open spec fn spec_step_message(req: ScanRequest, m: ScanModel, msg: ScanMessage) -> ScanModel {
    if message_cap_hit(req, m) {
        ScanModel { status: ScanStatus::StoppedByCap, ..m }
    } else if age_gap_stop(req, m, msg) {
        ScanModel { status: ScanStatus::StoppedByAge, ..m }
    } else if starvation_stop(req, m) {
        ScanModel { status: ScanStatus::StoppedByStarvation, ..m }
    } else {
        let media = message_media(msg);
        let links = m.links + media;
        let streak = if media.len() > 0 {
            0
        } else {
            m.consecutive_empty + 1
        };
        if explicit_end_hit(req, msg) {
            ScanModel {
                links,
                consecutive_empty: streak,
                status: ScanStatus::StoppedByExplicitEnd,
                ..m
            }
        } else {
            ScanModel {
                links,
                consecutive_empty: streak,
                last_seen_timestamp: Some(msg.timestamp),
                cursor: msg.id,
                messages_processed: m.messages_processed + 1,
                ..m
            }
        }
    }
}

/// Runs the per-message transition over `msgs` in order, stopping as soon as
/// the state is no longer scanning.
pub open spec fn spec_run_messages(req: ScanRequest, m: ScanModel, msgs: Seq<ScanMessage>) -> ScanModel
    decreases msgs.len(),
{
    if msgs.len() == 0 || !(m.status is Scanning) {
        m
    } else {
        spec_run_messages(req, spec_step_message(req, m, msgs.first()), msgs.drop_first())
    }
}

/// The transition one fetched page makes: the page counter moves, the
/// messages run in order (newest to oldest), and a page shorter than the
/// requested page size then ends the scan unconditionally.
pub open spec fn spec_step_page(req: ScanRequest, m: ScanModel, page: Seq<ScanMessage>) -> ScanModel {
    let entered = ScanModel { pages_fetched: m.pages_fetched + 1, ..m };
    let after = spec_run_messages(req, entered, page);
    if after.status is Scanning && page.len() < req.page_size as int {
        ScanModel { status: ScanStatus::StoppedByHistoryExhausted, ..after }
    } else {
        after
    }
}

/// A stopped state is a fixed point of the message run.
pub proof fn lemma_run_messages_stopped(req: ScanRequest, m: ScanModel, msgs: Seq<ScanMessage>)
    requires
        !(m.status is Scanning),
    ensures
        spec_run_messages(req, m, msgs) == m,
{
}

/// Running one more message equals running the prefix and then stepping,
/// when the prefix left the scan running; otherwise the extra message
/// changes nothing.
pub proof fn lemma_run_messages_push(
    req: ScanRequest,
    m: ScanModel,
    msgs: Seq<ScanMessage>,
    msg: ScanMessage,
)
    ensures
        spec_run_messages(req, m, msgs.push(msg)) == (if spec_run_messages(req, m, msgs).status
            is Scanning {
            spec_step_message(req, spec_run_messages(req, m, msgs), msg)
        } else {
            spec_run_messages(req, m, msgs)
        }),
    decreases msgs.len(),
{
    if !(m.status is Scanning) {
        assert(spec_run_messages(req, m, msgs.push(msg)) == m);
        assert(spec_run_messages(req, m, msgs) == m);
    } else if msgs.len() == 0 {
        assert(msgs.push(msg).first() == msg);
        assert(msgs.push(msg).drop_first() =~= Seq::<ScanMessage>::empty());
        assert(spec_run_messages(req, m, msgs.push(msg)) == spec_run_messages(
            req,
            spec_step_message(req, m, msg),
            Seq::<ScanMessage>::empty(),
        ));
        assert(spec_run_messages(req, m, msgs) == m);
    } else {
        let stepped = spec_step_message(req, m, msgs.first());
        assert(msgs.push(msg).first() == msgs.first());
        assert(msgs.push(msg).drop_first() =~= msgs.drop_first().push(msg));
        assert(spec_run_messages(req, m, msgs.push(msg)) == spec_run_messages(
            req,
            stepped,
            msgs.drop_first().push(msg),
        ));
        lemma_run_messages_push(req, stepped, msgs.drop_first(), msg);
        assert(spec_run_messages(req, m, msgs) == spec_run_messages(req, stepped, msgs.drop_first()));
    }
}

/// The message run neither shrinks the processed count nor grows it, or the
/// empty streak, by more than the number of messages run; the page counter
/// is untouched.
pub proof fn lemma_run_messages_bounds(req: ScanRequest, m: ScanModel, msgs: Seq<ScanMessage>)
    requires
        m.consecutive_empty >= 0,
    ensures
        m.messages_processed <= spec_run_messages(req, m, msgs).messages_processed
            <= m.messages_processed + msgs.len(),
        0 <= spec_run_messages(req, m, msgs).consecutive_empty <= m.consecutive_empty + msgs.len(),
        spec_run_messages(req, m, msgs).pages_fetched == m.pages_fetched,
    decreases msgs.len(),
{
    if msgs.len() == 0 || !(m.status is Scanning) {
    } else {
        lemma_run_messages_bounds(req, spec_step_message(req, m, msgs.first()), msgs.drop_first());
    }
}

/// A run splits at any point: running all of `msgs` is running the first
/// `j`, then the rest from where that left off.
pub proof fn lemma_run_messages_split(
    req: ScanRequest,
    m: ScanModel,
    msgs: Seq<ScanMessage>,
    j: int,
)
    requires
        0 <= j <= msgs.len(),
    ensures
        spec_run_messages(req, m, msgs) == spec_run_messages(
            req,
            spec_run_messages(req, m, msgs.take(j)),
            msgs.skip(j),
        ),
    decreases j,
{
    if j == 0 {
        assert(msgs.take(0) =~= Seq::<ScanMessage>::empty());
        assert(msgs.skip(0) =~= msgs);
    } else if !(m.status is Scanning) {
        lemma_run_messages_stopped(req, m, msgs);
        lemma_run_messages_stopped(req, m, msgs.take(j));
        lemma_run_messages_stopped(req, m, msgs.skip(j));
    } else {
        let stepped = spec_step_message(req, m, msgs.first());
        assert(msgs.take(j).first() == msgs.first());
        assert(msgs.take(j).drop_first() =~= msgs.drop_first().take(j - 1));
        assert(msgs.skip(j) =~= msgs.drop_first().skip(j - 1));
        lemma_run_messages_split(req, stepped, msgs.drop_first(), j - 1);
    }
}

/// One page request: fetch up to `limit` messages strictly preceding
/// `before_id`, newest first.
#[derive(Clone, Copy, Debug, PartialEq, Eq, Structural)]
pub struct PageRequest {
    /// Fetch only messages strictly preceding this position.
    pub before_id: u64,
    /// Fetch at most this many messages.
    pub limit: usize,
}

/// The scan's mutable state, owned exclusively by the scan loop for its
/// lifetime.
pub struct ScanState {
    /// Cursor for the next page request.
    pub cursor: u64,
    /// Timestamp of the most recently processed message, once there is one.
    pub last_seen_timestamp: Option<u64>,
    /// How many messages have been fully processed.
    pub messages_processed: usize,
    /// Length of the current run of processed messages without media.
    pub consecutive_empty: usize,
    /// How many pages have been fetched.
    pub pages_fetched: usize,
    /// Every media link collected so far, in discovery order.
    pub links: Vec<String>,
    /// Whether the scan goes on, and if not, why it stopped.
    pub status: ScanStatus,
}

impl View for ScanState {
    type V = ScanModel;

    open spec fn view(&self) -> ScanModel {
        ScanModel {
            cursor: self.cursor,
            last_seen_timestamp: self.last_seen_timestamp,
            messages_processed: self.messages_processed as int,
            consecutive_empty: self.consecutive_empty as int,
            pages_fetched: self.pages_fetched as int,
            links: string_views(self.links@),
            status: self.status,
        }
    }
}

impl ScanState {
    /// The state a scan of `req` starts from.
    pub fn start(req: &ScanRequest) -> (state: ScanState)
        ensures
            state@ == initial_model(*req),
    {
        let state = ScanState {
            cursor: req.anchor_id,
            last_seen_timestamp: None,
            messages_processed: 0,
            consecutive_empty: 0,
            pages_fetched: 0,
            links: Vec::new(),
            status: ScanStatus::Scanning,
        };
        proof {
            assert(state@ =~= initial_model(*req));
        }
        state
    }

    /// Whether the scan goes on.
    pub fn is_scanning(&self) -> (b: bool)
        ensures
            b == (self@.status is Scanning),
    {
        self.status == ScanStatus::Scanning
    }

    /// Processes one message, in the fixed order of checks: cap, age
    /// heuristic, starvation heuristic, media extraction, explicit end,
    /// advance.
    pub fn process_message(&mut self, req: &ScanRequest, msg: &ScanMessage)
        requires
            old(self)@.status is Scanning,
            old(self).messages_processed < usize::MAX,
            old(self).consecutive_empty < usize::MAX,
        ensures
            final(self)@ == spec_step_message(*req, old(self)@, *msg),
    {
        if let Some(cap) = req.max_messages {
            if self.messages_processed >= cap {
                self.status = ScanStatus::StoppedByCap;
                proof {
                    assert(self@ =~= spec_step_message(*req, old(self)@, *msg));
                }
                return ;
            }
        }
        if req.explicit_end_id == 0 {
            if let Some(last) = self.last_seen_timestamp {
                if last >= msg.timestamp && last - msg.timestamp >= req.age_threshold_seconds {
                    self.status = ScanStatus::StoppedByAge;
                    proof {
                        assert(self@ =~= spec_step_message(*req, old(self)@, *msg));
                    }
                    return ;
                }
            }
            if self.consecutive_empty >= req.empty_streak_threshold {
                self.status = ScanStatus::StoppedByStarvation;
                proof {
                    assert(self@ =~= spec_step_message(*req, old(self)@, *msg));
                }
                return ;
            }
        }
        let found = push_message_media(&mut self.links, msg);
        if found {
            self.consecutive_empty = 0;
        } else {
            self.consecutive_empty = self.consecutive_empty + 1;
        }
        if req.explicit_end_id != 0 && msg.id == req.explicit_end_id {
            self.status = ScanStatus::StoppedByExplicitEnd;
            proof {
                assert(self@ =~= spec_step_message(*req, old(self)@, *msg));
            }
            return ;
        }
        self.last_seen_timestamp = Some(msg.timestamp);
        self.cursor = msg.id;
        self.messages_processed = self.messages_processed + 1;
        proof {
            assert(self@ =~= spec_step_message(*req, old(self)@, *msg));
        }
    }

    /// The next page request the scan wants, if any: `None` once the scan
    /// has stopped, and a request for `req.page_size` messages preceding the
    /// cursor otherwise.  Reaching the cap on fetched pages stops the scan
    /// here, before another page would be requested.
    pub fn next_request(&mut self, req: &ScanRequest) -> (r: Option<PageRequest>)
        ensures
            !(old(self)@.status is Scanning) ==> *final(self) == *old(self) && r is None,
            old(self)@.status is Scanning && iteration_cap_hit(*req, old(self)@)
                ==> final(self)@ == (ScanModel { status: ScanStatus::StoppedByCap, ..old(self)@ })
                && r is None,
            old(self)@.status is Scanning && !iteration_cap_hit(*req, old(self)@)
                ==> *final(self) == *old(self) && r == Some(
                PageRequest { before_id: old(self).cursor, limit: req.page_size },
            ),
    {
        if self.status != ScanStatus::Scanning {
            return None;
        }
        if let Some(cap) = req.max_iterations {
            if self.pages_fetched >= cap {
                self.status = ScanStatus::StoppedByCap;
                proof {
                    assert(self@ =~= (ScanModel {
                        status: ScanStatus::StoppedByCap,
                        ..old(self)@
                    }));
                }
                return None;
            }
        }
        Some(PageRequest { before_id: self.cursor, limit: req.page_size })
    }

    /// Processes one fetched page: the page counter moves, the messages run
    /// in order until a stop fires, and a page shorter than the requested
    /// page size then ends the scan unconditionally.
    pub fn process_page(&mut self, req: &ScanRequest, page: &[ScanMessage])
        requires
            old(self)@.status is Scanning,
            old(self).messages_processed + page@.len() <= usize::MAX,
            old(self).consecutive_empty + page@.len() <= usize::MAX,
            old(self).pages_fetched < usize::MAX,
        ensures
            final(self)@ == spec_step_page(*req, old(self)@, page@),
    {
        self.pages_fetched = self.pages_fetched + 1;
        let ghost entered = self@;
        let ghost whole = page@;
        let mut j: usize = 0;
        while j < page.len() && self.status == ScanStatus::Scanning
            invariant
                j <= whole.len(),
                whole == page@,
                self@ == spec_run_messages(*req, entered, whole.take(j as int)),
                entered.messages_processed + whole.len() <= usize::MAX,
                entered.consecutive_empty + whole.len() <= usize::MAX,
                entered.consecutive_empty >= 0,
            decreases whole.len() - j,
        {
            proof {
                lemma_run_messages_bounds(*req, entered, whole.take(j as int));
            }
            self.process_message(req, &page[j]);
            proof {
                assert(whole.take(j + 1) =~= whole.take(j as int).push(whole[j as int]));
                lemma_run_messages_push(*req, entered, whole.take(j as int), whole[j as int]);
            }
            j = j + 1;
        }
        proof {
            if j == whole.len() {
                assert(whole.take(j as int) =~= whole);
            } else {
                lemma_run_messages_split(*req, entered, whole, j as int);
                lemma_run_messages_stopped(
                    *req,
                    spec_run_messages(*req, entered, whole.take(j as int)),
                    whole.skip(j as int),
                );
            }
            assert(self@ == spec_run_messages(*req, entered, whole));
        }
        if self.status == ScanStatus::Scanning && page.len() < req.page_size {
            self.status = ScanStatus::StoppedByHistoryExhausted;
        }
        proof {
            assert(self@ =~= spec_step_page(*req, old(self)@, page@));
        }
    }
}

} // verus!
