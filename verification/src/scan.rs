//! The whole scan, run to completion against a history held in memory: the
//! history is the sequence of all messages strictly preceding the anchor,
//! newest first, and pages are carved from it exactly as a paged provider
//! would serve them.
//!
//! A driver that fetches pages from a live provider instead uses
//! [`crate::state::ScanState::next_request`] and
//! [`crate::state::ScanState::process_page`] directly; this function is that
//! same loop with the provider replaced by slicing.

use vstd::prelude::*;

use crate::history::ScanMessage;
use crate::request::ScanRequest;
use crate::text::string_views;
use crate::state::{
    initial_model, iteration_cap_hit, spec_step_page, ScanModel, ScanState, ScanStatus,
};
use vstd::slice::slice_subrange;

verus! {

/// What a finished scan reports: the collected links in discovery order, how
/// many messages were fully processed, the last processed position (the
/// anchor when nothing was processed), and why the scan stopped.
pub struct ScanResult {
    /// Every media link found, in discovery order, duplicates kept.
    pub links: Vec<String>,
    /// How many messages were fully processed.
    pub messages_processed: usize,
    /// The last processed position, or the anchor when nothing was processed.
    pub last_message_id: u64,
    /// Why the scan stopped.
    pub status: ScanStatus,
}

/// Runs the scan from state `m` over the remaining history: while the scan
/// goes on and the cap on fetched pages is not hit, the next page is carved
/// from the front of the history and processed, a short page being served
/// exactly when the history runs out.
pub open spec fn spec_scan_loop(req: ScanRequest, m: ScanModel, history: Seq<ScanMessage>) -> ScanModel
    decreases history.len(),
{
    if !(m.status is Scanning) || req.page_size == 0 {
        m
    } else if iteration_cap_hit(req, m) {
        ScanModel { status: ScanStatus::StoppedByCap, ..m }
    } else {
        let n = if req.page_size as int <= history.len() {
            req.page_size as int
        } else {
            history.len() as int
        };
        let after = spec_step_page(req, m, history.take(n));
        if history.len() == 0 {
            after
        } else {
            spec_scan_loop(req, after, history.skip(n))
        }
    }
}

/// The model a whole scan of `history` under `req` ends in.
pub open spec fn spec_scan(req: ScanRequest, history: Seq<ScanMessage>) -> ScanModel {
    spec_scan_loop(req, initial_model(req), history)
}

/// Scans `history` — the messages strictly preceding the anchor, newest
/// first — to completion and reports what was collected.  Nothing found is
/// a valid, empty result, never a failure.
pub fn scan_history(req: &ScanRequest, history: &Vec<ScanMessage>) -> (result: ScanResult)
    requires
        req.wf(),
        history@.len() < usize::MAX,
    ensures
        string_views(result.links@) == spec_scan(*req, history@).links,
        result.messages_processed as int == spec_scan(*req, history@).messages_processed,
        result.last_message_id == spec_scan(*req, history@).cursor,
        result.status == spec_scan(*req, history@).status,
        !(result.status is Scanning),
{
    let ghost whole = history@;
    let mut state = ScanState::start(req);
    let mut pos: usize = 0;
    proof {
        assert(whole.skip(0) =~= whole);
    }
    loop
        invariant
            pos <= whole.len(),
            whole == history@,
            whole.len() < usize::MAX,
            req.wf(),
            state@.status is Scanning ==> state.messages_processed <= pos
                && state.consecutive_empty <= pos && state.pages_fetched <= pos,
            spec_scan_loop(*req, state@, whole.skip(pos as int)) == spec_scan(*req, whole),
        ensures
            !(state@.status is Scanning),
            spec_scan_loop(*req, state@, whole.skip(pos as int)) == spec_scan(*req, whole),
        decreases
                whole.len() - pos,
                (if state@.status is Scanning {
                    1int
                } else {
                    0int
                }),
    {
        let ghost before = state@;
        let next = state.next_request(req);
        match next {
            None => {
                proof {
                    if before.status is Scanning {
                        assert(state@ =~= (ScanModel {
                            status: ScanStatus::StoppedByCap,
                            ..before
                        }));
                        assert(spec_scan_loop(*req, before, whole.skip(pos as int)) == state@);
                        assert(spec_scan_loop(*req, state@, whole.skip(pos as int)) == state@);
                    }
                }
                break ;
            },
            Some(page_request) => {
                let remaining = history.len() - pos;
                let n = if page_request.limit < remaining {
                    page_request.limit
                } else {
                    remaining
                };
                let page = slice_subrange(history.as_slice(), pos, pos + n);
                proof {
                    assert(page@ =~= whole.skip(pos as int).take(n as int));
                }
                state.process_page(req, page);
                proof {
                    let rest = whole.skip(pos as int);
                    crate::state::lemma_run_messages_bounds(
                        *req,
                        ScanModel { pages_fetched: before.pages_fetched + 1, ..before },
                        page@,
                    );
                    assert(state@ == spec_step_page(*req, before, page@));
                    if remaining == 0 {
                        assert(rest.len() == 0);
                        assert(page@.len() == 0);
                        assert(!(state@.status is Scanning));
                        assert(spec_scan_loop(*req, before, rest) == state@);
                        assert(spec_scan_loop(*req, state@, rest) == state@);
                    } else {
                        assert(rest.skip(n as int) =~= whole.skip(pos + n));
                        assert(spec_scan_loop(*req, before, rest) == spec_scan_loop(
                            *req,
                            state@,
                            whole.skip(pos + n),
                        ));
                    }
                }
                pos = pos + n;
            },
        }
    }
    proof {
        assert(spec_scan(*req, whole) == state@);
    }
    ScanResult {
        links: state.links,
        messages_processed: state.messages_processed,
        last_message_id: state.cursor,
        status: state.status,
    }
}

} // verus!
