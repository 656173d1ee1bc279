//! The stated laws of the scanner, proved once and for all over the
//! transition functions and the whole-scan model.

use vstd::prelude::*;

use crate::history::{message_media, ScanMessage};
use crate::request::ScanRequest;
use crate::scan::{spec_scan, spec_scan_loop};
use crate::state::{
    age_gap_stop, explicit_end_hit, initial_model, iteration_cap_hit, message_cap_hit,
    spec_run_messages, spec_step_message, spec_step_page, starvation_stop, ScanModel, ScanStatus,
};

verus! {

/// A page shorter than the requested page size is the unconditional final
/// page: after processing it the scan is no longer scanning, so — since a
/// stopped scan requests nothing further — no page is ever requested after a
/// short one.  Together with `ScanState::next_request`, whose every request
/// carries `limit == page_size`, this is the page-size discipline of the
/// scan: every fetched page except possibly the last has exactly the
/// requested size.
pub proof fn lemma_short_page_is_final(req: ScanRequest, m: ScanModel, page: Seq<ScanMessage>)
    requires
        page.len() < req.page_size as int,
    ensures
        !(spec_step_page(req, m, page).status is Scanning),
{
}

/// The age heuristic: with no explicit end given, a message older than its
/// processed predecessor by at least the age threshold stops the scan on the
/// spot — the message itself is not processed and nothing else changes.
pub proof fn lemma_age_gap_stops(req: ScanRequest, m: ScanModel, msg: ScanMessage)
    requires
        !message_cap_hit(req, m),
        age_gap_stop(req, m, msg),
    ensures
        spec_step_message(req, m, msg) == (ScanModel { status: ScanStatus::StoppedByAge, ..m }),
{
}

/// The starvation heuristic: with no explicit end given, once the run of
/// media-less messages has reached the threshold the scan stops before
/// touching the next message, and nothing else changes.
pub proof fn lemma_starvation_stops(req: ScanRequest, m: ScanModel, msg: ScanMessage)
    requires
        !message_cap_hit(req, m),
        !age_gap_stop(req, m, msg),
        starvation_stop(req, m),
    ensures
        spec_step_message(req, m, msg) == (ScanModel {
            status: ScanStatus::StoppedByStarvation,
            ..m
        }),
{
}

/// The explicit end is inclusive and overrides the heuristics: whatever the
/// age gap or the empty streak, the end message's own media is collected and
/// the scan stops exactly there, advancing no further.
pub proof fn lemma_explicit_end_inclusive(req: ScanRequest, m: ScanModel, msg: ScanMessage)
    requires
        !message_cap_hit(req, m),
        explicit_end_hit(req, msg),
    ensures
        spec_step_message(req, m, msg).status is StoppedByExplicitEnd,
        spec_step_message(req, m, msg).links == m.links + message_media(msg),
        spec_step_message(req, m, msg).cursor == m.cursor,
        spec_step_message(req, m, msg).messages_processed == m.messages_processed,
{
    assert(!req.heuristics_active());
}

/// Extraction is idempotent: a scan is a function of its request and its
/// history alone, so two scans of the same history under the same request
/// collect byte-identical link sequences — and agree on everything else the
/// result reports.
pub proof fn lemma_scan_deterministic(
    req_a: ScanRequest,
    req_b: ScanRequest,
    history_a: Seq<ScanMessage>,
    history_b: Seq<ScanMessage>,
)
    requires
        req_a == req_b,
        history_a == history_b,
    ensures
        spec_scan(req_a, history_a) == spec_scan(req_b, history_b),
{
}

/// What holds of a scan that has so far seen nothing but media-less
/// messages: nothing collected, the empty streak as long as everything
/// processed, and no more processed than the starvation threshold.
spec fn empty_prefix_inv(req: ScanRequest, m: ScanModel) -> bool {
    &&& m.links == Seq::<Seq<char>>::empty()
    &&& m.consecutive_empty == m.messages_processed
    &&& 0 <= m.messages_processed <= req.empty_streak_threshold as int
}

/// Running messages whose prefix up to the starvation threshold is
/// media-less keeps the scan inside that prefix: nothing is collected, no
/// more messages are processed than the threshold, and a run that is still
/// scanning consumed everything and kept the invariant.
proof fn lemma_run_messages_empty_prefix(req: ScanRequest, m: ScanModel, msgs: Seq<ScanMessage>)
    requires
        req.heuristics_active(),
        m.status is Scanning,
        empty_prefix_inv(req, m),
        forall|i: int|
            0 <= i < msgs.len() && i + m.messages_processed < req.empty_streak_threshold as int
                ==> #[trigger] message_media(msgs[i]).len() == 0,
    ensures
        spec_run_messages(req, m, msgs).links == Seq::<Seq<char>>::empty(),
        0 <= spec_run_messages(req, m, msgs).messages_processed
            <= req.empty_streak_threshold as int,
        spec_run_messages(req, m, msgs).status is Scanning ==> empty_prefix_inv(
            req,
            spec_run_messages(req, m, msgs),
        ) && spec_run_messages(req, m, msgs).messages_processed == m.messages_processed
            + msgs.len(),
    decreases msgs.len(),
{
    let threshold = req.empty_streak_threshold as int;
    if msgs.len() == 0 {
    } else {
        let head = msgs.first();
        let stepped = spec_step_message(req, m, head);
        if message_cap_hit(req, m) || age_gap_stop(req, m, head) || starvation_stop(req, m) {
            assert(!(stepped.status is Scanning));
            assert(spec_run_messages(req, m, msgs) == stepped);
        } else {
            assert(m.messages_processed < threshold);
            assert(message_media(head).len() == 0);
            assert(stepped.links =~= Seq::<Seq<char>>::empty());
            assert(!explicit_end_hit(req, head));
            assert(stepped.status is Scanning);
            assert(empty_prefix_inv(req, stepped));
            assert forall|i: int|
                0 <= i < msgs.drop_first().len() && i + stepped.messages_processed < threshold
                    implies #[trigger] message_media(msgs.drop_first()[i]).len() == 0 by {
                assert(msgs.drop_first()[i] == msgs[i + 1]);
                assert(message_media(msgs[i + 1]).len() == 0);
            }
            lemma_run_messages_empty_prefix(req, stepped, msgs.drop_first());
        }
    }
}

/// The same discipline carried through the paged loop: whatever page
/// boundaries fall where, a scan over a history whose prefix up to the
/// starvation threshold is media-less collects nothing and stays inside
/// that prefix.
proof fn lemma_scan_loop_empty_prefix(req: ScanRequest, m: ScanModel, history: Seq<ScanMessage>)
    requires
        req.wf(),
        req.heuristics_active(),
        m.status is Scanning ==> empty_prefix_inv(req, m),
        m.status is Scanning ==> forall|i: int|
            0 <= i < history.len() && i + m.messages_processed < req.empty_streak_threshold as int
                ==> #[trigger] message_media(history[i]).len() == 0,
        !(m.status is Scanning) ==> m.links == Seq::<Seq<char>>::empty() && 0
            <= m.messages_processed <= req.empty_streak_threshold as int,
    ensures
        spec_scan_loop(req, m, history).links == Seq::<Seq<char>>::empty(),
        0 <= spec_scan_loop(req, m, history).messages_processed
            <= req.empty_streak_threshold as int,
    decreases history.len(),
{
    let threshold = req.empty_streak_threshold as int;
    if !(m.status is Scanning) {
    } else if iteration_cap_hit(req, m) {
    } else {
        let n = if req.page_size as int <= history.len() {
            req.page_size as int
        } else {
            history.len() as int
        };
        let entered = ScanModel { pages_fetched: m.pages_fetched + 1, ..m };
        let page = history.take(n);
        assert forall|i: int|
            0 <= i < page.len() && i + entered.messages_processed < threshold
                implies #[trigger] message_media(page[i]).len() == 0 by {
            assert(page[i] == history[i]);
        }
        lemma_run_messages_empty_prefix(req, entered, page);
        let after0 = spec_run_messages(req, entered, page);
        let after = spec_step_page(req, m, page);
        if history.len() == 0 {
        } else {
            if after.status is Scanning {
                assert(after == after0);
                assert(after.messages_processed == m.messages_processed + n);
                assert forall|i: int|
                    0 <= i < history.skip(n).len() && i + after.messages_processed < threshold
                        implies #[trigger] message_media(history.skip(n)[i]).len() == 0 by {
                    assert(history.skip(n)[i] == history[i + n]);
                    assert(message_media(history[i + n]).len() == 0);
                }
            }
            lemma_scan_loop_empty_prefix(req, after, history.skip(n));
        }
    }
}

/// Starvation termination, over the whole scan: for any history whose first
/// `empty_streak_threshold` messages carry no media, a scan with no
/// explicit end collects nothing and never processes past that prefix —
/// whatever follows it, an image-bearing message included.
pub proof fn lemma_starvation_scan_collects_nothing(req: ScanRequest, history: Seq<ScanMessage>)
    requires
        req.wf(),
        req.heuristics_active(),
        forall|i: int|
            0 <= i < history.len() && i < req.empty_streak_threshold as int
                ==> #[trigger] message_media(history[i]).len() == 0,
    ensures
        spec_scan(req, history).links == Seq::<Seq<char>>::empty(),
        spec_scan(req, history).messages_processed <= req.empty_streak_threshold as int,
{
    lemma_scan_loop_empty_prefix(req, initial_model(req), history);
}

/// A scan that has processed nothing yet: no timestamp seen, no links.
spec fn age_phase_fresh(m: ScanModel) -> bool {
    &&& m.messages_processed == 0
    &&& m.last_seen_timestamp is None
    &&& m.links == Seq::<Seq<char>>::empty()
}

/// A scan that has processed exactly the one message `first`: its timestamp
/// seen, its media collected, one message counted.
spec fn age_phase_one(m: ScanModel, first: ScanMessage) -> bool {
    &&& m.messages_processed == 1
    &&& m.last_seen_timestamp == Some(first.timestamp)
    &&& m.links == message_media(first)
}

/// Whether `next` is older than `first` by at least the age threshold.
pub open spec fn age_gap_between(req: ScanRequest, first: ScanMessage, next: ScanMessage) -> bool {
    first.timestamp as int - next.timestamp as int >= req.age_threshold_seconds as int
}

/// Running messages that open with `first` and then a message older by at
/// least the age threshold never gets past `first`: at most one message is
/// processed, at most its media collected, and a run that is still scanning
/// consumed everything.
proof fn lemma_run_messages_age_gap(
    req: ScanRequest,
    m: ScanModel,
    msgs: Seq<ScanMessage>,
    first: ScanMessage,
)
    requires
        req.heuristics_active(),
        m.status is Scanning,
        age_phase_fresh(m) || age_phase_one(m, first),
        age_phase_fresh(m) && msgs.len() >= 1 ==> msgs[0] == first,
        age_phase_fresh(m) && msgs.len() >= 2 ==> age_gap_between(req, first, msgs[1]),
        age_phase_one(m, first) && msgs.len() >= 1 ==> age_gap_between(req, first, msgs[0]),
    ensures
        ({
            let r = spec_run_messages(req, m, msgs);
            &&& 0 <= r.messages_processed <= 1
            &&& (r.links == Seq::<Seq<char>>::empty() || r.links == message_media(first))
            &&& (r.status is Scanning ==> ((age_phase_fresh(r) || age_phase_one(r, first))
                && r.messages_processed == m.messages_processed + msgs.len()))
        }),
    decreases msgs.len(),
{
    if msgs.len() == 0 {
    } else {
        let head = msgs.first();
        let stepped = spec_step_message(req, m, head);
        if age_phase_fresh(m) {
            if message_cap_hit(req, m) || starvation_stop(req, m) {
                assert(!(stepped.status is Scanning));
                assert(spec_run_messages(req, m, msgs) == spec_run_messages(
                    req,
                    stepped,
                    msgs.drop_first(),
                ));
                assert(spec_run_messages(req, m, msgs) == stepped);
            } else {
                assert(!age_gap_stop(req, m, head));
                assert(!explicit_end_hit(req, head));
                assert(stepped.links =~= message_media(first));
                assert(age_phase_one(stepped, first));
                assert(msgs.drop_first().len() >= 1 ==> msgs.drop_first()[0] == msgs[1]);
                lemma_run_messages_age_gap(req, stepped, msgs.drop_first(), first);
            }
        } else {
            if !message_cap_hit(req, m) {
                assert(age_gap_stop(req, m, head));
            }
            assert(!(stepped.status is Scanning));
            assert(spec_run_messages(req, m, msgs) == spec_run_messages(
                req,
                stepped,
                msgs.drop_first(),
            ));
            assert(spec_run_messages(req, m, msgs) == stepped);
        }
    }
}

/// The same discipline carried through the paged loop, whatever page
/// boundaries fall where.
proof fn lemma_scan_loop_age_gap(
    req: ScanRequest,
    m: ScanModel,
    history: Seq<ScanMessage>,
    first: ScanMessage,
)
    requires
        req.wf(),
        req.heuristics_active(),
        m.status is Scanning ==> age_phase_fresh(m) || age_phase_one(m, first),
        m.status is Scanning && age_phase_fresh(m) && history.len() >= 1 ==> history[0] == first,
        m.status is Scanning && age_phase_fresh(m) && history.len() >= 2 ==> age_gap_between(
            req,
            first,
            history[1],
        ),
        m.status is Scanning && age_phase_one(m, first) && history.len() >= 1 ==> age_gap_between(
            req,
            first,
            history[0],
        ),
        !(m.status is Scanning) ==> 0 <= m.messages_processed <= 1 && (m.links
            == Seq::<Seq<char>>::empty() || m.links == message_media(first)),
    ensures
        0 <= spec_scan_loop(req, m, history).messages_processed <= 1,
        spec_scan_loop(req, m, history).links == Seq::<Seq<char>>::empty() || spec_scan_loop(
            req,
            m,
            history,
        ).links == message_media(first),
    decreases history.len(),
{
    if !(m.status is Scanning) {
    } else if iteration_cap_hit(req, m) {
    } else {
        let n = if req.page_size as int <= history.len() {
            req.page_size as int
        } else {
            history.len() as int
        };
        let entered = ScanModel { pages_fetched: m.pages_fetched + 1, ..m };
        let page = history.take(n);
        assert(page.len() >= 1 ==> page[0] == history[0]);
        assert(page.len() >= 2 ==> page[1] == history[1]);
        lemma_run_messages_age_gap(req, entered, page, first);
        let after = spec_step_page(req, m, page);
        if history.len() == 0 {
        } else {
            if after.status is Scanning {
                assert(history.skip(n).len() >= 1 ==> history.skip(n)[0] == history[n]);
            }
            lemma_scan_loop_age_gap(req, after, history.skip(n), first);
        }
    }
}

/// Age termination, over the whole scan: when the second message of the
/// history is older than the first by at least the age threshold, a scan
/// with no explicit end stops after the first message and never processes
/// the second — at most the first message's media is collected.
pub proof fn lemma_age_gap_scan_stops_after_first(req: ScanRequest, history: Seq<ScanMessage>)
    requires
        req.wf(),
        req.heuristics_active(),
        history.len() >= 2,
        age_gap_between(req, history[0], history[1]),
    ensures
        spec_scan(req, history).messages_processed <= 1,
        spec_scan(req, history).links == Seq::<Seq<char>>::empty() || spec_scan(
            req,
            history,
        ).links == message_media(history[0]),
{
    lemma_scan_loop_age_gap(req, initial_model(req), history, history[0]);
}

/// Running messages among which the first occurrence of the explicit end
/// sits at position `e` collects every message's media up to and including
/// the end, counts every message before it, and stops exactly there; with
/// the end not in the run, everything is collected and counted and the run
/// keeps scanning.
proof fn lemma_run_messages_explicit_end(
    req: ScanRequest,
    m: ScanModel,
    msgs: Seq<ScanMessage>,
    e: int,
)
    requires
        !req.heuristics_active(),
        req.max_messages is None,
        m.status is Scanning,
        0 <= e <= msgs.len(),
        forall|i: int| 0 <= i < e ==> (#[trigger] msgs[i]).id != req.explicit_end_id,
        e < msgs.len() ==> msgs[e].id == req.explicit_end_id,
    ensures
        ({
            let r = spec_run_messages(req, m, msgs);
            if e < msgs.len() {
                &&& r.status is StoppedByExplicitEnd
                &&& r.links == m.links + crate::history::messages_media(msgs.take(e + 1))
                &&& r.messages_processed == m.messages_processed + e
            } else {
                &&& r.status is Scanning
                &&& r.links == m.links + crate::history::messages_media(msgs)
                &&& r.messages_processed == m.messages_processed + msgs.len()
            }
        }),
    decreases msgs.len(),
{
    if msgs.len() == 0 {
        assert(crate::history::messages_media(msgs) =~= Seq::<Seq<char>>::empty());
        assert(m.links + Seq::<Seq<char>>::empty() =~= m.links);
    } else {
        let head = msgs.first();
        let stepped = spec_step_message(req, m, head);
        assert(!message_cap_hit(req, m));
        assert(!age_gap_stop(req, m, head));
        assert(!starvation_stop(req, m));
        crate::history::lemma_messages_media_concat(seq![head], msgs.drop_first());
        assert(seq![head] + msgs.drop_first() =~= msgs);
        assert(seq![head].drop_last() =~= Seq::<ScanMessage>::empty());
        assert(crate::history::messages_media(Seq::<ScanMessage>::empty())
            =~= Seq::<Seq<char>>::empty());
        assert(seq![head].last() == head);
        assert(crate::history::messages_media(seq![head]) =~= Seq::<Seq<char>>::empty()
            + message_media(head));
        assert(crate::history::messages_media(seq![head]) =~= message_media(head));
        if e == 0 {
            assert(explicit_end_hit(req, head));
            assert(!(stepped.status is Scanning));
            assert(spec_run_messages(req, m, msgs) == spec_run_messages(
                req,
                stepped,
                msgs.drop_first(),
            ));
            assert(spec_run_messages(req, m, msgs) == stepped);
            assert(msgs.take(1) =~= seq![head]);
            assert(stepped.links == m.links + crate::history::messages_media(msgs.take(1)));
        } else {
            assert(msgs[0] == head);
            assert(!explicit_end_hit(req, head));
            assert(stepped.status is Scanning);
            assert(stepped.links == m.links + message_media(head));
            assert forall|i: int|
                0 <= i < e - 1 implies (#[trigger] msgs.drop_first()[i]).id
                    != req.explicit_end_id by {
                assert(msgs.drop_first()[i] == msgs[i + 1]);
            }
            assert(e - 1 < msgs.drop_first().len() ==> msgs.drop_first()[e - 1] == msgs[e]);
            lemma_run_messages_explicit_end(req, stepped, msgs.drop_first(), e - 1);
            if e < msgs.len() {
                assert(seq![head] + msgs.drop_first().take(e) =~= msgs.take(e + 1));
                crate::history::lemma_messages_media_concat(
                    seq![head],
                    msgs.drop_first().take(e),
                );
                assert(m.links + (message_media(head) + crate::history::messages_media(
                    msgs.drop_first().take(e),
                )) =~= (m.links + message_media(head)) + crate::history::messages_media(
                    msgs.drop_first().take(e),
                ));
            } else {
                assert(m.links + (message_media(head) + crate::history::messages_media(
                    msgs.drop_first(),
                )) =~= (m.links + message_media(head)) + crate::history::messages_media(
                    msgs.drop_first(),
                ));
            }
        }
    }
}

/// The same discipline carried through the paged loop, whatever page
/// boundaries fall where.
proof fn lemma_scan_loop_explicit_end(
    req: ScanRequest,
    m: ScanModel,
    history: Seq<ScanMessage>,
    e: int,
)
    requires
        req.wf(),
        !req.heuristics_active(),
        req.max_messages is None,
        req.max_iterations is None,
        m.status is Scanning,
        0 <= e < history.len(),
        forall|i: int| 0 <= i < e ==> (#[trigger] history[i]).id != req.explicit_end_id,
        history[e].id == req.explicit_end_id,
    ensures
        spec_scan_loop(req, m, history).status is StoppedByExplicitEnd,
        spec_scan_loop(req, m, history).links == m.links + crate::history::messages_media(
            history.take(e + 1),
        ),
        spec_scan_loop(req, m, history).messages_processed == m.messages_processed + e,
    decreases history.len(),
{
    assert(!iteration_cap_hit(req, m));
    let n = if req.page_size as int <= history.len() {
        req.page_size as int
    } else {
        history.len() as int
    };
    let entered = ScanModel { pages_fetched: m.pages_fetched + 1, ..m };
    let page = history.take(n);
    if e < n {
        assert(e < page.len());
        assert(page[e] == history[e]);
        assert forall|i: int|
            0 <= i < e implies (#[trigger] page[i]).id != req.explicit_end_id by {
            assert(page[i] == history[i]);
        }
        lemma_run_messages_explicit_end(req, entered, page, e);
        let after = spec_step_page(req, m, page);
        assert(page.take(e + 1) =~= history.take(e + 1));
        assert(!(after.status is Scanning));
        if history.len() > 0 {
            assert(spec_scan_loop(req, after, history.skip(n)) == after);
        }
    } else {
        assert(n == req.page_size as int);
        assert forall|i: int|
            0 <= i < page.len() implies (#[trigger] page[i]).id != req.explicit_end_id by {
            assert(page[i] == history[i]);
        }
        lemma_run_messages_explicit_end(req, entered, page, page.len() as int);
        let after = spec_step_page(req, m, page);
        assert(after.status is Scanning);
        assert(after.links == m.links + crate::history::messages_media(page));
        assert(after.messages_processed == m.messages_processed + n);
        assert forall|i: int|
            0 <= i < e - n implies (#[trigger] history.skip(n)[i]).id != req.explicit_end_id by {
            assert(history.skip(n)[i] == history[i + n]);
        }
        assert(history.skip(n)[e - n] == history[e]);
        lemma_scan_loop_explicit_end(req, after, history.skip(n), e - n);
        assert(page + history.skip(n).take(e - n + 1) =~= history.take(e + 1));
        crate::history::lemma_messages_media_concat(page, history.skip(n).take(e - n + 1));
        assert(m.links + (crate::history::messages_media(page)
            + crate::history::messages_media(history.skip(n).take(e - n + 1))) =~= (m.links
            + crate::history::messages_media(page)) + crate::history::messages_media(
            history.skip(n).take(e - n + 1),
        ));
    }
}

/// The explicit end, over the whole scan: with both hard caps off, a scan
/// whose history holds the named end — first at position `k` — stops
/// exactly there with the cause on record, collects every message's media
/// up to and including the end, and counts exactly the messages before it:
/// the end is inclusive, and it overrides the heuristics entirely.
pub proof fn lemma_explicit_end_scan_stops_exactly_there(
    req: ScanRequest,
    history: Seq<ScanMessage>,
    k: int,
)
    requires
        req.wf(),
        req.explicit_end_id != 0,
        req.max_messages is None,
        req.max_iterations is None,
        0 <= k < history.len(),
        history[k].id == req.explicit_end_id,
        forall|i: int| 0 <= i < k ==> (#[trigger] history[i]).id != req.explicit_end_id,
    ensures
        spec_scan(req, history).status is StoppedByExplicitEnd,
        spec_scan(req, history).links == crate::history::messages_media(history.take(k + 1)),
        spec_scan(req, history).messages_processed == k,
{
    lemma_scan_loop_explicit_end(req, initial_model(req), history, k);
    assert(Seq::<Seq<char>>::empty() + crate::history::messages_media(history.take(k + 1))
        =~= crate::history::messages_media(history.take(k + 1)));
}

/// An empty history yields the empty result: no links, no message
/// processed, the cursor still at the anchor; and unless a zero cap on
/// fetched pages forbade even the first request, the scan reports the
/// history as exhausted.
pub proof fn lemma_empty_history_scan(req: ScanRequest)
    requires
        req.wf(),
    ensures
        spec_scan(req, Seq::<ScanMessage>::empty()).links == Seq::<Seq<char>>::empty(),
        spec_scan(req, Seq::<ScanMessage>::empty()).messages_processed == 0,
        spec_scan(req, Seq::<ScanMessage>::empty()).cursor == req.anchor_id,
        !iteration_cap_hit(req, initial_model(req)) ==> spec_scan(
            req,
            Seq::<ScanMessage>::empty(),
        ).status is StoppedByHistoryExhausted,
{
    let history = Seq::<ScanMessage>::empty();
    let m = initial_model(req);
    if !iteration_cap_hit(req, m) {
        assert(history.take(0) =~= history);
        assert(spec_scan(req, history) == spec_step_page(req, m, history));
    }
}

} // verus!
