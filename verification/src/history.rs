use vstd::prelude::*;
use crate::div_trunc;
use crate::records::HistoryRecord;

verus! {

/// Whether a history interval matches a target end-timestamp: both bounds
/// present and the interval's end within strictly 300 seconds of the target.
pub open spec fn history_match(h: HistoryRecord, target: int) -> bool {
    match (h.start_s, h.end_s) {
        (Some(s), Some(e)) => -300 < target - e && target - e < 300,
        _ => false,
    }
}

/// The duration a matching interval stands for: its length in whole minutes,
/// truncated toward zero.
pub open spec fn history_duration(h: HistoryRecord) -> int {
    match (h.start_s, h.end_s) {
        (Some(s), Some(e)) => div_trunc(e - s, 60),
        _ => 0,
    }
}

/// The duration the history fallback resolves: that of the first interval,
/// in input order, matching the target; zero when none matches.
pub open spec fn spec_history_duration(hs: Seq<HistoryRecord>, target: int) -> int
    decreases hs.len(),
{
    if hs.len() == 0 {
        0
    } else if history_match(hs[0], target) {
        history_duration(hs[0])
    } else {
        spec_history_duration(hs.skip(1), target)
    }
}

/// Search a game's history intervals for the one whose end best matches the
/// target end-timestamp; the first interval, in input order, whose end lies
/// strictly within 300 seconds wins. No match resolves to zero, which the
/// caller treats as "discard the event", not as an error.
pub fn get_duration_from_history(history: &Vec<HistoryRecord>, target_time: i64) -> (r: i64)
    ensures
        r as int == spec_history_duration(history@, target_time as int),
{
    let n = history.len();
    let mut i: usize = 0;
    proof {
        assert(history@.skip(0) =~= history@);
    }
    while i < n
        invariant
            i <= n,
            n == history@.len(),
            spec_history_duration(history@, target_time as int) == spec_history_duration(
                history@.skip(i as int),
                target_time as int,
            ),
        decreases n - i,
    {
        let h = history[i];
        proof {
            assert(history@.skip(i as int)[0] == history@[i as int]);
            assert(history@.skip(i as int).skip(1) =~= history@.skip(i as int + 1));
        }
        match (h.start_s, h.end_s) {
            (Some(start_s), Some(end_s)) => {
                let diff: i128 = target_time as i128 - end_s as i128;
                if -300 < diff && diff < 300 {
                    let len: i128 = end_s as i128 - start_s as i128;
                    let q: i128 = crate::div_trunc_i128(len, 60);
                    proof {
                        vstd::arithmetic::div_mod::lemma_div_is_ordered(
                            if len >= 0 { len as int } else { -(len as int) },
                            u64::MAX as int,
                            60,
                        );
                    }
                    return q as i64;
                }
            },
            _ => {},
        }
        i = i + 1;
    }
    proof {
        assert(history@.skip(n as int) =~= Seq::<HistoryRecord>::empty());
    }
    0
}

/// When no interval of the history matches the target, the fallback resolves
/// zero, and the caller derives no session from the event.
pub proof fn lemma_history_no_match(hs: Seq<HistoryRecord>, target: int)
    requires
        forall|i: int| 0 <= i < hs.len() ==> !history_match(#[trigger] hs[i], target),
    ensures
        spec_history_duration(hs, target) == 0,
    decreases hs.len(),
{
    if hs.len() > 0 {
        assert(!history_match(hs[0], target));
        assert(forall|i: int|
            0 <= i < hs.skip(1).len() ==> !history_match(#[trigger] hs.skip(1)[i], target));
        lemma_history_no_match(hs.skip(1), target);
    }
}

/// The first matching interval, in input order, decides the fallback
/// duration: ties farther down the list never override it.
pub proof fn lemma_history_first_match(hs: Seq<HistoryRecord>, target: int, i: int)
    requires
        0 <= i < hs.len(),
        history_match(hs[i], target),
        forall|j: int| 0 <= j < i ==> !history_match(#[trigger] hs[j], target),
    ensures
        spec_history_duration(hs, target) == history_duration(hs[i]),
    decreases i,
{
    if i == 0 {
    } else {
        assert(!history_match(hs[0], target));
        assert(hs.skip(1)[i - 1] == hs[i]);
        assert(forall|j: int| 0 <= j < i - 1 ==> hs.skip(1)[j] == hs[j + 1]);
        lemma_history_first_match(hs.skip(1), target, i - 1);
    }
}

} // verus!
