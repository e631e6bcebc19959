use vstd::prelude::*;
use vstd::string::*;
use crate::records::{DailyEntry, DailyStats};

verus! {

/// The character of one decimal digit.
pub open spec fn dec_digit(d: int) -> char
    recommends
        0 <= d <= 9,
{
    ((48 + d) as u8) as char
}

/// The decimal rendering of a nonnegative integer, most significant digit
/// first, without sign or leading zeros; zero renders as one digit.
pub open spec fn dec_str(n: int) -> Seq<char>
    recommends
        n >= 0,
    decreases n,
{
    if n < 10 {
        seq![dec_digit(n)]
    } else {
        dec_str(n / 10).push(dec_digit(n % 10))
    }
}

/// Relies on String::push: appends the one character to the end.
#[verifier::external_body]
fn push_char(s: &mut String, c: char)
    ensures
        final(s)@ == old(s)@.push(c),
{
    s.push(c);
}

/// Append the decimal rendering of `n`.
fn push_dec(out: &mut String, n: u64)
    ensures
        final(out)@ == old(out)@ + dec_str(n as int),
    decreases n,
{
    let ghost entry = out@;
    if n >= 10 {
        push_dec(out, n / 10);
    }
    let d: u8 = 48 + (n % 10) as u8;
    push_char(out, d as char);
    proof {
        assert(d as char == dec_digit((n % 10) as int));
        if n < 10 {
            assert((n % 10) as int == n as int);
            assert(out@ =~= entry + dec_str(n as int));
        } else {
            assert(out@ =~= entry + dec_str(n as int));
        }
    }
}

/// One daily total rendered as a JSON object.
pub open spec fn json_entry(date: Seq<char>, minutes: int) -> Seq<char> {
    "{\"date\":\""@ + date + "\",\"playtime\":"@ + dec_str(minutes) + "}"@
}

/// The daily totals rendered in order, comma-separated.
pub open spec fn json_entries(entries: Seq<(Seq<char>, int)>) -> Seq<char>
    decreases entries.len(),
{
    if entries.len() == 0 {
        Seq::empty()
    } else if entries.len() == 1 {
        json_entry(entries[0].0, entries[0].1)
    } else {
        json_entries(entries.drop_last()) + ","@ + json_entry(
            entries.last().0,
            entries.last().1,
        )
    }
}

/// How the statistics sink serializes daily totals: a JSON array of objects
/// with a date and a playtime in minutes — except that no totals at all
/// serialize as an empty JSON object, not an empty array. Downstream readers
/// expect exactly this asymmetry.
pub open spec fn spec_daily_stats_json(entries: Seq<(Seq<char>, int)>) -> Seq<char> {
    if entries.len() == 0 {
        "{}"@
    } else {
        "["@ + json_entries(entries) + "]"@
    }
}

/// Render a game's daily totals for the statistics sink.
pub fn daily_stats_json(daily: &DailyStats) -> (r: String)
    requires
        forall|k: int| 0 <= k < daily@.len() ==> (#[trigger] daily@[k]).1 >= 0,
    ensures
        r@ == spec_daily_stats_json(daily@),
{
    let n = daily.entries.len();
    if n == 0 {
        return String::from_str("{}");
    }
    let mut out = String::new();
    out.append("[");
    let mut i: usize = 0;
    while i < n
        invariant
            i <= n,
            n == daily.entries@.len(),
            n >= 1,
            forall|k: int| 0 <= k < daily@.len() ==> (#[trigger] daily@[k]).1 >= 0,
            i == 0 ==> out@ == "["@,
            i > 0 ==> out@ == "["@ + json_entries(daily@.subrange(0, i as int)),
        decreases n - i,
    {
        let ghost held = out@;
        if i > 0 {
            out.append(",");
        }
        out.append("{\"date\":\"");
        let e: &DailyEntry = &daily.entries[i];
        out.append(e.date.as_str());
        out.append("\",\"playtime\":");
        proof {
            assert(daily@[i as int] == (e.date@, e.playtime as int));
        }
        push_dec(&mut out, e.playtime as u64);
        out.append("}");
        proof {
            let sub = daily@.subrange(0, i as int + 1);
            assert(sub.last() == daily@[i as int]);
            if i == 0 {
                assert(out@ =~= "["@ + json_entries(sub));
            } else {
                assert(sub.drop_last() =~= daily@.subrange(0, i as int));
                assert(out@ =~= "["@ + json_entries(sub));
            }
        }
        i = i + 1;
    }
    out.append("]");
    proof {
        assert(daily@.subrange(0, n as int) =~= daily@);
        assert(out@ =~= "["@ + json_entries(daily@) + "]"@);
    }
    out
}

} // verus!
