use vstd::prelude::*;

verus! {

/// What `setTimeout` returns to script code.
pub const TIMEOUT_SENTINEL: i64 = 10;

/// The words of one `console.log` call, separated by single spaces.
pub open spec fn joined(words: Seq<Seq<char>>) -> Seq<char>
    decreases words.len(),
{
    if words.len() == 0 {
        Seq::empty()
    } else if words.len() == 1 {
        words[0]
    } else {
        joined(words.drop_last()) + seq![' '] + words.last()
    }
}

pub open spec fn strings_view(v: Seq<String>) -> Seq<Seq<char>> {
    v.map_values(|s: String| s@)
}

/// The one line that `console.log` writes for its arguments, each already
/// converted to a string by the engine.
pub fn console_line(args: &Vec<String>) -> (r: String)
    ensures
        r@ == joined(strings_view(args@)),
{
    let ghost w = strings_view(args@);
    let mut line = String::new();
    let n = args.len();
    let mut i: usize = 0;
    while i < n
        invariant
            n == args@.len(),
            w == strings_view(args@),
            i <= n,
            line@ == joined(w.subrange(0, i as int)),
        decreases n - i,
    {
        let ghost before = line@;
        proof {
            reveal_strlit(" ");
        }
        if i > 0 {
            line.append(" ");
        }
        line.append(args[i].as_str());
        proof {
            let next = w.subrange(0, i + 1);
            assert(next.drop_last() =~= w.subrange(0, i as int));
            assert(next.last() == args@[i as int]@);
            if i == 0 {
                assert(line@ =~= next[0]);
            } else {
                assert(line@ =~= joined(next.drop_last()) + seq![' '] + next.last());
            }
        }
        i = i + 1;
    }
    assert(w.subrange(0, n as int) =~= w);
    line
}

/// What the blocking `setTimeout` stand-in does: sleep, then return.
#[derive(PartialEq, Eq, Structural, Clone, Copy, Debug)]
pub struct TimeoutPlan {
    pub sleep_ms: u64,
    pub result: i64,
}

/// The plan for `setTimeout(delay, ...)`: block for `delay` milliseconds
/// (none for a missing or negative delay), then return the sentinel.
pub fn plan_timeout(delay: Option<i64>) -> (r: TimeoutPlan)
    ensures
        r.result == TIMEOUT_SENTINEL,
        delay matches Some(d) ==> (d > 0 ==> r.sleep_ms == d),
        !(delay matches Some(d) && d > 0) ==> r.sleep_ms == 0,
{
    let sleep_ms: u64 = match delay {
        Some(d) => if d > 0 {
            d as u64
        } else {
            0
        },
        None => 0,
    };
    TimeoutPlan { sleep_ms, result: TIMEOUT_SENTINEL }
}

} // verus!
