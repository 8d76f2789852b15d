//! Decoding of the supervised patcher's event stream.
//!
//! The external patcher is run with a flag that makes it emit one JSON
//! object per line on its piped streams. Each line is tagged by a
//! `"type"` discriminator; a line that is not a well-formed event is
//! skipped without aborting the stream. After the process ends, a
//! synthetic `Completion` event reports the exit status, and any status
//! other than exit code zero is fatal for the calling operation — the
//! supervisor never retries.
//!
//! Reading the pipes is the caller's job (one thread per stream, each
//! forwarding events in line order); deciding what each line means and
//! what the exit status means happens here.

use vstd::prelude::*;

use crate::error::BeansError;
use crate::strutil::{
    dec_rep, digits_end, lemma_dec_rep_digits, lemma_digits_end_at, lemma_quote_end_at,
    match_at, match_at_spec, quote_end, take_uint,
};

verus! {

/// One event of the supervised patcher.
#[derive(Debug, Clone)]
pub enum ProcessEvent {
    /// A log line of the patcher.
    LogLine { level: usize, message: String, time: usize },
    /// A throughput sample of the patcher.
    ProgressSample { bps: usize, eta: usize, progress: usize, time: usize },
    /// Synthetic final event: the exit status of the patcher, `None`
    /// when the process ended without a code.
    Completion { exit_status: Option<i32> },
}

/// Spec: no character of `m` is a double quote.
pub open spec fn no_quote(m: Seq<char>) -> bool {
    forall|i: int| 0 <= i < m.len() ==> m[i] != '"'
}

/// Spec: the wire text of a log event.
pub open spec fn log_render(level: nat, msg: Seq<char>, time: nat) -> Seq<char> {
    "{\"type\":\"log\",\"level\":"@ + dec_rep(level) + ",\"message\":\""@ + msg + "\",\"time\":"@
        + dec_rep(time) + "}"@
}

/// Spec: `s` is the wire text of the log event with these fields.
pub open spec fn is_log_render(s: Seq<char>, level: nat, msg: Seq<char>, time: nat) -> bool {
    level <= usize::MAX as nat && time <= usize::MAX as nat && no_quote(msg) && s == log_render(
        level,
        msg,
        time,
    )
}

/// Spec: the wire text of a progress event.
pub open spec fn progress_render(bps: nat, eta: nat, progress: nat, time: nat) -> Seq<char> {
    "{\"type\":\"progress\",\"bps\":"@ + dec_rep(bps) + ",\"eta\":"@ + dec_rep(eta)
        + ",\"progress\":"@ + dec_rep(progress) + ",\"time\":"@ + dec_rep(time) + "}"@
}

/// Spec: `s` is the wire text of the progress event with these fields.
pub open spec fn is_progress_render(
    s: Seq<char>,
    bps: nat,
    eta: nat,
    progress: nat,
    time: nat,
) -> bool {
    bps <= usize::MAX as nat && eta <= usize::MAX as nat && progress <= usize::MAX as nat && time
        <= usize::MAX as nat && s == progress_render(bps, eta, progress, time)
}

/// The shape of a log wire text: where its literal segments, digit runs
/// and message stand.
proof fn lemma_log_structure(s: Seq<char>, level: nat, msg: Seq<char>, time: nat)
    requires
        is_log_render(s, level, msg, time),
    ensures
        ({
            let d1 = dec_rep(level).len() as int;
            let d2 = dec_rep(time).len() as int;
            let m = msg.len() as int;
            &&& s.len() == 44 + d1 + m + d2
            &&& match_at_spec(s, 0, "{\"type\":\"log\",\"level\":"@)
            &&& digits_end(s, 22) == 22 + d1
            &&& s.subrange(22, 22 + d1) == dec_rep(level)
            &&& match_at_spec(s, 22 + d1, ",\"message\":\""@)
            &&& quote_end(s, 34 + d1) == Some(34 + d1 + m)
            &&& s.subrange(34 + d1, 34 + d1 + m) == msg
            &&& match_at_spec(s, 34 + d1 + m, "\",\"time\":"@)
            &&& digits_end(s, 43 + d1 + m) == 43 + d1 + m + d2
            &&& s.subrange(43 + d1 + m, 43 + d1 + m + d2) == dec_rep(time)
            &&& match_at_spec(s, 43 + d1 + m + d2, "}"@)
        }),
{
    reveal_strlit("{\"type\":\"log\",\"level\":");
    reveal_strlit(",\"message\":\"");
    reveal_strlit("\",\"time\":");
    reveal_strlit("}");
    let d1 = dec_rep(level).len() as int;
    let d2 = dec_rep(time).len() as int;
    let m = msg.len() as int;
    lemma_dec_rep_digits(level);
    lemma_dec_rep_digits(time);
    assert(s.len() == 44 + d1 + m + d2);
    assert(s.subrange(0, 22) =~= "{\"type\":\"log\",\"level\":"@);
    assert(s.subrange(22, 22 + d1) =~= dec_rep(level));
    assert(s.subrange(22 + d1, 34 + d1) =~= ",\"message\":\""@);
    assert(s.subrange(34 + d1, 34 + d1 + m) =~= msg);
    assert(s.subrange(34 + d1 + m, 43 + d1 + m) =~= "\",\"time\":"@);
    assert(s.subrange(43 + d1 + m, 43 + d1 + m + d2) =~= dec_rep(time));
    assert(s.subrange(43 + d1 + m + d2, 44 + d1 + m + d2) =~= "}"@);
    assert(s[22 + d1] == ',');
    lemma_digits_end_at(s, 22, 22 + d1);
    assert(s[34 + d1 + m] == '"');
    lemma_quote_end_at(s, 34 + d1, 34 + d1 + m);
    assert(s[43 + d1 + m + d2] == '}');
    lemma_digits_end_at(s, 43 + d1 + m, 43 + d1 + m + d2);
}

/// The shape of a progress wire text.
proof fn lemma_progress_structure(s: Seq<char>, bps: nat, eta: nat, progress: nat, time: nat)
    requires
        is_progress_render(s, bps, eta, progress, time),
    ensures
        ({
            let d1 = dec_rep(bps).len() as int;
            let d2 = dec_rep(eta).len() as int;
            let d3 = dec_rep(progress).len() as int;
            let d4 = dec_rep(time).len() as int;
            &&& s.len() == 53 + d1 + d2 + d3 + d4
            &&& match_at_spec(s, 0, "{\"type\":\"progress\",\"bps\":"@)
            &&& digits_end(s, 25) == 25 + d1
            &&& s.subrange(25, 25 + d1) == dec_rep(bps)
            &&& match_at_spec(s, 25 + d1, ",\"eta\":"@)
            &&& digits_end(s, 32 + d1) == 32 + d1 + d2
            &&& s.subrange(32 + d1, 32 + d1 + d2) == dec_rep(eta)
            &&& match_at_spec(s, 32 + d1 + d2, ",\"progress\":"@)
            &&& digits_end(s, 44 + d1 + d2) == 44 + d1 + d2 + d3
            &&& s.subrange(44 + d1 + d2, 44 + d1 + d2 + d3) == dec_rep(progress)
            &&& match_at_spec(s, 44 + d1 + d2 + d3, ",\"time\":"@)
            &&& digits_end(s, 52 + d1 + d2 + d3) == 52 + d1 + d2 + d3 + d4
            &&& s.subrange(52 + d1 + d2 + d3, 52 + d1 + d2 + d3 + d4) == dec_rep(time)
            &&& match_at_spec(s, 52 + d1 + d2 + d3 + d4, "}"@)
        }),
{
    reveal_strlit("{\"type\":\"progress\",\"bps\":");
    reveal_strlit(",\"eta\":");
    reveal_strlit(",\"progress\":");
    reveal_strlit(",\"time\":");
    reveal_strlit("}");
    let d1 = dec_rep(bps).len() as int;
    let d2 = dec_rep(eta).len() as int;
    let d3 = dec_rep(progress).len() as int;
    let d4 = dec_rep(time).len() as int;
    lemma_dec_rep_digits(bps);
    lemma_dec_rep_digits(eta);
    lemma_dec_rep_digits(progress);
    lemma_dec_rep_digits(time);
    assert(s.len() == 53 + d1 + d2 + d3 + d4);
    assert(s.subrange(0, 25) =~= "{\"type\":\"progress\",\"bps\":"@);
    assert(s.subrange(25, 25 + d1) =~= dec_rep(bps));
    assert(s.subrange(25 + d1, 32 + d1) =~= ",\"eta\":"@);
    assert(s.subrange(32 + d1, 32 + d1 + d2) =~= dec_rep(eta));
    assert(s.subrange(32 + d1 + d2, 44 + d1 + d2) =~= ",\"progress\":"@);
    assert(s.subrange(44 + d1 + d2, 44 + d1 + d2 + d3) =~= dec_rep(progress));
    assert(s.subrange(44 + d1 + d2 + d3, 52 + d1 + d2 + d3) =~= ",\"time\":"@);
    assert(s.subrange(52 + d1 + d2 + d3, 52 + d1 + d2 + d3 + d4) =~= dec_rep(time));
    assert(s.subrange(52 + d1 + d2 + d3 + d4, 53 + d1 + d2 + d3 + d4) =~= "}"@);
    assert(s[25 + d1] == ',');
    lemma_digits_end_at(s, 25, 25 + d1);
    assert(s[32 + d1 + d2] == ',');
    lemma_digits_end_at(s, 32 + d1, 32 + d1 + d2);
    assert(s[44 + d1 + d2 + d3] == ',');
    lemma_digits_end_at(s, 44 + d1 + d2, 44 + d1 + d2 + d3);
    assert(s[52 + d1 + d2 + d3 + d4] == '}');
    lemma_digits_end_at(s, 52 + d1 + d2 + d3, 52 + d1 + d2 + d3 + d4);
}

/// A log wire text is never a progress wire text: the discriminators
/// differ.
proof fn lemma_renders_disjoint(s: Seq<char>)
    ensures
        !(match_at_spec(s, 0, "{\"type\":\"log\",\"level\":"@) && match_at_spec(
            s,
            0,
            "{\"type\":\"progress\",\"bps\":"@,
        )),
{
    reveal_strlit("{\"type\":\"log\",\"level\":");
    reveal_strlit("{\"type\":\"progress\",\"bps\":");
    if match_at_spec(s, 0, "{\"type\":\"log\",\"level\":"@) && match_at_spec(
        s,
        0,
        "{\"type\":\"progress\",\"bps\":"@,
    ) {
        assert(s.subrange(0, 22)[9] == s[9]);
        assert(s.subrange(0, 25)[9] == s[9]);
        assert(s[9] == 'l' && s[9] == 'p');
    }
}

/// A wire text determines the log fields: two field sets with the same
/// text are the same, so the decoder's result is the only possible
/// reading of a line.
pub proof fn lemma_log_render_unique(
    s: Seq<char>,
    l1: nat,
    m1: Seq<char>,
    t1: nat,
    l2: nat,
    m2: Seq<char>,
    t2: nat,
)
    requires
        is_log_render(s, l1, m1, t1),
        is_log_render(s, l2, m2, t2),
    ensures
        l1 == l2,
        m1 == m2,
        t1 == t2,
{
    lemma_log_structure(s, l1, m1, t1);
    lemma_log_structure(s, l2, m2, t2);
    assert(dec_rep(l1) == dec_rep(l2));
    crate::strutil::lemma_dec_rep_val(l1);
    crate::strutil::lemma_dec_rep_val(l2);
    let d1 = dec_rep(l1).len() as int;
    assert(quote_end(s, 34 + d1) == Some(34 + d1 + m1.len() as int));
    assert(quote_end(s, 34 + d1) == Some(34 + d1 + m2.len() as int));
    assert(m1 == s.subrange(34 + d1, 34 + d1 + m1.len() as int));
    assert(dec_rep(t1) == dec_rep(t2));
    crate::strutil::lemma_dec_rep_val(t1);
    crate::strutil::lemma_dec_rep_val(t2);
}

/// A wire text determines the progress fields as well.
pub proof fn lemma_progress_render_unique(
    s: Seq<char>,
    b1: nat,
    e1: nat,
    p1: nat,
    t1: nat,
    b2: nat,
    e2: nat,
    p2: nat,
    t2: nat,
)
    requires
        is_progress_render(s, b1, e1, p1, t1),
        is_progress_render(s, b2, e2, p2, t2),
    ensures
        b1 == b2,
        e1 == e2,
        p1 == p2,
        t1 == t2,
{
    lemma_progress_structure(s, b1, e1, p1, t1);
    lemma_progress_structure(s, b2, e2, p2, t2);
    assert(dec_rep(b1) == dec_rep(b2));
    crate::strutil::lemma_dec_rep_val(b1);
    crate::strutil::lemma_dec_rep_val(b2);
    let d1 = dec_rep(b1).len() as int;
    assert(digits_end(s, 32 + d1) == 32 + d1 + dec_rep(e1).len() as int);
    assert(digits_end(s, 32 + d1) == 32 + d1 + dec_rep(e2).len() as int);
    assert(dec_rep(e1) == dec_rep(e2));
    crate::strutil::lemma_dec_rep_val(e1);
    crate::strutil::lemma_dec_rep_val(e2);
    let d2 = dec_rep(e1).len() as int;
    assert(digits_end(s, 44 + d1 + d2) == 44 + d1 + d2 + dec_rep(p1).len() as int);
    assert(digits_end(s, 44 + d1 + d2) == 44 + d1 + d2 + dec_rep(p2).len() as int);
    assert(dec_rep(p1) == dec_rep(p2));
    crate::strutil::lemma_dec_rep_val(p1);
    crate::strutil::lemma_dec_rep_val(p2);
    assert(dec_rep(t1) == dec_rep(t2));
    crate::strutil::lemma_dec_rep_val(t1);
    crate::strutil::lemma_dec_rep_val(t2);
}

/// Decode one line of a patcher stream.
///
/// Exactly the canonical wire texts decode: a log line yields its fields,
/// a progress line yields its samples, and anything else — malformed
/// JSON, an unrelated line, a non-canonical number — yields `None` and is
/// skipped by the caller. The decoder never produces a `Completion`
/// event; that event is synthesized from the exit status alone.
pub fn decode_patcher_line(line: &str) -> (r: Option<ProcessEvent>)
    ensures
        match r {
            Some(ev) => match ev {
                ProcessEvent::LogLine { level, message, time } => is_log_render(
                    line@,
                    level as nat,
                    message@,
                    time as nat,
                ),
                ProcessEvent::ProgressSample { bps, eta, progress, time } => is_progress_render(
                    line@,
                    bps as nat,
                    eta as nat,
                    progress as nat,
                    time as nat,
                ),
                ProcessEvent::Completion { .. } => false,
            },
            None => (forall|l: nat, m: Seq<char>, t: nat| !is_log_render(line@, l, m, t)) && (
            forall|b: nat, e: nat, p: nat, t: nat| !is_progress_render(line@, b, e, p, t)),
        },
{
    if match_at(line, 0, "{\"type\":\"log\",\"level\":") {
        proof {
            lemma_renders_disjoint(line@);
            assert forall|b: nat, e: nat, p: nat, t: nat| !is_progress_render(
                line@,
                b,
                e,
                p,
                t,
            ) by {
                if is_progress_render(line@, b, e, p, t) {
                    lemma_progress_structure(line@, b, e, p, t);
                }
            }
        }
        decode_log_tail(line)
    } else if match_at(line, 0, "{\"type\":\"progress\",\"bps\":") {
        proof {
            assert forall|l: nat, m: Seq<char>, t: nat| !is_log_render(line@, l, m, t) by {
                if is_log_render(line@, l, m, t) {
                    lemma_log_structure(line@, l, m, t);
                    lemma_renders_disjoint(line@);
                }
            }
        }
        decode_progress_tail(line)
    } else {
        proof {
            assert forall|l: nat, m: Seq<char>, t: nat| !is_log_render(line@, l, m, t) by {
                if is_log_render(line@, l, m, t) {
                    lemma_log_structure(line@, l, m, t);
                }
            }
            assert forall|b: nat, e: nat, p: nat, t: nat| !is_progress_render(
                line@,
                b,
                e,
                p,
                t,
            ) by {
                if is_progress_render(line@, b, e, p, t) {
                    lemma_progress_structure(line@, b, e, p, t);
                }
            }
        }
        None
    }
}

/// Decode the rest of a line that starts like a log event.
#[verifier::rlimit(100)]
fn decode_log_tail(line: &str) -> (r: Option<ProcessEvent>)
    requires
        match_at_spec(line@, 0, "{\"type\":\"log\",\"level\":"@),
    ensures
        match r {
            Some(ev) => ev matches ProcessEvent::LogLine { level, message, time }
                && is_log_render(line@, level as nat, message@, time as nat),
            None => forall|l: nat, m: Seq<char>, t: nat| !is_log_render(line@, l, m, t),
        },
{
    proof {
        reveal_strlit("{\"type\":\"log\",\"level\":");
        reveal_strlit(",\"message\":\"");
        reveal_strlit("\",\"time\":");
        reveal_strlit("}");
    }
    let n = line.unicode_len();
    let lvl = take_uint(line, 22);
    let (level, e1) = match lvl {
        Some(ve) => ve,
        None => {
            proof {
                assert forall|l: nat, m: Seq<char>, t: nat| !is_log_render(line@, l, m, t) by {
                    if is_log_render(line@, l, m, t) {
                        lemma_log_structure(line@, l, m, t);
                    }
                }
            }
            return None;
        },
    };
    let ghost d1 = dec_rep(level as nat).len() as int;
    if !match_at(line, e1, ",\"message\":\"") {
        proof {
            assert forall|l: nat, m: Seq<char>, t: nat| !is_log_render(line@, l, m, t) by {
                if is_log_render(line@, l, m, t) {
                    lemma_log_structure(line@, l, m, t);
                }
            }
        }
        return None;
    }
    let m0 = e1 + 12;
    let q = match crate::strutil::find_quote(line, m0) {
        Some(q) => q,
        None => {
            proof {
                assert forall|l: nat, m: Seq<char>, t: nat| !is_log_render(line@, l, m, t) by {
                    if is_log_render(line@, l, m, t) {
                        lemma_log_structure(line@, l, m, t);
                    }
                }
            }
            return None;
        },
    };
    if !match_at(line, q, "\",\"time\":") {
        proof {
            crate::strutil::lemma_quote_end_props(line@, m0 as int);
            assert forall|l: nat, m: Seq<char>, t: nat| !is_log_render(line@, l, m, t) by {
                if is_log_render(line@, l, m, t) {
                    lemma_log_structure(line@, l, m, t);
                }
            }
        }
        return None;
    }
    let t0 = q + 9;
    let tm = take_uint(line, t0);
    let (time, e2) = match tm {
        Some(ve) => ve,
        None => {
            proof {
                crate::strutil::lemma_quote_end_props(line@, m0 as int);
                assert forall|l: nat, m: Seq<char>, t: nat| !is_log_render(line@, l, m, t) by {
                    if is_log_render(line@, l, m, t) {
                        lemma_log_structure(line@, l, m, t);
                    }
                }
            }
            return None;
        },
    };
    if !(match_at(line, e2, "}") && e2 + 1 == n) {
        proof {
            crate::strutil::lemma_quote_end_props(line@, m0 as int);
            assert forall|l: nat, m: Seq<char>, t: nat| !is_log_render(line@, l, m, t) by {
                if is_log_render(line@, l, m, t) {
                    lemma_log_structure(line@, l, m, t);
                }
            }
        }
        return None;
    }
    let message = line.substring_char(m0, q).to_owned();
    proof {
        crate::strutil::lemma_quote_end_props(line@, m0 as int);
        assert(message@ =~= line@.subrange(m0 as int, q as int));
        assert(line@ =~= "{\"type\":\"log\",\"level\":"@ + dec_rep(level as nat)
            + ",\"message\":\""@ + message@ + "\",\"time\":"@ + dec_rep(time as nat) + "}"@);
    }
    Some(ProcessEvent::LogLine { level, message, time })
}

/// Decode the rest of a line that starts like a progress event.
#[verifier::rlimit(100)]
fn decode_progress_tail(line: &str) -> (r: Option<ProcessEvent>)
    requires
        match_at_spec(line@, 0, "{\"type\":\"progress\",\"bps\":"@),
    ensures
        match r {
            Some(ev) => ev matches ProcessEvent::ProgressSample { bps, eta, progress, time }
                && is_progress_render(
                line@,
                bps as nat,
                eta as nat,
                progress as nat,
                time as nat,
            ),
            None => forall|b: nat, e: nat, p: nat, t: nat| !is_progress_render(
                line@,
                b,
                e,
                p,
                t,
            ),
        },
{
    proof {
        reveal_strlit("{\"type\":\"progress\",\"bps\":");
        reveal_strlit(",\"eta\":");
        reveal_strlit(",\"progress\":");
        reveal_strlit(",\"time\":");
        reveal_strlit("}");
    }
    let n = line.unicode_len();
    let r1 = take_uint(line, 25);
    let (bps, e1) = match r1 {
        Some(ve) => ve,
        None => {
            proof {
                assert forall|b: nat, e: nat, p: nat, t: nat| !is_progress_render(
                    line@,
                    b,
                    e,
                    p,
                    t,
                ) by {
                    if is_progress_render(line@, b, e, p, t) {
                        lemma_progress_structure(line@, b, e, p, t);
                    }
                }
            }
            return None;
        },
    };
    if !match_at(line, e1, ",\"eta\":") {
        proof {
            assert forall|b: nat, e: nat, p: nat, t: nat| !is_progress_render(
                line@,
                b,
                e,
                p,
                t,
            ) by {
                if is_progress_render(line@, b, e, p, t) {
                    lemma_progress_structure(line@, b, e, p, t);
                }
            }
        }
        return None;
    }
    let r2 = take_uint(line, e1 + 7);
    let (eta, e2) = match r2 {
        Some(ve) => ve,
        None => {
            proof {
                assert forall|b: nat, e: nat, p: nat, t: nat| !is_progress_render(
                    line@,
                    b,
                    e,
                    p,
                    t,
                ) by {
                    if is_progress_render(line@, b, e, p, t) {
                        lemma_progress_structure(line@, b, e, p, t);
                    }
                }
            }
            return None;
        },
    };
    if !match_at(line, e2, ",\"progress\":") {
        proof {
            assert forall|b: nat, e: nat, p: nat, t: nat| !is_progress_render(
                line@,
                b,
                e,
                p,
                t,
            ) by {
                if is_progress_render(line@, b, e, p, t) {
                    lemma_progress_structure(line@, b, e, p, t);
                }
            }
        }
        return None;
    }
    let r3 = take_uint(line, e2 + 12);
    let (progress, e3) = match r3 {
        Some(ve) => ve,
        None => {
            proof {
                assert forall|b: nat, e: nat, p: nat, t: nat| !is_progress_render(
                    line@,
                    b,
                    e,
                    p,
                    t,
                ) by {
                    if is_progress_render(line@, b, e, p, t) {
                        lemma_progress_structure(line@, b, e, p, t);
                    }
                }
            }
            return None;
        },
    };
    if !match_at(line, e3, ",\"time\":") {
        proof {
            assert forall|b: nat, e: nat, p: nat, t: nat| !is_progress_render(
                line@,
                b,
                e,
                p,
                t,
            ) by {
                if is_progress_render(line@, b, e, p, t) {
                    lemma_progress_structure(line@, b, e, p, t);
                }
            }
        }
        return None;
    }
    let r4 = take_uint(line, e3 + 8);
    let (time, e4) = match r4 {
        Some(ve) => ve,
        None => {
            proof {
                assert forall|b: nat, e: nat, p: nat, t: nat| !is_progress_render(
                    line@,
                    b,
                    e,
                    p,
                    t,
                ) by {
                    if is_progress_render(line@, b, e, p, t) {
                        lemma_progress_structure(line@, b, e, p, t);
                    }
                }
            }
            return None;
        },
    };
    if !(match_at(line, e4, "}") && e4 + 1 == n) {
        proof {
            assert forall|b: nat, e: nat, p: nat, t: nat| !is_progress_render(
                line@,
                b,
                e,
                p,
                t,
            ) by {
                if is_progress_render(line@, b, e, p, t) {
                    lemma_progress_structure(line@, b, e, p, t);
                }
            }
        }
        return None;
    }
    proof {
        assert(line@ =~= "{\"type\":\"progress\",\"bps\":"@ + dec_rep(bps as nat) + ",\"eta\":"@
            + dec_rep(eta as nat) + ",\"progress\":"@ + dec_rep(progress as nat) + ",\"time\":"@
            + dec_rep(time as nat) + "}"@);
    }
    Some(ProcessEvent::ProgressSample { bps, eta, progress, time })
}

/// The synthetic final event of a supervised run. It is delivered to the
/// caller's callback after both stream readers are joined, whether or not
/// any line decoded.
pub fn completion_event(exit_code: Option<i32>) -> (r: ProcessEvent)
    ensures
        r matches ProcessEvent::Completion { exit_status } && exit_status == exit_code,
{
    ProcessEvent::Completion { exit_status: exit_code }
}

/// The disposition of a finished patcher run: only exit code zero is a
/// success. A non-zero or missing code is fatal for the calling
/// operation — the external tool's own atomicity means there is no
/// partial-success path — and the supervisor never retries.
pub fn exit_disposition(exit_code: Option<i32>) -> (r: Result<(), BeansError>)
    ensures
        r is Ok <==> exit_code == Some(0i32),
        r matches Err(e) ==> e matches BeansError::ProcessNonzeroExitCode { exit_code: c }
            && c == exit_code,
{
    match exit_code {
        Some(0) => Ok(()),
        _ => Err(BeansError::ProcessNonzeroExitCode { exit_code }),
    }
}

} // verus!
