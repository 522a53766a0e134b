//! The wire output: one JSON object per record, one record per line, with
//! exactly the fields `url`, `status`, `response_time_ms` and
//! `timestamp_epoch_secs`. The `status` value is the bare status code on
//! success and a quoted string on failure, with every double quote in the
//! failure message turned into a single quote.

use vstd::prelude::*;

use crate::outcome::{status_view, WebsiteStatus};

verus! {

/// The character of one decimal digit.
pub open spec fn digit_char(d: int) -> char {
    if d == 0 {
        '0'
    } else if d == 1 {
        '1'
    } else if d == 2 {
        '2'
    } else if d == 3 {
        '3'
    } else if d == 4 {
        '4'
    } else if d == 5 {
        '5'
    } else if d == 6 {
        '6'
    } else if d == 7 {
        '7'
    } else if d == 8 {
        '8'
    } else {
        '9'
    }
}

/// The decimal digits of a non-negative number, most significant first, with
/// no leading zero except on zero itself.
pub open spec fn dec_digits(n: int) -> Seq<char>
    decreases n,
{
    if n < 10 {
        seq![digit_char(n)]
    } else {
        dec_digits(n / 10) + seq![digit_char(n % 10)]
    }
}

/// A failure message as it appears inside the JSON string value: every double
/// quote becomes a single quote; nothing else changes.
pub open spec fn escape_spec(s: Seq<char>) -> Seq<char> {
    s.map_values(|c: char| if c == '"' { '\'' } else { c })
}

/// The `status` field's fragment: the bare code on success, the escaped error
/// inside double quotes on failure.
pub open spec fn status_json(st: Result<u16, Seq<char>>) -> Seq<char> {
    match st {
        Ok(code) => dec_digits(code as int),
        Err(e) => "\""@ + escape_spec(e) + "\""@,
    }
}

/// The exact JSON line for one record.
pub open spec fn render_line_spec(
    url: Seq<char>,
    st: Result<u16, Seq<char>>,
    ms: u64,
    ts: u64,
) -> Seq<char> {
    "{\"url\":\""@ + url + "\",\"status\":"@ + status_json(st) + ",\"response_time_ms\":"@
        + dec_digits(ms as int) + ",\"timestamp_epoch_secs\":"@ + dec_digits(ts as int) + "}"@
}

/// The one-character string of one decimal digit.
fn digit_str(d: u64) -> (r: &'static str)
    requires
        d < 10,
    ensures
        r@ == seq![digit_char(d as int)],
{
    proof {
        reveal_strlit("0");
        reveal_strlit("1");
        reveal_strlit("2");
        reveal_strlit("3");
        reveal_strlit("4");
        reveal_strlit("5");
        reveal_strlit("6");
        reveal_strlit("7");
        reveal_strlit("8");
        reveal_strlit("9");
    }
    if d == 0 {
        let r = "0";
        assert(r@ =~= seq![digit_char(0)]);
        r
    } else if d == 1 {
        let r = "1";
        assert(r@ =~= seq![digit_char(1)]);
        r
    } else if d == 2 {
        let r = "2";
        assert(r@ =~= seq![digit_char(2)]);
        r
    } else if d == 3 {
        let r = "3";
        assert(r@ =~= seq![digit_char(3)]);
        r
    } else if d == 4 {
        let r = "4";
        assert(r@ =~= seq![digit_char(4)]);
        r
    } else if d == 5 {
        let r = "5";
        assert(r@ =~= seq![digit_char(5)]);
        r
    } else if d == 6 {
        let r = "6";
        assert(r@ =~= seq![digit_char(6)]);
        r
    } else if d == 7 {
        let r = "7";
        assert(r@ =~= seq![digit_char(7)]);
        r
    } else if d == 8 {
        let r = "8";
        assert(r@ =~= seq![digit_char(8)]);
        r
    } else {
        let r = "9";
        assert(r@ =~= seq![digit_char(9)]);
        r
    }
}

/// Writes a number in decimal.
pub fn u64_to_dec(n: u64) -> (r: String)
    ensures
        r@ == dec_digits(n as int),
    decreases n,
{
    if n < 10 {
        digit_str(n).to_owned()
    } else {
        let mut s = u64_to_dec(n / 10);
        s.append(digit_str(n % 10));
        s
    }
}

/// Rewrites a message with every double quote turned into a single quote.
pub fn escape_quotes(s: &str) -> (r: String)
    ensures
        r@ == escape_spec(s@),
{
    let n = s.unicode_len();
    let mut out = String::new();
    let mut i: usize = 0;
    while i < n
        invariant
            n == s@.len(),
            i <= n,
            out@ == escape_spec(s@.subrange(0, i as int)),
        decreases n - i,
    {
        let c = s.get_char(i);
        if c == '"' {
            proof {
                reveal_strlit("'");
            }
            out.append("'");
        } else {
            let piece = s.substring_char(i, i + 1);
            out.append(piece);
        }
        assert(out@ =~= escape_spec(s@.subrange(0, i + 1)));
        i = i + 1;
    }
    assert(s@.subrange(0, n as int) =~= s@);
    out
}

/// Renders one record as its JSON line.
pub fn render_line(ws: &WebsiteStatus) -> (r: String)
    ensures
        r@ == render_line_spec(
            ws.url@,
            status_view(ws.status),
            ws.response_time_ms,
            ws.timestamp_epoch_secs,
        ),
{
    let mut out = String::new();
    out.append("{\"url\":\"");
    out.append(ws.url.as_str());
    out.append("\",\"status\":");
    match &ws.status {
        Ok(code) => {
            let d = u64_to_dec(*code as u64);
            out.append(d.as_str());
        },
        Err(e) => {
            out.append("\"");
            let esc = escape_quotes(e.as_str());
            out.append(esc.as_str());
            out.append("\"");
        },
    }
    out.append(",\"response_time_ms\":");
    let d1 = u64_to_dec(ws.response_time_ms);
    out.append(d1.as_str());
    out.append(",\"timestamp_epoch_secs\":");
    let d2 = u64_to_dec(ws.timestamp_epoch_secs);
    out.append(d2.as_str());
    out.append("}");
    assert(out@ =~= render_line_spec(
        ws.url@,
        status_view(ws.status),
        ws.response_time_ms,
        ws.timestamp_epoch_secs,
    ));
    out
}

/// Renders a batch, one line per record, in the records' order.
pub fn render_batch(results: &Vec<WebsiteStatus>) -> (r: Vec<String>)
    ensures
        r@.len() == results@.len(),
        forall|i: int|
            0 <= i < results@.len() ==> (#[trigger] r@[i])@ == render_line_spec(
                results@[i].url@,
                status_view(results@[i].status),
                results@[i].response_time_ms,
                results@[i].timestamp_epoch_secs,
            ),
{
    let mut lines: Vec<String> = Vec::new();
    let n = results.len();
    let mut i: usize = 0;
    while i < n
        invariant
            n == results@.len(),
            i <= n,
            lines@.len() == i,
            forall|j: int|
                0 <= j < i ==> (#[trigger] lines@[j])@ == render_line_spec(
                    results@[j].url@,
                    status_view(results@[j].status),
                    results@[j].response_time_ms,
                    results@[j].timestamp_epoch_secs,
                ),
        decreases n - i,
    {
        let line = render_line(&results[i]);
        lines.push(line);
        i = i + 1;
    }
    lines
}

} // verus!
