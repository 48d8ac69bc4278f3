//! What the load generator reports.

use crate::bench::{Counters, Mode};
use crate::latency::LatencySummary;
use crate::text::{
    all_digits, decimal, decimal_denotes_number, digit_char, digits_value, ends_its_line,
    label_shows_decimal, line_break_ends_a_line, lines, lines_follow_lines, push_decimal, shows,
};
use vstd::prelude::*;

verus! {

/// The name of a mode.
pub open spec fn mode_name(mode: Mode) -> Seq<char> {
    match mode {
        Mode::Connections => "Connections"@,
        Mode::Throughput => "Throughput"@,
    }
}

/// A number of microseconds in milliseconds, with three decimals.
pub open spec fn millis(us: u64) -> Seq<char> {
    decimal((us / 1_000) as nat) + "."@ + seq![
        digit_char(((us / 100) % 10) as nat),
        digit_char(((us / 10) % 10) as nat),
        digit_char((us % 10) as nat),
    ]
}

/// A line of the report: a name, an equals sign, and a value.
pub open spec fn report_line(name: Seq<char>, value: Seq<char>) -> Seq<char> {
    name + "="@ + value + "\n"@
}

/// The latencies in the report.
pub open spec fn latency_lines(latencies: LatencySummary) -> Seq<char> {
    report_line("latency_p50_ms"@, millis(latencies.p50_us)) + report_line(
        "latency_p95_ms"@,
        millis(latencies.p95_us),
    ) + report_line("latency_p99_ms"@, millis(latencies.p99_us)) + report_line(
        "latency_max_ms"@,
        millis(latencies.max_us),
    )
}

/// The report, without latencies where none were measured.
pub open spec fn report_text(
    mode: Mode,
    requested_connections: usize,
    connect_seconds: Seq<char>,
    counters: Counters,
    published_rate: Seq<char>,
    delivered_rate: Seq<char>,
    latencies: Option<LatencySummary>,
) -> Seq<char> {
    report_line("mode"@, mode_name(mode)) + report_line(
        "requested_connections"@,
        decimal(requested_connections as nat),
    ) + report_line("connected"@, decimal(counters.connected as nat)) + report_line(
        "connect_seconds"@,
        connect_seconds,
    ) + report_line("sent"@, decimal(counters.sent as nat)) + report_line(
        "received"@,
        decimal(counters.received as nat),
    ) + report_line("wire_received"@, decimal(counters.wire_received as nat)) + report_line(
        "errors"@,
        decimal(counters.errors as nat),
    ) + report_line("published_messages_per_second"@, published_rate) + report_line(
        "delivered_messages_per_second"@,
        delivered_rate,
    ) + match latencies {
        Some(latencies) => latency_lines(latencies),
        None => Seq::empty(),
    }
}

/// Appends a line of the report.
fn push_line(text: &mut String, name: &str, value: &str)
    ensures
        final(text)@ == old(text)@ + report_line(name@, value@),
{
    text.append(name);
    text.append("=");
    text.append(value);
    text.append("\n");
    assert(text@ =~= old(text)@ + report_line(name@, value@));
}

/// Appends a line of the report whose value is a number.
fn push_count(text: &mut String, name: &str, count: u64)
    ensures
        final(text)@ == old(text)@ + report_line(name@, decimal(count as nat)),
{
    let mut value = String::new();
    push_decimal(&mut value, count);
    assert(value@ =~= decimal(count as nat));
    push_line(text, name, value.as_str());
}

/// A number of microseconds in milliseconds, with three decimals.
pub fn millis_text(us: u64) -> (text: String)
    ensures
        text@ == millis(us),
{
    let mut text = String::new();
    push_decimal(&mut text, us / 1_000);
    text.append(".");
    push_decimal(&mut text, (us / 100) % 10);
    push_decimal(&mut text, (us / 10) % 10);
    push_decimal(&mut text, us % 10);
    assert(text@ =~= millis(us));
    text
}

/// Appends the latencies.
fn push_latencies(text: &mut String, latencies: &LatencySummary)
    ensures
        final(text)@ == old(text)@ + latency_lines(*latencies),
{
    push_line(text, "latency_p50_ms", millis_text(latencies.p50_us).as_str());
    push_line(text, "latency_p95_ms", millis_text(latencies.p95_us).as_str());
    push_line(text, "latency_p99_ms", millis_text(latencies.p99_us).as_str());
    push_line(text, "latency_max_ms", millis_text(latencies.max_us).as_str());
    assert(text@ =~= old(text)@ + latency_lines(*latencies));
}

/// The report. The seconds that it took to connect and the two rates are given as text.
pub fn report(
    mode: Mode,
    requested_connections: usize,
    connect_seconds: &str,
    counters: &Counters,
    published_rate: &str,
    delivered_rate: &str,
    latencies: Option<LatencySummary>,
) -> (text: String)
    ensures
        text@ == report_text(
            mode,
            requested_connections,
            connect_seconds@,
            *counters,
            published_rate@,
            delivered_rate@,
            latencies,
        ),
{
    let mut text = String::new();
    match mode {
        Mode::Connections => push_line(&mut text, "mode", "Connections"),
        Mode::Throughput => push_line(&mut text, "mode", "Throughput"),
    }
    push_count(&mut text, "requested_connections", requested_connections as u64);
    push_count(&mut text, "connected", counters.connected);
    push_line(&mut text, "connect_seconds", connect_seconds);
    push_count(&mut text, "sent", counters.sent);
    push_count(&mut text, "received", counters.received);
    push_count(&mut text, "wire_received", counters.wire_received);
    push_count(&mut text, "errors", counters.errors);
    push_line(&mut text, "published_messages_per_second", published_rate);
    push_line(&mut text, "delivered_messages_per_second", delivered_rate);
    if let Some(latencies) = &latencies {
        push_latencies(&mut text, latencies);
    }
    assert(text@ =~= report_text(
        mode,
        requested_connections,
        connect_seconds@,
        *counters,
        published_rate@,
        delivered_rate@,
        latencies,
    ));
    text
}

/// Milliseconds are written as digits, a point, and three more digits; the digits together are the
/// microseconds.
pub proof fn milliseconds_are_exact(us: u64)
    ensures
        ({
            let text = millis(us);
            let point = text.len() - 4;
            &&& point > 0
            &&& text[point] == '.'
            &&& all_digits(text.take(point))
            &&& all_digits(text.skip(point + 1))
            &&& digits_value(text.take(point)) * 1_000 + digits_value(text.skip(point + 1)) == us
        }),
        !millis(us).contains('\n'),
{
    reveal_strlit(".");
    let text = millis(us);
    let whole = decimal((us / 1_000) as nat);
    let point = text.len() - 4;
    let decimals = seq![
        digit_char(((us / 100) % 10) as nat),
        digit_char(((us / 10) % 10) as nat),
        digit_char((us % 10) as nat),
    ];
    decimal_denotes_number((us / 1_000) as nat);
    lemma_three_digits(((us / 100) % 10) as nat, ((us / 10) % 10) as nat, (us % 10) as nat);
    lemma_last_three_digits(us);
    assert(text.take(point) =~= whole);
    assert(text.skip(point + 1) =~= decimals);
    assert(!text.contains('\n')) by {
        if text.contains('\n') {
            let i = choose|i: int| 0 <= i < text.len() && text[i] == '\n';
            if i < point {
                assert(whole[i] == '\n');
            } else if i > point {
                assert(decimals[i - point - 1] == '\n');
            }
        }
    }
}

/// The number that three digits stand for.
proof fn lemma_three_digits(a: nat, b: nat, c: nat)
    requires
        a < 10,
        b < 10,
        c < 10,
    ensures
        all_digits(seq![digit_char(a), digit_char(b), digit_char(c)]),
        digits_value(seq![digit_char(a), digit_char(b), digit_char(c)]) == 100 * a + 10 * b + c,
{
    let three = seq![digit_char(a), digit_char(b), digit_char(c)];
    let two = seq![digit_char(a), digit_char(b)];
    let one = seq![digit_char(a)];
    assert(one.drop_last() =~= Seq::<char>::empty());
    assert(digits_value(one.drop_last()) == 0);
    assert(digits_value(one) == a);
    assert(two.drop_last() =~= one);
    assert(digits_value(two) == 10 * a + b);
    assert(three.drop_last() =~= two);
}

/// A number is its thousands and its last three digits.
proof fn lemma_last_three_digits(us: u64)
    ensures
        1_000 * (us / 1_000) + 100 * ((us / 100) % 10) + 10 * ((us / 10) % 10) + us % 10 == us,
{
}

/// The report has one line for each thing that is reported, in this order: its name, an equals sign
/// and the thing. The last four are the latencies, and are not there where there are none.
#[verifier::spinoff_prover]
pub proof fn report_shows_each_result(
    mode: Mode,
    requested_connections: usize,
    connect_seconds: Seq<char>,
    counters: Counters,
    published_rate: Seq<char>,
    delivered_rate: Seq<char>,
    latencies: Option<LatencySummary>,
)
    requires
        !connect_seconds.contains('\n'),
        !published_rate.contains('\n'),
        !delivered_rate.contains('\n'),
    ensures
        ({
            let shown = lines(
                report_text(
                    mode,
                    requested_connections,
                    connect_seconds,
                    counters,
                    published_rate,
                    delivered_rate,
                    latencies,
                ),
            );
            &&& shown.len() == if latencies is Some {
                14int
            } else {
                10int
            }
            &&& mode == Mode::Connections ==> shown[0] == "mode"@ + "="@ + "Connections"@
            &&& mode == Mode::Throughput ==> shown[0] == "mode"@ + "="@ + "Throughput"@
            &&& shows(shown[1], "requested_connections"@ + "="@, requested_connections as nat)
            &&& shows(shown[2], "connected"@ + "="@, counters.connected as nat)
            &&& shown[3] == "connect_seconds"@ + "="@ + connect_seconds
            &&& shows(shown[4], "sent"@ + "="@, counters.sent as nat)
            &&& shows(shown[5], "received"@ + "="@, counters.received as nat)
            &&& shows(shown[6], "wire_received"@ + "="@, counters.wire_received as nat)
            &&& shows(shown[7], "errors"@ + "="@, counters.errors as nat)
            &&& shown[8] == "published_messages_per_second"@ + "="@ + published_rate
            &&& shown[9] == "delivered_messages_per_second"@ + "="@ + delivered_rate
            &&& latencies matches Some(found) ==> {
                &&& shown[10] == "latency_p50_ms"@ + "="@ + millis(found.p50_us)
                &&& shown[11] == "latency_p95_ms"@ + "="@ + millis(found.p95_us)
                &&& shown[12] == "latency_p99_ms"@ + "="@ + millis(found.p99_us)
                &&& shown[13] == "latency_max_ms"@ + "="@ + millis(found.max_us)
            }
        }),
{
    lemma_names_break_no_line();
    let requested = requested_connections as nat;
    lemma_decimal_line("requested_connections"@, requested);
    lemma_decimal_line("connected"@, counters.connected as nat);
    lemma_decimal_line("sent"@, counters.sent as nat);
    lemma_decimal_line("received"@, counters.received as nat);
    lemma_decimal_line("wire_received"@, counters.wire_received as nat);
    lemma_decimal_line("errors"@, counters.errors as nat);
    let text0 = lemma_next_line(Seq::empty(), "mode"@, mode_name(mode));
    let text1 = lemma_next_line(text0, "requested_connections"@, decimal(requested));
    let text2 = lemma_next_line(text1, "connected"@, decimal(counters.connected as nat));
    let text3 = lemma_next_line(text2, "connect_seconds"@, connect_seconds);
    let text4 = lemma_next_line(text3, "sent"@, decimal(counters.sent as nat));
    let text5 = lemma_next_line(text4, "received"@, decimal(counters.received as nat));
    let text6 = lemma_next_line(text5, "wire_received"@, decimal(counters.wire_received as nat));
    let text7 = lemma_next_line(text6, "errors"@, decimal(counters.errors as nat));
    let text8 = lemma_next_line(text7, "published_messages_per_second"@, published_rate);
    let text9 = lemma_next_line(text8, "delivered_messages_per_second"@, delivered_rate);
    let line0 = report_line("mode"@, mode_name(mode));
    assert(Seq::<char>::empty() + line0 =~= line0);
    match latencies {
        Some(found) => {
            lemma_latency_lines(found);
            lines_follow_lines(text9, latency_lines(found));
        },
        None => {
            lines_follow_lines(text9, Seq::empty());
        },
    }
}

/// The latencies in the report are four lines.
proof fn lemma_latency_lines(found: LatencySummary)
    ensures
        lines(latency_lines(found)) == seq![
            "latency_p50_ms"@ + "="@ + millis(found.p50_us),
            "latency_p95_ms"@ + "="@ + millis(found.p95_us),
            "latency_p99_ms"@ + "="@ + millis(found.p99_us),
            "latency_max_ms"@ + "="@ + millis(found.max_us),
        ],
{
    lemma_names_break_no_line();
    milliseconds_are_exact(found.p50_us);
    milliseconds_are_exact(found.p95_us);
    milliseconds_are_exact(found.p99_us);
    milliseconds_are_exact(found.max_us);
    let text0 = lemma_next_line(Seq::empty(), "latency_p50_ms"@, millis(found.p50_us));
    let text1 = lemma_next_line(text0, "latency_p95_ms"@, millis(found.p95_us));
    let text2 = lemma_next_line(text1, "latency_p99_ms"@, millis(found.p99_us));
    let text3 = lemma_next_line(text2, "latency_max_ms"@, millis(found.max_us));
    let line0 = report_line("latency_p50_ms"@, millis(found.p50_us));
    assert(Seq::<char>::empty() + line0 =~= line0);
    assert(text3 == latency_lines(found));
}

/// None of the names in the report breaks a line.
proof fn lemma_names_break_no_line()
    ensures
        !"mode"@.contains('\n'),
        !"Connections"@.contains('\n'),
        !"Throughput"@.contains('\n'),
        !"requested_connections"@.contains('\n'),
        !"connected"@.contains('\n'),
        !"connect_seconds"@.contains('\n'),
        !"sent"@.contains('\n'),
        !"received"@.contains('\n'),
        !"wire_received"@.contains('\n'),
        !"errors"@.contains('\n'),
        !"published_messages_per_second"@.contains('\n'),
        !"delivered_messages_per_second"@.contains('\n'),
        !"latency_p50_ms"@.contains('\n'),
        !"latency_p95_ms"@.contains('\n'),
        !"latency_p99_ms"@.contains('\n'),
        !"latency_max_ms"@.contains('\n'),
{
    reveal_strlit("mode");
    reveal_strlit("Connections");
    reveal_strlit("Throughput");
    reveal_strlit("requested_connections");
    reveal_strlit("connected");
    reveal_strlit("connect_seconds");
    reveal_strlit("sent");
    reveal_strlit("received");
    reveal_strlit("wire_received");
    reveal_strlit("errors");
    reveal_strlit("published_messages_per_second");
    reveal_strlit("delivered_messages_per_second");
    reveal_strlit("latency_p50_ms");
    reveal_strlit("latency_p95_ms");
    reveal_strlit("latency_p99_ms");
    reveal_strlit("latency_max_ms");
}

/// A name, an equals sign and a number show that number.
proof fn lemma_decimal_line(name: Seq<char>, n: nat)
    ensures
        shows(name + "="@ + decimal(n), name + "="@, n),
        !decimal(n).contains('\n'),
{
    label_shows_decimal(name + "="@, n);
    label_shows_decimal(Seq::empty(), n);
    assert(Seq::<char>::empty() + decimal(n) =~= decimal(n));
}

/// A line of the report behind whole lines is one line more.
proof fn lemma_next_line(text: Seq<char>, name: Seq<char>, value: Seq<char>) -> (longer: Seq<char>)
    requires
        ends_its_line(text),
        !name.contains('\n'),
        !value.contains('\n'),
    ensures
        longer == text + report_line(name, value),
        ends_its_line(longer),
        lines(longer) == lines(text).push(name + "="@ + value),
{
    reveal_strlit("=");
    reveal_strlit("\n");
    let line = name + "="@ + value;
    assert(!line.contains('\n')) by {
        if line.contains('\n') {
            let i = choose|i: int| 0 <= i < line.len() && line[i] == '\n';
            if i < name.len() {
                assert(name[i] == '\n');
            } else if i > name.len() {
                assert(value[i - name.len() - 1] == '\n');
            }
        }
    }
    line_break_ends_a_line(line, Seq::empty());
    assert(report_line(name, value) =~= line + seq!['\n'] + Seq::<char>::empty());
    lines_follow_lines(text, report_line(name, value));
    assert(lines(text) + seq![line] =~= lines(text).push(line));
    text + report_line(name, value)
}

} // verus!
