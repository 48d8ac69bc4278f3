//! The server's counters, and how they are reported.

use crate::text::{
    decimal, label_shows_decimal, line_break_ends_a_line, lines, push_decimal, shows,
};
use vstd::prelude::*;

verus! {

/// The sum of two counters, which start again from zero past the largest 64-bit number.
pub open spec fn counted(count: u64, more: u64) -> u64 {
    ((count + more) % 0x1_0000_0000_0000_0000) as u64
}

/// A counter less another, which goes on from the largest 64-bit number below zero.
pub open spec fn uncounted(count: u64, less: u64) -> u64 {
    ((count - less) % 0x1_0000_0000_0000_0000) as u64
}

/// What the server counts.
#[derive(Clone, Copy, Debug, PartialEq, Eq, Structural)]
pub struct Metrics {
    /// Sessions that are open now.
    pub connections: u64,
    /// Sessions that were ever opened.
    pub accepted: u64,
    /// Messages handed to Redis.
    pub published: u64,
    /// Messages written to a client.
    pub delivered: u64,
    /// Messages that a session was too slow to see.
    pub dropped: u64,
}

/// What the health endpoint answers.
#[derive(Clone, Debug)]
pub struct Health {
    pub status: &'static str,
    pub instance: String,
    pub connections: u64,
    pub accepted: u64,
    pub published: u64,
    pub delivered: u64,
    pub dropped: u64,
}

impl Default for Metrics {
    fn default() -> (metrics: Self)
        ensures
            metrics == (Metrics {
                connections: 0,
                accepted: 0,
                published: 0,
                delivered: 0,
                dropped: 0,
            }),
    {
        Metrics { connections: 0, accepted: 0, published: 0, delivered: 0, dropped: 0 }
    }
}

impl Metrics {
    /// One more session: it is open, and it was opened.
    pub open spec fn with_session(self) -> Metrics {
        Metrics {
            connections: counted(self.connections, 1),
            accepted: counted(self.accepted, 1),
            ..self
        }
    }

    /// One open session fewer.
    pub open spec fn without_session(self) -> Metrics {
        Metrics { connections: uncounted(self.connections, 1), ..self }
    }

    /// One more message handed to Redis.
    pub open spec fn with_published(self) -> Metrics {
        Metrics { published: counted(self.published, 1), ..self }
    }

    /// One more message written to a client.
    pub open spec fn with_delivered(self) -> Metrics {
        Metrics { delivered: counted(self.delivered, 1), ..self }
    }

    /// More messages that a session was too slow to see.
    pub open spec fn with_dropped(self, skipped: u64) -> Metrics {
        Metrics { dropped: counted(self.dropped, skipped), ..self }
    }

    /// Counts a session that opens.
    pub fn count_session(&mut self)
        ensures
            *final(self) == old(self).with_session(),
    {
        self.connections = self.connections.wrapping_add(1);
        self.accepted = self.accepted.wrapping_add(1);
    }

    /// Takes a session that closes off the open ones.
    pub fn uncount_session(&mut self)
        ensures
            *final(self) == old(self).without_session(),
    {
        self.connections = self.connections.wrapping_sub(1);
    }

    /// Counts a message handed to Redis.
    pub fn count_published(&mut self)
        ensures
            *final(self) == old(self).with_published(),
    {
        self.published = self.published.wrapping_add(1);
    }

    /// Counts a message written to a client.
    pub fn count_delivered(&mut self)
        ensures
            *final(self) == old(self).with_delivered(),
    {
        self.delivered = self.delivered.wrapping_add(1);
    }

    /// Counts messages that a session was too slow to see.
    pub fn count_dropped(&mut self, skipped: u64)
        ensures
            *final(self) == old(self).with_dropped(skipped),
    {
        self.dropped = self.dropped.wrapping_add(skipped);
    }
}

/// What the health endpoint answers: that the server is up, who it is, and what it has counted.
pub fn health(instance: &str, metrics: &Metrics) -> (health: Health)
    ensures
        health.status@ == "ok"@,
        health.instance@ == instance@,
        health.connections == metrics.connections,
        health.accepted == metrics.accepted,
        health.published == metrics.published,
        health.delivered == metrics.delivered,
        health.dropped == metrics.dropped,
{
    Health {
        status: "ok",
        instance: instance.to_owned(),
        connections: metrics.connections,
        accepted: metrics.accepted,
        published: metrics.published,
        delivered: metrics.delivered,
        dropped: metrics.dropped,
    }
}

/// A line of the metrics report: a name, a blank, and a number.
pub open spec fn metric_line(name: Seq<char>, count: u64) -> Seq<char> {
    name + " "@ + decimal(count as nat) + "\n"@
}

/// The metrics report.
pub open spec fn metrics_text(metrics: Metrics) -> Seq<char> {
    metric_line("blazechat_connections"@, metrics.connections) + metric_line(
        "blazechat_connections_accepted_total"@,
        metrics.accepted,
    ) + metric_line("blazechat_messages_published_total"@, metrics.published) + metric_line(
        "blazechat_messages_delivered_total"@,
        metrics.delivered,
    ) + metric_line("blazechat_messages_dropped_total"@, metrics.dropped)
}

/// Appends a line of the metrics report.
fn push_metric_line(text: &mut String, name: &str, count: u64)
    ensures
        final(text)@ == old(text)@ + metric_line(name@, count),
{
    text.append(name);
    text.append(" ");
    push_decimal(text, count);
    text.append("\n");
    assert(text@ =~= old(text)@ + metric_line(name@, count));
}

/// The metrics report, one counter to a line.
pub fn metrics(counts: &Metrics) -> (body: String)
    ensures
        body@ == metrics_text(*counts),
{
    let mut body = String::new();
    push_metric_line(&mut body, "blazechat_connections", counts.connections);
    push_metric_line(&mut body, "blazechat_connections_accepted_total", counts.accepted);
    push_metric_line(&mut body, "blazechat_messages_published_total", counts.published);
    push_metric_line(&mut body, "blazechat_messages_delivered_total", counts.delivered);
    push_metric_line(&mut body, "blazechat_messages_dropped_total", counts.dropped);
    assert(body@ =~= metrics_text(*counts));
    body
}

/// A counter goes up by as much as is counted, and past the largest 64-bit number it starts again
/// from zero. Taking off what was counted leaves what was there.
pub proof fn counting_can_be_undone(count: u64, more: u64)
    ensures
        count + more <= u64::MAX ==> counted(count, more) == count + more,
        count + more > u64::MAX ==> counted(count, more) == count + more
            - 0x1_0000_0000_0000_0000,
        uncounted(counted(count, more), more) == count,
        counted(uncounted(count, more), more) == count,
{
}

/// Each thing that is counted has a counter of its own, and leaves the others as they were.
pub proof fn counters_are_kept_apart(metrics: Metrics, skipped: u64)
    ensures
        metrics.with_session() == (Metrics {
            connections: counted(metrics.connections, 1),
            accepted: counted(metrics.accepted, 1),
            published: metrics.published,
            delivered: metrics.delivered,
            dropped: metrics.dropped,
        }),
        metrics.without_session() == (Metrics {
            connections: uncounted(metrics.connections, 1),
            accepted: metrics.accepted,
            published: metrics.published,
            delivered: metrics.delivered,
            dropped: metrics.dropped,
        }),
        metrics.with_session().without_session() == (Metrics {
            accepted: counted(metrics.accepted, 1),
            ..metrics
        }),
        metrics.with_published() == (Metrics {
            connections: metrics.connections,
            accepted: metrics.accepted,
            published: counted(metrics.published, 1),
            delivered: metrics.delivered,
            dropped: metrics.dropped,
        }),
        metrics.with_delivered() == (Metrics {
            connections: metrics.connections,
            accepted: metrics.accepted,
            published: metrics.published,
            delivered: counted(metrics.delivered, 1),
            dropped: metrics.dropped,
        }),
        metrics.with_dropped(skipped) == (Metrics {
            connections: metrics.connections,
            accepted: metrics.accepted,
            published: metrics.published,
            delivered: metrics.delivered,
            dropped: counted(metrics.dropped, skipped),
        }),
{
    counting_can_be_undone(metrics.connections, 1);
}

/// The report has five lines, and each shows one counter in full behind the counter's name.
pub proof fn report_shows_each_counter(metrics: Metrics)
    ensures
        ({
            let shown = lines(metrics_text(metrics));
            &&& shown.len() == 5
            &&& shows(shown[0], "blazechat_connections"@ + " "@, metrics.connections as nat)
            &&& shows(
                shown[1],
                "blazechat_connections_accepted_total"@ + " "@,
                metrics.accepted as nat,
            )
            &&& shows(
                shown[2],
                "blazechat_messages_published_total"@ + " "@,
                metrics.published as nat,
            )
            &&& shows(
                shown[3],
                "blazechat_messages_delivered_total"@ + " "@,
                metrics.delivered as nat,
            )
            &&& shows(
                shown[4],
                "blazechat_messages_dropped_total"@ + " "@,
                metrics.dropped as nat,
            )
        }),
{
    reveal_strlit("blazechat_connections");
    reveal_strlit("blazechat_connections_accepted_total");
    reveal_strlit("blazechat_messages_published_total");
    reveal_strlit("blazechat_messages_delivered_total");
    reveal_strlit("blazechat_messages_dropped_total");
    let names = seq![
        "blazechat_connections"@,
        "blazechat_connections_accepted_total"@,
        "blazechat_messages_published_total"@,
        "blazechat_messages_delivered_total"@,
        "blazechat_messages_dropped_total"@,
    ];
    let line0 = metric_line(names[0], metrics.connections);
    let line1 = metric_line(names[1], metrics.accepted);
    let line2 = metric_line(names[2], metrics.published);
    let line3 = metric_line(names[3], metrics.delivered);
    let line4 = metric_line(names[4], metrics.dropped);
    let none = Seq::<char>::empty();
    lemma_metric_line(names[4], metrics.dropped, none);
    lemma_metric_line(names[3], metrics.delivered, line4 + none);
    lemma_metric_line(names[2], metrics.published, line3 + (line4 + none));
    lemma_metric_line(names[1], metrics.accepted, line2 + (line3 + (line4 + none)));
    lemma_metric_line(
        names[0],
        metrics.connections,
        line1 + (line2 + (line3 + (line4 + none))),
    );
    assert(metrics_text(metrics) =~= line0 + (line1 + (line2 + (line3 + (line4 + none)))));
}

/// A line of the report is one line, and shows its counter.
proof fn lemma_metric_line(name: Seq<char>, count: u64, rest: Seq<char>)
    requires
        !name.contains('\n'),
    ensures
        ({
            let line = name + " "@ + decimal(count as nat);
            &&& lines(metric_line(name, count) + rest) == seq![line] + lines(rest)
            &&& shows(line, name + " "@, count as nat)
        }),
{
    reveal_strlit(" ");
    reveal_strlit("\n");
    let label = name + " "@;
    assert(!label.contains('\n')) by {
        if label.contains('\n') {
            let i = choose|i: int| 0 <= i < label.len() && label[i] == '\n';
            if i < name.len() {
                assert(name[i] == '\n');
            }
        }
    }
    label_shows_decimal(label, count as nat);
    line_break_ends_a_line(label + decimal(count as nat), rest);
    assert("\n"@ =~= seq!['\n']);
}

} // verus!
