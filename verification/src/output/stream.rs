//! Streams of result events written as newline-delimited JSON.
use vstd::prelude::*;
use crate::errors::Result;
use crate::json::{Json, JsonValue};
use crate::output::contract::{NextStep, StreamEventEnvelope, redact, step_json, steps_json};
use crate::output::render::spec_json_compact;
use crate::text::{join_lines, join_seqs, nat_decimal, views, lemma_views_push};

verus! {

/// One event of a stream: its name, its summary and its data.
#[derive(Debug)]
pub struct StreamEvent {
    pub event: String,
    pub summary: String,
    pub data: JsonValue,
}

/// The next steps an event carries: the final step, on the last event only.
pub open spec fn event_steps(last: bool, final_action: Option<NextStep>) -> Seq<NextStep> {
    if last {
        match final_action {
            Some(s) => seq![s],
            None => Seq::empty(),
        }
    } else {
        Seq::empty()
    }
}

/// The JSON of the event at a position (counting from one); only the last
/// event carries the final next step and the final mark.
pub open spec fn spec_stream_event(
    command: Seq<char>,
    e: StreamEvent,
    sequence: nat,
    last: bool,
    final_action: Option<NextStep>,
) -> Json {
    Json::Object(seq![
        ("command"@, Json::Str(command)),
        ("event"@, Json::Str(e.event@)),
        ("sequence"@, Json::Number(nat_decimal(sequence))),
        ("status"@, Json::Str("ok"@)),
        ("summary"@, Json::Str(e.summary@)),
        ("data"@, redact(e.data@)),
        ("next_steps"@, steps_json(event_steps(last, final_action))),
        ("final"@, Json::Bool(last)),
    ])
}

/// The lines of a stream of events.
pub open spec fn spec_ndjson_events(command: Seq<char>, events: Seq<StreamEvent>, final_action: Option<NextStep>) -> Seq<char> {
    join_seqs(
        Seq::new(events.len(), |i: int| spec_json_compact(
            spec_stream_event(command, events[i], (i + 1) as nat, i == events.len() - 1, final_action),
        )),
        "\n"@,
    )
}

/// Events as newline-delimited JSON, numbered from one; the last event is
/// marked final and carries the final next step.
pub fn render_ndjson_events(command: &str, events: Vec<StreamEvent>, final_action: Option<NextStep>) -> (r: Result<String>)
    ensures
        r is Ok && r->Ok_0@ == spec_ndjson_events(command@, events@, final_action),
{
    let ghost all = events@;
    let n = events.len();
    let ghost want = Seq::new(all.len(), |i: int| spec_json_compact(
        spec_stream_event(command@, all[i], (i + 1) as nat, i == all.len() - 1, final_action),
    ));
    let mut rest = events;
    let mut lines: Vec<String> = Vec::new();
    let mut i: usize = 0;
    while i < n
        invariant
            n == all.len(),
            i <= n,
            rest@ == all.subrange(i as int, n as int),
            want == Seq::new(all.len(), |i: int| spec_json_compact(
                spec_stream_event(command@, all[i], (i + 1) as nat, i == all.len() - 1, final_action),
            )),
            views(lines@) == want.subrange(0, i as int),
        decreases n - i,
    {
        let e = rest.remove(0);
        assert(e == all[i as int]);
        let last = i == n - 1;
        let steps: Vec<NextStep> = if last {
            match &final_action {
                Some(s) => vec![s.duplicate()],
                None => Vec::new(),
            }
        } else {
            Vec::new()
        };
        let ghost ed = e.data@;
        let envelope = StreamEventEnvelope::ok(command, e.event.as_str(), i as u64 + 1, e.summary.as_str(), e.data, steps, last);
        let js = envelope.to_json();
        let line = crate::output::render::json_line(&js);
        proof {
            reveal_strlit("ok");
            lemma_views_push(lines@, line);
            let target = event_steps(last, final_action);
            let a = envelope.next_steps@;
            assert(a.len() == target.len());
            assert(forall|k: int| 0 <= k < a.len() ==> step_json(#[trigger] a[k]) == step_json(target[k]));
            assert(Seq::new(a.len(), |k: int| step_json(a[k])) =~= Seq::new(target.len(), |k: int| step_json(target[k])));
            assert(steps_json(a) == steps_json(target));
            assert(js@ == crate::output::contract::event_json(envelope));
            assert(crate::output::contract::event_json(envelope) =~~= spec_stream_event(command@, all[i as int], (i + 1) as nat, i == all.len() - 1, final_action));
            assert(rest@ =~= all.subrange(i + 1, n as int));
        }
        lines.push(line);
        i = i + 1;
        assert(views(lines@) =~= want.subrange(0, i as int));
    }
    assert(want.subrange(0, n as int) =~= want);
    Ok(join_lines(&lines, "\n"))
}

} // verus!
