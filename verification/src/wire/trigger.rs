//! The defaults a trigger event takes when it arrives with fields left
//! blank or zero.

use vstd::prelude::*;

use crate::text::is_blank;
use crate::text::lemma_trimmed_empty_iff_blank;
use crate::text::trim;
use crate::text::trimmed;

verus! {

/// The identifying and descriptive text of a trigger event on the wire.
pub struct WireTriggerText {
    pub event_id: String,
    pub correlation_id: String,
    pub causation_id: String,
    pub task_description_template: String,
}

/// The same text once read: an event identifier is always present; the
/// others are absent when blank.
pub struct TriggerText {
    pub event_id: String,
    pub correlation_id: Option<String>,
    pub causation_id: Option<String>,
    pub task_description_template: Option<String>,
}

/// The constraints of a trigger event on the wire, where zero means unset.
#[derive(Debug, Clone, Copy, PartialEq, Eq, Structural)]
pub struct WireTriggerConstraints {
    pub rounds: u32,
    pub num_agents: u32,
    pub deadline_ms: u64,
}

/// The constraints once read: `None` rounds means the default number of
/// rounds; `None` agents or deadline means none is set.
#[derive(Debug, Clone, Copy, PartialEq, Eq, Structural)]
pub struct TriggerConstraints {
    pub rounds: Option<u32>,
    pub num_agents: Option<u32>,
    pub deadline_ms: Option<u64>,
}

/// A count where zero means unset.
pub open spec fn unless_zero<T>(raw: T, zero: bool) -> Option<T> {
    if zero { None } else { Some(raw) }
}

/// Reads an optional identifier: absent when blank, otherwise trimmed.
pub open spec fn optional_id_of(raw: Seq<char>) -> Option<Seq<char>> {
    if is_blank(raw) { None } else { Some(trimmed(raw)) }
}

pub open spec fn option_view(o: Option<String>) -> Option<Seq<char>> {
    match o {
        Some(s) => Some(s@),
        None => None,
    }
}

/// An optional event identifier: absent when blank, otherwise trimmed.
pub fn optional_event_id(raw: &str) -> (r: Option<String>)
    ensures
        option_view(r) == optional_id_of(raw@),
{
    let t = trim(raw);
    proof {
        lemma_trimmed_empty_iff_blank(raw@);
    }
    if t.is_empty() {
        None
    } else {
        Some(t.to_owned())
    }
}

/// Reads the text of a trigger event. A blank event identifier is replaced
/// by `fresh_event_id`; a blank correlation or causation identifier is
/// absent and any other is trimmed; a blank task description template is
/// absent and any other is kept as written.
pub fn trigger_text(w: WireTriggerText, fresh_event_id: String) -> (t: TriggerText)
    ensures
        t.event_id@ == if is_blank(w.event_id@) { fresh_event_id@ } else { w.event_id@ },
        option_view(t.correlation_id) == optional_id_of(w.correlation_id@),
        option_view(t.causation_id) == optional_id_of(w.causation_id@),
        option_view(t.task_description_template) == if is_blank(w.task_description_template@) {
            None
        } else {
            Some(w.task_description_template@)
        },
{
    proof {
        lemma_trimmed_empty_iff_blank(w.event_id@);
        lemma_trimmed_empty_iff_blank(w.task_description_template@);
    }
    let event_id = if trim(w.event_id.as_str()).is_empty() {
        fresh_event_id
    } else {
        w.event_id
    };
    let correlation_id = optional_event_id(w.correlation_id.as_str());
    let causation_id = optional_event_id(w.causation_id.as_str());
    let task_description_template = if trim(w.task_description_template.as_str()).is_empty() {
        None
    } else {
        Some(w.task_description_template)
    };
    TriggerText { event_id, correlation_id, causation_id, task_description_template }
}

/// Reads the constraints of a trigger event: zero rounds takes the default,
/// zero agents and a zero deadline set none.
pub fn trigger_constraints(w: WireTriggerConstraints) -> (c: TriggerConstraints)
    ensures
        c.rounds == unless_zero(w.rounds, w.rounds == 0),
        c.num_agents == unless_zero(w.num_agents, w.num_agents == 0),
        c.deadline_ms == unless_zero(w.deadline_ms, w.deadline_ms == 0),
{
    TriggerConstraints {
        rounds: if w.rounds == 0 { None } else { Some(w.rounds) },
        num_agents: if w.num_agents == 0 { None } else { Some(w.num_agents) },
        deadline_ms: if w.deadline_ms == 0 { None } else { Some(w.deadline_ms) },
    }
}

} // verus!
