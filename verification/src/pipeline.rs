use crate::registry::{ArgValue, CommandId, HandlerKind, Registry};
use vstd::prelude::*;

verus! {

/// One observable step at the boundary of one event's pipeline: an attempted
/// send on the event's response channel, or the invocation of its handler.
pub enum PipelineObs {
    ReplyAttempt { text: String },
    AckAttempt,
    HandlerInvoked,
    EditAttempt { text: String },
}

/// How a routed inbound event is to be answered.
pub enum Route {
    Immediate { reply: String },
    Deferred { command: CommandId },
}

/// The reply an immediate handler gives; only ping answers immediately.
pub open spec fn spec_immediate_reply(id: CommandId) -> Seq<char> {
    match id {
        CommandId::Ping => "Hey, I'm alive!"@,
        CommandId::Alarm => "not implemented :("@,
        CommandId::Wallpaper => "not implemented :("@,
    }
}

/// Routes an inbound event. An unknown name is no error: it falls back to a
/// fixed immediate reply. A known command branches on its handler kind, and an
/// immediate handler runs to completion here.
pub fn route_event(reg: &Registry, name: &str, args: &Vec<ArgValue>) -> (r: Route)
    requires
        reg.wf(),
    ensures
        !reg.has_name(name@) ==> (r matches (Route::Immediate { reply }) && reply@
            == "not implemented :("@),
        match r {
            Route::Immediate { reply } => (!reg.has_name(name@) && reply@
                == "not implemented :("@) || (exists|i: int|
                0 <= i < reg.commands@.len() && reg.commands@[i].name@ == name@
                    && reg.commands@[i].kind == HandlerKind::Immediate && reply@
                    == spec_immediate_reply(reg.commands@[i].id)),
            Route::Deferred { command } => exists|i: int|
                0 <= i < reg.commands@.len() && reg.commands@[i].name@ == name@
                    && reg.commands@[i].kind == HandlerKind::Deferred && command
                    == reg.commands@[i].id,
        },
{
    match reg.lookup(name) {
        None => Route::Immediate { reply: String::from_str("not implemented :(") },
        Some(d) => match d.kind {
            HandlerKind::Immediate => {
                let reply = match d.id {
                    CommandId::Ping => crate::ping::run(args),
                    CommandId::Alarm => String::from_str("not implemented :("),
                    CommandId::Wallpaper => String::from_str("not implemented :("),
                };
                Route::Immediate { reply }
            },
            HandlerKind::Deferred => Route::Deferred { command: d.id },
        },
    }
}

/// Progress of one event through the response pipeline.
#[derive(Clone, Copy, Debug, PartialEq, Eq, Structural)]
pub enum PipelinePhase {
    ReplyPending,
    AckPending,
    HandlerRunning,
    EditPending,
    Finished,
}

/// The per-event state machine of the response pipeline. It decides, step by
/// step, which sends the surrounding loop must attempt and whether the handler
/// may run; the trace records every attempted send and handler invocation.
pub struct EventPipeline {
    pub phase: PipelinePhase,
    pub trace: Ghost<Seq<PipelineObs>>,
    pub ack_outcome: Ghost<Option<bool>>,
}

impl EventPipeline {
    /// The event was answered with a single message.
    pub open spec fn immediate_path(self) -> bool {
        self.trace@.len() > 0 && self.trace@[0] is ReplyAttempt
    }

    /// The event took the acknowledge-now, answer-later path.
    pub open spec fn deferred_path(self) -> bool {
        self.trace@.len() > 0 && self.trace@[0] is AckAttempt
    }

    pub open spec fn wf(self) -> bool {
        match self.phase {
            PipelinePhase::ReplyPending => self.trace@.len() == 1 && self.trace@[0] is ReplyAttempt
                && self.ack_outcome@ is None,
            PipelinePhase::AckPending => self.trace@.len() == 1 && self.trace@[0] is AckAttempt
                && self.ack_outcome@ is None,
            PipelinePhase::HandlerRunning => self.trace@.len() == 2 && self.trace@[0] is AckAttempt
                && self.trace@[1] is HandlerInvoked && self.ack_outcome@ == Some(true),
            PipelinePhase::EditPending => self.trace@.len() == 3 && self.trace@[0] is AckAttempt
                && self.trace@[1] is HandlerInvoked && self.trace@[2] is EditAttempt
                && self.ack_outcome@ == Some(true),
            PipelinePhase::Finished => (self.trace@.len() == 1 && self.trace@[0] is ReplyAttempt
                && self.ack_outcome@ is None) || (self.trace@.len() == 1
                && self.trace@[0] is AckAttempt && self.ack_outcome@ == Some(false)) || (
            self.trace@.len() == 3 && self.trace@[0] is AckAttempt
                && self.trace@[1] is HandlerInvoked && self.trace@[2] is EditAttempt
                && self.ack_outcome@ == Some(true)),
        }
    }

    /// Starts the pipeline for a routed event. For an immediate route the
    /// returned text is the one message to send; for a deferred route there is
    /// no text yet and the acknowledgment is to be sent first.
    pub fn start(route: Route) -> (r: (EventPipeline, Option<String>))
        ensures
            r.0.wf(),
            match route {
                Route::Immediate { reply } => r.0.phase == PipelinePhase::ReplyPending && r.0.trace@
                    == seq![(PipelineObs::ReplyAttempt { text: reply })] && r.1 == Some(reply),
                Route::Deferred { command } => r.0.phase == PipelinePhase::AckPending && r.0.trace@
                    == seq![PipelineObs::AckAttempt] && r.1 is None,
            },
    {
        match route {
            Route::Immediate { reply } => {
                let ghost t: Seq<PipelineObs> = seq![(PipelineObs::ReplyAttempt { text: reply })];
                let p = EventPipeline {
                    phase: PipelinePhase::ReplyPending,
                    trace: Ghost(t),
                    ack_outcome: Ghost(None),
                };
                (p, Some(reply))
            },
            Route::Deferred { command: _ } => {
                let ghost t: Seq<PipelineObs> = seq![PipelineObs::AckAttempt];
                let p = EventPipeline {
                    phase: PipelinePhase::AckPending,
                    trace: Ghost(t),
                    ack_outcome: Ghost(None),
                };
                (p, None)
            },
        }
    }

    /// Records the outcome of the single-message send; failure is logged by
    /// the caller and the pipeline is finished either way.
    pub fn reply_result(&mut self, ok: bool)
        requires
            old(self).wf(),
            old(self).phase == PipelinePhase::ReplyPending,
        ensures
            final(self).wf(),
            final(self).phase == PipelinePhase::Finished,
            final(self).trace@ == old(self).trace@,
            final(self).ack_outcome@ == old(self).ack_outcome@,
    {
        self.phase = PipelinePhase::Finished;
    }

    /// Records the outcome of the acknowledgment send. Only a successful
    /// acknowledgment lets the handler run: when the send fails, the slow work
    /// must never start, since the client has no route to receive its answer.
    pub fn ack_result(&mut self, ok: bool) -> (run_handler: bool)
        requires
            old(self).wf(),
            old(self).phase == PipelinePhase::AckPending,
        ensures
            final(self).wf(),
            run_handler == ok,
            final(self).ack_outcome@ == Some(ok),
            ok ==> final(self).phase == PipelinePhase::HandlerRunning && final(self).trace@ == old(
                self,
            ).trace@.push(PipelineObs::HandlerInvoked),
            !ok ==> final(self).phase == PipelinePhase::Finished && final(self).trace@ == old(
                self,
            ).trace@,
    {
        self.ack_outcome = Ghost(Some(ok));
        if ok {
            self.phase = PipelinePhase::HandlerRunning;
            self.trace = Ghost(self.trace@.push(PipelineObs::HandlerInvoked));
            true
        } else {
            self.phase = PipelinePhase::Finished;
            false
        }
    }

    /// Takes the handler's result text; the edit carrying it is to be sent.
    pub fn handler_result(&mut self, text: String) -> (edit_text: String)
        requires
            old(self).wf(),
            old(self).phase == PipelinePhase::HandlerRunning,
        ensures
            final(self).wf(),
            final(self).phase == PipelinePhase::EditPending,
            edit_text == text,
            final(self).trace@ == old(self).trace@.push(
                (PipelineObs::EditAttempt { text: text }),
            ),
            final(self).ack_outcome@ == old(self).ack_outcome@,
    {
        self.phase = PipelinePhase::EditPending;
        let ghost t: Seq<PipelineObs> = self.trace@.push((PipelineObs::EditAttempt { text: text }));
        self.trace = Ghost(t);
        text
    }

    /// Records the outcome of the edit send: fire-and-forget, failure is
    /// logged by the caller, there is no retry.
    pub fn edit_result(&mut self, ok: bool)
        requires
            old(self).wf(),
            old(self).phase == PipelinePhase::EditPending,
        ensures
            final(self).wf(),
            final(self).phase == PipelinePhase::Finished,
            final(self).trace@ == old(self).trace@,
            final(self).ack_outcome@ == old(self).ack_outcome@,
    {
        self.phase = PipelinePhase::Finished;
    }
}

/// Law: a finished pipeline has attempted exactly one terminal response
/// artifact: a single message, or an acknowledgment followed by exactly one
/// edit, where the deferred work stops after a failed acknowledgment.
pub proof fn lemma_one_terminal_response(p: EventPipeline)
    requires
        p.wf(),
        p.phase == PipelinePhase::Finished,
    ensures
        (p.trace@.len() == 1 && p.trace@[0] is ReplyAttempt) || (p.trace@.len() == 1
            && p.trace@[0] is AckAttempt) || (p.trace@.len() == 3 && p.trace@[0] is AckAttempt
            && p.trace@[1] is HandlerInvoked && p.trace@[2] is EditAttempt),
{
}

/// Law: on the deferred path the acknowledgment is the first send on the
/// response channel, the handler runs only after it, an edit is only ever
/// sent after the handler's work, and never more than one edit is sent.
pub proof fn lemma_deferred_send_order(p: EventPipeline)
    requires
        p.wf(),
        p.deferred_path(),
    ensures
        p.trace@[0] is AckAttempt,
        forall|i: int| 0 <= i < p.trace@.len() ==> !(p.trace@[i] is ReplyAttempt),
        forall|i: int| 0 <= i < p.trace@.len() && p.trace@[i] is AckAttempt ==> i == 0,
        forall|i: int| 0 <= i < p.trace@.len() && p.trace@[i] is HandlerInvoked ==> i == 1,
        forall|i: int| 0 <= i < p.trace@.len() && p.trace@[i] is EditAttempt ==> i == 2,
{
}

/// Law: when the acknowledgment send fails, the handler is never invoked and
/// nothing further is sent.
pub proof fn lemma_failed_ack_no_handler(p: EventPipeline)
    requires
        p.wf(),
        p.ack_outcome@ == Some(false),
    ensures
        forall|i: int| 0 <= i < p.trace@.len() ==> !(p.trace@[i] is HandlerInvoked),
        forall|i: int| 0 <= i < p.trace@.len() ==> !(p.trace@[i] is EditAttempt),
        p.trace@.len() == 1,
{
}

/// Law: an event answered immediately, the unknown-command fallback included,
/// never sends an acknowledgment or an edit and never invokes a deferred
/// handler.
pub proof fn lemma_immediate_no_ack_no_edit(p: EventPipeline)
    requires
        p.wf(),
        p.immediate_path(),
    ensures
        p.trace@.len() == 1,
        p.trace@[0] is ReplyAttempt,
{
}

} // verus!
