use vstd::prelude::*;

use std::collections::VecDeque;

use crate::text::{push_signed_decimal, push_str, signed_decimal_spec};

verus! {

/// Where the current reply stands.
#[derive(PartialEq, Eq, Structural, Debug, Clone, Copy)]
pub enum PlaybackStage {
    /// No reply is being worked on.
    Idle,
    /// Waiting for the synthesized audio.
    Synthesizing,
    /// Waiting for the upload to give a playable URL.
    Uploading,
    /// Waiting for the playback command to be acknowledged.
    Playing,
}

/// The next external step the worker asks for.
pub enum PlaybackAction {
    /// Synthesize audio for this reply text.
    Synthesize(String),
    /// Upload the audio under this storage key.
    Upload { key: String, audio: Vec<u8> },
    /// Play the URL on the call.
    Play { call_control_id: String, url: String },
    /// Nothing to do until a reply or an outcome arrives.
    Wait,
    /// The input is closed and every queued reply was handled: the worker ends.
    Exit,
}

/// The outcome of the step last asked for.
pub enum PlaybackEvent {
    /// Audio bytes were synthesized, at the given Unix time in seconds.
    Synthesized(Vec<u8>, i64),
    /// The audio was uploaded and can be fetched from this URL.
    Uploaded(String),
    /// The playback command was accepted.
    Played,
    /// The step failed; the current reply is abandoned.
    Failed,
}

/// The abstract state of a playback worker.
pub struct PlaybackModel {
    pub call_control_id: Seq<char>,
    /// Replies waiting, oldest first.
    pub queue: Seq<Seq<char>>,
    pub stage: PlaybackStage,
    pub input_closed: bool,
    /// Every reply ever enqueued, in order.
    pub enqueued: Seq<Seq<char>>,
    /// Every reply whose synthesis was started, in order.
    pub started: Seq<Seq<char>>,
}

impl PlaybackModel {
    /// The replies started and those waiting are, together, exactly those enqueued.
    pub open spec fn wf(&self) -> bool {
        self.started + self.queue == self.enqueued
    }
}

/// Whether an outcome answers the step the stage waits for: synthesized audio
/// while synthesizing, a URL while uploading, an accepted playback while
/// playing, or a failure at any stage but idle.
pub open spec fn outcome_fits(stage: PlaybackStage, event: PlaybackEvent) -> bool {
    match event {
        PlaybackEvent::Synthesized(..) => stage == PlaybackStage::Synthesizing,
        PlaybackEvent::Uploaded(..) => stage == PlaybackStage::Uploading,
        PlaybackEvent::Played => stage == PlaybackStage::Playing,
        PlaybackEvent::Failed => stage != PlaybackStage::Idle,
    }
}

/// The storage key of a synthesized reply.
pub open spec fn response_key_spec(call_control_id: Seq<char>, timestamp: i64) -> Seq<char> {
    "audio/response_"@ + call_control_id + "_"@ + signed_decimal_spec(timestamp as int) + ".mp3"@
}

/// The storage key under which the reply synthesized at `timestamp` is uploaded.
pub fn response_key(call_control_id: &str, timestamp: i64) -> (r: String)
    ensures
        r@ == response_key_spec(call_control_id@, timestamp),
{
    let mut key = String::new();
    push_str(&mut key, "audio/response_");
    push_str(&mut key, call_control_id);
    push_str(&mut key, "_");
    push_signed_decimal(&mut key, timestamp);
    push_str(&mut key, ".mp3");
    key
}

/// Serializes synthesis, upload and playback of the replies of one call:
/// replies are handled one at a time, in the order they were enqueued.
pub struct PlaybackWorker {
    call_control_id: String,
    queue: VecDeque<String>,
    stage: PlaybackStage,
    input_closed: bool,
    enqueued: Ghost<Seq<Seq<char>>>,
    started: Ghost<Seq<Seq<char>>>,
}

impl View for PlaybackWorker {
    type V = PlaybackModel;

    closed spec fn view(&self) -> PlaybackModel {
        PlaybackModel {
            call_control_id: self.call_control_id@,
            queue: self.queue@.map_values(|s: String| s@),
            stage: self.stage,
            input_closed: self.input_closed,
            enqueued: self.enqueued@,
            started: self.started@,
        }
    }
}

impl PlaybackWorker {
    pub fn new(call_control_id: String) -> (r: PlaybackWorker)
        ensures
            r@ == (PlaybackModel {
                call_control_id: call_control_id@,
                queue: Seq::empty(),
                stage: PlaybackStage::Idle,
                input_closed: false,
                enqueued: Seq::empty(),
                started: Seq::empty(),
            }),
            r@.wf(),
    {
        let r = PlaybackWorker {
            call_control_id,
            queue: VecDeque::new(),
            stage: PlaybackStage::Idle,
            input_closed: false,
            enqueued: Ghost(Seq::empty()),
            started: Ghost(Seq::empty()),
        };
        assert(r@.queue == Seq::<Seq<char>>::empty());
        r
    }

    /// Puts a reply at the back of the queue.
    pub fn enqueue(&mut self, reply: String)
        requires
            old(self)@.wf(),
        ensures
            final(self)@ == (PlaybackModel {
                queue: old(self)@.queue.push(reply@),
                enqueued: old(self)@.enqueued.push(reply@),
                ..old(self)@
            }),
            final(self)@.wf(),
    {
        let ghost q = self.queue@;
        let ghost text = reply@;
        self.queue.push_back(reply);
        self.enqueued = Ghost(self.enqueued@.push(text));
        assert(self.queue@.map_values(|s: String| s@) == q.map_values(|s: String| s@).push(text));
        assert(self@.started + self@.queue == self@.enqueued);
    }

    /// Records that no more replies will come.
    pub fn close_input(&mut self)
        requires
            old(self)@.wf(),
        ensures
            final(self)@ == (PlaybackModel { input_closed: true, ..old(self)@ }),
            final(self)@.wf(),
    {
        self.input_closed = true;
    }

    /// The next step when no outcome is awaited: the reply at the front of the
    /// queue starts its synthesis. While a reply is in flight nothing new starts.
    pub fn next_action(&mut self) -> (r: PlaybackAction)
        requires
            old(self)@.wf(),
        ensures
            final(self)@.wf(),
            r is Exit ==> final(self)@.queue.len() == 0 && final(self)@.input_closed
                && final(self)@.started == final(self)@.enqueued,
            old(self)@.stage != PlaybackStage::Idle ==> final(self)@ == old(self)@ && r is Wait,
            old(self)@.stage == PlaybackStage::Idle && old(self)@.queue.len() > 0 ==> {
                &&& r matches PlaybackAction::Synthesize(t) && t@ == old(self)@.queue[0]
                &&& final(self)@ == (PlaybackModel {
                    queue: old(self)@.queue.drop_first(),
                    stage: PlaybackStage::Synthesizing,
                    started: old(self)@.started.push(old(self)@.queue[0]),
                    ..old(self)@
                })
            },
            old(self)@.stage == PlaybackStage::Idle && old(self)@.queue.len() == 0 ==> {
                &&& final(self)@ == old(self)@
                &&& if old(self)@.input_closed {
                    r is Exit
                } else {
                    r is Wait
                }
            },
    {
        if self.stage != PlaybackStage::Idle {
            return PlaybackAction::Wait;
        }
        let ghost q = self.queue@;
        match self.queue.pop_front() {
            Some(text) => {
                assert(self.queue@ == q.drop_first());
                assert(self.queue@.map_values(|s: String| s@) == q.map_values(
                    |s: String| s@,
                ).drop_first());
                self.started = Ghost(self.started@.push(text@));
                self.stage = PlaybackStage::Synthesizing;
                assert(old(self)@.started.push(old(self)@.queue[0]) + old(self)@.queue.drop_first()
                    == old(self)@.started + old(self)@.queue);
                PlaybackAction::Synthesize(text)
            },
            None => {
                if self.input_closed {
                    PlaybackAction::Exit
                } else {
                    PlaybackAction::Wait
                }
            },
        }
    }

    /// Takes the outcome of the step last asked for and names the next one.
    /// Synthesized audio is uploaded, an uploaded URL is played; once the
    /// playback is accepted, or any step fails, the reply is done and the next
    /// queued reply starts. An outcome that does not fit the stage is ignored.
    pub fn on_event(&mut self, event: PlaybackEvent) -> (r: PlaybackAction)
        requires
            old(self)@.wf(),
        ensures
            final(self)@.wf(),
            r is Exit ==> final(self)@.queue.len() == 0 && final(self)@.input_closed
                && final(self)@.started == final(self)@.enqueued,
            final(self)@.enqueued == old(self)@.enqueued,
            final(self)@.call_control_id == old(self)@.call_control_id,
            final(self)@.input_closed == old(self)@.input_closed,
            (old(self)@.stage == PlaybackStage::Synthesizing && event is Synthesized) ==> {
                &&& r matches PlaybackAction::Upload { key, audio } && key@ == response_key_spec(
                    old(self)@.call_control_id,
                    event->Synthesized_1,
                ) && audio@ == event->Synthesized_0@
                &&& final(self)@ == (PlaybackModel { stage: PlaybackStage::Uploading, ..old(self)@ })
            },
            (old(self)@.stage == PlaybackStage::Uploading && event is Uploaded) ==> {
                &&& r matches PlaybackAction::Play { call_control_id, url } && call_control_id@
                    == old(self)@.call_control_id && url@ == event->Uploaded_0@
                &&& final(self)@ == (PlaybackModel { stage: PlaybackStage::Playing, ..old(self)@ })
            },
            !outcome_fits(old(self)@.stage, event) ==> final(self)@ == old(self)@ && r is Wait,
            ((old(self)@.stage == PlaybackStage::Playing && event is Played) || (old(self)@.stage
                != PlaybackStage::Idle && event is Failed)) ==> {
                &&& old(self)@.queue.len() > 0 ==> (r matches PlaybackAction::Synthesize(t) && t@
                    == old(self)@.queue[0] && final(self)@.stage == PlaybackStage::Synthesizing
                    && final(self)@.started == old(self)@.started.push(old(self)@.queue[0]))
                &&& old(self)@.queue.len() == 0 ==> final(self)@.stage == PlaybackStage::Idle
                    && final(self)@.started == old(self)@.started && (if old(self)@.input_closed {
                    r is Exit
                } else {
                    r is Wait
                })
            },
    {
        match event {
            PlaybackEvent::Synthesized(audio, timestamp) => {
                if self.stage == PlaybackStage::Synthesizing {
                    self.stage = PlaybackStage::Uploading;
                    let key = response_key(self.call_control_id.as_str(), timestamp);
                    PlaybackAction::Upload { key, audio }
                } else {
                    PlaybackAction::Wait
                }
            },
            PlaybackEvent::Uploaded(url) => {
                if self.stage == PlaybackStage::Uploading {
                    self.stage = PlaybackStage::Playing;
                    PlaybackAction::Play { call_control_id: self.call_control_id.clone(), url }
                } else {
                    PlaybackAction::Wait
                }
            },
            PlaybackEvent::Played => {
                if self.stage == PlaybackStage::Playing {
                    self.stage = PlaybackStage::Idle;
                    self.next_action()
                } else {
                    PlaybackAction::Wait
                }
            },
            PlaybackEvent::Failed => {
                if self.stage != PlaybackStage::Idle {
                    self.stage = PlaybackStage::Idle;
                    self.next_action()
                } else {
                    PlaybackAction::Wait
                }
            },
        }
    }
}

/// Replies start in the order they were enqueued: those whose synthesis has
/// started are exactly the first ones enqueued, in the same order, the next
/// to start is the next one enqueued, and once nothing is queued every reply
/// enqueued has started.
pub proof fn lemma_playback_in_order(m: PlaybackModel)
    requires
        m.wf(),
    ensures
        m.started.len() <= m.enqueued.len(),
        m.started == m.enqueued.take(m.started.len() as int),
        m.queue == m.enqueued.skip(m.started.len() as int),
        m.queue.len() > 0 ==> m.queue[0] == m.enqueued[m.started.len() as int],
        m.queue.len() == 0 ==> m.started == m.enqueued,
{
    assert(m.enqueued.take(m.started.len() as int) == m.started);
    assert(m.enqueued.skip(m.started.len() as int) == m.queue);
}

} // verus!
