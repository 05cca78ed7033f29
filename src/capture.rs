//! The capture state of one voice session and the transitions that transport
//! events and flushes make on it.
use std::collections::HashMap;
use vstd::prelude::*;

use crate::naming::{fresh_name, is_generated_name, record_path, record_path_of};
use crate::wave::{encode, fits_wave, wave_bytes, EncodeError};

verus! {

/// An event that the voice transport delivers to a session.
#[allow(inconsistent_fields)]
pub enum Event {
    /// A participant started or stopped speaking on the stream `ssrc`.
    SpeakingStateUpdate { user_id: Option<u64>, ssrc: u32 },
    /// Decoded audio of the stream `ssrc`, where decoding is on.
    VoicePacket { ssrc: u32, audio: Option<Vec<i16>> },
    /// A participant connected with the audio stream `ssrc`.
    ClientConnect { user_id: u64, ssrc: u32 },
    /// Any other event, which capture ignores.
    Other,
}

/// What a session's capture state is: the participant being recorded, the
/// stream each participant was last seen on, and the samples kept so far.
pub ghost struct CaptureState {
    pub target: Option<u64>,
    pub sources: Map<u64, u32>,
    pub samples: Seq<i16>,
}

/// Whether audio of the stream `ssrc` belongs to the participant recorded.
pub open spec fn keeps(st: CaptureState, ssrc: u32) -> bool {
    match st.target {
        Some(u) => st.sources.contains_key(u) && st.sources[u] == ssrc,
        None => false,
    }
}

/// The samples that the event `e` adds in the state `st`.
pub open spec fn added(st: CaptureState, e: Event) -> Seq<i16> {
    match e {
        Event::VoicePacket { ssrc, audio: Some(a) } => if keeps(st, ssrc) {
            a@
        } else {
            Seq::empty()
        },
        _ => Seq::empty(),
    }
}

/// The state after the event `e` arrives in the state `st`.
pub open spec fn step(st: CaptureState, e: Event) -> CaptureState {
    match e {
        Event::SpeakingStateUpdate { user_id: Some(u), ssrc } => CaptureState {
            sources: st.sources.insert(u, ssrc),
            ..st
        },
        Event::ClientConnect { user_id, ssrc } => CaptureState {
            sources: st.sources.insert(user_id, ssrc),
            ..st
        },
        _ => CaptureState { samples: st.samples + added(st, e), ..st },
    }
}

/// One change made to a session between flushes: a transport event that
/// arrives (`act`), or a new participant to record (`set_user_id`).
pub ghost enum Input {
    Deliver(Event),
    SetTarget(u64),
}

/// The state after the input `i` in the state `st`.
pub open spec fn apply(st: CaptureState, i: Input) -> CaptureState {
    match i {
        Input::Deliver(e) => step(st, e),
        Input::SetTarget(u) => CaptureState { target: Some(u), ..st },
    }
}

/// The samples that the input `i` adds in the state `st`.
pub open spec fn added_by(st: CaptureState, i: Input) -> Seq<i16> {
    match i {
        Input::Deliver(e) => added(st, e),
        Input::SetTarget(_) => Seq::empty(),
    }
}

/// The state after the inputs `ins` come in order in the state `st`.
pub open spec fn run(st: CaptureState, ins: Seq<Input>) -> CaptureState
    decreases ins.len(),
{
    if ins.len() == 0 {
        st
    } else {
        apply(run(st, ins.drop_last()), ins.last())
    }
}

/// The samples that the inputs `ins` add, in order, from the state `st`:
/// the audio of each packet whose stream, at its delivery, is the one mapped
/// to the participant then recorded.
pub open spec fn kept(st: CaptureState, ins: Seq<Input>) -> Seq<i16>
    decreases ins.len(),
{
    if ins.len() == 0 {
        Seq::empty()
    } else {
        kept(st, ins.drop_last()) + added_by(run(st, ins.drop_last()), ins.last())
    }
}

/// The stream that the event `e` reports for the participant `u`, if any.
pub open spec fn reported(e: Event, u: u64) -> Option<u32> {
    match e {
        Event::SpeakingStateUpdate { user_id: Some(v), ssrc } => if v == u {
            Some(ssrc)
        } else {
            None
        },
        Event::ClientConnect { user_id, ssrc } => if user_id == u {
            Some(ssrc)
        } else {
            None
        },
        _ => None,
    }
}

/// The stream that the input `i` reports for the participant `u`, if any.
pub open spec fn reported_by(i: Input, u: u64) -> Option<u32> {
    match i {
        Input::Deliver(e) => reported(e, u),
        Input::SetTarget(_) => None,
    }
}

/// The stream that the latest of the inputs `ins` to name `u` reports.
pub open spec fn last_reported(ins: Seq<Input>, u: u64) -> Option<u32>
    decreases ins.len(),
{
    if ins.len() == 0 {
        None
    } else {
        match reported_by(ins.last(), u) {
            Some(s) => Some(s),
            None => last_reported(ins.drop_last(), u),
        }
    }
}

/// The state that a flush leaves: nobody recorded, nothing kept, the streams
/// remembered.
pub open spec fn flushed(st: CaptureState) -> CaptureState {
    CaptureState { target: None, sources: st.sources, samples: Seq::empty() }
}

/// The stream that the state `st` has for the participant `u`.
pub open spec fn source_of(st: CaptureState, u: u64) -> Option<u32> {
    if st.sources.contains_key(u) {
        Some(st.sources[u])
    } else {
        None
    }
}

/// After any run of events and changes of target, the stream looked up for a
/// participant is the one that the latest event naming that participant
/// reported; where no event named it, the lookup is what it was before.
pub proof fn lemma_latest_report_wins(st: CaptureState, ins: Seq<Input>, u: u64)
    ensures
        source_of(run(st, ins), u) == (match last_reported(ins, u) {
            Some(s) => Some(s),
            None => source_of(st, u),
        }),
    decreases ins.len(),
{
    if ins.len() > 0 {
        lemma_latest_report_wins(st, ins.drop_last(), u);
    }
}

/// Inputs only ever append: the samples after a run of events and changes of
/// target are the ones before it followed by the audio of each packet that,
/// at its delivery, came on the stream mapped to the participant then
/// recorded, in the order of arrival.
pub proof fn lemma_run_appends(st: CaptureState, ins: Seq<Input>)
    ensures
        run(st, ins).samples == st.samples + kept(st, ins),
    decreases ins.len(),
{
    if ins.len() > 0 {
        lemma_run_appends(st, ins.drop_last());
        let pre = run(st, ins.drop_last());
        assert(apply(pre, ins.last()).samples =~= pre.samples + added_by(pre, ins.last()));
        assert(st.samples + kept(st, ins) =~= st.samples + kept(st, ins.drop_last()) + added_by(
            pre,
            ins.last(),
        ));
    }
}

/// A packet is kept exactly when its stream is the one mapped to the
/// participant recorded: a packet of any other stream adds nothing.
pub proof fn lemma_packet_kept_iff_mapped(st: CaptureState, ssrc: u32, a: Vec<i16>)
    ensures
        step(st, Event::VoicePacket { ssrc, audio: Some(a) }).samples == (if keeps(st, ssrc) {
            st.samples + a@
        } else {
            st.samples
        }),
        keeps(st, ssrc) <==> (st.target matches Some(u) && source_of(st, u) == Some(ssrc)),
{
    let e = Event::VoicePacket { ssrc, audio: Some(a) };
    if !keeps(st, ssrc) {
        assert(st.samples + added(st, e) =~= st.samples);
    }
}

/// A flush leaves nothing to flush: a second flush with no event between
/// finds no samples and changes nothing.
pub proof fn lemma_flush_then_nothing(st: CaptureState)
    ensures
        flushed(st).samples.len() == 0,
        flushed(flushed(st)) == flushed(st),
{
}

/// Two flushes share no sample: the first takes the samples kept before it,
/// and the second takes exactly what the packets kept between them added,
/// whatever events and changes of target came in between.
pub proof fn lemma_flushes_disjoint(st: CaptureState, ins: Seq<Input>)
    ensures
        run(flushed(st), ins).samples == kept(flushed(st), ins),
{
    lemma_run_appends(flushed(st), ins);
    assert(Seq::<i16>::empty() + kept(flushed(st), ins) =~= kept(flushed(st), ins));
}

/// A finished recording, ready to be stored at `path`.
pub struct Recording {
    pub name: String,
    pub path: String,
    pub bytes: Vec<u8>,
}

/// Why a flush gave no recording although samples had been kept.
#[derive(Debug, Clone, Copy, PartialEq, Eq, Structural)]
pub enum FlushError {
    /// The encoder could not write the samples.
    Encode(EncodeError),
}

/// The outcome of a flush of kept samples once the encoder has answered
/// `encoded`: the recording `name` with the encoded bytes, or the encoder's
/// error.
pub fn recording_of(name: &str, encoded: Result<Vec<u8>, EncodeError>) -> (r: Result<
    Option<Recording>,
    FlushError,
>)
    ensures
        match encoded {
            Ok(b) => r matches Ok(Some(rec)) && rec.name@ == name@ && rec.path@
                == record_path_of(name@) && rec.bytes@ == b@,
            Err(e) => r == Err::<Option<Recording>, FlushError>(FlushError::Encode(e)),
        },
{
    match encoded {
        Ok(bytes) => Ok(Some(Recording { name: name.to_string(), path: record_path(name), bytes })),
        Err(e) => Err(FlushError::Encode(e)),
    }
}

/// The capture state of one voice session.
pub struct Receiver {
    user_id: Option<u64>,
    ssrcs: HashMap<u64, u32>,
    all_bytes: Vec<i16>,
}

impl View for Receiver {
    type V = CaptureState;

    closed spec fn view(&self) -> CaptureState {
        CaptureState { target: self.user_id, sources: self.ssrcs@, samples: self.all_bytes@ }
    }
}

impl Receiver {
    /// A session that records nobody and knows no stream.
    pub fn new() -> (r: Self)
        ensures
            r@ == (CaptureState { target: None, sources: Map::empty(), samples: Seq::empty() }),
    {
        Receiver { user_id: None, ssrcs: HashMap::new(), all_bytes: Vec::new() }
    }

    /// The participant being recorded.
    pub fn get_user_id(&self) -> (r: Option<u64>)
        ensures
            r == self@.target,
    {
        self.user_id
    }

    /// Records `user_id` from now on, in place of whoever was recorded; the
    /// samples kept so far stay.
    pub fn set_user_id(&mut self, user_id: u64)
        ensures
            final(self)@ == (CaptureState { target: Some(user_id), ..old(self)@ }),
            final(self)@ == apply(old(self)@, Input::SetTarget(user_id)),
    {
        self.user_id = Some(user_id);
    }

    /// The stream that `user_id` was last seen on.
    pub fn get_ssrc(&self, user_id: u64) -> (r: Option<u32>)
        ensures
            r == source_of(self@, user_id),
    {
        match self.ssrcs.get(&user_id) {
            Some(s) => Some(*s),
            None => None,
        }
    }

    /// Remembers that `user_id` speaks on the stream `ssrc`.
    pub fn set_ssrc(&mut self, user_id: u64, ssrc: u32)
        ensures
            final(self)@ == (CaptureState {
                sources: old(self)@.sources.insert(user_id, ssrc),
                ..old(self)@
            }),
    {
        self.ssrcs.insert(user_id, ssrc);
    }

    /// Appends `bytes` to the samples kept.
    pub fn add(&mut self, bytes: &Vec<i16>)
        ensures
            final(self)@ == (CaptureState { samples: old(self)@.samples + bytes@, ..old(self)@ }),
    {
        let mut i: usize = 0;
        while i < bytes.len()
            invariant
                i <= bytes.len(),
                self.user_id == old(self).user_id,
                self.ssrcs@ == old(self).ssrcs@,
                self.all_bytes@ == old(self).all_bytes@ + bytes@.subrange(0, i as int),
            decreases bytes.len() - i,
        {
            self.all_bytes.push(bytes[i]);
            i += 1;
        }
        assert(bytes@.subrange(0, bytes.len() as int) =~= bytes@);
    }

    /// Applies the event `e`: a stream report updates the map, a packet of
    /// the recorded participant's stream is kept, anything else is dropped.
    pub fn act(&mut self, e: &Event)
        ensures
            final(self)@ == step(old(self)@, *e),
            final(self)@ == apply(old(self)@, Input::Deliver(*e)),
    {
        match e {
            Event::SpeakingStateUpdate { user_id, ssrc } => {
                if let Some(u) = user_id {
                    self.set_ssrc(*u, *ssrc);
                }
            },
            Event::VoicePacket { ssrc, audio } => {
                if let Some(a) = audio {
                    if let Some(u) = self.get_user_id() {
                        if let Some(s) = self.get_ssrc(u) {
                            if *ssrc == s {
                                self.add(a);
                            }
                        }
                    }
                }
            },
            Event::ClientConnect { user_id, ssrc } => {
                self.set_ssrc(*user_id, *ssrc);
            },
            Event::Other => {},
        }
        assert(self@ =~= step(old(self)@, *e));
    }

    /// Ends the recording: takes the recorded participant and the kept
    /// samples in one step, and encodes the samples as the recording `name`.
    /// Gives `Ok(None)` where nothing was kept. The state is reset whatever
    /// the encoder does.
    pub fn flush(&mut self, name: &str) -> (r: Result<Option<Recording>, FlushError>)
        ensures
            final(self)@ == flushed(old(self)@),
            (r == Ok::<Option<Recording>, FlushError>(None)) <==> old(self)@.samples.len() == 0,
            r matches Ok(Some(rec)) ==> {
                &&& rec.name@ == name@
                &&& rec.path@ == record_path_of(name@)
                &&& rec.bytes@ == wave_bytes(old(self)@.samples)
            },
            r is Err ==> old(self)@.samples.len() > 0,
            old(self)@.samples.len() > 0 && fits_wave(old(self)@.samples.len()) ==> r matches Ok(
                Some(_),
            ),
    {
        self.user_id = None;
        let mut all_bytes: Vec<i16> = Vec::new();
        std::mem::swap(&mut all_bytes, &mut self.all_bytes);
        if all_bytes.len() == 0 {
            return Ok(None);
        }
        recording_of(name, encode(&all_bytes))
    }

    /// Ends the recording under a freshly generated name, as a manual stop or
    /// an expired timer does.
    pub fn stop(&mut self) -> (r: Result<Option<Recording>, FlushError>)
        ensures
            final(self)@ == flushed(old(self)@),
            (r == Ok::<Option<Recording>, FlushError>(None)) <==> old(self)@.samples.len() == 0,
            r matches Ok(Some(rec)) ==> {
                &&& is_generated_name(rec.name@)
                &&& rec.path@ == record_path_of(rec.name@)
                &&& rec.bytes@ == wave_bytes(old(self)@.samples)
            },
            old(self)@.samples.len() > 0 && fits_wave(old(self)@.samples.len()) ==> r matches Ok(
                Some(_),
            ),
    {
        let name = fresh_name();
        self.flush(name.as_str())
    }
}

} // verus!
