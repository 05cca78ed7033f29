//! The sessions of the process, each with its own capture state. A session
//! is added on first use and never removed.
//!
//! Each transition of a session (a set-target, an event, a stop) is one call
//! on the registry, so a holder of the registry behind one lock runs them
//! one at a time: a stop never interleaves with an append, and whichever of
//! the two takes the lock first happens wholly first.
use std::collections::HashMap;
use vstd::prelude::*;

use crate::capture::{flushed, step, CaptureState, Event, FlushError, Receiver, Recording};
use crate::naming::{is_generated_name, record_path_of};
use crate::wave::{fits_wave, wave_bytes};

verus! {

/// The capture state of each session, keyed by the session's identifier.
pub struct Registry {
    receivers: HashMap<u64, Receiver>,
}

impl View for Registry {
    type V = Map<u64, CaptureState>;

    closed spec fn view(&self) -> Map<u64, CaptureState> {
        self.receivers@.map_values(|r: Receiver| r@)
    }
}

/// The state of a session that was just created.
pub open spec fn fresh_state() -> CaptureState {
    CaptureState { target: None, sources: Map::empty(), samples: Seq::empty() }
}

impl Registry {
    /// No session yet.
    pub fn new() -> (r: Self)
        ensures
            r@ == Map::<u64, CaptureState>::empty(),
    {
        let r = Registry { receivers: HashMap::new() };
        assert(r@ =~= Map::<u64, CaptureState>::empty());
        r
    }

    /// Takes the receiver of `session` out of the map.
    fn take(&mut self, session: u64) -> (r: Option<Receiver>)
        ensures
            final(self)@ == old(self)@.remove(session),
            r matches Some(x) <==> old(self)@.contains_key(session),
            r matches Some(x) ==> x@ == old(self)@[session],
    {
        let r = self.receivers.remove(&session);
        assert(self@ =~= old(self)@.remove(session));
        r
    }

    /// Puts `receiver` back as the state of `session`.
    fn put(&mut self, session: u64, receiver: Receiver)
        ensures
            final(self)@ == old(self)@.insert(session, receiver@),
    {
        let ghost v = receiver@;
        self.receivers.insert(session, receiver);
        assert(self@ =~= old(self)@.insert(session, v));
    }

    /// Makes sure that `session` has a capture state: a new one where it had
    /// none, the one it had otherwise.
    pub fn get_or_create(&mut self, session: u64)
        ensures
            final(self)@ == (if old(self)@.contains_key(session) {
                old(self)@
            } else {
                old(self)@.insert(session, fresh_state())
            }),
    {
        if !self.receivers.contains_key(&session) {
            self.put(session, Receiver::new());
        }
    }

    /// The capture state of `session`, if it has one.
    pub fn get(&self, session: u64) -> (r: Option<&Receiver>)
        ensures
            r matches Some(x) <==> self@.contains_key(session),
            r matches Some(x) ==> x@ == self@[session],
    {
        self.receivers.get(&session)
    }

    /// Starts recording `user_id` in `session`; false where the session has
    /// no capture state, which is then left as it was.
    pub fn set_user_id(&mut self, session: u64, user_id: u64) -> (r: bool)
        ensures
            r == old(self)@.contains_key(session),
            final(self)@ == (if r {
                old(self)@.insert(
                    session,
                    CaptureState { target: Some(user_id), ..old(self)@[session] },
                )
            } else {
                old(self)@
            }),
    {
        match self.take(session) {
            Some(mut rec) => {
                rec.set_user_id(user_id);
                self.put(session, rec);
                assert(self@ =~= old(self)@.insert(
                    session,
                    CaptureState { target: Some(user_id), ..old(self)@[session] },
                ));
                true
            },
            None => {
                assert(self@ =~= old(self)@);
                false
            },
        }
    }

    /// Routes the transport event `e` to the capture state of `session`;
    /// false where the session has none.
    pub fn act(&mut self, session: u64, e: &Event) -> (r: bool)
        ensures
            r == old(self)@.contains_key(session),
            final(self)@ == (if r {
                old(self)@.insert(session, step(old(self)@[session], *e))
            } else {
                old(self)@
            }),
    {
        match self.take(session) {
            Some(mut rec) => {
                rec.act(e);
                self.put(session, rec);
                assert(self@ =~= old(self)@.insert(session, step(old(self)@[session], *e)));
                true
            },
            None => {
                assert(self@ =~= old(self)@);
                false
            },
        }
    }

    /// Stops the recording of `session` under a fresh name; `None` where the
    /// session has no capture state.
    pub fn stop(&mut self, session: u64) -> (r: Option<Result<Option<Recording>, FlushError>>)
        ensures
            r is Some <==> old(self)@.contains_key(session),
            final(self)@ == (if r is Some {
                old(self)@.insert(session, flushed(old(self)@[session]))
            } else {
                old(self)@
            }),
            r matches Some(x) ==> ((x == Ok::<Option<Recording>, FlushError>(None)) <==> old(
                self,
            )@[session].samples.len() == 0),
            r matches Some(Ok(Some(rec))) ==> {
                &&& is_generated_name(rec.name@)
                &&& rec.path@ == record_path_of(rec.name@)
                &&& rec.bytes@ == wave_bytes(old(self)@[session].samples)
            },
            r is Some && old(self)@[session].samples.len() > 0 && fits_wave(
                old(self)@[session].samples.len(),
            ) ==> r matches Some(Ok(Some(_))),
    {
        match self.take(session) {
            Some(mut rec) => {
                let out = rec.stop();
                self.put(session, rec);
                assert(self@ =~= old(self)@.insert(session, flushed(old(self)@[session])));
                Some(out)
            },
            None => {
                assert(self@ =~= old(self)@);
                None
            },
        }
    }
}

} // verus!
