//! The capture controller: at most one recording at a time, a stop flag that
//! the sampling task reads, and what becomes of the finished artifact.

use vstd::prelude::*;
use crate::action::Action;
use crate::action::Step;
use crate::config::CaptureConfig;
use crate::consumer::Consumer;
use crate::dispatch::route_of;
use crate::dispatch::Route;
use crate::error::CaptureError;
use crate::producer::fps_valid;
use crate::producer::Producer;
use crate::event::Event;
use crate::event::UserEvent;
use crate::region::Bound2;
use crate::window::Target;

verus! {

/// The two halves of one recording, ready to be handed to their tasks.
pub struct Session {
    /// Bookkeeping for the task that samples the screen.
    pub producer: Producer,
    /// Collector for the task that encodes.
    pub consumer: Consumer,
}

/// What the end of a recording leaves to be done.
pub struct Completion {
    /// The artifact to write, if there is one to keep.
    pub keep: Option<Vec<u8>>,
    /// The message to send: it takes the application out of capture mode.
    pub request: UserEvent,
}

/// The message that ends capture mode: the action subsystem asks itself to
/// suspend.
pub open spec fn suspend_request() -> UserEvent {
    UserEvent {
        sender: Target::Action,
        receiver: Target::Action,
        event: Event::DoAction(Action::Suspend),
    }
}

/// The controller's state.
#[derive(Debug, Copy, Clone, PartialEq, Eq, Structural)]
pub struct CaptureDevice {
    /// The cooperative stop flag, read at the top of each sampling iteration.
    pub stop_signal: bool,
    /// Whether a recording has started and not completed yet.
    pub recording: bool,
    /// Whether the artifact of the current recording is to be thrown away.
    pub discard: bool,
}

impl CaptureDevice {
    /// The state that a new recording leaves the controller in.
    pub open spec fn started() -> CaptureDevice {
        CaptureDevice { stop_signal: false, recording: true, discard: false }
    }

    /// A controller with no recording and no stop requested.
    pub fn new() -> (d: CaptureDevice)
        ensures
            d == (CaptureDevice { stop_signal: false, recording: false, discard: false }),
    {
        CaptureDevice { stop_signal: false, recording: false, discard: false }
    }

    /// Raises the stop flag. A recording in progress ends at its next
    /// iteration and keeps what it has.
    pub fn stop_capture(&mut self)
        ensures
            *final(self) == (CaptureDevice { stop_signal: true, ..*old(self) }),
    {
        self.stop_signal = true;
    }

    /// Raises the stop flag and marks the current recording's artifact as
    /// unwanted. Without a recording there is nothing to mark.
    pub fn stop_and_discard(&mut self)
        ensures
            *final(self) == (CaptureDevice {
                stop_signal: true,
                discard: old(self).recording,
                ..*old(self)
            }),
    {
        self.stop_signal = true;
        self.discard = self.recording;
    }

    /// Whether the stop flag is up.
    pub fn stop_requested(&self) -> (s: bool)
        ensures
            s == self.stop_signal,
    {
        self.stop_signal
    }

    /// Starts a recording of `rect` at `fps` frames a second for
    /// `duration_ms` milliseconds.
    ///
    /// A frame rate outside `(0, 60]` is reported as `InvalidFps`; with a
    /// valid rate, a recording already in progress is reported as
    /// `DoubleSessionStart`. Either way the controller is left as it was.
    /// Otherwise the stop flag is lowered and the new session returned.
    pub fn capture_gif_async(&mut self, rect: Bound2, fps: u32, duration_ms: u32) -> (r: Result<
        Session,
        CaptureError,
    >)
        ensures
            !fps_valid(fps) ==> r is Err && r->Err_0 == CaptureError::InvalidFps,
            fps_valid(fps) && old(self).recording ==> r is Err && r->Err_0
                == CaptureError::DoubleSessionStart,
            r is Ok <==> fps_valid(fps) && !old(self).recording,
            r is Err ==> *final(self) == *old(self),
            r is Ok ==> {
                &&& *final(self) == CaptureDevice::started()
                &&& r->Ok_0.producer == Producer::fresh(rect, fps, duration_ms)
                &&& r->Ok_0.producer.wf()
                &&& r->Ok_0.consumer.wf()
                &&& r->Ok_0.consumer@ == Seq::<(u32, u32, Seq<u8>)>::empty()
                &&& r->Ok_0.consumer.frame_width() == rect.width()
                &&& r->Ok_0.consumer.frame_height() == rect.height()
            },
    {
        match Producer::new(rect, fps, duration_ms) {
            Err(e) => Err(e),
            Ok(producer) => {
                if self.recording {
                    Err(CaptureError::DoubleSessionStart)
                } else {
                    self.stop_signal = false;
                    self.recording = true;
                    self.discard = false;
                    Ok(Session { producer, consumer: Consumer::new(rect) })
                }
            },
        }
    }

    /// Closes the current recording with what its consumer returned. The
    /// bytes are to be written unless encoding failed or the recording was
    /// stopped to be discarded; whatever the outcome, the request to suspend
    /// is to be sent.
    pub fn complete(&mut self, outcome: Result<Vec<u8>, CaptureError>) -> (done: Completion)
        ensures
            *final(self) == (CaptureDevice { recording: false, discard: false, ..*old(self) }),
            done.keep is Some <==> outcome is Ok && !old(self).discard,
            done.keep is Some ==> done.keep == Some(outcome->Ok_0),
            done.request == suspend_request(),
    {
        let discard = self.discard;
        self.recording = false;
        self.discard = false;
        let keep = match outcome {
            Ok(bytes) => if discard { None } else { Some(bytes) },
            Err(_) => None,
        };
        Completion {
            keep,
            request: UserEvent::build_action_event(Target::Action, Target::Action, Action::Suspend),
        }
    }
}

/// The request that a completion sends reaches the action subsystem, and
/// carrying it out is the one call that suspends.
pub proof fn lemma_completion_suspends(config: CaptureConfig)
    ensures
        route_of(suspend_request()) == Route::Execute(Action::Suspend),
        Action::Suspend.plan(config) == seq![Step::Suspend],
{
}

} // verus!
