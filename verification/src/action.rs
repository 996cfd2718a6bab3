//! The commands of the application and what each one sets in motion.

use vstd::prelude::*;
use crate::config::CaptureConfig;
use crate::config::DEFAULT_GIF_DURATION_MS;
use crate::config::DEFAULT_GIF_FPS;
use crate::region::Bound2;

verus! {

/// A command, as bound to a key or carried by a message.
#[derive(Debug, Clone, Copy)]
pub enum Action {
    /// Show the overlay to select a still image.
    ImageCapture,
    /// Capture this region as a still image.
    DoImageCapture(Bound2),
    /// Record this region.
    DoGifCapture(Bound2),
    /// Show the overlay to select a recording.
    GifCapture,
    /// End the recording and keep it.
    StopGifCaptureAndSave,
    /// End the recording and throw it away.
    StopGifCaptureAndDrop,
    /// Leave capture mode.
    Suspend,
}

/// One call on the capabilities that commands run against.
#[derive(Debug, Clone, Copy)]
pub enum Step {
    /// Ask the overlay to appear for a still image.
    InvokeImageCapture,
    /// Ask the overlay to appear for a recording.
    InvokeGifCapture,
    /// Read the region once and persist the image.
    DoImageCapture(Bound2),
    /// Start recording the region at a frame rate, for a length in
    /// milliseconds.
    DoGifCapture(Bound2, u32, u32),
    /// Dismiss the overlay and stop any recording.
    Suspend,
    /// Stop the recording; its artifact is wanted.
    StopGifCaptureAndSave,
    /// Stop the recording; its artifact is not wanted.
    StopGifCaptureAndDrop,
}

/// What commands run against: the overlay, the screen and the recorder.
///
/// A context may keep a trace of the calls made on it. One that does is held
/// to it: each method adds exactly its own call. One that keeps none, which
/// is what an implementation gets that says nothing, is promised nothing.
pub trait ActionContext {
    /// Whether this context keeps a trace of the calls made on it.
    open spec fn keeps_trace(&self) -> bool {
        false
    }

    /// The calls made on this context so far, oldest first.
    open spec fn trace(&self) -> Seq<Step> {
        Seq::empty()
    }

    /// Asks the overlay to appear, with a still image pending.
    fn invoke_image_capture(&mut self)
        ensures
            old(self).keeps_trace() ==> final(self).keeps_trace() && final(self).trace() == old(self).trace().push(Step::InvokeImageCapture),
    ;

    /// Asks the overlay to appear, with a recording pending.
    fn invoke_gif_capture(&mut self)
        ensures
            old(self).keeps_trace() ==> final(self).keeps_trace() && final(self).trace() == old(self).trace().push(Step::InvokeGifCapture),
    ;

    /// Reads `rect` from the screen once and persists the image.
    fn do_image_capture(&mut self, rect: Bound2)
        ensures
            old(self).keeps_trace() ==> final(self).keeps_trace() && final(self).trace() == old(self).trace().push(Step::DoImageCapture(rect)),
    ;

    /// Starts recording `rect` at `fps` frames a second for `duration_ms`
    /// milliseconds; the artifact is persisted when the recording completes.
    fn do_gif_capture(&mut self, rect: Bound2, fps: u32, duration_ms: u32)
        ensures
            old(self).keeps_trace() ==> final(self).keeps_trace() && final(self).trace() == old(self).trace().push(Step::DoGifCapture(rect, fps, duration_ms)),
    ;

    /// Dismisses the overlay and stops any recording.
    fn suspend(&mut self)
        ensures
            old(self).keeps_trace() ==> final(self).keeps_trace() && final(self).trace() == old(self).trace().push(Step::Suspend),
    ;

    /// Stops the recording and keeps its artifact.
    fn stop_gif_capture_and_save(&mut self)
        ensures
            old(self).keeps_trace() ==> final(self).keeps_trace() && final(self).trace() == old(self).trace().push(Step::StopGifCaptureAndSave),
    ;

    /// Stops the recording and marks its artifact as unwanted.
    fn stop_gif_capture_and_drop(&mut self)
        ensures
            old(self).keeps_trace() ==> final(self).keeps_trace() && final(self).trace() == old(self).trace().push(Step::StopGifCaptureAndDrop),
    ;
}

/// `after` is what `before` becomes when `steps` are made on it, one after
/// the other: its trace is longer by exactly those calls. Of a context that
/// keeps no trace this says nothing.
pub open spec fn made<A: ActionContext>(before: A, after: A, steps: Seq<Step>) -> bool {
    before.keeps_trace() ==> after.keeps_trace() && after.trace() == before.trace() + steps
}

/// Something that can be carried out against a context.
pub trait Execute<A: ActionContext> {
    /// Carries `self` out against `ctx`.
    fn execute(&self, ctx: &mut A);
}

impl Action {
    /// The calls that a command makes, in order, under the given settings.
    ///
    /// A still image suspends as soon as it is taken. A recording does not:
    /// it runs until it completes or is stopped. Both ways of stopping end by
    /// suspending.
    pub open spec fn plan(&self, config: CaptureConfig) -> Seq<Step> {
        match *self {
            Action::ImageCapture => seq![Step::InvokeImageCapture],
            Action::GifCapture => seq![Step::InvokeGifCapture],
            Action::Suspend => seq![Step::Suspend],
            Action::DoGifCapture(rect) => seq![
                Step::DoGifCapture(rect, config.gif_capture_fps, config.gif_capture_duration_ms),
            ],
            Action::DoImageCapture(rect) => seq![Step::DoImageCapture(rect), Step::Suspend],
            Action::StopGifCaptureAndSave => seq![Step::StopGifCaptureAndSave, Step::Suspend],
            Action::StopGifCaptureAndDrop => seq![Step::StopGifCaptureAndDrop, Step::Suspend],
        }
    }

    /// The calls that carrying this command out makes, in order: those of
    /// [`Action::plan`] under the default settings.
    pub open spec fn calls(&self) -> Seq<Step> {
        self.plan(
            CaptureConfig {
                gif_capture_fps: DEFAULT_GIF_FPS,
                gif_capture_duration_ms: DEFAULT_GIF_DURATION_MS,
            },
        )
    }

    /// The calls that this command makes, in order.
    pub fn steps(&self, config: &CaptureConfig) -> (steps: Vec<Step>)
        ensures
            steps@ == self.plan(*config),
    {
        let mut steps: Vec<Step> = Vec::new();
        match *self {
            Action::ImageCapture => {
                steps.push(Step::InvokeImageCapture);
            },
            Action::GifCapture => {
                steps.push(Step::InvokeGifCapture);
            },
            Action::Suspend => {
                steps.push(Step::Suspend);
            },
            Action::DoGifCapture(rect) => {
                steps.push(
                    Step::DoGifCapture(rect, config.gif_capture_fps, config.gif_capture_duration_ms),
                );
            },
            Action::DoImageCapture(rect) => {
                steps.push(Step::DoImageCapture(rect));
                steps.push(Step::Suspend);
            },
            Action::StopGifCaptureAndSave => {
                steps.push(Step::StopGifCaptureAndSave);
                steps.push(Step::Suspend);
            },
            Action::StopGifCaptureAndDrop => {
                steps.push(Step::StopGifCaptureAndDrop);
                steps.push(Step::Suspend);
            },
        }
        assert(steps@ =~= self.plan(*config));
        steps
    }

    /// Whether the command takes a region: such a command is only ever sent
    /// for a region that is not empty.
    pub open spec fn region(&self) -> Option<Bound2> {
        match *self {
            Action::DoImageCapture(rect) => Some(rect),
            Action::DoGifCapture(rect) => Some(rect),
            _ => None,
        }
    }
}

impl Step {
    /// Makes this one call on `ctx`, and no other.
    pub fn run<A: ActionContext>(&self, ctx: &mut A)
        ensures
            made(*old(ctx), *final(ctx), seq![*self]),
    {
        let ghost before = ctx.trace();
        proof {
            assert(before.push(*self) =~= before + seq![*self]);
        }
        match *self {
            Step::InvokeImageCapture => ctx.invoke_image_capture(),
            Step::InvokeGifCapture => ctx.invoke_gif_capture(),
            Step::DoImageCapture(rect) => ctx.do_image_capture(rect),
            Step::DoGifCapture(rect, fps, duration_ms) => ctx.do_gif_capture(rect, fps, duration_ms),
            Step::Suspend => ctx.suspend(),
            Step::StopGifCaptureAndSave => ctx.stop_gif_capture_and_save(),
            Step::StopGifCaptureAndDrop => ctx.stop_gif_capture_and_drop(),
        }
    }
}

impl<A: ActionContext> Execute<A> for Action {
    /// Makes the calls of [`Action::calls`] on `ctx`, in order, and no
    /// others.
    fn execute(&self, ctx: &mut A)
        ensures
            made(*old(ctx), *final(ctx), self.calls()),
    {
        let config = CaptureConfig::new();
        let steps = self.steps(&config);
        let ghost start = *ctx;
        let mut i: usize = 0;
        assert(start.trace() + steps@.take(0) =~= start.trace());
        while i < steps.len()
            invariant
                i <= steps.len(),
                steps@ == self.calls(),
                made(start, *ctx, steps@.take(i as int)),
            decreases steps.len() - i,
        {
            steps[i].run(ctx);
            proof {
                assert(steps@.take(i + 1) =~= steps@.take(i as int) + seq![steps@[i as int]]);
                assert(start.trace() + steps@.take(i + 1) =~= (start.trace() + steps@.take(i as int))
                    + seq![steps@[i as int]]);
            }
            i = i + 1;
        }
        assert(steps@.take(i as int) =~= steps@);
    }
}

/// A context that does nothing but keep the trace of the calls made on it.
pub struct CallLog {
    /// The calls made so far, oldest first.
    pub calls: Vec<Step>,
}

impl CallLog {
    /// A context on which no call was made yet.
    pub fn new() -> (log: CallLog)
        ensures
            log.calls@ == Seq::<Step>::empty(),
    {
        CallLog { calls: Vec::new() }
    }
}

impl ActionContext for CallLog {
    open spec fn keeps_trace(&self) -> bool {
        true
    }

    open spec fn trace(&self) -> Seq<Step> {
        self.calls@
    }

    fn invoke_image_capture(&mut self) {
        self.calls.push(Step::InvokeImageCapture);
    }

    fn invoke_gif_capture(&mut self) {
        self.calls.push(Step::InvokeGifCapture);
    }

    fn do_image_capture(&mut self, rect: Bound2) {
        self.calls.push(Step::DoImageCapture(rect));
    }

    fn do_gif_capture(&mut self, rect: Bound2, fps: u32, duration_ms: u32) {
        self.calls.push(Step::DoGifCapture(rect, fps, duration_ms));
    }

    fn suspend(&mut self) {
        self.calls.push(Step::Suspend);
    }

    fn stop_gif_capture_and_save(&mut self) {
        self.calls.push(Step::StopGifCaptureAndSave);
    }

    fn stop_gif_capture_and_drop(&mut self) {
        self.calls.push(Step::StopGifCaptureAndDrop);
    }
}

} // verus!
