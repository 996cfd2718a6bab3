//! The selection overlay: how pointer, focus and message events change the
//! selection, and when a drag becomes a capture request.

use vstd::prelude::*;
use crate::action::Action;
use crate::event::Event;
use crate::event::UserEvent;
use crate::region::Bound2;
use crate::region::Point;
use crate::selector::RegionSelector;
use crate::window::Target;

verus! {

/// What a finished drag is to become.
#[derive(Debug, Clone, Copy, PartialEq, Eq, Structural)]
pub enum CaptureKind {
    /// One still image.
    Image,
    /// A timed recording.
    Gif,
}

/// The overlay's state.
#[derive(Debug, Clone, Copy)]
pub struct SelectorWindow {
    /// The drag in progress.
    pub region_selector: RegionSelector,
    /// What the next finished drag becomes.
    pub invoke_type: CaptureKind,
    /// The identity under which this overlay sends.
    pub window_id: Target,
    /// Whether the overlay itself is on screen.
    pub shown: bool,
}

/// The command that captures `region` as `kind`.
pub open spec fn perform(kind: CaptureKind, region: Bound2) -> Action {
    match kind {
        CaptureKind::Image => Action::DoImageCapture(region),
        CaptureKind::Gif => Action::DoGifCapture(region),
    }
}

/// The request that a release sends for `region`: none for an empty region,
/// else the command to capture it, addressed to the action subsystem.
pub open spec fn request_for(sender: Target, kind: CaptureKind, region: Bound2) -> Option<UserEvent> {
    if region.is_empty() {
        None
    } else {
        Some(UserEvent { sender, receiver: Target::Action, event: Event::DoAction(perform(kind, region)) })
    }
}

/// The kind of capture that a command leaves pending, where it is one that
/// opens the overlay.
pub open spec fn pending_after(before: CaptureKind, action: Action) -> CaptureKind {
    match action {
        Action::ImageCapture => CaptureKind::Image,
        Action::GifCapture => CaptureKind::Gif,
        _ => before,
    }
}

impl SelectorWindow {
    /// An overlay that is off screen, with nothing selected and a still
    /// image pending.
    pub fn new(window_id: Target) -> (w: SelectorWindow)
        ensures
            w.window_id == window_id,
            w.invoke_type == CaptureKind::Image,
            !w.shown,
            !w.region_selector.visible(),
            w.region_selector.bound.is_empty(),
    {
        SelectorWindow {
            region_selector: RegionSelector::new(),
            invoke_type: CaptureKind::Image,
            window_id,
            shown: false,
        }
    }

    /// Pointer pressed at `pos`: a drag begins there.
    pub fn on_mouse_press_event(&mut self, pos: Point)
        ensures
            final(self).region_selector.visible(),
            final(self).region_selector.anchor() == pos,
            final(self).region_selector.bound == Bound2::normalize(pos, pos),
            final(self).invoke_type == old(self).invoke_type,
            final(self).window_id == old(self).window_id,
            final(self).shown == old(self).shown,
    {
        self.region_selector.begin(pos);
    }

    /// Pointer moved to `pos` with the button down: the selection follows.
    pub fn on_mouse_move_event(&mut self, pos: Point)
        ensures
            final(self).region_selector.visible() == old(self).region_selector.visible(),
            final(self).region_selector.anchor() == old(self).region_selector.anchor(),
            old(self).region_selector.visible() ==> final(self).region_selector.bound
                == Bound2::normalize(old(self).region_selector.anchor(), pos),
            !old(self).region_selector.visible() ==> final(self).region_selector.bound == old(self).region_selector.bound,
            final(self).invoke_type == old(self).invoke_type,
            final(self).window_id == old(self).window_id,
            final(self).shown == old(self).shown,
    {
        self.region_selector.update(pos);
    }

    /// Pointer released: the request to send, if any. An empty region sends
    /// nothing.
    pub fn on_mouse_release_event(&self) -> (r: Option<UserEvent>)
        ensures
            r == request_for(self.window_id, self.invoke_type, self.region_selector.bound),
            r is Some <==> !self.region_selector.bound.is_empty(),
            r is Some ==> r->Some_0.event == Event::DoAction(
                perform(self.invoke_type, self.region_selector.bound),
            ),
    {
        let bound = self.region_selector.end();
        if bound.empty() {
            None
        } else {
            let action = match self.invoke_type {
                CaptureKind::Image => Action::DoImageCapture(bound),
                CaptureKind::Gif => Action::DoGifCapture(bound),
            };
            Some(UserEvent::build_action_event(self.window_id, Target::Action, action))
        }
    }

    /// Focus gained or lost. Losing it resets the selection: nothing shows
    /// and the region is empty, so that a release sends nothing.
    pub fn on_focus_event(&mut self, focus: bool)
        ensures
            focus ==> final(self).region_selector == old(self).region_selector,
            !focus ==> final(self).region_selector == RegionSelector::cleared(),
            !focus ==> !final(self).region_selector.visible() && final(self).region_selector.bound.is_empty(),
            final(self).invoke_type == old(self).invoke_type,
            final(self).window_id == old(self).window_id,
            final(self).shown == old(self).shown,
    {
        if !focus {
            self.region_selector.reset();
        }
    }

    /// A message arrived. A request to select brings the overlay on screen
    /// and leaves its kind of capture pending; any other message changes
    /// nothing.
    pub fn on_user_event(&mut self, data: &UserEvent)
        ensures
            final(self).region_selector == old(self).region_selector,
            final(self).window_id == old(self).window_id,
            data.event is InvokeRegionSelector ==> final(self).shown && final(self).invoke_type
                == pending_after(old(self).invoke_type, data.event->InvokeRegionSelector_0),
            !(data.event is InvokeRegionSelector) ==> final(self).shown == old(self).shown && final(self).invoke_type == old(self).invoke_type,
    {
        match data.event {
            Event::InvokeRegionSelector(action) => {
                self.shown = true;
                match action {
                    Action::ImageCapture => {
                        self.invoke_type = CaptureKind::Image;
                    },
                    Action::GifCapture => {
                        self.invoke_type = CaptureKind::Gif;
                    },
                    _ => {},
                }
            },
            _ => {},
        }
    }

    /// Takes the overlay on or off screen. Going off screen resets the
    /// selection: nothing shows and the region is empty.
    pub fn set_visible(&mut self, visible: bool)
        ensures
            final(self).shown == visible,
            visible ==> final(self).region_selector == old(self).region_selector,
            !visible ==> final(self).region_selector == RegionSelector::cleared(),
            !visible ==> !final(self).region_selector.visible() && final(self).region_selector.bound.is_empty(),
            final(self).invoke_type == old(self).invoke_type,
            final(self).window_id == old(self).window_id,
    {
        self.shown = visible;
        if !visible {
            self.region_selector.reset();
        }
    }
}

/// Once the selection was reset, by loss of focus or by the overlay going
/// off screen, a release sends nothing until a new drag has spanned a region.
pub proof fn lemma_reset_sends_nothing(sender: Target, kind: CaptureKind)
    ensures
        request_for(sender, kind, RegionSelector::cleared().bound) is None,
        !RegionSelector::cleared().visible(),
        RegionSelector::cleared().bound.is_normalized(),
{
}

/// No release ever asks for the capture of an empty region.
pub proof fn lemma_no_empty_request(sender: Target, kind: CaptureKind, region: Bound2)
    ensures
        request_for(sender, kind, region) matches Some(e) ==> {
            &&& e.event is DoAction
            &&& e.event->DoAction_0.region() == Some(region)
            &&& !region.is_empty()
        },
        region.is_empty() ==> request_for(sender, kind, region) is None,
{
}

} // verus!
