//! The engine's event feed, reduced to the events that synchronisation cares
//! about.

use vstd::prelude::*;

verus! {

/// An event of the engine's native feed, as the engine names it. `Other`
/// stands for every event that this crate has no use for.
#[derive(Debug, Clone, PartialEq, Eq)]
pub enum NativeEvent {
    CurrentProgramSceneChanged { scene_name: String },
    SceneItemTransformChanged { scene_name: String, scene_item_id: i64 },
    InputCreated { input_name: String },
    InputRemoved { input_name: String },
    InputSettingsChanged { input_name: String },
    CurrentPreviewSceneChanged { scene_name: String },
    Other,
}

/// An engine event in this crate's own terms.
#[derive(Debug, Clone, PartialEq, Eq)]
pub enum OBSEvent {
    SceneChanged { scene_name: String },
    SceneItemTransformChanged { scene_name: String, scene_item_id: i64 },
    SourceCreated { source_name: String },
    SourceDestroyed { source_name: String },
    InputSettingsChanged { input_name: String },
    CurrentPreviewSceneChanged { scene_name: String },
}

/// One item read from the engine's feed: an event, or the failure that ended
/// the feed.
#[derive(Debug, Clone, PartialEq, Eq)]
pub enum FeedItem {
    Event(NativeEvent),
    Failed(String),
}

/// The event that a native event is forwarded as, if it is forwarded at all.
pub open spec fn mapped(event: NativeEvent) -> Option<OBSEvent> {
    match event {
        NativeEvent::CurrentProgramSceneChanged { scene_name } => Some(
            OBSEvent::SceneChanged { scene_name },
        ),
        NativeEvent::SceneItemTransformChanged { scene_name, scene_item_id } => Some(
            OBSEvent::SceneItemTransformChanged { scene_name, scene_item_id },
        ),
        NativeEvent::InputCreated { input_name } => Some(
            OBSEvent::SourceCreated { source_name: input_name },
        ),
        NativeEvent::InputRemoved { input_name } => Some(
            OBSEvent::SourceDestroyed { source_name: input_name },
        ),
        NativeEvent::InputSettingsChanged { input_name } => Some(
            OBSEvent::InputSettingsChanged { input_name },
        ),
        NativeEvent::CurrentPreviewSceneChanged { scene_name } => Some(
            OBSEvent::CurrentPreviewSceneChanged { scene_name },
        ),
        NativeEvent::Other => None,
    }
}

/// Number of items before the first failure.
pub open spec fn live_len(feed: Seq<FeedItem>) -> nat
    decreases feed.len(),
{
    if feed.len() == 0 {
        0
    } else if feed[0] is Failed {
        0
    } else {
        1 + live_len(feed.skip(1))
    }
}

/// The events forwarded for a run of feed items none of which is a failure,
/// in feed order.
pub open spec fn forwarded(feed: Seq<FeedItem>) -> Seq<OBSEvent>
    decreases feed.len(),
{
    if feed.len() == 0 {
        Seq::empty()
    } else {
        let earlier = forwarded(feed.drop_last());
        match feed.last() {
            FeedItem::Event(e) => match mapped(e) {
                Some(o) => earlier.push(o),
                None => earlier,
            },
            FeedItem::Failed(_) => earlier,
        }
    }
}

/// `live_len` is the least index that holds a failure, or the length.
pub proof fn lemma_live_len(feed: Seq<FeedItem>)
    ensures
        live_len(feed) <= feed.len(),
        forall|k: int| 0 <= k < live_len(feed) ==> #[trigger] feed[k] is Event,
        live_len(feed) < feed.len() ==> feed[live_len(feed) as int] is Failed,
    decreases feed.len(),
{
    if feed.len() != 0 && feed[0] is Event {
        let rest = feed.skip(1);
        lemma_live_len(rest);
        assert forall|k: int| 0 <= k < live_len(feed) implies #[trigger] feed[k] is Event by {
            if k > 0 {
                assert(rest[k - 1] is Event);
            }
        }
    }
}

/// Forwards the engine's events into the rest of the system.
#[derive(Debug, Clone, PartialEq, Eq)]
pub struct OBSEventHandler {
    stopped: bool,
}

impl Default for OBSEventHandler {
    fn default() -> (handler: Self)
        ensures
            !handler.is_stopped(),
    {
        OBSEventHandler::new()
    }
}

impl OBSEventHandler {
    /// Whether the feed has failed; a stopped handler forwards nothing more.
    pub closed spec fn is_stopped(&self) -> bool {
        self.stopped
    }

    pub fn new() -> (handler: Self)
        ensures
            !handler.is_stopped(),
    {
        OBSEventHandler { stopped: false }
    }

    pub fn stopped(&self) -> (b: bool)
        ensures
            b == self.is_stopped(),
    {
        self.stopped
    }

    /// Maps one native event.
    pub fn map_event(event: &NativeEvent) -> (out: Option<OBSEvent>)
        ensures
            out == mapped(*event),
    {
        match event {
            NativeEvent::CurrentProgramSceneChanged { scene_name } => Some(
                OBSEvent::SceneChanged { scene_name: scene_name.clone() },
            ),
            NativeEvent::SceneItemTransformChanged { scene_name, scene_item_id } => Some(
                OBSEvent::SceneItemTransformChanged {
                    scene_name: scene_name.clone(),
                    scene_item_id: *scene_item_id,
                },
            ),
            NativeEvent::InputCreated { input_name } => Some(
                OBSEvent::SourceCreated { source_name: input_name.clone() },
            ),
            NativeEvent::InputRemoved { input_name } => Some(
                OBSEvent::SourceDestroyed { source_name: input_name.clone() },
            ),
            NativeEvent::InputSettingsChanged { input_name } => Some(
                OBSEvent::InputSettingsChanged { input_name: input_name.clone() },
            ),
            NativeEvent::CurrentPreviewSceneChanged { scene_name } => Some(
                OBSEvent::CurrentPreviewSceneChanged { scene_name: scene_name.clone() },
            ),
            NativeEvent::Other => None,
        }
    }

    /// Listens to a stretch of the feed. Events are mapped and handed out in
    /// feed order, events without a mapping are dropped, and the first failure
    /// stops the handler for good: nothing after it is forwarded, in this call
    /// or a later one.
    pub fn start_listening(&mut self, feed: &Vec<FeedItem>) -> (out: Vec<OBSEvent>)
        ensures
            old(self).is_stopped() ==> final(self).is_stopped() && out@.len() == 0,
            !old(self).is_stopped() ==> {
                &&& out@ == forwarded(feed@.take(live_len(feed@) as int))
                &&& final(self).is_stopped() == (live_len(feed@) < feed@.len())
            },
    {
        let mut out: Vec<OBSEvent> = Vec::new();
        if self.stopped {
            return out;
        }
        proof {
            lemma_live_len(feed@);
        }
        let mut taken: usize = 0;
        while taken < feed.len()
            invariant_except_break
                !self.stopped,
            invariant
                taken <= live_len(feed@) <= feed@.len(),
                out@ == forwarded(feed@.take(taken as int)),
                forall|k: int| 0 <= k < live_len(feed@) ==> #[trigger] feed@[k] is Event,
                live_len(feed@) < feed@.len() ==> feed@[live_len(feed@) as int] is Failed,
            ensures
                taken == live_len(feed@),
                out@ == forwarded(feed@.take(taken as int)),
                self.stopped == (live_len(feed@) < feed@.len()),
            decreases feed@.len() - taken,
        {
            match &feed[taken] {
                FeedItem::Failed(_) => {
                    self.stopped = true;
                    break;
                },
                FeedItem::Event(e) => {
                    proof {
                        assert(feed@.take(taken + 1).drop_last() == feed@.take(taken as int));
                        assert(feed@.take(taken + 1).last() == feed@[taken as int]);
                    }
                    match OBSEventHandler::map_event(e) {
                        Some(o) => {
                            out.push(o);
                        },
                        None => {},
                    }
                    taken = taken + 1;
                },
            }
        }
        out
    }
}

} // verus!
