//! What is done with the effects of [`super::reduce`].
use crate::wayland::scene::{Above, Effect, LayerId};
use vstd::prelude::*;

verus! {

/// Takes the effects one by one.
pub trait SceneSink {
    fn apply(&mut self, effect: &Effect);
}

/// Keeps every effect it is given.
#[derive(Debug)]
pub struct RecordingSink {
    pub effects: Vec<Effect>,
}

impl Default for RecordingSink {
    fn default() -> (r: Self)
        ensures
            r.effects@ == Seq::<Effect>::empty(),
    {
        RecordingSink { effects: Vec::new() }
    }
}

impl SceneSink for RecordingSink {
    fn apply(&mut self, effect: &Effect)
        ensures
            final(self).effects@ == old(self).effects@.push(*effect),
    {
        self.effects.push(*effect);
    }
}

/// What is known of a layer's Wayland objects.
#[derive(Clone, Copy, Debug, PartialEq, Eq, Structural)]
pub struct LayerObjects {
    pub id: LayerId,
    pub has_surface: bool,
    pub has_subsurface: bool,
}

/// A request that an effect comes down to.
#[derive(Clone, Copy, Debug, PartialEq, Eq, Structural)]
pub enum SinkRequest {
    /// `wl_subsurface.place_above` on the layer, naming the sibling's surface.
    PlaceAbove { layer: LayerId, sibling: LayerId },
    /// Ask the owner of the root surface for a commit.
    RequestPresent,
}

/// Turns effects into requests on the layers it knows.
#[derive(Debug)]
pub struct WlSink {
    pub layers: Vec<LayerObjects>,
    pub requests: Vec<SinkRequest>,
}

/// The objects of the first entry for a layer. The null layer has none.
pub open spec fn objects_of(layers: Seq<LayerObjects>, id: LayerId) -> Option<LayerObjects>
    decreases layers.len(),
{
    if id.0 == 0 || layers.len() == 0 {
        None
    } else if layers[0].id == id {
        Some(layers[0])
    } else {
        objects_of(layers.drop_first(), id)
    }
}

/// The request that an effect comes down to, if any.
///
/// A layer without a subsurface is not placed. The bottom layer is not placed
/// above the parent either: that would sink it below the video. A sibling
/// without a surface is no place to be above of.
pub open spec fn request_for(layers: Seq<LayerObjects>, effect: Effect) -> Option<SinkRequest> {
    match effect {
        Effect::CommitParent => Some(SinkRequest::RequestPresent),
        Effect::PlaceAbove { layer, above } => match above {
            Above::Parent => None,
            Above::Layer(sibling) => if (objects_of(layers, layer) matches Some(l)
                && l.has_subsurface) && (objects_of(layers, sibling) matches Some(s)
                && s.has_surface) {
                Some(SinkRequest::PlaceAbove { layer, sibling })
            } else {
                None
            },
        },
    }
}

impl WlSink {
    /// A sink that knows no layer.
    pub fn new() -> (r: Self)
        ensures
            r.layers@ == Seq::<LayerObjects>::empty(),
            r.requests@ == Seq::<SinkRequest>::empty(),
    {
        WlSink { layers: Vec::new(), requests: Vec::new() }
    }

    fn find(&self, id: LayerId) -> (r: Option<LayerObjects>)
        ensures
            r == objects_of(self.layers@, id),
    {
        if id.0 == 0 {
            return None;
        }
        assert(self.layers@.skip(0) =~= self.layers@);
        for i in 0..self.layers.len()
            invariant
                id.0 != 0,
                objects_of(self.layers@, id) == objects_of(self.layers@.skip(i as int), id),
        {
            assert(self.layers@.skip(i as int)[0] == self.layers@[i as int]);
            assert(self.layers@.skip(i as int).drop_first() =~= self.layers@.skip(i + 1));
            if self.layers[i].id == id {
                return Some(self.layers[i]);
            }
        }
        None
    }

    fn place_above(&mut self, layer: LayerId, above: Above)
        ensures
            final(self).layers == old(self).layers,
            final(self).requests@ == match request_for(
                old(self).layers@,
                Effect::PlaceAbove { layer, above },
            ) {
                Some(r) => old(self).requests@.push(r),
                None => old(self).requests@,
            },
    {
        match above {
            Above::Parent => {},
            Above::Layer(sibling) => {
                let placed = match self.find(layer) {
                    Some(l) => l.has_subsurface,
                    None => false,
                };
                let shown = match self.find(sibling) {
                    Some(s) => s.has_surface,
                    None => false,
                };
                if placed && shown {
                    self.requests.push(SinkRequest::PlaceAbove { layer, sibling });
                }
            },
        }
    }
}

impl Default for WlSink {
    fn default() -> (r: Self)
        ensures
            r.layers@ == Seq::<LayerObjects>::empty(),
            r.requests@ == Seq::<SinkRequest>::empty(),
    {
        WlSink::new()
    }
}

impl SceneSink for WlSink {
    fn apply(&mut self, effect: &Effect)
        ensures
            final(self).layers == old(self).layers,
            final(self).requests@ == match request_for(old(self).layers@, *effect) {
                Some(r) => old(self).requests@.push(r),
                None => old(self).requests@,
            },
    {
        match *effect {
            Effect::PlaceAbove { layer, above } => self.place_above(layer, above),
            Effect::CommitParent => self.requests.push(SinkRequest::RequestPresent),
        }
    }
}

} // verus!
