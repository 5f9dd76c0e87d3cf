use jellyfin_desktop::wayland::scene::sink::{
    LayerObjects, RecordingSink, SceneSink, SinkRequest, WlSink,
};
use jellyfin_desktop::wayland::scene::{reduce, Above, Effect, LayerId, Scene, SceneEvent};

const MAIN: LayerId = LayerId(1);
const ABOUT: LayerId = LayerId(2);

fn add(scene: &mut Scene, id: LayerId) -> Vec<Effect> {
    reduce(scene, SceneEvent::LayerAdded(id))
}

#[test]
fn add_layer_stacks_above_parent_and_commits() {
    let mut s = Scene::default();
    let e = add(&mut s, MAIN);
    assert_eq!(
        e,
        vec![
            Effect::PlaceAbove {
                layer: MAIN,
                above: Above::Parent
            },
            Effect::CommitParent,
        ]
    );
}

#[test]
fn second_layer_stacks_above_first_then_commits() {
    let mut s = Scene::default();
    add(&mut s, MAIN);
    let e = add(&mut s, ABOUT);
    assert_eq!(
        e,
        vec![
            Effect::PlaceAbove {
                layer: MAIN,
                above: Above::Parent
            },
            Effect::PlaceAbove {
                layer: ABOUT,
                above: Above::Layer(MAIN)
            },
            Effect::CommitParent,
        ]
    );
}

#[test]
fn every_order_change_ends_in_single_commit_parent() {
    let mut s = Scene::default();
    for ev in [
        SceneEvent::LayerAdded(MAIN),
        SceneEvent::LayerAdded(ABOUT),
        SceneEvent::Restack(vec![ABOUT, MAIN]),
        SceneEvent::LayerRemoved(ABOUT),
    ] {
        let e = reduce(&mut s, ev);
        let commits = e.iter().filter(|x| **x == Effect::CommitParent).count();
        assert_eq!(commits, 1, "expected exactly one CommitParent, got {e:?}");
        assert_eq!(e.last(), Some(&Effect::CommitParent));
    }
}

#[test]
fn restack_to_unchanged_order_is_noop() {
    let mut s = Scene::default();
    add(&mut s, MAIN);
    add(&mut s, ABOUT);
    let e = reduce(&mut s, SceneEvent::Restack(vec![MAIN, ABOUT]));
    assert_eq!(e, vec![]);
}

#[test]
fn restack_reorders_and_commits() {
    let mut s = Scene::default();
    add(&mut s, MAIN);
    add(&mut s, ABOUT);
    let e = reduce(&mut s, SceneEvent::Restack(vec![ABOUT, MAIN]));
    assert_eq!(
        e,
        vec![
            Effect::PlaceAbove {
                layer: ABOUT,
                above: Above::Parent
            },
            Effect::PlaceAbove {
                layer: MAIN,
                above: Above::Layer(ABOUT)
            },
            Effect::CommitParent,
        ]
    );
}

#[test]
fn recording_sink_captures_add_sequence() {
    let mut scene = Scene::default();
    let mut sink = RecordingSink::default();
    for ev in [
        SceneEvent::LayerAdded(LayerId(1)),
        SceneEvent::LayerAdded(LayerId(2)),
    ] {
        for e in reduce(&mut scene, ev) {
            sink.apply(&e);
        }
    }
    assert_eq!(
        sink.effects,
        vec![
            Effect::PlaceAbove {
                layer: LayerId(1),
                above: Above::Parent
            },
            Effect::CommitParent,
            Effect::PlaceAbove {
                layer: LayerId(1),
                above: Above::Parent
            },
            Effect::PlaceAbove {
                layer: LayerId(2),
                above: Above::Layer(LayerId(1))
            },
            Effect::CommitParent,
        ]
    );
}

#[test]
fn adding_a_layer_again_sends_nothing() {
    let mut s = Scene::default();
    add(&mut s, MAIN);
    assert_eq!(add(&mut s, MAIN), vec![]);
}

#[test]
fn removing_the_last_layer_is_committed() {
    let mut s = Scene::default();
    add(&mut s, MAIN);
    assert_eq!(
        reduce(&mut s, SceneEvent::LayerRemoved(MAIN)),
        vec![Effect::CommitParent]
    );
    assert_eq!(reduce(&mut s, SceneEvent::LayerRemoved(MAIN)), vec![]);
    assert_eq!(add(&mut s, MAIN).len(), 2);
}

#[test]
fn removal_keeps_the_other_layers() {
    let mut s = Scene::default();
    add(&mut s, MAIN);
    add(&mut s, ABOUT);
    assert_eq!(
        reduce(&mut s, SceneEvent::LayerRemoved(MAIN)),
        vec![
            Effect::PlaceAbove {
                layer: ABOUT,
                above: Above::Parent
            },
            Effect::CommitParent,
        ]
    );
}

#[test]
fn restack_drops_unknown_layers() {
    let mut s = Scene::default();
    add(&mut s, MAIN);
    add(&mut s, ABOUT);
    assert_eq!(
        reduce(&mut s, SceneEvent::Restack(vec![LayerId(9), ABOUT])),
        vec![
            Effect::PlaceAbove {
                layer: ABOUT,
                above: Above::Parent
            },
            Effect::CommitParent,
        ]
    );
}

fn objects(id: usize, has_surface: bool, has_subsurface: bool) -> LayerObjects {
    LayerObjects {
        id: LayerId(id),
        has_surface,
        has_subsurface,
    }
}

#[test]
fn the_sink_places_layers_above_siblings_only() {
    let mut sink = WlSink::new();
    sink.layers = vec![objects(1, true, true), objects(2, true, true), objects(3, false, false)];
    for effect in [
        Effect::PlaceAbove {
            layer: MAIN,
            above: Above::Parent,
        },
        Effect::PlaceAbove {
            layer: ABOUT,
            above: Above::Layer(MAIN),
        },
        Effect::PlaceAbove {
            layer: LayerId(3),
            above: Above::Layer(ABOUT),
        },
        Effect::PlaceAbove {
            layer: ABOUT,
            above: Above::Layer(LayerId(3)),
        },
        Effect::PlaceAbove {
            layer: LayerId(0),
            above: Above::Layer(MAIN),
        },
        Effect::CommitParent,
    ] {
        sink.apply(&effect);
    }
    assert_eq!(
        sink.requests,
        vec![
            SinkRequest::PlaceAbove {
                layer: ABOUT,
                sibling: MAIN
            },
            SinkRequest::RequestPresent,
        ]
    );
}
