//! Start and end of the Wayland backend.
use vstd::prelude::*;

verus! {

/// A way to get painted frames onto the screen.
#[derive(Clone, Copy, Debug, PartialEq, Eq, Structural)]
pub enum WlPaintOverride {
    /// Textures shared with the compositor.
    Dmabuf,
    /// Pixels uploaded through the GPU.
    Gpu,
    /// Pixels in shared memory.
    Shm,
}

/// The name of a way of painting.
pub fn paint_name(mode: WlPaintOverride) -> (r: &'static str)
    ensures
        r@ == match mode {
            WlPaintOverride::Dmabuf => "dmabuf"@,
            WlPaintOverride::Gpu => "gpu"@,
            WlPaintOverride::Shm => "shm"@,
        },
{
    match mode {
        WlPaintOverride::Dmabuf => "dmabuf",
        WlPaintOverride::Gpu => "gpu",
        WlPaintOverride::Shm => "shm",
    }
}

/// How far the start has come.
#[derive(Clone, Copy, Debug, PartialEq, Eq, Structural)]
pub enum Stage {
    /// Nothing was done; the display is asked for.
    Begin,
    /// The core state is being set up.
    Core,
    /// Shared textures are being probed for.
    Probe,
    /// GPU upload is being set up.
    Gpu,
    /// The clipboard is being set up.
    Clipboard,
    /// The backend runs.
    Running,
    /// The backend could not be started.
    Failed,
}

/// What came of the work that was asked for.
#[derive(Clone, Copy, Debug, PartialEq, Eq, Structural)]
pub enum Event {
    /// Whether there is a display.
    Display(bool),
    /// Whether the core state was set up.
    Core(bool),
    /// Whether textures can be shared.
    Probe(bool),
    /// Whether GPU upload was set up.
    Gpu(bool),
    /// Whether there is a clipboard.
    Clipboard(bool),
}

/// Work that is asked for, in order.
#[derive(Clone, Copy, Debug, PartialEq, Eq, Structural)]
pub enum Action {
    /// Note in the core state whether the player is fullscreen, so that the
    /// first configure starts no transition.
    SeedFullscreen,
    /// Prepare the input layer, before a keyboard can appear.
    InputInit,
    CoreInit,
    /// Paint without shared textures.
    SharedTextureUnsupported,
    ProbeDmabuf,
    TryGpu,
    InstallGpuPaint,
    /// Tell that the way of painting asked for is not the one in use.
    Warn { requested: WlPaintOverride, resolved: WlPaintOverride },
    PaletteInit,
    InputStart,
    ClipboardInit,
    /// Do without a clipboard.
    ClearClipboardHandler,
}

/// What follows once the way of painting is settled.
pub open spec fn settled_actions(
    requested: Option<WlPaintOverride>,
    resolved: WlPaintOverride,
) -> Seq<Action> {
    (match requested {
        Some(req) => if req != resolved {
            seq![Action::Warn { requested: req, resolved }]
        } else {
            Seq::empty()
        },
        None => Seq::empty(),
    }) + seq![Action::PaletteInit, Action::InputStart, Action::ClipboardInit]
}

/// The way of painting that is tried first: shared textures where none was
/// asked for.
pub open spec fn entry(requested: Option<WlPaintOverride>) -> WlPaintOverride {
    match requested {
        Some(req) => req,
        None => WlPaintOverride::Dmabuf,
    }
}

/// The stage after an event. An event that the stage does not wait for
/// changes nothing.
pub open spec fn next_stage(
    stage: Stage,
    ev: Event,
    requested: Option<WlPaintOverride>,
) -> Stage {
    match (stage, ev) {
        (Stage::Begin, Event::Display(ok)) => if ok {
            Stage::Core
        } else {
            Stage::Failed
        },
        (Stage::Core, Event::Core(ok)) => if !ok {
            Stage::Failed
        } else {
            match entry(requested) {
                WlPaintOverride::Shm => Stage::Clipboard,
                WlPaintOverride::Gpu => Stage::Gpu,
                WlPaintOverride::Dmabuf => Stage::Probe,
            }
        },
        (Stage::Probe, Event::Probe(ok)) => if ok {
            Stage::Clipboard
        } else {
            Stage::Gpu
        },
        (Stage::Gpu, Event::Gpu(_)) => Stage::Clipboard,
        (Stage::Clipboard, Event::Clipboard(_)) => Stage::Running,
        _ => stage,
    }
}

/// The work that an event leads to.
pub open spec fn actions(
    stage: Stage,
    ev: Event,
    requested: Option<WlPaintOverride>,
) -> Seq<Action> {
    match (stage, ev) {
        (Stage::Begin, Event::Display(ok)) => if ok {
            seq![Action::InputInit, Action::CoreInit]
        } else {
            Seq::empty()
        },
        (Stage::Core, Event::Core(ok)) => if !ok {
            Seq::empty()
        } else {
            seq![Action::SeedFullscreen] + match entry(requested) {
                WlPaintOverride::Shm => seq![Action::SharedTextureUnsupported] + settled_actions(
                    requested,
                    WlPaintOverride::Shm,
                ),
                WlPaintOverride::Gpu => seq![Action::SharedTextureUnsupported, Action::TryGpu],
                WlPaintOverride::Dmabuf => seq![Action::ProbeDmabuf],
            }
        },
        (Stage::Probe, Event::Probe(ok)) => if ok {
            settled_actions(requested, WlPaintOverride::Dmabuf)
        } else {
            seq![Action::SharedTextureUnsupported, Action::TryGpu]
        },
        (Stage::Gpu, Event::Gpu(ok)) => if ok {
            seq![Action::InstallGpuPaint] + settled_actions(requested, WlPaintOverride::Gpu)
        } else {
            settled_actions(requested, WlPaintOverride::Shm)
        },
        (Stage::Clipboard, Event::Clipboard(ok)) => if ok {
            Seq::empty()
        } else {
            seq![Action::ClearClipboardHandler]
        },
        _ => Seq::empty(),
    }
}

fn settle(
    requested: Option<WlPaintOverride>,
    resolved: WlPaintOverride,
    out: &mut Vec<Action>,
)
    ensures
        final(out)@ == old(out)@ + settled_actions(requested, resolved),
{
    if let Some(req) = requested {
        if req != resolved {
            out.push(Action::Warn { requested: req, resolved });
        }
    }
    out.push(Action::PaletteInit);
    out.push(Action::InputStart);
    out.push(Action::ClipboardInit);
    assert(out@ =~= old(out)@ + settled_actions(requested, resolved));
}

/// One step of the start of the backend. `requested` is the way of painting
/// that was asked for. Begin at [`Stage::Begin`] by telling whether there is
/// a display; the start has succeeded at [`Stage::Running`].
pub fn jfn_wl_lifecycle_init(stage: Stage, ev: Event, requested: Option<WlPaintOverride>) -> (r: (
    Stage,
    Vec<Action>,
))
    ensures
        r.0 == next_stage(stage, ev, requested),
        r.1@ == actions(stage, ev, requested),
{
    let mut out: Vec<Action> = Vec::new();
    let first = match requested {
        Some(req) => req,
        None => WlPaintOverride::Dmabuf,
    };
    let next = match (stage, ev) {
        (Stage::Begin, Event::Display(ok)) => {
            if ok {
                out.push(Action::InputInit);
                out.push(Action::CoreInit);
                Stage::Core
            } else {
                Stage::Failed
            }
        },
        (Stage::Core, Event::Core(ok)) => {
            if !ok {
                Stage::Failed
            } else {
                out.push(Action::SeedFullscreen);
                match first {
                    WlPaintOverride::Shm => {
                        out.push(Action::SharedTextureUnsupported);
                        settle(requested, WlPaintOverride::Shm, &mut out);
                        Stage::Clipboard
                    },
                    WlPaintOverride::Gpu => {
                        out.push(Action::SharedTextureUnsupported);
                        out.push(Action::TryGpu);
                        Stage::Gpu
                    },
                    WlPaintOverride::Dmabuf => {
                        out.push(Action::ProbeDmabuf);
                        Stage::Probe
                    },
                }
            }
        },
        (Stage::Probe, Event::Probe(ok)) => {
            if ok {
                settle(requested, WlPaintOverride::Dmabuf, &mut out);
                Stage::Clipboard
            } else {
                out.push(Action::SharedTextureUnsupported);
                out.push(Action::TryGpu);
                Stage::Gpu
            }
        },
        (Stage::Gpu, Event::Gpu(ok)) => {
            if ok {
                out.push(Action::InstallGpuPaint);
                settle(requested, WlPaintOverride::Gpu, &mut out);
            } else {
                settle(requested, WlPaintOverride::Shm, &mut out);
            }
            Stage::Clipboard
        },
        (Stage::Clipboard, Event::Clipboard(ok)) => {
            if !ok {
                out.push(Action::ClearClipboardHandler);
            }
            Stage::Running
        },
        _ => stage,
    };
    assert(out@ =~= actions(stage, ev, requested));
    (next, out)
}

/// The work of ending the backend, in order. The thread that owns the root
/// window ends before the input layer: it holds up the player's teardown
/// otherwise.
#[derive(Clone, Copy, Debug, PartialEq, Eq, Structural)]
pub enum CleanupAction {
    IdleInhibit,
    Clipboard,
    RootWindow,
    Input,
}

/// Ends the backend.
pub fn jfn_wl_lifecycle_cleanup() -> (r: Vec<CleanupAction>)
    ensures
        r@ == seq![
            CleanupAction::IdleInhibit,
            CleanupAction::Clipboard,
            CleanupAction::RootWindow,
            CleanupAction::Input,
        ],
{
    let mut out: Vec<CleanupAction> = Vec::new();
    out.push(CleanupAction::IdleInhibit);
    out.push(CleanupAction::Clipboard);
    out.push(CleanupAction::RootWindow);
    out.push(CleanupAction::Input);
    assert(out@ =~= seq![
        CleanupAction::IdleInhibit,
        CleanupAction::Clipboard,
        CleanupAction::RootWindow,
        CleanupAction::Input,
    ]);
    out
}

/// The way of painting that is used in the end, from what a probe and the
/// setup of the GPU come to where they are tried.
pub open spec fn resolved_paint(
    requested: Option<WlPaintOverride>,
    probe: bool,
    gpu: bool,
) -> WlPaintOverride {
    match entry(requested) {
        WlPaintOverride::Shm => WlPaintOverride::Shm,
        WlPaintOverride::Dmabuf if probe => WlPaintOverride::Dmabuf,
        _ => if gpu {
            WlPaintOverride::Gpu
        } else {
            WlPaintOverride::Shm
        },
    }
}

/// The input layer is prepared before the core state, through which a keyboard
/// can appear, and it runs only once that is there.
pub proof fn law_input_comes_first(requested: Option<WlPaintOverride>, ok: bool)
    ensures
        actions(Stage::Begin, Event::Display(true), requested) == seq![
            Action::InputInit,
            Action::CoreInit,
        ],
        !actions(Stage::Begin, Event::Display(ok), requested).contains(Action::InputStart),
        actions(Stage::Core, Event::Core(false), requested) == Seq::<Action>::empty(),
{
}

/// The player's fullscreen state is noted as soon as there is a core state to
/// note it in, and not before.
pub proof fn law_fullscreen_is_seeded(requested: Option<WlPaintOverride>, ok: bool)
    ensures
        actions(Stage::Core, Event::Core(true), requested).len() > 0,
        actions(Stage::Core, Event::Core(true), requested)[0] == Action::SeedFullscreen,
        !actions(Stage::Begin, Event::Display(ok), requested).contains(Action::SeedFullscreen),
{
}

/// Painting always works: with a display and a core state the start gets to
/// the clipboard whatever the probe and the GPU come to, each way falls back
/// to the next, and a way that was asked for and is not used is told.
pub proof fn law_paint_falls_back(requested: Option<WlPaintOverride>, probe: bool, gpu: bool)
    ensures
        ({
            let s1 = next_stage(Stage::Begin, Event::Display(true), requested);
            let s2 = next_stage(s1, Event::Core(true), requested);
            let a2 = actions(s1, Event::Core(true), requested);
            let s3 = next_stage(s2, Event::Probe(probe), requested);
            let a3 = actions(s2, Event::Probe(probe), requested);
            let s4 = next_stage(s3, Event::Gpu(gpu), requested);
            let a4 = actions(s3, Event::Gpu(gpu), requested);
            let all = a2 + a3 + a4;
            let resolved = resolved_paint(requested, probe, gpu);
            &&& s4 == Stage::Clipboard
            &&& all.contains(Action::InstallGpuPaint) == (resolved == WlPaintOverride::Gpu)
            &&& all.contains(Action::SharedTextureUnsupported) == (resolved
                != WlPaintOverride::Dmabuf)
            &&& requested matches Some(req) ==> all.contains(
                Action::Warn { requested: req, resolved },
            ) == (req != resolved)
        }),
{
    let s1 = next_stage(Stage::Begin, Event::Display(true), requested);
    let s2 = next_stage(s1, Event::Core(true), requested);
    let a2 = actions(s1, Event::Core(true), requested);
    let s3 = next_stage(s2, Event::Probe(probe), requested);
    let a3 = actions(s2, Event::Probe(probe), requested);
    let a4 = actions(s3, Event::Gpu(gpu), requested);
    let all = a2 + a3 + a4;
    let resolved = resolved_paint(requested, probe, gpu);
    if entry(requested) == WlPaintOverride::Shm {
        assert(all =~= seq![Action::SeedFullscreen, Action::SharedTextureUnsupported]
            + settled_actions(requested, resolved));
        assert(all[1] == Action::SharedTextureUnsupported);
    } else if entry(requested) == WlPaintOverride::Gpu {
        assert(all[1] == Action::SharedTextureUnsupported);
        if gpu {
            assert(all[3] == Action::InstallGpuPaint);
        } else {
            if let Some(req) = requested {
                assert(all[3] == Action::Warn { requested: req, resolved });
            }
        }
    } else if probe {
        assert(all =~= seq![Action::SeedFullscreen, Action::ProbeDmabuf]
            + settled_actions(requested, resolved));
    } else {
        assert(all[2] == Action::SharedTextureUnsupported);
        if gpu {
            assert(all[4] == Action::InstallGpuPaint);
            if let Some(req) = requested {
                assert(all[5] == Action::Warn { requested: req, resolved });
            }
        } else {
            if let Some(req) = requested {
                assert(all[4] == Action::Warn { requested: req, resolved });
            }
        }
    }
}

} // verus!
