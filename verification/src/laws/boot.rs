//! The course of the process, from its start to its end.
use crate::app;
use crate::app::{BootAction, BootConfig, BootEvent, BootStage, BrowserStep, CoordinationStep};
use vstd::prelude::*;

verus! {

/// Whether one thing is done, and another one later.
pub open spec fn before<A>(s: Seq<A>, first: A, second: A) -> bool {
    exists|i: int, j: int| 0 <= i < j < s.len() && #[trigger] s[i] == first && #[trigger] s[j] == second
}

/// Where all goes well the process comes from stage to stage to its main loop,
/// and once that has ended it ends with code zero.
pub proof fn law_process_comes_to_its_loop(
    cfg: BootConfig,
    rc: i32,
    a: (BootStage, Vec<BootAction>),
    b: (BootStage, Vec<BootAction>),
    c: (BootStage, Vec<BootAction>),
    d: (BootStage, Vec<BootAction>),
    e: (BootStage, Vec<BootAction>),
    f: (BootStage, Vec<BootAction>),
    g: (BootStage, Vec<BootAction>),
    h: (BootStage, Vec<BootAction>),
    i: (BootStage, Vec<BootAction>),
    j: (BootStage, Vec<BootAction>),
)
    requires
        rc < 0,
        call_ensures(
            app::jfn_app_main,
            (BootStage::BrowserStart, BootEvent::BrowserStart(rc), cfg),
            a,
        ),
        call_ensures(
            app::jfn_app_main,
            (a.0, BootEvent::Options { version: false, schema: false }, cfg),
            b,
        ),
        call_ensures(app::jfn_app_main, (b.0, BootEvent::SingleInstance(true), cfg), c),
        call_ensures(app::jfn_app_main, (c.0, BootEvent::Player(true), cfg), d),
        call_ensures(app::jfn_app_main, (d.0, BootEvent::Properties(true), cfg), e),
        call_ensures(app::jfn_app_main, (e.0, BootEvent::Window(true), cfg), f),
        call_ensures(app::jfn_app_main, (f.0, BootEvent::Platform(true), cfg), g),
        call_ensures(app::jfn_app_main, (g.0, BootEvent::Browser(true), cfg), h),
        call_ensures(app::jfn_app_main, (h.0, BootEvent::Coordination(true), cfg), i),
        call_ensures(app::jfn_app_main, (i.0, BootEvent::MainLoopEnded, cfg), j),
    ensures
        a.0 == BootStage::Options && a.1@.len() == 0,
        b.0 == BootStage::SingleInstance && b.1@.last() == BootAction::SignalInstance,
        c.0 == BootStage::Player && c.1@.last() == BootAction::CreatePlayer,
        d.0 == BootStage::Properties && d.1@.last() == BootAction::ObserveProperties,
        e.0 == BootStage::Window && e.1@.last() == BootAction::WaitForWindow,
        f.0 == BootStage::Platform && f.1@.last() == BootAction::InitPlatform,
        g.0 == BootStage::Browser && g.1@.last() == BootAction::InitBrowser,
        h.0 == BootStage::Coordination && h.1@.last() == BootAction::StartCoordination,
        i.0 == BootStage::Running && i.1@.last() == BootAction::RunMainLoop,
        j.0 == BootStage::Exit(0) && j.1@.last() == BootAction::CleanupWindow,
{
}

/// What fails ends the process without another action: with code zero where
/// another instance runs or the window is closed before it is up, and else with
/// code one.
pub proof fn law_failure_ends_the_process(
    cfg: BootConfig,
    other: (BootStage, Vec<BootAction>),
    player: (BootStage, Vec<BootAction>),
    properties: (BootStage, Vec<BootAction>),
    window: (BootStage, Vec<BootAction>),
    platform: (BootStage, Vec<BootAction>),
    browser: (BootStage, Vec<BootAction>),
    coordination: (BootStage, Vec<BootAction>),
)
    requires
        call_ensures(
            app::jfn_app_main,
            (BootStage::SingleInstance, BootEvent::SingleInstance(false), cfg),
            other,
        ),
        call_ensures(app::jfn_app_main, (BootStage::Player, BootEvent::Player(false), cfg), player),
        call_ensures(
            app::jfn_app_main,
            (BootStage::Properties, BootEvent::Properties(false), cfg),
            properties,
        ),
        call_ensures(app::jfn_app_main, (BootStage::Window, BootEvent::Window(false), cfg), window),
        call_ensures(
            app::jfn_app_main,
            (BootStage::Platform, BootEvent::Platform(false), cfg),
            platform,
        ),
        call_ensures(
            app::jfn_app_main,
            (BootStage::Browser, BootEvent::Browser(false), cfg),
            browser,
        ),
        call_ensures(
            app::jfn_app_main,
            (BootStage::Coordination, BootEvent::Coordination(false), cfg),
            coordination,
        ),
    ensures
        other.0 == BootStage::Exit(0) && window.0 == BootStage::Exit(0),
        player.0 == BootStage::Exit(1) && properties.0 == BootStage::Exit(1),
        platform.0 == BootStage::Exit(1) && browser.0 == BootStage::Exit(1),
        coordination.0 == BootStage::Exit(1),
        other.1@.len() == 0 && player.1@.len() == 0 && properties.1@.len() == 0,
        window.1@.len() == 0 && platform.1@.len() == 0 && browser.1@.len() == 0,
        coordination.1@.len() == 0,
{
}

/// A process of the browser's own ends with the code that the browser gave, and
/// a process that is only asked for its version or its schema prints that and
/// ends.
pub proof fn law_side_processes_end_at_once(
    cfg: BootConfig,
    rc: i32,
    own: (BootStage, Vec<BootAction>),
    schema: bool,
    version: (BootStage, Vec<BootAction>),
    printed: (BootStage, Vec<BootAction>),
)
    requires
        rc >= 0,
        call_ensures(
            app::jfn_app_main,
            (BootStage::BrowserStart, BootEvent::BrowserStart(rc), cfg),
            own,
        ),
        call_ensures(
            app::jfn_app_main,
            (BootStage::Options, BootEvent::Options { version: true, schema }, cfg),
            version,
        ),
        call_ensures(
            app::jfn_app_main,
            (BootStage::Options, BootEvent::Options { version: false, schema: true }, cfg),
            printed,
        ),
    ensures
        own.0 == BootStage::Exit(rc) && own.1@.len() == 0,
        version.0 == BootStage::Exit(0) && version.1@.len() == 1 && version.1@[0]
            == BootAction::PrintVersion,
        printed.0 == BootStage::Exit(0) && printed.1@.len() == 1 && printed.1@[0]
            == BootAction::PrintSchema,
{
}

/// Whether a stage waits for an event.
pub open spec fn waits_for(stage: BootStage, ev: BootEvent) -> bool {
    match ev {
        BootEvent::BrowserStart(_) => stage == BootStage::BrowserStart,
        BootEvent::Options { .. } => stage == BootStage::Options,
        BootEvent::SingleInstance(_) => stage == BootStage::SingleInstance,
        BootEvent::Player(_) => stage == BootStage::Player,
        BootEvent::Properties(_) => stage == BootStage::Properties,
        BootEvent::Window(_) => stage == BootStage::Window,
        BootEvent::Platform(_) => stage == BootStage::Platform,
        BootEvent::Browser(_) => stage == BootStage::Browser,
        BootEvent::Coordination(_) => stage == BootStage::Coordination,
        BootEvent::MainLoopEnded => stage == BootStage::Running,
    }
}

/// An event that a stage does not wait for does nothing, one that it waits for
/// leads on; at the end nothing is waited for.
pub proof fn law_only_awaited_events_count(
    cfg: BootConfig,
    stage: BootStage,
    ev: BootEvent,
    r: (BootStage, Vec<BootAction>),
)
    requires
        call_ensures(app::jfn_app_main, (stage, ev, cfg), r),
    ensures
        !waits_for(stage, ev) ==> r.0 == stage && r.1@.len() == 0,
        waits_for(stage, ev) ==> r.0 != stage,
        stage is Exit ==> r.0 == stage && r.1@.len() == 0,
{
}

/// The start reads what it needs before it uses it: directories, settings,
/// options, the log, the platform; another instance is signalled last.
pub proof fn law_start_is_in_order(cfg: BootConfig, r: (BootStage, Vec<BootAction>))
    requires
        call_ensures(
            app::jfn_app_main,
            (BootStage::Options, BootEvent::Options { version: false, schema: false }, cfg),
            r,
        ),
    ensures
        r.1@.len() == 8,
        before(r.1@, BootAction::ApplyPaths, BootAction::LoadSettings),
        before(r.1@, BootAction::LoadSettings, BootAction::ResolveOptions),
        before(r.1@, BootAction::ResolveOptions, BootAction::InitLogging),
        before(r.1@, BootAction::InitLogging, BootAction::InstallPlatform),
        before(r.1@, BootAction::InstallPlatform, BootAction::InitGeometry),
        before(r.1@, BootAction::InitGeometry, BootAction::InstallShutdownHandler),
        before(r.1@, BootAction::InstallShutdownHandler, BootAction::SignalInstance),
{
    assert(r.1@[0] == BootAction::ApplyPaths);
    assert(r.1@[1] == BootAction::LoadSettings);
    assert(r.1@[2] == BootAction::ResolveOptions);
    assert(r.1@[3] == BootAction::InitLogging);
    assert(r.1@[4] == BootAction::InstallPlatform);
    assert(r.1@[5] == BootAction::InitGeometry);
    assert(r.1@[6] == BootAction::InstallShutdownHandler);
    assert(r.1@[7] == BootAction::SignalInstance);
}

/// The player is created once its environment and the window's placement are
/// set up; its window is waited for once its background and its keys are set.
pub proof fn law_player_is_set_up_in_order(
    cfg: BootConfig,
    r: (BootStage, Vec<BootAction>),
    s: (BootStage, Vec<BootAction>),
    t: (BootStage, Vec<BootAction>),
)
    requires
        call_ensures(
            app::jfn_app_main,
            (BootStage::SingleInstance, BootEvent::SingleInstance(true), cfg),
            r,
        ),
        call_ensures(
            app::jfn_app_main,
            (BootStage::Properties, BootEvent::Properties(true), cfg),
            s,
        ),
        call_ensures(app::jfn_app_main, (BootStage::Window, BootEvent::Window(true), cfg), t),
    ensures
        r.1@.len() == 4,
        before(r.1@, BootAction::StartListener, BootAction::SetupPlayerEnvironment),
        before(r.1@, BootAction::SetupPlayerEnvironment, BootAction::ApplyBootGeometry),
        before(r.1@, BootAction::ApplyBootGeometry, BootAction::CreatePlayer),
        s.1@.len() == 5,
        before(s.1@, BootAction::CaptureBackground, BootAction::SetStartupBackground),
        before(s.1@, BootAction::SetStartupBackground, BootAction::LogPlayerVersions),
        before(s.1@, BootAction::LogPlayerVersions, BootAction::BindClose),
        before(s.1@, BootAction::BindClose, BootAction::WaitForWindow),
        t.1@.len() == 2,
        before(t.1@, BootAction::StoreWindowSize, BootAction::InitPlatform),
{
    assert(r.1@[0] == BootAction::StartListener);
    assert(r.1@[1] == BootAction::SetupPlayerEnvironment);
    assert(r.1@[2] == BootAction::ApplyBootGeometry);
    assert(r.1@[3] == BootAction::CreatePlayer);
    assert(s.1@[0] == BootAction::CaptureBackground);
    assert(s.1@[1] == BootAction::SetStartupBackground);
    assert(s.1@[2] == BootAction::LogPlayerVersions);
    assert(s.1@[3] == BootAction::BindClose);
    assert(s.1@[4] == BootAction::WaitForWindow);
    assert(t.1@[0] == BootAction::StoreWindowSize);
    assert(t.1@[1] == BootAction::InitPlatform);
}

/// The title bar has its colour before the browser is set up, where it takes
/// one; the main loop waits for the page to load, unless the platform pumps the
/// browser itself.
pub proof fn law_browser_is_set_up_in_order(
    cfg: BootConfig,
    r: (BootStage, Vec<BootAction>),
    s: (BootStage, Vec<BootAction>),
    t: (BootStage, Vec<BootAction>),
)
    requires
        call_ensures(app::jfn_app_main, (BootStage::Platform, BootEvent::Platform(true), cfg), r),
        call_ensures(app::jfn_app_main, (BootStage::Browser, BootEvent::Browser(true), cfg), s),
        call_ensures(
            app::jfn_app_main,
            (BootStage::Coordination, BootEvent::Coordination(true), cfg),
            t,
        ),
    ensures
        before(r.1@, BootAction::PublishDeviceProfile, BootAction::InitBrowser),
        r.1@.contains(BootAction::ApplyThemeColor) == cfg.titlebar_theme_color,
        cfg.titlebar_theme_color ==> before(
            r.1@,
            BootAction::ApplyThemeColor,
            BootAction::InitBrowser,
        ),
        r.1@.len() == if cfg.titlebar_theme_color { 3int } else { 2int },
        s.1@.len() == 3,
        before(s.1@, BootAction::SyncMetrics, BootAction::InitMainBrowser),
        before(s.1@, BootAction::InitMainBrowser, BootAction::StartCoordination),
        t.1@.contains(BootAction::RunMainLoop),
        t.1@.contains(BootAction::WaitForLoad) == !cfg.platform_pumps_browser,
        !cfg.platform_pumps_browser ==> before(
            t.1@,
            BootAction::WaitForLoad,
            BootAction::RunMainLoop,
        ),
        t.1@.len() == if cfg.platform_pumps_browser { 1int } else { 2int },
{
    let n: int = if cfg.titlebar_theme_color {
        1
    } else {
        0
    };
    if cfg.titlebar_theme_color {
        assert(r.1@[0] == BootAction::ApplyThemeColor);
    }
    assert(r.1@[n] == BootAction::PublishDeviceProfile);
    assert(r.1@[n + 1] == BootAction::InitBrowser);
    assert(s.1@[0] == BootAction::SyncMetrics);
    assert(s.1@[1] == BootAction::InitMainBrowser);
    assert(s.1@[2] == BootAction::StartCoordination);
    if cfg.platform_pumps_browser {
        assert(t.1@[0] == BootAction::RunMainLoop);
    } else {
        assert(t.1@[0] == BootAction::WaitForLoad);
        assert(t.1@[1] == BootAction::RunMainLoop);
    }
}

/// The end saves what is to be kept before anything is waited for, takes down
/// the rest in order, and only then ends the player and takes its window down.
pub proof fn law_end_is_in_order(
    cfg: BootConfig,
    r: (BootStage, Vec<BootAction>),
    s: Vec<BootAction>,
)
    requires
        call_ensures(app::jfn_app_main, (BootStage::Running, BootEvent::MainLoopEnded, cfg), r),
        call_ensures(app::shutdown_runtime, (), s),
    ensures
        r.1@.len() == 15,
        before(r.1@, BootAction::PersistGeometry, BootAction::SaveSettings),
        before(r.1@, BootAction::SaveSettings, BootAction::JoinManager),
        before(r.1@, BootAction::JoinManager, BootAction::DetachHost),
        before(r.1@, BootAction::DetachHost, BootAction::StopTheme),
        before(r.1@, BootAction::StopTheme, BootAction::StopMediaSession),
        before(r.1@, BootAction::StopMediaSession, BootAction::StopEventThread),
        before(r.1@, BootAction::StopEventThread, BootAction::StopSaveWorker),
        before(r.1@, BootAction::StopSaveWorker, BootAction::StopBrowsers),
        before(r.1@, BootAction::StopBrowsers, BootAction::StopBrowser),
        before(r.1@, BootAction::StopBrowser, BootAction::ClearIdleInhibit),
        before(r.1@, BootAction::ClearIdleInhibit, BootAction::CleanupPlatform),
        before(r.1@, BootAction::CleanupPlatform, BootAction::StopCoordination),
        before(r.1@, BootAction::StopCoordination, BootAction::TerminatePlayer),
        before(r.1@, BootAction::TerminatePlayer, BootAction::CleanupWindow),
        s@ == r.1@.take(13),
{
    assert(r.1@[0] == BootAction::PersistGeometry);
    assert(r.1@[1] == BootAction::SaveSettings);
    assert(r.1@[2] == BootAction::JoinManager);
    assert(r.1@[3] == BootAction::DetachHost);
    assert(r.1@[4] == BootAction::StopTheme);
    assert(r.1@[5] == BootAction::StopMediaSession);
    assert(r.1@[6] == BootAction::StopEventThread);
    assert(r.1@[7] == BootAction::StopSaveWorker);
    assert(r.1@[8] == BootAction::StopBrowsers);
    assert(r.1@[9] == BootAction::StopBrowser);
    assert(r.1@[10] == BootAction::ClearIdleInhibit);
    assert(r.1@[11] == BootAction::CleanupPlatform);
    assert(r.1@[12] == BootAction::StopCoordination);
    assert(r.1@[13] == BootAction::TerminatePlayer);
    assert(r.1@[14] == BootAction::CleanupWindow);
    assert(s@ =~= r.1@.take(13));
}

/// The main browser is set up with the theme first, the title bar following as
/// asked, and the video's background in the colour asked for; the browser comes
/// once its layer and the handlers are there, and the overlay last.
pub proof fn law_main_browser_is_set_up(titlebar: bool, rgb: u32, r: Vec<BrowserStep>)
    requires
        call_ensures(app::init_main_browser, (titlebar, rgb), r),
    ensures
        r@.len() == 9,
        r@[0] == (BrowserStep::InitTheme { titlebar }),
        before(
            r@,
            BrowserStep::SetVideoBackground { rgb },
            BrowserStep::InitBrowsers,
        ),
        before(r@, BrowserStep::InitBrowsers, BrowserStep::StartManager),
        before(r@, BrowserStep::StartManager, BrowserStep::SetShutdownHandler),
        before(r@, BrowserStep::SetShutdownHandler, BrowserStep::CreateLayer),
        before(r@, BrowserStep::CreateLayer, BrowserStep::InitWeb),
        before(r@, BrowserStep::InitWeb, BrowserStep::CreateBrowser),
        before(r@, BrowserStep::CreateBrowser, BrowserStep::InitOverlay),
        r@.last() == BrowserStep::InitOverlay,
{
    assert(r@[1] == (BrowserStep::SetVideoBackground { rgb }));
    assert(r@[2] == BrowserStep::InitBrowsers);
    assert(r@[3] == BrowserStep::StartManager);
    assert(r@[4] == BrowserStep::SetShutdownHandler);
    assert(r@[5] == BrowserStep::CreateLayer);
    assert(r@[6] == BrowserStep::InitWeb);
    assert(r@[7] == BrowserStep::CreateBrowser);
    assert(r@[8] == BrowserStep::InitOverlay);
}

/// The coordination with the player sets every handler before the first event
/// is read.
pub proof fn law_handlers_are_set_before_events(r: Vec<CoordinationStep>)
    requires
        call_ensures(app::start_playback_coordination, (), r),
    ensures
        r@.len() == 12,
        before(r@, CoordinationStep::InitPlayback, CoordinationStep::SetIdleInhibitHandler),
        before(r@, CoordinationStep::SetIdleInhibitHandler, CoordinationStep::SetThemeVideoModeHandler),
        before(r@, CoordinationStep::SetThemeVideoModeHandler, CoordinationStep::SetWebScriptHandler),
        before(r@, CoordinationStep::SetWebScriptHandler, CoordinationStep::SetBrowserSizeHandler),
        before(r@, CoordinationStep::SetBrowserSizeHandler, CoordinationStep::SetBrowserRefreshRateHandler),
        before(r@, CoordinationStep::SetBrowserRefreshRateHandler, CoordinationStep::StartMediaSession),
        before(r@, CoordinationStep::StartMediaSession, CoordinationStep::SetDisplayScaleHandler),
        before(r@, CoordinationStep::SetDisplayScaleHandler, CoordinationStep::SetScaleProvider),
        before(r@, CoordinationStep::SetScaleProvider, CoordinationStep::SetFullscreenHandler),
        before(r@, CoordinationStep::SetFullscreenHandler, CoordinationStep::SetShutdownHandler),
        before(r@, CoordinationStep::SetShutdownHandler, CoordinationStep::StartEventThread),
        r@.last() == CoordinationStep::StartEventThread,
{
    assert(r@[0] == CoordinationStep::InitPlayback);
    assert(r@[1] == CoordinationStep::SetIdleInhibitHandler);
    assert(r@[2] == CoordinationStep::SetThemeVideoModeHandler);
    assert(r@[3] == CoordinationStep::SetWebScriptHandler);
    assert(r@[4] == CoordinationStep::SetBrowserSizeHandler);
    assert(r@[5] == CoordinationStep::SetBrowserRefreshRateHandler);
    assert(r@[6] == CoordinationStep::StartMediaSession);
    assert(r@[7] == CoordinationStep::SetDisplayScaleHandler);
    assert(r@[8] == CoordinationStep::SetScaleProvider);
    assert(r@[9] == CoordinationStep::SetFullscreenHandler);
    assert(r@[10] == CoordinationStep::SetShutdownHandler);
    assert(r@[11] == CoordinationStep::StartEventThread);
}

} // verus!
