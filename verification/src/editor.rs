//! The editor: the immutable configuration a host builds once, and the
//! spawn that opens one window of life for it. Configuration survives
//! repeated spawn/teardown cycles; each spawn yields a fresh instance.

use vstd::prelude::*;
use vstd::string::*;

use crate::assets::{asset_url, asset_url_spec, NotFoundPolicy};
use crate::context::{Adapter, HostHandle, Phase, WindowHandler};
use crate::lifecycle::Instance;
use crate::msg::{EditorError, MalformedPolicy, Message};
use crate::timers::TimerRegistry;

verus! {

/// Where the page's markup comes from: inline markup handed to the widget
/// whole, or a locator the widget loads.
#[derive(Clone, Debug, PartialEq, Eq)]
pub enum HTMLSource {
    /// The markup itself.
    Inline(String),
    /// A URL the widget navigates to.
    URL(String),
}

/// The editor's immutable configuration: content source, initial size,
/// background color shown before first paint, developer-mode flag, the
/// optional asset protocol, and the two failure policies the host decides
/// deliberately.
pub struct WebViewEditor {
    pub source: HTMLSource,
    pub width: u32,
    pub height: u32,
    pub background_color: (u8, u8, u8, u8),
    pub developer_mode: bool,
    pub custom_protocol: Option<String>,
    pub asset_root: Option<String>,
    pub malformed_policy: MalformedPolicy,
    pub not_found_policy: NotFoundPolicy,
}

/// The protocol name an asset directory is served under when the host does
/// not pick one.
pub open spec fn default_protocol_name() -> Seq<char> {
    "assets"@
}

/// The protocol name after the host's choice is applied.
pub open spec fn chosen_protocol_name(name: Option<String>) -> Seq<char> {
    match name {
        Some(n) => n@,
        None => default_protocol_name(),
    }
}

impl WebViewEditor {
    /// A fresh configuration: the given content and initial size, a white
    /// background, developer mode off, no asset protocol, and the reference
    /// failure policies.
    pub fn new(source: HTMLSource, size: (u32, u32)) -> (r: WebViewEditor)
        requires
            size.0 > 0,
            size.1 > 0,
        ensures
            r.source == source,
            r.width == size.0,
            r.height == size.1,
            r.background_color == (255u8, 255u8, 255u8, 255u8),
            !r.developer_mode,
            r.custom_protocol is None,
            r.asset_root is None,
            r.malformed_policy == MalformedPolicy::Fatal,
            r.not_found_policy == NotFoundPolicy::Fatal,
    {
        WebViewEditor {
            source,
            width: size.0,
            height: size.1,
            background_color: (255, 255, 255, 255),
            developer_mode: false,
            custom_protocol: None,
            asset_root: None,
            malformed_policy: MalformedPolicy::Fatal,
            not_found_policy: NotFoundPolicy::Fatal,
        }
    }

    /// Sets the background color shown before the page's first paint.
    pub fn with_background_color(self, background_color: (u8, u8, u8, u8)) -> (r: WebViewEditor)
        ensures
            r == (WebViewEditor { background_color, ..self }),
    {
        WebViewEditor { background_color, ..self }
    }

    /// Turns the developer tools on or off for spawned widgets.
    pub fn with_developer_mode(self, developer_mode: bool) -> (r: WebViewEditor)
        ensures
            r == (WebViewEditor { developer_mode, ..self }),
    {
        WebViewEditor { developer_mode, ..self }
    }

    /// Registers a custom protocol by name. The handler that answers its
    /// requests stays with the host; for the file-serving one see
    /// `with_asset_dir_protocol`.
    pub fn with_custom_protocol(self, name: String) -> (r: WebViewEditor)
        ensures
            r == (WebViewEditor { custom_protocol: Some(name), ..self }),
    {
        WebViewEditor { custom_protocol: Some(name), ..self }
    }

    /// Chooses what the inbound sink does with malformed payloads.
    pub fn with_malformed_policy(self, malformed_policy: MalformedPolicy) -> (r: WebViewEditor)
        ensures
            r == (WebViewEditor { malformed_policy, ..self }),
    {
        WebViewEditor { malformed_policy, ..self }
    }

    /// Chooses what the asset protocol answers for missing files.
    pub fn with_not_found_policy(self, not_found_policy: NotFoundPolicy) -> (r: WebViewEditor)
        ensures
            r == (WebViewEditor { not_found_policy, ..self }),
    {
        WebViewEditor { not_found_policy, ..self }
    }

    /// Serves a directory of static assets over a private protocol and
    /// points the content source at it: the protocol gets `protocol_name`
    /// (or `assets` when none is given), the main page is `index.html`
    /// under `asset_dir`, and the source becomes the protocol's URL in the
    /// form the platform needs (`windows_scheme` picks the `http` form).
    pub fn with_asset_dir_protocol(
        self,
        asset_dir: String,
        protocol_name: Option<String>,
        windows_scheme: bool,
    ) -> (r: WebViewEditor)
        ensures
            r.source matches HTMLSource::URL(u) && u@ == asset_url_spec(
                chosen_protocol_name(protocol_name),
                windows_scheme,
            ),
            r.custom_protocol matches Some(n) && n@ == chosen_protocol_name(protocol_name),
            r.asset_root == Some(asset_dir),
            r.width == self.width,
            r.height == self.height,
            r.background_color == self.background_color,
            r.developer_mode == self.developer_mode,
            r.malformed_policy == self.malformed_policy,
            r.not_found_policy == self.not_found_policy,
    {
        let name: String = match protocol_name {
            Some(n) => n,
            None => String::from_str("assets"),
        };
        let url = asset_url(name.as_str(), windows_scheme);
        WebViewEditor {
            source: HTMLSource::URL(url),
            custom_protocol: Some(name),
            asset_root: Some(asset_dir),
            ..self
        }
    }

    /// The editor's current size, as reported to the host: the shared
    /// context's stored size, which is the size of the last effective
    /// resize, or the configured size while none has happened. The context
    /// keeps it across spawn and teardown, so a host that reopens the
    /// editor learns the size it last resized to.
    pub fn size(&self, ctx: &WindowHandler) -> (r: (u32, u32))
        ensures
            r == (ctx.width, ctx.height),
    {
        (ctx.width, ctx.height)
    }

    /// Rescale handling is not supported: the answer is always `false`,
    /// whatever factor the host asks about.
    pub fn set_scale_factor(&self) -> (r: bool)
        ensures
            !r,
    {
        false
    }

    /// The shared context this editor's spawns will run against: the
    /// configured initial size, nothing queued, no spawn window open.
    pub fn new_context(&self) -> (ctx: WindowHandler)
        ensures
            ctx.width == self.width,
            ctx.height == self.height,
            ctx.queue@ == Seq::<Message>::empty(),
            ctx.phase is Unspawned,
    {
        WindowHandler::new(self.width, self.height)
    }

    /// Opens one spawn window: exactly one adapter and one timer come into
    /// being on success, the adapter opens at the shared context's stored
    /// size — the context survives spawn/teardown cycles, so a reopened
    /// editor keeps the size it was last resized to — the context takes
    /// the capability, and the returned instance owns both. The inbound
    /// queue starts the window empty, as each spawn wires a fresh sink.
    /// When the platform could not construct the native widget
    /// (`view_constructed` is false), the whole call fails with
    /// `ViewConstructionFailed` and neither the context nor the registry
    /// changes: no partial instance.
    pub fn spawn(
        &self,
        ctx: &mut WindowHandler,
        timers: &mut TimerRegistry,
        view_constructed: bool,
    ) -> (r: Result<Instance, EditorError>)
        ensures
            !view_constructed ==> {
                &&& r == Err::<Instance, EditorError>(EditorError::ViewConstructionFailed)
                &&& *final(ctx) == *old(ctx)
                &&& *final(timers) == *old(timers)
            },
            view_constructed ==> {
                &&& r matches Ok(inst) && {
                    &&& inst.timer_token == old(timers).slots@.len()
                    &&& final(timers).token_live(inst.timer_token as int)
                }
                &&& final(timers).slots@.len() == old(timers).slots@.len() + 1
                &&& forall|t: int|
                    t != old(timers).slots@.len() ==> final(timers).token_live(t) == old(
                        timers,
                    ).token_live(t)
                &&& final(ctx).is_live()
                &&& final(ctx).width == old(ctx).width
                &&& final(ctx).height == old(ctx).height
                &&& final(ctx).bounds() == (old(ctx).width, old(ctx).height)
                &&& final(ctx).notified() is None
                &&& final(ctx).sizes_consistent()
                &&& final(ctx).scripts_deep() == Seq::<Seq<char>>::empty()
                &&& final(ctx).queue@ == Seq::<Message>::empty()
                &&& final(ctx).phase->adapter.background_color == self.background_color
                &&& final(ctx).phase->adapter.developer_mode == self.developer_mode
            },
    {
        if !view_constructed {
            return Err(EditorError::ViewConstructionFailed);
        }
        let token = timers.register();
        ctx.queue = Vec::new();
        ctx.phase = Phase::Spawned {
            adapter: Adapter {
                bounds_width: ctx.width,
                bounds_height: ctx.height,
                background_color: self.background_color,
                developer_mode: self.developer_mode,
                scripts: Vec::new(),
            },
            host: HostHandle { last_notified: None },
        };
        proof {
            assert(final(ctx).scripts_deep() =~= Seq::<Seq<char>>::empty());
        }
        Ok(Instance { timer_token: token })
    }
}

} // verus!
