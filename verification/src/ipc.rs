//! Messages of the compositor's event stream.

use crate::bits::DoubleBits;
use vstd::prelude::*;

verus! {

/// Where a window is blocked out from.
#[derive(Debug, Clone, Copy, PartialEq, Eq, Structural)]
pub enum BlockOutFrom {
    /// Only from screencasts.
    Screencast,
    /// From all screen captures.
    ScreenCapture,
}

/// A layer of the layer-shell protocol.
#[derive(Debug, Clone, Copy, PartialEq, Eq, Structural)]
pub enum Layer {
    Background,
    Bottom,
    Top,
    Overlay,
}

/// A moment on the monotonic clock.
#[derive(Debug, Clone, Copy, PartialEq, Eq, Structural)]
pub struct Timestamp {
    /// Whole seconds.
    pub secs: u64,
    /// Fraction of the second, in nanoseconds.
    pub nanos: u32,
}

/// Position and size properties of a window.
#[derive(Debug, Clone, Copy, PartialEq)]
pub struct WindowLayout {
    /// Column and tile index within the scrolling layout, if the window is part of it.
    pub pos_in_scrolling_layout: Option<(usize, usize)>,
    /// Size of the tile, decorations included.
    pub tile_size: (DoubleBits, DoubleBits),
    /// Size of the window's visual geometry.
    pub window_size: (i32, i32),
    /// Position of the tile within the view of its workspace.
    pub tile_pos_in_workspace_view: Option<(DoubleBits, DoubleBits)>,
    /// Offset of the window geometry within its tile.
    pub window_offset_in_tile: (DoubleBits, DoubleBits),
}

/// A toplevel window.
#[derive(Debug, PartialEq)]
pub struct Window {
    /// Unique id of this window.
    pub id: u64,
    /// Title, if set.
    pub title: Option<String>,
    /// Application id, if set.
    pub app_id: Option<String>,
    /// Process that created the Wayland connection, if known.
    pub pid: Option<i32>,
    /// Workspace the window is on, if any.
    pub workspace_id: Option<u64>,
    /// Whether the window has the keyboard focus; at most one window does.
    pub is_focused: bool,
    /// Whether the window is floating.
    pub is_floating: bool,
    /// Whether the window requests attention.
    pub is_urgent: bool,
    /// Whether the window is blocked out.
    pub is_block_out: bool,
    /// Position and size.
    pub layout: WindowLayout,
    /// When the window was last focused.
    pub focus_timestamp: Option<Timestamp>,
}

/// A workspace.
#[derive(Debug, PartialEq, Eq)]
pub struct Workspace {
    /// Unique id of this workspace.
    pub id: u64,
    /// Index of the workspace on its monitor.
    pub idx: u8,
    /// Name, if the workspace is named.
    pub name: Option<String>,
    /// Output that the workspace is on, if any.
    pub output: Option<String>,
    /// Whether a window on the workspace requests attention.
    pub is_urgent: bool,
    /// Whether the workspace is the visible one of its output.
    pub is_active: bool,
    /// Whether the workspace has the focus.
    pub is_focused: bool,
    /// Active window on this workspace, if any.
    pub active_window_id: Option<u64>,
}

/// Configured keyboard layouts.
#[derive(Debug, PartialEq, Eq)]
pub struct KeyboardLayouts {
    /// XKB names of the layouts.
    pub names: Vec<String>,
    /// Index of the active layout.
    pub current_idx: u8,
}

/// A window that is blocked out.
#[derive(Debug, PartialEq, Eq)]
pub struct BlockedWindow {
    pub id: u64,
    pub title: Option<String>,
    pub app_id: Option<String>,
    pub workspace_id: Option<u64>,
    pub block_out_from: BlockOutFrom,
}

/// A layer surface that is blocked out.
#[derive(Debug, PartialEq, Eq)]
pub struct BlockedLayerSurface {
    pub namespace: String,
    pub output: String,
    pub layer: Layer,
    pub block_out_from: BlockOutFrom,
}

/// What is currently blocked out.
#[derive(Debug, PartialEq, Eq)]
pub struct BlockOutState {
    /// Whether blocking out is enabled at all.
    pub is_enabled: bool,
    /// Blocked-out windows, by id.
    pub windows: Vec<BlockedWindow>,
    /// Blocked-out layer surfaces.
    pub layers: Vec<BlockedLayerSurface>,
}

/// How a screencast is delivered.
#[derive(Debug, Clone, Copy, PartialEq, Eq, Structural)]
pub enum CastKind {
    PipeWire,
    WlrScreencopy,
}

/// What a screencast shows.
#[derive(Debug, PartialEq, Eq)]
pub enum CastTarget {
    Nothing,
    Output { name: String },
    Window { id: u64 },
}

/// A running screencast.
#[derive(Debug, PartialEq, Eq)]
pub struct Cast {
    /// Unique id of the stream.
    pub stream_id: u64,
    /// Session that the stream belongs to.
    pub session_id: u64,
    pub kind: CastKind,
    pub target: CastTarget,
    /// Whether the target can be changed while the cast runs.
    pub is_dynamic_target: bool,
    /// Whether frames are being sent right now.
    pub is_active: bool,
    pub pid: Option<i32>,
    pub pw_node_id: Option<u32>,
}

/// A compositor event.
#[allow(inconsistent_fields)]
#[derive(Debug, PartialEq)]
pub enum Event {
    /// The set of workspaces is now this one.
    WorkspacesChanged { workspaces: Vec<Workspace> },
    /// A workspace's urgency changed.
    WorkspaceUrgencyChanged { id: u64, urgent: bool },
    /// A workspace became active on its output, and focused if `focused` is set.
    WorkspaceActivated { id: u64, focused: bool },
    /// The active window of a workspace changed.
    WorkspaceActiveWindowChanged { workspace_id: u64, active_window_id: Option<u64> },
    /// The set of windows is now this one.
    WindowsChanged { windows: Vec<Window> },
    /// A window was opened, or some of its properties changed.
    ///
    /// If the window is focused, all other windows lose the focus.
    WindowOpenedOrChanged { window: Window },
    /// A window was closed.
    WindowClosed { id: u64 },
    /// The focus moved to this window, or to none.
    WindowFocusChanged { id: Option<u64> },
    /// A window's focus timestamp changed.
    WindowFocusTimestampChanged { id: u64, focus_timestamp: Option<Timestamp> },
    /// A window's urgency changed.
    WindowUrgencyChanged { id: u64, urgent: bool },
    /// The layouts of some windows changed.
    WindowLayoutsChanged { changes: Vec<(u64, WindowLayout)> },
    /// The configured keyboard layouts are now these.
    KeyboardLayoutsChanged { keyboard_layouts: KeyboardLayouts },
    /// The active keyboard layout changed.
    KeyboardLayoutSwitched { idx: u8 },
    /// The overview was opened or closed.
    OverviewOpenedOrClosed { is_open: bool },
    /// The config was loaded, or failed to load.
    ConfigLoaded { failed: bool },
    /// A screenshot was taken, and saved if a path is given.
    ScreenshotCaptured { path: Option<String> },
    /// The block-out state is now this one.
    BlockOutStateChanged { block_out_state: BlockOutState },
    /// A window is blocked out from now on, or changed while it is.
    BlockOutWindowAddedOrChanged { window: BlockedWindow },
    /// A window is no longer blocked out.
    BlockOutWindowRemoved { id: u64 },
    /// Blocking out was switched on or off.
    BlockOutEnabledChanged { is_enabled: bool },
    /// The set of screencasts is now this one.
    CastsChanged { casts: Vec<Cast> },
    /// A screencast started, or changed.
    CastStartedOrChanged { cast: Cast },
    /// A screencast stopped.
    CastStopped { stream_id: u64 },
}

/// Keyboard layouts with the list of names as a sequence.
pub struct KeyboardLayoutsView {
    pub names: Seq<String>,
    pub current_idx: u8,
}

impl View for KeyboardLayouts {
    type V = KeyboardLayoutsView;

    open spec fn view(&self) -> KeyboardLayoutsView {
        KeyboardLayoutsView { names: self.names@, current_idx: self.current_idx }
    }
}

/// A block-out state with its lists as sequences.
pub struct BlockOutStateView {
    pub is_enabled: bool,
    pub windows: Seq<BlockedWindow>,
    pub layers: Seq<BlockedLayerSurface>,
}

impl View for BlockOutState {
    type V = BlockOutStateView;

    open spec fn view(&self) -> BlockOutStateView {
        BlockOutStateView {
            is_enabled: self.is_enabled,
            windows: self.windows@,
            layers: self.layers@,
        }
    }
}

impl Clone for Window {
    fn clone(&self) -> (copy: Self)
        ensures
            copy == *self,
    {
        Window {
            id: self.id,
            title: self.title.clone(),
            app_id: self.app_id.clone(),
            pid: self.pid,
            workspace_id: self.workspace_id,
            is_focused: self.is_focused,
            is_floating: self.is_floating,
            is_urgent: self.is_urgent,
            is_block_out: self.is_block_out,
            layout: self.layout,
            focus_timestamp: self.focus_timestamp,
        }
    }
}

impl Clone for Workspace {
    fn clone(&self) -> (copy: Self)
        ensures
            copy == *self,
    {
        Workspace {
            id: self.id,
            idx: self.idx,
            name: self.name.clone(),
            output: self.output.clone(),
            is_urgent: self.is_urgent,
            is_active: self.is_active,
            is_focused: self.is_focused,
            active_window_id: self.active_window_id,
        }
    }
}

impl Clone for KeyboardLayouts {
    fn clone(&self) -> (copy: Self)
        ensures
            copy@ == self@,
    {
        let copy = KeyboardLayouts { names: self.names.clone(), current_idx: self.current_idx };
        assert(copy.names@ =~= self.names@);
        copy
    }
}

impl Clone for BlockedWindow {
    fn clone(&self) -> (copy: Self)
        ensures
            copy == *self,
    {
        BlockedWindow {
            id: self.id,
            title: self.title.clone(),
            app_id: self.app_id.clone(),
            workspace_id: self.workspace_id,
            block_out_from: self.block_out_from,
        }
    }
}

impl Clone for BlockedLayerSurface {
    fn clone(&self) -> (copy: Self)
        ensures
            copy == *self,
    {
        BlockedLayerSurface {
            namespace: self.namespace.clone(),
            output: self.output.clone(),
            layer: self.layer,
            block_out_from: self.block_out_from,
        }
    }
}

impl Clone for BlockOutState {
    fn clone(&self) -> (copy: Self)
        ensures
            copy@ == self@,
    {
        let copy = BlockOutState {
            is_enabled: self.is_enabled,
            windows: self.windows.clone(),
            layers: self.layers.clone(),
        };
        assert(copy.windows@ =~= self.windows@);
        assert(copy.layers@ =~= self.layers@);
        copy
    }
}

impl Clone for CastTarget {
    fn clone(&self) -> (copy: Self)
        ensures
            copy == *self,
    {
        match self {
            CastTarget::Nothing => CastTarget::Nothing,
            CastTarget::Output { name } => CastTarget::Output { name: name.clone() },
            CastTarget::Window { id } => CastTarget::Window { id: *id },
        }
    }
}

impl Clone for Cast {
    fn clone(&self) -> (copy: Self)
        ensures
            copy == *self,
    {
        Cast {
            stream_id: self.stream_id,
            session_id: self.session_id,
            kind: self.kind,
            target: self.target.clone(),
            is_dynamic_target: self.is_dynamic_target,
            is_active: self.is_active,
            pid: self.pid,
            pw_node_id: self.pw_node_id,
        }
    }
}

} // verus!
