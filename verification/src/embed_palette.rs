//! What a host tells the app it embeds: its color palette, and the connections it
//! opened with the project directory of each.
//!
//! The platform layer writes here what came over the embed sockets; the app polls,
//! rebuilds its theme when the palette's version changes, and opens one window per
//! connection.

use std::collections::VecDeque;

use vstd::prelude::*;

use crate::input::optional_text;

verus! {

/// Host palette: 13 colors packed as `0xRRGGBBAA`. In order: fg, fg_dim, fg_muted,
/// fg_subtle, bg, bg_alt, accent, accent_alt, purple, red, green, yellow,
/// yellow_bright. The alpha byte of `bg` and `bg_alt` carries the host's window
/// transparency.
#[derive(Clone, Copy, Debug, PartialEq, Eq)]
pub struct EmbedPalette {
    /// The packed colors, in the order given above.
    pub colors: [u32; 13],
}

impl View for EmbedPalette {
    type V = Seq<u32>;

    open spec fn view(&self) -> Seq<u32> {
        self.colors@
    }
}

/// The state shared between the platform layer and the app.
pub struct EmbedBridge {
    palette: Option<EmbedPalette>,
    version: u64,
    connections: u64,
    pending_paths: VecDeque<String>,
}

/// What an [`EmbedBridge`] holds.
#[verifier::ext_equal]
pub struct BridgeView {
    /// The colors of the host's palette, once it sent one.
    pub palette: Option<Seq<u32>>,
    /// Goes up by one, modulo 2^64, with every change of the palette.
    pub version: u64,
    /// How many connections were noted.
    pub connections: u64,
    /// The project directories of connections that wait for their window.
    pub pending_paths: Seq<Seq<char>>,
}

/// What queued paths say.
pub open spec fn texts(paths: Seq<String>) -> Seq<Seq<char>> {
    paths.map_values(|path: String| path@)
}

impl View for EmbedBridge {
    type V = BridgeView;

    closed spec fn view(&self) -> BridgeView {
        BridgeView {
            palette: match self.palette {
                Some(palette) => Some(palette@),
                None => None,
            },
            version: self.version,
            connections: self.connections,
            pending_paths: texts(self.pending_paths@),
        }
    }
}

impl BridgeView {
    /// Nothing was heard from a host yet.
    pub open spec fn fresh() -> BridgeView {
        BridgeView { palette: None, version: 0, connections: 0, pending_paths: seq![] }
    }

    /// There is no version without a palette.
    pub open spec fn wf(self) -> bool {
        self.palette is None ==> self.version == 0
    }

    /// A palette arrived: a new one is stored and bumps the version.
    pub open spec fn with_palette(self, colors: Seq<u32>) -> BridgeView {
        if self.palette == Some(colors) {
            self
        } else {
            BridgeView {
                palette: Some(colors),
                version: ((self.version + 1) % 0x1_0000_0000_0000_0000) as u64,
                ..self
            }
        }
    }

    /// Palettes arrived, one after the other.
    pub open spec fn with_palettes(self, palettes: Seq<Seq<u32>>) -> BridgeView
        decreases palettes.len(),
    {
        if palettes.len() == 0 {
            self
        } else {
            self.with_palettes(palettes.drop_last()).with_palette(palettes.last())
        }
    }

    /// How many of the arriving palettes differ from the one before.
    pub open spec fn changes(self, palettes: Seq<Seq<u32>>) -> nat
        decreases palettes.len(),
    {
        if palettes.len() == 0 {
            0
        } else {
            let before = self.with_palettes(palettes.drop_last());
            self.changes(palettes.drop_last()) + if before.palette == Some(palettes.last()) {
                0nat
            } else {
                1
            }
        }
    }
}

impl BridgeView {
    /// One more connection was accepted.
    pub open spec fn with_connection(self) -> BridgeView {
        BridgeView { connections: (self.connections + 1) as u64, ..self }
    }

    /// A path waits behind the others.
    pub open spec fn with_path(self, path: Seq<char>) -> BridgeView {
        BridgeView { pending_paths: self.pending_paths.push(path), ..self }
    }

    /// The path that waited longest.
    pub open spec fn next_path(self) -> Option<Seq<char>> {
        if self.pending_paths.len() == 0 {
            None
        } else {
            Some(self.pending_paths[0])
        }
    }

    /// That path was taken.
    pub open spec fn without_next_path(self) -> BridgeView {
        if self.pending_paths.len() == 0 {
            self
        } else {
            BridgeView { pending_paths: self.pending_paths.skip(1), ..self }
        }
    }
}

impl EmbedBridge {
    /// A bridge that has heard nothing from a host yet.
    pub fn new() -> (bridge: EmbedBridge)
        ensures
            bridge@ == BridgeView::fresh(),
            bridge@.wf(),
    {
        let bridge = EmbedBridge {
            palette: None,
            version: 0,
            connections: 0,
            pending_paths: VecDeque::new(),
        };
        assert(bridge@ =~= BridgeView::fresh());
        bridge
    }
}

/// Whether two palettes hold the same colors.
fn same_colors(a: &EmbedPalette, b: &EmbedPalette) -> (same: bool)
    ensures
        same == (a@ == b@),
{
    let mut i: usize = 0;
    while i < 13
        invariant
            i <= 13,
            forall|j: int| 0 <= j < i ==> a@[j] == b@[j],
        decreases 13 - i,
    {
        if a.colors[i] != b.colors[i] {
            assert(a@[i as int] != b@[i as int]);
            return false;
        }
        i += 1;
    }
    assert(a@ =~= b@);
    true
}

/// Stores a new host palette. Bumps the version unless the palette is unchanged:
/// hosts resend it whenever they restyle themselves, and a version bump costs the
/// app a full theme rebuild.
pub fn set_embed_palette(bridge: &mut EmbedBridge, palette: EmbedPalette)
    ensures
        final(bridge)@ == old(bridge)@.with_palette(palette@),
{
    let unchanged: bool = match &bridge.palette {
        Some(current) => same_colors(current, &palette),
        None => false,
    };
    if unchanged {
        return ;
    }
    bridge.palette = Some(palette);
    bridge.version = bridge.version.wrapping_add(1);
}

/// The current host palette and its version, if one has been set. The version
/// changes whenever [`set_embed_palette`] receives new colors, so a poller can
/// detect updates without comparing all colors.
pub fn embed_palette(bridge: &EmbedBridge) -> (current: Option<(u64, EmbedPalette)>)
    ensures
        match current {
            Some((version, palette)) => bridge@.palette == Some(palette@) && version
                == bridge@.version,
            None => bridge@.palette is None,
        },
{
    match &bridge.palette {
        Some(palette) => Some((bridge.version, *palette)),
        None => None,
    }
}

/// Records a newly accepted connection; returns the new total.
pub fn note_embed_connection(bridge: &mut EmbedBridge) -> (total: u64)
    requires
        old(bridge)@.connections < u64::MAX,
    ensures
        total == old(bridge)@.connections + 1,
        final(bridge)@ == old(bridge)@.with_connection(),
{
    bridge.connections = bridge.connections + 1;
    bridge.connections
}

/// The number of connections accepted so far.
pub fn embed_connection_count(bridge: &EmbedBridge) -> (total: u64)
    ensures
        total == bridge@.connections,
{
    bridge.connections
}

/// Queues the project directory of the next connection. Empty means that the host
/// named none.
pub fn push_embed_path(bridge: &mut EmbedBridge, path: String)
    ensures
        final(bridge)@ == old(bridge)@.with_path(path@),
{
    bridge.pending_paths.push_back(path);
    assert(texts(bridge.pending_paths@) =~= texts(old(bridge).pending_paths@).push(path@));
}

/// Takes the project directory of the next connection to open.
pub fn take_embed_path(bridge: &mut EmbedBridge) -> (path: Option<String>)
    ensures
        optional_text(path) == old(bridge)@.next_path(),
        final(bridge)@ == old(bridge)@.without_next_path(),
{
    let path: Option<String> = bridge.pending_paths.pop_front();
    proof {
        if path is Some {
            assert(texts(bridge.pending_paths@) =~= texts(old(bridge).pending_paths@).skip(1));
        }
    }
    path
}

/// The version counts the palette's changes, modulo 2^64.
pub proof fn version_counts_changes(bridge: BridgeView, palettes: Seq<Seq<u32>>)
    ensures
        bridge.with_palettes(palettes).version == (bridge.version + bridge.changes(palettes))
            % 0x1_0000_0000_0000_0000,
        bridge.changes(palettes) <= palettes.len(),
    decreases palettes.len(),
{
    if palettes.len() > 0 {
        version_counts_changes(bridge, palettes.drop_last());
    }
}

/// Where no arriving palette differs from the one before, the palette stays.
proof fn no_change_keeps_palette(bridge: BridgeView, palettes: Seq<Seq<u32>>)
    requires
        bridge.changes(palettes) == 0,
    ensures
        bridge.with_palettes(palettes).palette == bridge.palette,
    decreases palettes.len(),
{
    if palettes.len() > 0 {
        no_change_keeps_palette(bridge, palettes.drop_last());
    }
}

/// A poller that finds the version it saw before finds the palette it saw before,
/// unless 2^64 palettes arrived in between.
pub proof fn same_version_same_palette(bridge: BridgeView, palettes: Seq<Seq<u32>>)
    requires
        palettes.len() < 0x1_0000_0000_0000_0000,
        bridge.with_palettes(palettes).version == bridge.version,
    ensures
        bridge.with_palettes(palettes).palette == bridge.palette,
{
    version_counts_changes(bridge, palettes);
    no_change_keeps_palette(bridge, palettes);
}

/// As long as no palette came the version is 0: a bridge starts out like that, and
/// neither palettes, connections nor paths change it.
pub proof fn no_version_without_a_palette(
    bridge: BridgeView,
    palettes: Seq<Seq<u32>>,
    connections: u64,
    pending_paths: Seq<Seq<char>>,
)
    requires
        bridge.wf(),
    ensures
        BridgeView::fresh().wf(),
        bridge.with_palettes(palettes).wf(),
        (BridgeView { connections, pending_paths, ..bridge }).wf(),
    decreases palettes.len(),
{
    if palettes.len() > 0 {
        no_version_without_a_palette(bridge, palettes.drop_last(), connections, pending_paths);
    }
}

/// Sending a palette a second time changes nothing.
pub proof fn resending_changes_nothing(bridge: BridgeView, colors: Seq<u32>)
    ensures
        bridge.with_palette(colors).with_palette(colors) == bridge.with_palette(colors),
        bridge.with_palette(colors).palette == Some(colors),
{
}

/// A palette is stored and changes nothing else: whatever arrived last is what is found,
/// and neither the connections nor the paths that wait are touched. The version moves
/// exactly where the colors do.
pub proof fn palettes_touch_nothing_else(bridge: BridgeView, colors: Seq<u32>)
    ensures
        bridge.with_palette(colors).palette == Some(colors),
        bridge.with_palette(colors).connections == bridge.connections,
        bridge.with_palette(colors).pending_paths == bridge.pending_paths,
        bridge.with_palette(colors).version == bridge.version <==> bridge.palette == Some(colors),
        bridge.palette != Some(colors) && bridge.version < u64::MAX ==> bridge.with_palette(
            colors,
        ).version == bridge.version + 1,
{
}

/// Paths are taken in the order in which they came: one that comes is behind those that
/// wait, and is next only where none does. Neither a palette nor a connection comes between.
pub proof fn paths_are_taken_in_order(bridge: BridgeView, path: Seq<char>)
    ensures
        bridge.next_path() is None <==> bridge.pending_paths.len() == 0,
        bridge.pending_paths.len() == 0 ==> bridge.with_path(path).next_path() == Some(path),
        bridge.pending_paths.len() == 0 ==> bridge.with_path(path).without_next_path() == bridge,
        bridge.pending_paths.len() > 0 ==> bridge.with_path(path).next_path() == bridge.next_path(),
        bridge.pending_paths.len() > 0 ==> bridge.with_path(path).without_next_path()
            == bridge.without_next_path().with_path(path),
        bridge.with_path(path).pending_paths.len() == bridge.pending_paths.len() + 1,
        bridge.with_path(path).palette == bridge.palette,
        bridge.with_path(path).version == bridge.version,
        bridge.with_path(path).connections == bridge.connections,
        bridge.without_next_path().palette == bridge.palette,
        bridge.without_next_path().version == bridge.version,
        bridge.without_next_path().connections == bridge.connections,
{
    if bridge.pending_paths.len() == 0 {
        assert(bridge.with_path(path).pending_paths.skip(1) =~= bridge.pending_paths);
    } else {
        assert(bridge.with_path(path).pending_paths.skip(1) =~= bridge.pending_paths.skip(1).push(
            path,
        ));
    }
}

/// A connection is counted once, and nothing else changes.
pub proof fn connections_are_counted(bridge: BridgeView)
    requires
        bridge.connections < u64::MAX,
    ensures
        bridge.with_connection().connections == bridge.connections + 1,
        bridge.with_connection().pending_paths == bridge.pending_paths,
        bridge.with_connection().palette == bridge.palette,
        bridge.with_connection().version == bridge.version,
        BridgeView::fresh().connections == 0,
        BridgeView::fresh().palette is None,
        BridgeView::fresh().next_path() is None,
{
}

} // verus!
