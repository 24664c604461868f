//! An atlas that hands out tiles without holding pixels, so that painting glyphs
//! and sprites completes headlessly.

use std::collections::HashMap;

use vstd::prelude::*;

verus! {

broadcast use vstd::std_specs::hash::group_hash_axioms;

/// What kind of texture a tile lies in.
#[derive(Clone, Copy, Debug, PartialEq, Eq, Structural)]
pub enum AtlasTextureKind {
    Monochrome,
    Subpixel,
    Polychrome,
}

/// A size in device pixels.
#[derive(Clone, Copy, Debug, PartialEq, Eq, Structural)]
pub struct DeviceSize {
    pub width: i32,
    pub height: i32,
}

/// A tile: its texture, its own number, no padding, and its size at the origin.
#[derive(Clone, Copy, Debug, PartialEq, Eq, Structural)]
pub struct AtlasTile {
    pub texture_index: u32,
    pub texture_kind: AtlasTextureKind,
    pub tile_id: u32,
    pub padding: u32,
    pub origin: DeviceSize,
    pub size: DeviceSize,
}

/// The tiles given out, by the number that stands for their key.
pub struct HeadlessAtlas {
    next_id: u32,
    tiles: HashMap<u64, AtlasTile>,
}

/// What an atlas holds.
#[verifier::ext_equal]
pub struct AtlasView {
    /// The last number that was given out.
    pub next_id: u32,
    pub tiles: Map<u64, AtlasTile>,
}

impl View for HeadlessAtlas {
    type V = AtlasView;

    closed spec fn view(&self) -> AtlasView {
        AtlasView { next_id: self.next_id, tiles: self.tiles@ }
    }
}

impl AtlasView {
    /// Every tile has two numbers of its own, given out one after the other.
    pub open spec fn wf(self) -> bool {
        &&& self.next_id % 2 == 0
        &&& forall|key: u64|
            #![trigger self.tiles[key]]
            self.tiles.contains_key(key) ==> {
                let tile = self.tiles[key];
                tile.texture_index % 2 == 1 && tile.tile_id == tile.texture_index + 1
                    && tile.tile_id <= self.next_id
            }
        &&& forall|a: u64, b: u64|
            #![trigger self.tiles[a], self.tiles[b]]
            self.tiles.contains_key(a) && self.tiles.contains_key(b) && a != b
                ==> self.tiles[a].texture_index != self.tiles[b].texture_index
    }

    /// The tile that a new key gets.
    pub open spec fn next_tile(self, kind: AtlasTextureKind, size: DeviceSize) -> AtlasTile {
        AtlasTile {
            texture_index: (self.next_id + 1) as u32,
            texture_kind: kind,
            tile_id: (self.next_id + 2) as u32,
            padding: 0,
            origin: DeviceSize { width: 0, height: 0 },
            size,
        }
    }

    /// The atlas with a new key.
    pub open spec fn inserted(self, key: u64, kind: AtlasTextureKind, size: DeviceSize) -> AtlasView {
        AtlasView {
            next_id: (self.next_id + 2) as u32,
            tiles: self.tiles.insert(key, self.next_tile(kind, size)),
        }
    }

    /// The atlas without a key.
    pub open spec fn removed(self, key: u64) -> AtlasView {
        AtlasView { tiles: self.tiles.remove(key), ..self }
    }
}

impl HeadlessAtlas {
    /// An empty atlas.
    pub fn new() -> (atlas: HeadlessAtlas)
        ensures
            atlas@ == (AtlasView { next_id: 0, tiles: Map::empty() }),
            atlas@.wf(),
    {
        HeadlessAtlas { next_id: 0, tiles: HashMap::new() }
    }

    /// The tile of a key: the one it has, or a new one of the size that `build`
    /// gives. `build` runs only where the key is new; where it gives none or fails
    /// nothing is stored.
    pub fn get_or_insert_with<E, F: FnOnce() -> Result<Option<DeviceSize>, E>>(
        &mut self,
        key: u64,
        kind: AtlasTextureKind,
        build: F,
    ) -> (result: Result<Option<AtlasTile>, E>)
        requires
            old(self)@.wf(),
            old(self)@.tiles.contains_key(key) || old(self)@.next_id + 2 <= u32::MAX,
            !old(self)@.tiles.contains_key(key) ==> build.requires(()),
        ensures
            final(self)@.wf(),
            if old(self)@.tiles.contains_key(key) {
                &&& result == Ok::<Option<AtlasTile>, E>(Some(old(self)@.tiles[key]))
                &&& final(self)@ == old(self)@
            } else {
                exists|built: Result<Option<DeviceSize>, E>| #[trigger]
                    build.ensures((), built) && match built {
                        Ok(Some(size)) => {
                            &&& result == Ok::<Option<AtlasTile>, E>(
                                Some(old(self)@.next_tile(kind, size)),
                            )
                            &&& final(self)@ == old(self)@.inserted(key, kind, size)
                        },
                        Ok(None) => {
                            &&& result == Ok::<Option<AtlasTile>, E>(None)
                            &&& final(self)@ == old(self)@
                        },
                        Err(error) => {
                            &&& result == Err::<Option<AtlasTile>, E>(error)
                            &&& final(self)@ == old(self)@
                        },
                    }
            },
    {
        if let Some(tile) = self.tiles.get(&key) {
            return Ok(Some(*tile));
        }
        let built = build();
        let size: DeviceSize = match built {
            Ok(Some(size)) => size,
            Ok(None) => return Ok(None),
            Err(error) => return Err(error),
        };
        let texture_index: u32 = self.next_id + 1;
        let tile_id: u32 = self.next_id + 2;
        self.next_id = tile_id;
        let tile = AtlasTile {
            texture_index,
            texture_kind: kind,
            tile_id,
            padding: 0,
            origin: DeviceSize { width: 0, height: 0 },
            size,
        };
        self.tiles.insert(key, tile);
        proof {
            insertion_keeps_order(old(self)@, key, kind, size);
            assert(self@ =~= old(self)@.inserted(key, kind, size));
        }
        Ok(Some(tile))
    }

    /// Forgets a key's tile.
    pub fn remove(&mut self, key: u64)
        requires
            old(self)@.wf(),
        ensures
            final(self)@ == old(self)@.removed(key),
            final(self)@.wf(),
    {
        self.tiles.remove(&key);
        assert(self@ =~= old(self)@.removed(key));
    }
}

/// A new tile keeps the atlas in order.
pub proof fn insertion_keeps_order(
    atlas: AtlasView,
    key: u64,
    kind: AtlasTextureKind,
    size: DeviceSize,
)
    requires
        atlas.wf(),
        !atlas.tiles.contains_key(key),
        atlas.next_id + 2 <= u32::MAX,
    ensures
        atlas.inserted(key, kind, size).wf(),
{
    let after = atlas.inserted(key, kind, size);
    assert forall|k: u64| #![trigger after.tiles[k]] after.tiles.contains_key(k) implies {
        let tile = after.tiles[k];
        tile.texture_index % 2 == 1 && tile.tile_id == tile.texture_index + 1 && tile.tile_id
            <= after.next_id
    } by {
        if k != key {
            assert(after.tiles[k] == atlas.tiles[k]);
        }
    }
    assert forall|a: u64, b: u64|
        #![trigger after.tiles[a], after.tiles[b]]
        after.tiles.contains_key(a) && after.tiles.contains_key(b) && a
            != b implies after.tiles[a].texture_index != after.tiles[b].texture_index by {
        if a != key {
            assert(after.tiles[a] == atlas.tiles[a]);
        }
        if b != key {
            assert(after.tiles[b] == atlas.tiles[b]);
        }
    }
}

/// No two numbers in use are the same, whether of textures or of tiles.
pub proof fn numbers_are_distinct(atlas: AtlasView, a: u64, b: u64)
    requires
        atlas.wf(),
        atlas.tiles.contains_key(a),
        atlas.tiles.contains_key(b),
    ensures
        a != b ==> atlas.tiles[a].tile_id != atlas.tiles[b].tile_id,
        atlas.tiles[a].texture_index != atlas.tiles[b].tile_id,
{
}

/// What is done to an atlas.
pub enum AtlasStep {
    /// A key's tile is asked for, and what is to be drawn has a size.
    Ask { key: u64, kind: AtlasTextureKind, size: DeviceSize },
    /// A key's tile is forgotten.
    Remove { key: u64 },
}

impl AtlasView {
    /// The atlas after a step.
    pub open spec fn after(self, step: AtlasStep) -> AtlasView {
        match step {
            AtlasStep::Ask { key, kind, size } => if self.tiles.contains_key(key) {
                self
            } else {
                self.inserted(key, kind, size)
            },
            AtlasStep::Remove { key } => self.removed(key),
        }
    }

    /// The atlas after steps.
    pub open spec fn after_all(self, steps: Seq<AtlasStep>) -> AtlasView
        decreases steps.len(),
    {
        if steps.len() == 0 {
            self
        } else {
            self.after_all(steps.drop_last()).after(steps.last())
        }
    }
}

proof fn numbers_only_grow(atlas: AtlasView, steps: Seq<AtlasStep>)
    requires
        atlas.next_id + 2 * steps.len() <= u32::MAX,
    ensures
        atlas.next_id <= atlas.after_all(steps).next_id <= atlas.next_id + 2 * steps.len(),
    decreases steps.len(),
{
    if steps.len() > 0 {
        numbers_only_grow(atlas, steps.drop_last());
    }
}

/// A number is never given out twice: whatever was asked for and removed since a tile
/// was given out, a new one has larger numbers. The numbers have to last that long.
pub proof fn numbers_are_never_reused(
    atlas: AtlasView,
    key: u64,
    steps: Seq<AtlasStep>,
    kind: AtlasTextureKind,
    size: DeviceSize,
)
    requires
        atlas.wf(),
        atlas.tiles.contains_key(key),
        atlas.next_id + 2 * steps.len() + 2 <= u32::MAX,
    ensures
        atlas.after_all(steps).next_tile(kind, size).texture_index > atlas.tiles[key].tile_id,
        atlas.after_all(steps).next_tile(kind, size).tile_id > atlas.tiles[key].tile_id,
{
    numbers_only_grow(atlas, steps);
}

/// A new tile is of the kind and the size that were asked for, without padding and at the
/// origin, and is the one that its key finds from then on; every other key finds what it
/// found before. Forgetting a key forgets that one alone.
pub proof fn a_tile_is_what_was_asked_for(
    atlas: AtlasView,
    key: u64,
    other: u64,
    kind: AtlasTextureKind,
    size: DeviceSize,
)
    requires
        other != key,
    ensures
        ({
            let tile = atlas.inserted(key, kind, size).tiles[key];
            &&& atlas.inserted(key, kind, size).tiles.contains_key(key)
            &&& tile == atlas.next_tile(kind, size)
            &&& tile.texture_kind == kind
            &&& tile.size == size
            &&& tile.padding == 0
            &&& tile.origin.width == 0 && tile.origin.height == 0
        }),
        atlas.inserted(key, kind, size).tiles.contains_key(other) == atlas.tiles.contains_key(other),
        atlas.inserted(key, kind, size).tiles[other] == atlas.tiles[other],
        !atlas.removed(key).tiles.contains_key(key),
        atlas.removed(key).tiles.contains_key(other) == atlas.tiles.contains_key(other),
        atlas.removed(key).tiles[other] == atlas.tiles[other],
        atlas.removed(key).next_id == atlas.next_id,
{
}

/// A new tile takes the two numbers behind the last that was given out: the first is its
/// texture's and the second its own.
pub proof fn a_tile_takes_the_next_two_numbers(
    atlas: AtlasView,
    kind: AtlasTextureKind,
    size: DeviceSize,
    key: u64,
)
    requires
        atlas.next_id + 2 <= u32::MAX,
    ensures
        atlas.next_tile(kind, size).texture_index == atlas.next_id + 1,
        atlas.next_tile(kind, size).tile_id == atlas.next_id + 2,
        atlas.inserted(key, kind, size).next_id == atlas.next_tile(kind, size).tile_id,
{
}

} // verus!
