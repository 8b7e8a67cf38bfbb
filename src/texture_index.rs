//! Identities of source textures and the map from them to section indices.
use vstd::prelude::*;

verus! {

/// An opaque identity of a texture owned elsewhere: a slot in an outside
/// resource table and the generation of that slot.
#[derive(Clone, Copy, Debug, PartialEq, Eq, Hash, Structural)]
pub struct TextureId {
    pub index: u32,
    pub generation: u32,
}

impl TextureId {
    pub fn new(index: u32, generation: u32) -> (r: TextureId)
        ensures
            r.index == index,
            r.generation == generation,
    {
        TextureId { index, generation }
    }

    /// The key under which this identity is stored in a `TextureIndexMap`.
    pub open spec fn key(self) -> (u32, u32) {
        (self.index, self.generation)
    }
}

/// A map from texture identities to section indices, held in a
/// `bevy_utils::HashMap`.
#[verifier::external_body]
#[derive(Debug)]
pub struct TextureIndexMap {
    handles: bevy_utils::HashMap<(u32, u32), usize>,
}

/// What a `TextureIndexMap` holds: each key with its section index.
pub uninterp spec fn index_map_contents(m: TextureIndexMap) -> Map<(u32, u32), usize>;

impl View for TextureIndexMap {
    type V = Map<(u32, u32), usize>;

    open spec fn view(&self) -> Map<(u32, u32), usize> {
        index_map_contents(*self)
    }
}

/// Relies on `bevy_utils::HashMap::default` (hashbrown's `HashMap::default`):
/// a new map holds no entries.
#[verifier::external_body]
fn empty_index_map() -> (r: TextureIndexMap)
    ensures
        index_map_contents(r) =~= Map::empty(),
{
    TextureIndexMap { handles: bevy_utils::HashMap::default() }
}

/// Relies on hashbrown's `HashMap::insert`: afterwards the key maps to the
/// given value and every other entry is unchanged.
#[verifier::external_body]
fn index_map_insert(m: &mut TextureIndexMap, key: (u32, u32), value: usize)
    ensures
        index_map_contents(*final(m)) == index_map_contents(*old(m)).insert(key, value),
{
    m.handles.insert(key, value);
}

/// Relies on hashbrown's `HashMap::get`: the value stored under the key, or
/// `None` where the key is absent.
#[verifier::external_body]
fn index_map_get(m: &TextureIndexMap, key: (u32, u32)) -> (r: Option<usize>)
    ensures
        r == (if index_map_contents(*m).contains_key(key) {
            Some(index_map_contents(*m)[key])
        } else {
            None
        }),
{
    m.handles.get(&key).copied()
}

impl TextureIndexMap {
    /// A map with no entries.
    pub fn new() -> (r: TextureIndexMap)
        ensures
            r@ =~= Map::empty(),
    {
        empty_index_map()
    }

    /// Records that `texture` corresponds to the section at `index`,
    /// replacing what was recorded for it before.
    pub fn insert(&mut self, texture: TextureId, index: usize)
        ensures
            final(self)@ == old(self)@.insert(texture.key(), index),
    {
        index_map_insert(self, (texture.index, texture.generation), index);
    }

    /// The section index recorded for `texture`, if any.
    pub fn get(&self, texture: &TextureId) -> (r: Option<usize>)
        ensures
            r == (if self@.contains_key(texture.key()) {
                Some(self@[texture.key()])
            } else {
                None
            }),
    {
        index_map_get(self, (texture.index, texture.generation))
    }
}

} // verus!
