//! Light layers of loaded chunks and the light at a position.

use std::collections::HashMap;

use vstd::prelude::*;

use crate::number::{block_coordinate, floor_block_coordinate, Vec3Value};

verus! {

broadcast use vstd::std_specs::hash::group_hash_axioms;

/// How many light values one section layer holds.
pub const LAYER_LEN: usize = 4096;

/// How many bytes a layer takes in a packet: two values to a byte.
pub const PACKED_LAYER_LEN: usize = 2048;

/// The stack of light sections of a world.
#[derive(Clone, Copy, Debug, PartialEq, Eq, Structural)]
pub struct LightSectionGeometry {
    pub min_light_section: i32,
    pub light_section_count: usize,
}

impl LightSectionGeometry {
    /// Heights from which a stack of sections can be built.
    pub open spec fn buildable(min_y: i32, height: u32) -> bool {
        height != 0 && height % 16 == 0 && (min_y as int) % 16 == 0
    }

    /// The light sections of a world: one below and one above the blocks.
    pub fn from_world(min_y: i32, height: u32) -> (r: Option<LightSectionGeometry>)
        ensures
            r is Some <==> Self::buildable(min_y, height),
            r matches Some(g) ==> g.min_light_section == (min_y as int) / 16 - 1
                && g.light_section_count == height / 16 + 2,
    {
        let section: i32 = floor_div_16(min_y);
        if height == 0 || height % 16 != 0 || floor_mod_16(min_y) != 0 {
            return None;
        }
        Some(
            LightSectionGeometry {
                min_light_section: section - 1,
                light_section_count: (height / 16 + 2) as usize,
            },
        )
    }

    pub open spec fn section_index(self, section_y: int) -> Option<int> {
        let index = section_y - self.min_light_section;
        if 0 <= index < self.light_section_count {
            Some(index)
        } else {
            None
        }
    }

    /// The place of a section in the stack.
    pub fn index_for_section_y(&self, section_y: i32) -> (index: Option<usize>)
        ensures
            index is Some <==> self.section_index(section_y as int) is Some,
            index matches Some(i) ==> Some(i as int) == self.section_index(section_y as int),
    {
        let index: i64 = section_y as i64 - self.min_light_section as i64;
        if index < 0 || index as u64 >= self.light_section_count as u64 {
            None
        } else {
            Some(index as usize)
        }
    }
}

/// Division by sixteen, rounded down.
pub fn floor_div_16(v: i32) -> (q: i32)
    ensures
        q == v as int / 16,
{
    let shifted: i64 = v as i64 + 2147483648;
    (shifted / 16 - 134217728) as i32
}

/// The remainder that goes with it, never negative.
pub fn floor_mod_16(v: i32) -> (r: usize)
    ensures
        r == v as int % 16,
        r < 16,
{
    let shifted: i64 = v as i64 + 2147483648;
    proof {
        vstd::arithmetic::div_mod::lemma_mod_multiples_vanish(134217728, v as int, 16);
    }
    (shifted % 16) as usize
}

/// The value at `index` of a packed layer: the low half of a byte comes first.
pub open spec fn nibble(bytes: Seq<u8>, index: int) -> u8 {
    if index % 2 == 0 {
        bytes[index / 2] % 16
    } else {
        bytes[index / 2] / 16
    }
}

/// A packed layer, unpacked; a packet of the wrong length has none.
pub open spec fn decoded_layer(bytes: Seq<u8>) -> Option<Seq<u8>> {
    if bytes.len() == PACKED_LAYER_LEN {
        Some(Seq::new(LAYER_LEN as nat, |i: int| nibble(bytes, i)))
    } else {
        None
    }
}

/// A layer without light.
pub open spec fn dark_layer() -> Seq<u8> {
    Seq::new(LAYER_LEN as nat, |i: int| 0u8)
}

fn zero_light_layer() -> (layer: Vec<u8>)
    ensures
        layer@ == dark_layer(),
{
    let mut layer: Vec<u8> = Vec::new();
    let mut i: usize = 0;
    while i < LAYER_LEN
        invariant
            i <= LAYER_LEN,
            layer@.len() == i,
            forall|k: int| 0 <= k < i ==> layer@[k] == 0u8,
        decreases LAYER_LEN - i,
    {
        layer.push(0);
        i = i + 1;
    }
    assert(layer@ =~= dark_layer());
    layer
}

/// Unpacks one layer of a light packet.
pub fn decode_light_layer(bytes: &Vec<u8>) -> (layer: Option<Vec<u8>>)
    ensures
        layer is Some <==> decoded_layer(bytes@) is Some,
        layer matches Some(l) ==> Some(l@) == decoded_layer(bytes@),
{
    if bytes.len() != PACKED_LAYER_LEN {
        return None;
    }
    let mut layer: Vec<u8> = Vec::new();
    let mut i: usize = 0;
    while i < LAYER_LEN
        invariant
            i <= LAYER_LEN,
            bytes@.len() == PACKED_LAYER_LEN,
            layer@.len() == i,
            forall|k: int| 0 <= k < i ==> layer@[k] == nibble(bytes@, k),
        decreases LAYER_LEN - i,
    {
        let packed: u8 = bytes[i / 2];
        if i % 2 == 0 {
            layer.push(packed % 16);
        } else {
            layer.push(packed / 16);
        }
        i = i + 1;
    }
    assert(layer@ =~= Seq::new(LAYER_LEN as nat, |i: int| nibble(bytes@, i)));
    Some(layer)
}

/// Every unpacked light value is between zero and fifteen.
pub proof fn law_decoded_light_is_in_range(bytes: Seq<u8>, index: int)
    requires
        bytes.len() == PACKED_LAYER_LEN,
        0 <= index < LAYER_LEN,
    ensures
        decoded_layer(bytes) matches Some(layer) && layer[index] <= 15,
{
}

/// Unpacking loses nothing: two packed layers with the same values are the same.
pub proof fn law_decoding_is_injective(a: Seq<u8>, b: Seq<u8>)
    requires
        a.len() == PACKED_LAYER_LEN,
        b.len() == PACKED_LAYER_LEN,
        decoded_layer(a) == decoded_layer(b),
    ensures
        a == b,
{
    let x = decoded_layer(a)->0;
    let y = decoded_layer(b)->0;
    assert forall|i: int| 0 <= i < PACKED_LAYER_LEN implies a[i] == b[i] by {
        assert(x[2 * i] == nibble(a, 2 * i) && y[2 * i] == nibble(b, 2 * i));
        assert(x[2 * i + 1] == nibble(a, 2 * i + 1) && y[2 * i + 1] == nibble(b, 2 * i + 1));
        assert(x[2 * i] == y[2 * i]);
        assert(x[2 * i + 1] == y[2 * i + 1]);
        assert((2 * i) / 2 == i && (2 * i) % 2 == 0);
        assert((2 * i + 1) / 2 == i && (2 * i + 1) % 2 == 1);
        assert(a[i] % 16 == b[i] % 16);
        assert(a[i] / 16 == b[i] / 16);
        assert(a[i] == 16 * (a[i] / 16) + a[i] % 16);
        assert(b[i] == 16 * (b[i] / 16) + b[i] % 16);
    }
    assert(a =~= b);
}

/// How many bits are set below a position.
pub open spec fn rank(mask: Seq<bool>, position: int) -> int
    decreases position,
{
    if position <= 0 {
        0
    } else {
        rank(mask, position - 1) + (if mask[position - 1] {
            1int
        } else {
            0int
        })
    }
}

/// The bit at a position; beyond the end no bit is set.
pub open spec fn bit(mask: Seq<bool>, position: int) -> bool {
    0 <= position < mask.len() && mask[position]
}

pub type LayerView = Option<Seq<u8>>;

/// The layer that a packet leaves in one section.
pub open spec fn layer_after(
    before: LayerView,
    section: int,
    data_mask: Seq<bool>,
    empty_mask: Seq<bool>,
    updates: Seq<Seq<u8>>,
    force_zero: bool,
) -> LayerView {
    if bit(data_mask, section) {
        if force_zero {
            Some(dark_layer())
        } else if rank(data_mask, section) < updates.len() {
            decoded_layer(updates[rank(data_mask, section)])
        } else {
            None
        }
    } else if bit(empty_mask, section) {
        Some(dark_layer())
    } else {
        before
    }
}

/// The layers of one kind of light, as values.
pub open spec fn layers_view(layers: Seq<Option<Vec<u8>>>) -> Seq<LayerView> {
    Seq::new(
        layers.len(),
        |i: int|
            match layers[i] {
                Some(layer) => Some(layer@),
                None => None,
            },
    )
}

pub open spec fn bytes_view(updates: Seq<Vec<u8>>) -> Seq<Seq<u8>> {
    Seq::new(updates.len(), |i: int| updates[i]@)
}

pub open spec fn layers_after(
    before: Seq<LayerView>,
    data_mask: Seq<bool>,
    empty_mask: Seq<bool>,
    updates: Seq<Seq<u8>>,
    force_zero: bool,
) -> Seq<LayerView> {
    Seq::new(
        before.len(),
        |i: int| layer_after(before[i], i, data_mask, empty_mask, updates, force_zero),
    )
}

fn layer_for(updates: &Vec<Vec<u8>>, index: usize, force_zero: bool) -> (layer: Option<Vec<u8>>)
    ensures
        (match layer {
            Some(l) => Some(l@),
            None => None,
        }) == (if force_zero {
            Some(dark_layer())
        } else if index < updates@.len() {
            decoded_layer(updates@[index as int]@)
        } else {
            None
        }),
{
    if force_zero {
        Some(zero_light_layer())
    } else if index < updates.len() {
        decode_light_layer(&updates[index])
    } else {
        None
    }
}

proof fn lemma_rank_bound(mask: Seq<bool>, position: int)
    requires
        0 <= position <= mask.len(),
    ensures
        0 <= rank(mask, position) <= position,
    decreases position,
{
    if position > 0 {
        lemma_rank_bound(mask, position - 1);
    }
}

/// Applies one packet's masks and updates to the layers of a chunk.
fn apply_light_layer_mask(
    layers: &mut Vec<Option<Vec<u8>>>,
    data_mask: &Vec<bool>,
    empty_mask: &Vec<bool>,
    updates: &Vec<Vec<u8>>,
    force_zero: bool,
)
    ensures
        layers_view(final(layers)@) == layers_after(
            layers_view(old(layers)@),
            data_mask@,
            empty_mask@,
            bytes_view(updates@),
            force_zero,
        ),
{
    let ghost before = layers_view(layers@);
    let ghost views = bytes_view(updates@);
    let ghost goal = layers_after(before, data_mask@, empty_mask@, views, force_zero);
    let count: usize = layers.len();
    let mut update_index: usize = 0;
    let mut section: usize = 0;
    while section < count
        invariant
            section <= count,
            count == layers@.len(),
            before.len() == count,
            views == bytes_view(updates@),
            update_index == rank(
                data_mask@,
                if section <= data_mask@.len() {
                    section as int
                } else {
                    data_mask@.len() as int
                },
            ),
            update_index <= section,
            forall|k: int|
                0 <= k < section ==> #[trigger] layers_view(layers@)[k] == layer_after(
                    before[k],
                    k,
                    data_mask@,
                    empty_mask@,
                    views,
                    force_zero,
                ),
            forall|k: int| section <= k < count ==> #[trigger] layers_view(layers@)[k] == before[k],
        decreases count - section,
    {
        let ghost held = layers@;
        if section < data_mask.len() && data_mask[section] {
            let layer = layer_for(updates, update_index, force_zero);
            layers.set(section, layer);
            update_index = update_index + 1;
        } else if section < empty_mask.len() && empty_mask[section] {
            layers.set(section, Some(zero_light_layer()));
        }
        assert forall|k: int| 0 <= k < count && k != section implies #[trigger] layers_view(
            layers@,
        )[k] == layers_view(held)[k] by {}
        section = section + 1;
    }
    assert(layers_view(layers@) =~= goal);
}

/// The light data of one packet.
#[derive(Debug, PartialEq, Eq)]
pub struct LightUpdateData {
    pub sky_mask: Vec<bool>,
    pub empty_sky_mask: Vec<bool>,
    pub sky_updates: Vec<Vec<u8>>,
    pub block_mask: Vec<bool>,
    pub empty_block_mask: Vec<bool>,
    pub block_updates: Vec<Vec<u8>>,
}

/// The light layers of one chunk.
#[derive(Debug, PartialEq, Eq)]
pub struct CachedLightChunk {
    pub sky: Vec<Option<Vec<u8>>>,
    pub block: Vec<Option<Vec<u8>>>,
}

/// The light layers of one chunk, as values.
#[verifier::ext_equal]
pub ghost struct ChunkLight {
    pub sky: Seq<LayerView>,
    pub block: Seq<LayerView>,
}

impl View for CachedLightChunk {
    type V = ChunkLight;

    open spec fn view(&self) -> ChunkLight {
        ChunkLight { sky: layers_view(self.sky@), block: layers_view(self.block@) }
    }
}

impl ChunkLight {
    /// A chunk of which no light is known.
    pub open spec fn unknown(count: nat) -> ChunkLight {
        ChunkLight {
            sky: Seq::new(count, |i: int| None),
            block: Seq::new(count, |i: int| None),
        }
    }
}

fn unknown_layers(count: usize) -> (layers: Vec<Option<Vec<u8>>>)
    ensures
        layers_view(layers@) == Seq::new(count as nat, |i: int| None::<Seq<u8>>),
{
    let mut layers: Vec<Option<Vec<u8>>> = Vec::new();
    let mut i: usize = 0;
    while i < count
        invariant
            i <= count,
            layers@.len() == i,
            forall|k: int| 0 <= k < i ==> layers@[k] is None,
        decreases count - i,
    {
        layers.push(None);
        i = i + 1;
    }
    assert(layers_view(layers@) =~= Seq::new(count as nat, |i: int| None::<Seq<u8>>));
    layers
}

/// The scope that cached light belongs to.
#[derive(Debug, PartialEq, Eq)]
pub struct LightCacheContext {
    pub epoch: u64,
    pub scope_generation: u64,
    pub dimension: String,
    pub has_skylight: Option<bool>,
    pub geometry: Option<LightSectionGeometry>,
}

/// One number for the coordinates of a chunk.
pub open spec fn chunk_key(x: int, z: int) -> i64 {
    (x * 0x1_0000_0000 + z + 0x8000_0000) as i64
}

/// Different chunks have different numbers.
pub proof fn law_chunk_keys_are_unique(x: i32, z: i32, other_x: i32, other_z: i32)
    requires
        chunk_key(x as int, z as int) == chunk_key(other_x as int, other_z as int),
    ensures
        x == other_x,
        z == other_z,
{
}

fn chunk_number(x: i32, z: i32) -> (key: i64)
    ensures
        key == chunk_key(x as int, z as int),
{
    (x as i64) * 0x1_0000_0000 + (z as i64 + 0x8000_0000)
}

/// The cached light as a value.
#[verifier::ext_equal]
pub ghost struct LightView {
    pub context: Option<LightCacheContext>,
    pub chunks: Map<i64, ChunkLight>,
}

impl LightView {
    pub open spec fn empty() -> LightView {
        LightView { context: None, chunks: Map::empty() }
    }

    /// The context is of this scope and dimension.
    pub open spec fn context_is(
        context: LightCacheContext,
        epoch: u64,
        scope_generation: u64,
        dimension: Seq<char>,
    ) -> bool {
        context.epoch == epoch && context.scope_generation == scope_generation
            && context.dimension@ == dimension
    }

    pub open spec fn in_context(
        self,
        epoch: u64,
        scope_generation: u64,
        dimension: Seq<char>,
    ) -> bool {
        self.context matches Some(context) && Self::context_is(
            context,
            epoch,
            scope_generation,
            dimension,
        )
    }

    /// A new scope: its context is known once its dimension is.
    pub open spec fn scoped(
        epoch: u64,
        scope_generation: u64,
        dimension: Option<String>,
        has_skylight: Option<bool>,
    ) -> LightView {
        LightView {
            context: match dimension {
                Some(dimension) => Some(
                    LightCacheContext {
                        epoch,
                        scope_generation,
                        dimension,
                        has_skylight,
                        geometry: None,
                    },
                ),
                None => None,
            },
            chunks: Map::empty(),
        }
    }

    /// A packet fits the context: same scope and dimension, same proof of
    /// skylight, and no other geometry.
    pub open spec fn accepts(
        self,
        epoch: u64,
        scope_generation: u64,
        dimension: String,
        has_skylight: Option<bool>,
        geometry: LightSectionGeometry,
    ) -> bool {
        match self.context {
            None => true,
            Some(context) => Self::context_is(context, epoch, scope_generation, dimension@)
                && context.has_skylight == has_skylight && (context.geometry is None
                || context.geometry == Some(geometry)),
        }
    }

    /// The context after a packet that fits.
    pub open spec fn context_after(
        self,
        epoch: u64,
        scope_generation: u64,
        dimension: String,
        has_skylight: Option<bool>,
        geometry: LightSectionGeometry,
    ) -> LightCacheContext {
        match self.context {
            None => LightCacheContext {
                epoch,
                scope_generation,
                dimension,
                has_skylight,
                geometry: Some(geometry),
            },
            Some(context) => LightCacheContext { geometry: Some(geometry), ..context },
        }
    }

    /// The chunk that a packet starts from: the cached one, unless the packet
    /// replaces it or it has another height.
    pub open spec fn base_chunk(self, key: i64, count: nat, replace_chunk: bool) -> ChunkLight {
        if !replace_chunk && self.chunks.contains_key(key) && self.chunks[key].sky.len() == count
            && self.chunks[key].block.len() == count {
            self.chunks[key]
        } else {
            ChunkLight::unknown(count)
        }
    }

    /// The cache after a packet that fits.
    pub open spec fn applied(
        self,
        context: LightCacheContext,
        key: i64,
        geometry: LightSectionGeometry,
        data: LightUpdateData,
        has_skylight: Option<bool>,
        replace_chunk: bool,
    ) -> LightView {
        let base = self.base_chunk(key, geometry.light_section_count as nat, replace_chunk);
        LightView {
            context: Some(context),
            chunks: self.chunks.insert(
                key,
                ChunkLight {
                    sky: layers_after(
                        base.sky,
                        data.sky_mask@,
                        data.empty_sky_mask@,
                        bytes_view(data.sky_updates@),
                        has_skylight == Some(false),
                    ),
                    block: layers_after(
                        base.block,
                        data.block_mask@,
                        data.empty_block_mask@,
                        bytes_view(data.block_updates@),
                        false,
                    ),
                },
            ),
        }
    }

    /// One layer value, if the layer is known.
    pub open spec fn layer_value(
        layers: Seq<LayerView>,
        section: int,
        index: int,
    ) -> Option<u8> {
        if section < layers.len() {
            match layers[section] {
                Some(layer) => if index < layer.len() {
                    Some(layer[index])
                } else {
                    None
                },
                None => None,
            }
        } else {
            None
        }
    }

    /// The brighter of two values; a full value decides alone.
    pub open spec fn combined(sky: Option<u8>, block: Option<u8>) -> Option<u8> {
        match (sky, block) {
            (Some(sky), Some(block)) => Some(
                if sky >= block {
                    sky
                } else {
                    block
                },
            ),
            (Some(sky), None) => if sky == 15 {
                Some(15u8)
            } else {
                None
            },
            (None, Some(block)) => if block == 15 {
                Some(15u8)
            } else {
                None
            },
            (None, None) => None,
        }
    }

    /// The light in one block of the scope.
    pub open spec fn block_light(self, x: int, y: int, z: int) -> Option<u8> {
        let context = self.context->0;
        match context.geometry {
            None => None,
            Some(geometry) => match geometry.section_index(y / 16) {
                None => None,
                Some(section) => {
                    let index = (y % 16) * 256 + (z % 16) * 16 + x % 16;
                    let key = chunk_key(x / 16, z / 16);
                    let known = self.chunks.contains_key(key);
                    let sky = if context.has_skylight == Some(false) {
                        Some(0u8)
                    } else if known {
                        Self::layer_value(self.chunks[key].sky, section, index)
                    } else {
                        None
                    };
                    let block = if known {
                        Self::layer_value(self.chunks[key].block, section, index)
                    } else {
                        None
                    };
                    Self::combined(sky, block)
                },
            },
        }
    }

    /// The light at a position, as far as the cache knows it.
    pub open spec fn value(
        self,
        position: Vec3Value,
        epoch: u64,
        scope_generation: u64,
        dimension: Seq<char>,
    ) -> Option<u8> {
        if !self.in_context(epoch, scope_generation, dimension) {
            None
        } else {
            match (
                block_coordinate(position.x),
                block_coordinate(position.y),
                block_coordinate(position.z),
            ) {
                (Some(x), Some(y), Some(z)) => self.block_light(x as int, y as int, z as int),
                _ => None,
            }
        }
    }
}

/// The light of the chunks that are loaded in one scope.
pub struct LightCache {
    pub context: Option<LightCacheContext>,
    pub chunks: HashMap<i64, CachedLightChunk>,
}

impl View for LightCache {
    type V = LightView;

    open spec fn view(&self) -> LightView {
        LightView {
            context: self.context,
            chunks: self.chunks@.map_values(|c: CachedLightChunk| c@),
        }
    }
}

fn layer_value_of(layers: &Vec<Option<Vec<u8>>>, section: usize, index: usize) -> (r: Option<u8>)
    ensures
        r == LightView::layer_value(layers_view(layers@), section as int, index as int),
{
    if section < layers.len() {
        match &layers[section] {
            Some(layer) => if index < layer.len() {
                Some(layer[index])
            } else {
                None
            },
            None => None,
        }
    } else {
        None
    }
}

fn combine(sky: Option<u8>, block: Option<u8>) -> (r: Option<u8>)
    ensures
        r == LightView::combined(sky, block),
{
    match (sky, block) {
        (Some(sky), Some(block)) => if sky >= block {
            Some(sky)
        } else {
            Some(block)
        },
        (Some(sky), None) => if sky == 15 {
            Some(15)
        } else {
            None
        },
        (None, Some(block)) => if block == 15 {
            Some(15)
        } else {
            None
        },
        (None, None) => None,
    }
}

impl LightCache {
    pub fn new() -> (cache: Self)
        ensures
            cache@ == LightView::empty(),
    {
        let cache = LightCache { context: None, chunks: HashMap::new() };
        assert(cache@ =~= LightView::empty());
        cache
    }

    /// Forgets everything, the scope included.
    pub fn clear(&mut self)
        ensures
            final(self)@ == LightView::empty(),
    {
        self.context = None;
        self.chunks.clear();
        assert(self@ =~= LightView::empty());
    }

    /// Starts a new scope.
    pub fn reset_scope(
        &mut self,
        epoch: u64,
        scope_generation: u64,
        dimension: Option<String>,
        has_skylight: Option<bool>,
    )
        ensures
            final(self)@ == LightView::scoped(epoch, scope_generation, dimension, has_skylight),
    {
        self.chunks.clear();
        self.context = match dimension {
            Some(dimension) => Some(
                LightCacheContext {
                    epoch,
                    scope_generation,
                    dimension,
                    has_skylight,
                    geometry: None,
                },
            ),
            None => None,
        };
        assert(self@ =~= LightView::scoped(epoch, scope_generation, dimension, has_skylight));
    }

    /// Tells whether the cache is of this scope and dimension.
    pub fn context_matches(
        &self,
        epoch: u64,
        scope_generation: u64,
        dimension: &String,
    ) -> (r: bool)
        ensures
            r == self@.in_context(epoch, scope_generation, dimension@),
    {
        match &self.context {
            Some(context) => context.epoch == epoch && context.scope_generation
                == scope_generation && context.dimension == *dimension,
            None => false,
        }
    }

    /// Whether the world of the scope is known to have skylight.
    pub fn has_skylight(&self) -> (r: Option<bool>)
        ensures
            r == (match self@.context {
                Some(context) => context.has_skylight,
                None => None,
            }),
    {
        match &self.context {
            Some(context) => context.has_skylight,
            None => None,
        }
    }

    /// Checks a packet against the scope and records its geometry.
    fn ensure_context(
        &mut self,
        epoch: u64,
        scope_generation: u64,
        dimension: String,
        has_skylight: Option<bool>,
        geometry: LightSectionGeometry,
    ) -> (fits: bool)
        ensures
            fits == old(self)@.accepts(epoch, scope_generation, dimension, has_skylight, geometry),
            !fits ==> final(self)@ == old(self)@,
            fits ==> final(self)@ == (LightView {
                context: Some(
                    old(self)@.context_after(
                        epoch,
                        scope_generation,
                        dimension,
                        has_skylight,
                        geometry,
                    ),
                ),
                ..old(self)@
            }),
    {
        match self.context.take() {
            None => {
                self.context = Some(
                    LightCacheContext {
                        epoch,
                        scope_generation,
                        dimension,
                        has_skylight,
                        geometry: Some(geometry),
                    },
                );
                true
            },
            Some(mut context) => {
                let same_scope = context.epoch == epoch && context.scope_generation
                    == scope_generation && context.dimension == dimension;
                let same_geometry = match context.geometry {
                    Some(current) => current == geometry,
                    None => true,
                };
                let same_skylight = match (context.has_skylight, has_skylight) {
                    (Some(a), Some(b)) => a == b,
                    (None, None) => true,
                    _ => false,
                };
                let fits = same_scope && same_geometry && same_skylight;
                if fits {
                    context.geometry = Some(geometry);
                }
                self.context = Some(context);
                fits
            },
        }
    }

    /// Takes the light of one packet. A packet of another scope, dimension,
    /// skylight or geometry is refused and changes nothing.
    pub fn apply_packet(
        &mut self,
        epoch: u64,
        scope_generation: u64,
        dimension: String,
        has_skylight: Option<bool>,
        geometry: LightSectionGeometry,
        chunk_x: i32,
        chunk_z: i32,
        data: &LightUpdateData,
        replace_chunk: bool,
    ) -> (taken: bool)
        ensures
            taken == old(self)@.accepts(
                epoch,
                scope_generation,
                dimension,
                has_skylight,
                geometry,
            ),
            !taken ==> final(self)@ == old(self)@,
            taken ==> final(self)@ == old(self)@.applied(
                old(self)@.context_after(
                    epoch,
                    scope_generation,
                    dimension,
                    has_skylight,
                    geometry,
                ),
                chunk_key(chunk_x as int, chunk_z as int),
                geometry,
                *data,
                has_skylight,
                replace_chunk,
            ),
    {
        if !self.ensure_context(epoch, scope_generation, dimension, has_skylight, geometry) {
            return false;
        }
        let count: usize = geometry.light_section_count;
        let key: i64 = chunk_number(chunk_x, chunk_z);
        let ghost start = self@;
        let cached = self.chunks.remove(&key);
        let mut chunk = match cached {
            Some(chunk) => {
                if replace_chunk || chunk.sky.len() != count || chunk.block.len() != count {
                    CachedLightChunk { sky: unknown_layers(count), block: unknown_layers(count) }
                } else {
                    chunk
                }
            },
            None => CachedLightChunk { sky: unknown_layers(count), block: unknown_layers(count) },
        };
        assert(chunk@ =~= start.base_chunk(key, count as nat, replace_chunk));
        let force_zero = match has_skylight {
            Some(lit) => !lit,
            None => false,
        };
        let mut sky = chunk.sky;
        let mut block = chunk.block;
        apply_light_layer_mask(
            &mut sky,
            &data.sky_mask,
            &data.empty_sky_mask,
            &data.sky_updates,
            force_zero,
        );
        apply_light_layer_mask(
            &mut block,
            &data.block_mask,
            &data.empty_block_mask,
            &data.block_updates,
            false,
        );
        let updated = CachedLightChunk { sky, block };
        self.chunks.insert(key, updated);
        assert(self@.chunks =~= start.chunks.insert(key, updated@));
        true
    }

    /// Forgets one chunk of the scope.
    pub fn remove_chunk(
        &mut self,
        epoch: u64,
        scope_generation: u64,
        dimension: &String,
        chunk_x: i32,
        chunk_z: i32,
    ) -> (taken: bool)
        ensures
            taken == old(self)@.in_context(epoch, scope_generation, dimension@),
            !taken ==> final(self)@ == old(self)@,
            taken ==> final(self)@ == (LightView {
                chunks: old(self)@.chunks.remove(chunk_key(chunk_x as int, chunk_z as int)),
                ..old(self)@
            }),
    {
        if !self.context_matches(epoch, scope_generation, dimension) {
            return false;
        }
        let key: i64 = chunk_number(chunk_x, chunk_z);
        let _ = self.chunks.remove(&key);
        assert(self@.chunks =~= old(self)@.chunks.remove(key));
        true
    }

    /// The light at a position, as far as the cache knows it.
    pub fn value_at(
        &self,
        position: &Vec3Value,
        epoch: u64,
        scope_generation: u64,
        dimension: &String,
    ) -> (light: Option<u8>)
        ensures
            light == self@.value(*position, epoch, scope_generation, dimension@),
    {
        if !self.context_matches(epoch, scope_generation, dimension) {
            return None;
        }
        let x: i32 = match floor_block_coordinate(position.x) {
            Some(v) => v,
            None => {
                return None;
            },
        };
        let y: i32 = match floor_block_coordinate(position.y) {
            Some(v) => v,
            None => {
                return None;
            },
        };
        let z: i32 = match floor_block_coordinate(position.z) {
            Some(v) => v,
            None => {
                return None;
            },
        };
        match &self.context {
            None => None,
            Some(context) => match context.geometry {
                None => None,
                Some(geometry) => match geometry.index_for_section_y(floor_div_16(y)) {
                    None => None,
                    Some(section) => {
                        let index: usize = floor_mod_16(y) * 256 + floor_mod_16(z) * 16
                            + floor_mod_16(x);
                        let key: i64 = chunk_number(floor_div_16(x), floor_div_16(z));
                        let chunk = self.chunks.get(&key);
                        let dark = match context.has_skylight {
                            Some(lit) => !lit,
                            None => false,
                        };
                        let sky: Option<u8> = if dark {
                            Some(0)
                        } else {
                            match chunk {
                                Some(chunk) => layer_value_of(&chunk.sky, section, index),
                                None => None,
                            }
                        };
                        let block: Option<u8> = match chunk {
                            Some(chunk) => layer_value_of(&chunk.block, section, index),
                            None => None,
                        };
                        combine(sky, block)
                    },
                },
            },
        }
    }
}

/// Light is known only inside the scope it was cached for.
pub proof fn law_light_of_another_scope_is_unknown(
    cache: LightView,
    position: Vec3Value,
    epoch: u64,
    scope_generation: u64,
    dimension: Seq<char>,
)
    requires
        !cache.in_context(epoch, scope_generation, dimension),
    ensures
        cache.value(position, epoch, scope_generation, dimension) is None,
{
}

/// A new scope knows no light, except that it may know there is no skylight.
pub proof fn law_new_scope_knows_no_light(
    epoch: u64,
    scope_generation: u64,
    dimension: Option<String>,
    has_skylight: Option<bool>,
    position: Vec3Value,
    asked: Seq<char>,
)
    ensures
        LightView::scoped(epoch, scope_generation, dimension, has_skylight).value(
            position,
            epoch,
            scope_generation,
            asked,
        ) is None,
{
}

/// A packet for one chunk leaves every other chunk as it was.
pub proof fn law_packet_touches_one_chunk(
    cache: LightView,
    context: LightCacheContext,
    key: i64,
    other: i64,
    geometry: LightSectionGeometry,
    data: LightUpdateData,
    has_skylight: Option<bool>,
    replace_chunk: bool,
)
    requires
        key != other,
    ensures
        cache.applied(context, key, geometry, data, has_skylight, replace_chunk).chunks.contains_key(
            other,
        ) == cache.chunks.contains_key(other),
        cache.chunks.contains_key(other) ==> cache.applied(
            context,
            key,
            geometry,
            data,
            has_skylight,
            replace_chunk,
        ).chunks[other] == cache.chunks[other],
{
}

proof fn lemma_rank_counts(mask: Seq<bool>, position: int)
    requires
        0 <= position <= mask.len(),
    ensures
        rank(mask, position) == mask.take(position).filter(|set: bool| set).len(),
    decreases position,
{
    reveal(Seq::filter);
    if position > 0 {
        lemma_rank_counts(mask, position - 1);
        assert(mask.take(position).drop_last() =~= mask.take(position - 1));
        assert(mask.take(position).last() == mask[position - 1]);
    } else {
        assert(mask.take(0) =~= Seq::empty());
    }
}

/// A block of a section has its light in the packed bytes: the blocks of a
/// section follow one another from west to east, these rows from north to
/// south, and these layers upwards; the low half of a byte comes first.
pub open spec fn packed_light(bytes: Seq<u8>, x: int, y: int, z: int) -> int {
    let place = 256 * (y % 16) + 16 * (z % 16) + x % 16;
    if place % 2 == 0 {
        bytes[place / 2] as int % 16
    } else {
        bytes[place / 2] as int / 16
    }
}

/// The bytes of a section in a packet: they come for the marked sections only,
/// from the lowest one upwards.
pub open spec fn packed_section(mask: Seq<bool>, updates: Seq<Vec<u8>>, section: int) -> Seq<u8> {
    updates[mask.take(section).filter(|set: bool| set).len() as int]@
}

/// The packet brings the light of a section.
pub open spec fn brings_section(mask: Seq<bool>, updates: Seq<Vec<u8>>, section: int) -> bool {
    &&& 0 <= section < mask.len()
    &&& mask[section]
    &&& mask.take(section).filter(|set: bool| set).len() < updates.len()
    &&& packed_section(mask, updates, section).len() == 2048
}

proof fn lemma_brought_layer(
    before: Seq<LayerView>,
    section: int,
    mask: Seq<bool>,
    empty: Seq<bool>,
    updates: Seq<Vec<u8>>,
    x: int,
    y: int,
    z: int,
)
    requires
        0 <= section < before.len(),
        brings_section(mask, updates, section),
    ensures
        LightView::layer_value(
            layers_after(before, mask, empty, bytes_view(updates), false),
            section,
            (y % 16) * 256 + (z % 16) * 16 + x % 16,
        ) matches Some(light) && light == packed_light(
            packed_section(mask, updates, section),
            x,
            y,
            z,
        ),
{
    lemma_rank_counts(mask, section);
    let bytes = packed_section(mask, updates, section);
    assert(bytes_view(updates)[rank(mask, section)] == bytes);
    let place = (y % 16) * 256 + (z % 16) * 16 + x % 16;
    assert(0 <= place < 4096);
    let layer = decoded_layer(bytes)->0;
    assert(layer[place] == nibble(bytes, place));
}

/// What a packet says of a block is what is read there: the light of the block
/// is the greater of the two values that the packet's bytes hold for it.
pub proof fn law_light_is_read_as_it_was_sent(
    cache: LightView,
    epoch: u64,
    scope_generation: u64,
    dimension: String,
    has_skylight: Option<bool>,
    geometry: LightSectionGeometry,
    chunk_x: i32,
    chunk_z: i32,
    data: LightUpdateData,
    replace_chunk: bool,
    position: Vec3Value,
    x: i32,
    y: i32,
    z: i32,
)
    requires
        cache.accepts(epoch, scope_generation, dimension, has_skylight, geometry),
        block_coordinate(position.x) == Some(x),
        block_coordinate(position.y) == Some(y),
        block_coordinate(position.z) == Some(z),
        16 * chunk_x <= x < 16 * chunk_x + 16,
        16 * chunk_z <= z < 16 * chunk_z + 16,
        geometry.min_light_section <= y as int / 16 < geometry.min_light_section
            + geometry.light_section_count,
        brings_section(
            data.block_mask@,
            data.block_updates@,
            y as int / 16 - geometry.min_light_section,
        ),
        has_skylight != Some(false) ==> brings_section(
            data.sky_mask@,
            data.sky_updates@,
            y as int / 16 - geometry.min_light_section,
        ),
    ensures
        ({
            let section = y as int / 16 - geometry.min_light_section;
            let block = packed_light(
                packed_section(data.block_mask@, data.block_updates@, section),
                x as int,
                y as int,
                z as int,
            );
            let sky = if has_skylight == Some(false) {
                0
            } else {
                packed_light(
                    packed_section(data.sky_mask@, data.sky_updates@, section),
                    x as int,
                    y as int,
                    z as int,
                )
            };
            let context = cache.context_after(
                epoch,
                scope_generation,
                dimension,
                has_skylight,
                geometry,
            );
            let after = cache.applied(
                context,
                chunk_key(chunk_x as int, chunk_z as int),
                geometry,
                data,
                has_skylight,
                replace_chunk,
            );
            &&& after.value(position, epoch, scope_generation, dimension@) matches Some(light)
            &&& light >= block
            &&& light >= sky
            &&& light == block || light == sky
        }),
{
    let section = y as int / 16 - geometry.min_light_section;
    let key = chunk_key(chunk_x as int, chunk_z as int);
    let base = cache.base_chunk(key, geometry.light_section_count as nat, replace_chunk);
    assert(base.sky.len() == geometry.light_section_count);
    assert(base.block.len() == geometry.light_section_count);
    assert(x as int / 16 == chunk_x);
    assert(z as int / 16 == chunk_z);
    lemma_brought_layer(
        base.block,
        section,
        data.block_mask@,
        data.empty_block_mask@,
        data.block_updates@,
        x as int,
        y as int,
        z as int,
    );
    if has_skylight != Some(false) {
        lemma_brought_layer(
            base.sky,
            section,
            data.sky_mask@,
            data.empty_sky_mask@,
            data.sky_updates@,
            x as int,
            y as int,
            z as int,
        );
    }
}

/// A section that the packet marks as empty, and brings no bytes for, is dark
/// in that kind of light; one that it does not mention stays as it was.
pub proof fn law_unsent_sections_are_dark_or_stay(
    before: Seq<LayerView>,
    mask: Seq<bool>,
    empty: Seq<bool>,
    updates: Seq<Vec<u8>>,
    without_sky: bool,
    section: int,
    place: int,
)
    requires
        0 <= section < before.len(),
        0 <= place < 4096,
        section < mask.len() ==> !mask[section],
    ensures
        ({
            let after = layers_after(before, mask, empty, bytes_view(updates), without_sky);
            if section < empty.len() && empty[section] {
                LightView::layer_value(after, section, place) == Some(0u8)
            } else {
                after[section] == before[section]
            }
        }),
{
}

/// Light is told only where both kinds are known, unless the known kind is as
/// bright as light can be.
pub proof fn law_half_known_light_is_told_only_at_its_brightest(
    sky: Option<u8>,
    block: Option<u8>,
)
    ensures
        match (sky, block) {
            (Some(a), Some(b)) => LightView::combined(sky, block) matches Some(light) && light >= a
                && light >= b && (light == a || light == b),
            (Some(a), None) => LightView::combined(sky, block) == (if a == 15 {
                Some(15u8)
            } else {
                None
            }),
            (None, Some(b)) => LightView::combined(sky, block) == (if b == 15 {
                Some(15u8)
            } else {
                None
            }),
            (None, None) => LightView::combined(sky, block) is None,
        },
{
}

/// A chunk that was forgotten, or of which nothing came, has no light to tell.
pub proof fn law_forgotten_chunks_have_no_light(
    cache: LightView,
    position: Vec3Value,
    epoch: u64,
    scope_generation: u64,
    dimension: Seq<char>,
    chunk_x: i32,
    chunk_z: i32,
    x: i32,
    z: i32,
)
    requires
        block_coordinate(position.x) == Some(x),
        block_coordinate(position.z) == Some(z),
        16 * chunk_x <= x < 16 * chunk_x + 16,
        16 * chunk_z <= z < 16 * chunk_z + 16,
    ensures
        (LightView {
            chunks: cache.chunks.remove(chunk_key(chunk_x as int, chunk_z as int)),
            ..cache
        }).value(position, epoch, scope_generation, dimension) is None,
{
    assert(x as int / 16 == chunk_x);
    assert(z as int / 16 == chunk_z);
}

/// A packet is taken exactly if nothing is known yet, or if it is of the same
/// epoch, scope and dimension, proves the same of the sky, and fits the height
/// that is known; and then the scope is the packet's.
pub proof fn law_light_packets_have_to_fit(
    cache: LightView,
    epoch: u64,
    scope_generation: u64,
    dimension: String,
    has_skylight: Option<bool>,
    geometry: LightSectionGeometry,
)
    ensures
        cache.accepts(epoch, scope_generation, dimension, has_skylight, geometry) <==> (
        cache.context matches Some(known) ==> {
            &&& known.epoch == epoch
            &&& known.scope_generation == scope_generation
            &&& known.dimension@ == dimension@
            &&& known.has_skylight == has_skylight
            &&& (known.geometry matches Some(height) ==> height == geometry)
        }),
        cache.accepts(epoch, scope_generation, dimension, has_skylight, geometry) ==> {
            let after = cache.context_after(
                epoch,
                scope_generation,
                dimension,
                has_skylight,
                geometry,
            );
            &&& after.epoch == epoch
            &&& after.scope_generation == scope_generation
            &&& after.dimension@ == dimension@
            &&& after.has_skylight == has_skylight
            &&& after.geometry == Some(geometry)
        },
{
}

/// Light that comes with a chunk replaces all that was known of it: a section that
/// the packet does not mention is unknown from then on. So it is where the chunk
/// had another height. Light on its own leaves such a section as it was.
pub proof fn law_replaced_chunks_start_afresh(
    cache: LightView,
    context: LightCacheContext,
    key: i64,
    geometry: LightSectionGeometry,
    data: LightUpdateData,
    has_skylight: Option<bool>,
    replace_chunk: bool,
    section: int,
)
    requires
        0 <= section < geometry.light_section_count,
        section < data.block_mask@.len() ==> !data.block_mask@[section],
        section < data.empty_block_mask@.len() ==> !data.empty_block_mask@[section],
    ensures
        ({
            let after = cache.applied(
                context,
                key,
                geometry,
                data,
                has_skylight,
                replace_chunk,
            ).chunks[key];
            let count = geometry.light_section_count as nat;
            let kept = !replace_chunk && cache.chunks.contains_key(key)
                && cache.chunks[key].sky.len() == count && cache.chunks[key].block.len() == count;
            &&& after.sky.len() == count
            &&& after.block.len() == count
            &&& kept ==> after.block[section] == cache.chunks[key].block[section]
            &&& !kept ==> after.block[section] is None
        }),
{
}

/// Where there is no sky light, every section that comes with sky light is dark
/// under the sky.
pub proof fn law_without_skylight_the_sky_is_dark(
    cache: LightView,
    context: LightCacheContext,
    key: i64,
    geometry: LightSectionGeometry,
    data: LightUpdateData,
    replace_chunk: bool,
    section: int,
    index: int,
)
    requires
        0 <= section < geometry.light_section_count,
        section < data.sky_mask@.len() && data.sky_mask@[section],
        0 <= index < 4096,
    ensures
        ({
            let after = cache.applied(
                context,
                key,
                geometry,
                data,
                Some(false),
                replace_chunk,
            ).chunks[key];
            after.sky[section] matches Some(layer) && layer.len() == 4096 && layer[index] == 0
        }),
{
}

/// The sections of a world begin one below its lowest blocks; a section is found by
/// how many sections it is above that.
pub proof fn law_sections_are_counted_from_below(
    geometry: LightSectionGeometry,
    min_y: i32,
    height: u32,
    y: int,
)
    requires
        geometry.min_light_section == (min_y as int) / 16 - 1,
        geometry.light_section_count == height / 16 + 2,
        min_y as int % 16 == 0,
        height % 16 == 0,
    ensures
        geometry.section_index(y / 16) is Some <==> min_y - 16 <= y && y < min_y + height + 16,
        geometry.section_index(y / 16) matches Some(section) ==> min_y - 16 + 16 * section <= y
            && y < min_y + 16 * section,
        LightSectionGeometry::buildable(min_y, height) <==> height > 0,
{
}

} // verus!
