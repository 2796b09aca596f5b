//! Drawable sprite instances and the growable instance buffer.
//!
//! A sprite is a fixed-layout record of sixteen 32-bit words; the GPU reads
//! the same layout from a storage buffer, so the byte image produced here
//! must match the record word for word. Scalar fields that the GPU
//! interprets as single-precision numbers are carried as their 32-bit
//! patterns: the renderer never computes with them, it only stores and
//! uploads them.

use vstd::prelude::*;
use vstd::bytes::lemma_auto_spec_u32_to_from_le_bytes;
use vstd::bytes::spec_u32_from_le_bytes;
use vstd::bytes::spec_u32_to_le_bytes;
use vstd::bytes::u32_to_le_bytes;
use vstd::bytes::u32_from_le_bytes;
use vstd::slice::slice_subrange;

verus! {

/// Bit pattern of the single-precision value zero.
pub const F32_ZERO_BITS: u32 = 0x0000_0000;

/// Bit pattern of the single-precision value one.
pub const F32_ONE_BITS: u32 = 0x3F80_0000;

/// Bit pattern of the single-precision value thirty-two, the default
/// sprite scale in pixels.
pub const F32_THIRTY_TWO_BITS: u32 = 0x4200_0000;

/// Bytes one sprite record occupies: sixteen 32-bit words.
pub const SPRITE_BYTES: usize = 64;

/// A three-component vector, each component a 32-bit word.
#[derive(Clone, Copy, PartialEq, Eq, Structural, Debug)]
pub struct Vec3Bits {
    pub x: u32,
    pub y: u32,
    pub z: u32,
}

/// A two-component vector, each component a 32-bit word.
#[derive(Clone, Copy, PartialEq, Eq, Structural, Debug)]
pub struct Vec2Bits {
    pub x: u32,
    pub y: u32,
}

/// A sprite's colour, one 32-bit word per channel.
#[derive(Clone, Copy, PartialEq, Eq, Structural, Debug)]
pub struct ColorRgba {
    pub r: u32,
    pub g: u32,
    pub b: u32,
    pub a: u32,
}

/// The rectangle of the texture atlas a sprite samples from.
#[derive(Clone, Copy, PartialEq, Eq, Structural, Debug)]
pub struct Texture {
    pub u: u32,
    pub v: u32,
    pub w: u32,
    pub h: u32,
}

/// Per-entity draw data, laid out exactly as the GPU-side record:
/// position, rotation, scale, two words of alignment padding, texture
/// rectangle and colour.
#[derive(Clone, Copy, PartialEq, Eq, Structural, Debug)]
pub struct Sprite {
    pub position: Vec3Bits,
    pub rotation: u32,
    pub scale: Vec2Bits,
    pub padding: Vec2Bits,
    pub texture: Texture,
    pub color: ColorRgba,
}

/// The sixteen words of a sprite record, in layout order.
pub open spec fn spec_sprite_words(s: Sprite) -> Seq<u32> {
    seq![
        s.position.x,
        s.position.y,
        s.position.z,
        s.rotation,
        s.scale.x,
        s.scale.y,
        s.padding.x,
        s.padding.y,
        s.texture.u,
        s.texture.v,
        s.texture.w,
        s.texture.h,
        s.color.r,
        s.color.g,
        s.color.b,
        s.color.a,
    ]
}

/// Little-endian byte image of a word sequence.
pub open spec fn spec_words_bytes(ws: Seq<u32>) -> Seq<u8>
    decreases ws.len(),
{
    if ws.len() == 0 {
        Seq::empty()
    } else {
        spec_u32_to_le_bytes(ws[0]) + spec_words_bytes(ws.drop_first())
    }
}

/// Byte image of one sprite record.
pub open spec fn spec_sprite_bytes(s: Sprite) -> Seq<u8> {
    spec_words_bytes(spec_sprite_words(s))
}

/// The sprite a 64-byte image decodes to.
pub open spec fn spec_sprite_from_bytes(b: Seq<u8>) -> Sprite {
    let w = Seq::new(16, |i: int| spec_u32_from_le_bytes(b.subrange(4 * i, 4 * i + 4)));
    Sprite {
        position: Vec3Bits { x: w[0], y: w[1], z: w[2] },
        rotation: w[3],
        scale: Vec2Bits { x: w[4], y: w[5] },
        padding: Vec2Bits { x: w[6], y: w[7] },
        texture: Texture { u: w[8], v: w[9], w: w[10], h: w[11] },
        color: ColorRgba { r: w[12], g: w[13], b: w[14], a: w[15] },
    }
}

pub proof fn lemma_words_bytes_len(ws: Seq<u32>)
    ensures
        spec_words_bytes(ws).len() == 4 * ws.len(),
    decreases ws.len(),
{
    lemma_auto_spec_u32_to_from_le_bytes();
    if ws.len() > 0 {
        lemma_words_bytes_len(ws.drop_first());
    }
}

pub proof fn lemma_words_bytes_index(ws: Seq<u32>, i: int)
    requires
        0 <= i < ws.len(),
    ensures
        spec_words_bytes(ws).subrange(4 * i, 4 * i + 4) == spec_u32_to_le_bytes(ws[i]),
    decreases ws.len(),
{
    lemma_auto_spec_u32_to_from_le_bytes();
    lemma_words_bytes_len(ws.drop_first());
    if i == 0 {
        assert(spec_words_bytes(ws).subrange(0, 4) =~= spec_u32_to_le_bytes(ws[0]));
    } else {
        lemma_words_bytes_index(ws.drop_first(), i - 1);
        assert(spec_words_bytes(ws).subrange(4 * i, 4 * i + 4) =~= spec_words_bytes(
            ws.drop_first(),
        ).subrange(4 * (i - 1), 4 * (i - 1) + 4));
    }
}

pub proof fn lemma_words_bytes_push(ws: Seq<u32>, x: u32)
    ensures
        spec_words_bytes(ws.push(x)) == spec_words_bytes(ws) + spec_u32_to_le_bytes(x),
    decreases ws.len(),
{
    if ws.len() == 0 {
        assert(ws.push(x).drop_first() =~= Seq::<u32>::empty());
        assert(spec_words_bytes(Seq::<u32>::empty()) == Seq::<u8>::empty());
        assert(ws.push(x)[0] == x);
        assert(spec_words_bytes(ws.push(x)) == spec_u32_to_le_bytes(x) + Seq::<u8>::empty());
        assert(spec_words_bytes(ws.push(x)) =~= spec_words_bytes(ws) + spec_u32_to_le_bytes(x));
    } else {
        assert(ws.push(x).drop_first() =~= ws.drop_first().push(x));
        lemma_words_bytes_push(ws.drop_first(), x);
        assert(ws.push(x)[0] == ws[0]);
        assert(spec_words_bytes(ws.push(x)) == spec_u32_to_le_bytes(ws[0]) + (spec_words_bytes(
            ws.drop_first(),
        ) + spec_u32_to_le_bytes(x)));
        assert(spec_words_bytes(ws.push(x)) =~= spec_words_bytes(ws) + spec_u32_to_le_bytes(x));
    }
}

/// A sprite's byte image decodes back to the sprite: the record survives
/// the trip into GPU-visible memory unchanged.
pub proof fn lemma_sprite_bytes_round_trip(s: Sprite)
    ensures
        spec_sprite_bytes(s).len() == SPRITE_BYTES,
        spec_sprite_from_bytes(spec_sprite_bytes(s)) == s,
{
    let ws = spec_sprite_words(s);
    lemma_words_bytes_len(ws);
    lemma_auto_spec_u32_to_from_le_bytes();
    assert forall|i: int| 0 <= i < 16 implies spec_u32_from_le_bytes(
        spec_sprite_bytes(s).subrange(4 * i, 4 * i + 4),
    ) == ws[i] by {
        lemma_words_bytes_index(ws, i);
        assert(spec_u32_to_le_bytes(ws[i]).len() == 4);
        assert(spec_u32_from_le_bytes(spec_u32_to_le_bytes(ws[i])) == ws[i]);
    }
}

/// The sixteen words of a sprite, in layout order.
fn sprite_words(s: &Sprite) -> (ws: Vec<u32>)
    ensures
        ws@ == spec_sprite_words(*s),
{
    let mut ws: Vec<u32> = Vec::new();
    ws.push(s.position.x);
    ws.push(s.position.y);
    ws.push(s.position.z);
    ws.push(s.rotation);
    ws.push(s.scale.x);
    ws.push(s.scale.y);
    ws.push(s.padding.x);
    ws.push(s.padding.y);
    ws.push(s.texture.u);
    ws.push(s.texture.v);
    ws.push(s.texture.w);
    ws.push(s.texture.h);
    ws.push(s.color.r);
    ws.push(s.color.g);
    ws.push(s.color.b);
    ws.push(s.color.a);
    proof {
        assert(ws@ =~= spec_sprite_words(*s));
    }
    ws
}

/// Appends the little-endian image of the words to `out`.
fn push_words_bytes(out: &mut Vec<u8>, ws: &Vec<u32>)
    ensures
        final(out)@ == old(out)@ + spec_words_bytes(ws@),
{
    let mut i: usize = 0;
    while i < ws.len()
        invariant
            i <= ws@.len(),
            out@ == old(out)@ + spec_words_bytes(ws@.take(i as int)),
        decreases ws@.len() - i,
    {
        let b = u32_to_le_bytes(ws[i]);
        out.extend_from_slice(b.as_slice());
        proof {
            assert(ws@.take(i + 1) =~= ws@.take(i as int).push(ws@[i as int]));
            lemma_words_bytes_push(ws@.take(i as int), ws@[i as int]);
        }
        i += 1;
    }
    proof {
        assert(ws@.take(ws@.len() as int) =~= ws@);
    }
}

/// The 64-byte image of one sprite record.
pub fn sprite_to_bytes(s: &Sprite) -> (out: Vec<u8>)
    ensures
        out@ == spec_sprite_bytes(*s),
        out@.len() == SPRITE_BYTES,
{
    let ws = sprite_words(s);
    let mut out: Vec<u8> = Vec::new();
    push_words_bytes(&mut out, &ws);
    proof {
        lemma_words_bytes_len(ws@);
    }
    out
}

/// Decodes a 64-byte image back into a sprite record.
pub fn sprite_from_bytes(bytes: &[u8]) -> (s: Sprite)
    requires
        bytes@.len() == SPRITE_BYTES,
    ensures
        s == spec_sprite_from_bytes(bytes@),
{
    let mut ws: Vec<u32> = Vec::new();
    let mut i: usize = 0;
    while i < 16
        invariant
            bytes@.len() == SPRITE_BYTES,
            i <= 16,
            ws@.len() == i,
            forall|j: int|
                0 <= j < i ==> ws@[j] == spec_u32_from_le_bytes(
                    bytes@.subrange(4 * j, 4 * j + 4),
                ),
        decreases 16 - i,
    {
        let word_bytes = slice_subrange(bytes, 4 * i, 4 * i + 4);
        ws.push(u32_from_le_bytes(word_bytes));
        i += 1;
    }
    Sprite {
        position: Vec3Bits { x: ws[0], y: ws[1], z: ws[2] },
        rotation: ws[3],
        scale: Vec2Bits { x: ws[4], y: ws[5] },
        padding: Vec2Bits { x: ws[6], y: ws[7] },
        texture: Texture { u: ws[8], v: ws[9], w: ws[10], h: ws[11] },
        color: ColorRgba { r: ws[12], g: ws[13], b: ws[14], a: ws[15] },
    }
}

/// Slots the buffer starts with.
pub const INITIAL_CAPACITY: usize = 100_000;

/// When fewer than this many free slots remain, the buffer grows.
pub const LOW_WATER_MARK: usize = 10_000;

/// Slots added on each growth.
pub const GROWTH_INCREMENT: usize = 50_000;

/// Largest capacity the buffer may reach, chosen so that every byte size
/// derived from it fits the GPU layer's 32-bit sizes.
pub const MAX_CAPACITY: usize = 33_000_000;

/// The growth policy: a buffer with this capacity and count has too little
/// headroom and must be enlarged before the next frame fills it.
pub open spec fn spec_needs_growth(capacity: int, count: int) -> bool {
    capacity - count < LOW_WATER_MARK
}

/// Byte image of a whole run of instances, in append order.
pub open spec fn spec_instances_bytes(ss: Seq<Sprite>) -> Seq<u8>
    decreases ss.len(),
{
    if ss.len() == 0 {
        Seq::empty()
    } else {
        spec_sprite_bytes(ss[0]) + spec_instances_bytes(ss.drop_first())
    }
}

pub proof fn lemma_instances_bytes_len(ss: Seq<Sprite>)
    ensures
        spec_instances_bytes(ss).len() == SPRITE_BYTES * ss.len(),
    decreases ss.len(),
{
    if ss.len() > 0 {
        lemma_sprite_bytes_round_trip(ss[0]);
        lemma_instances_bytes_len(ss.drop_first());
    }
}

pub proof fn lemma_instances_bytes_index(ss: Seq<Sprite>, i: int)
    requires
        0 <= i < ss.len(),
    ensures
        spec_instances_bytes(ss).subrange(SPRITE_BYTES * i, SPRITE_BYTES * (i + 1))
            == spec_sprite_bytes(ss[i]),
    decreases ss.len(),
{
    lemma_sprite_bytes_round_trip(ss[0]);
    lemma_instances_bytes_len(ss.drop_first());
    if i == 0 {
        assert(spec_instances_bytes(ss).subrange(0, SPRITE_BYTES as int) =~= spec_sprite_bytes(
            ss[0],
        ));
    } else {
        lemma_instances_bytes_index(ss.drop_first(), i - 1);
        assert(spec_instances_bytes(ss).subrange(SPRITE_BYTES * i, SPRITE_BYTES * (i + 1))
            =~= spec_instances_bytes(ss.drop_first()).subrange(
            SPRITE_BYTES * (i - 1),
            SPRITE_BYTES * i,
        ));
    }
}

pub proof fn lemma_instances_bytes_push(ss: Seq<Sprite>, s: Sprite)
    ensures
        spec_instances_bytes(ss.push(s)) == spec_instances_bytes(ss) + spec_sprite_bytes(s),
    decreases ss.len(),
{
    if ss.len() == 0 {
        assert(ss.push(s).drop_first() =~= Seq::<Sprite>::empty());
        assert(spec_instances_bytes(Seq::<Sprite>::empty()) == Seq::<u8>::empty());
        assert(ss.push(s)[0] == s);
        assert(spec_instances_bytes(ss.push(s)) == spec_sprite_bytes(s) + Seq::<u8>::empty());
        assert(spec_instances_bytes(ss.push(s)) =~= spec_instances_bytes(ss)
            + spec_sprite_bytes(s));
    } else {
        assert(ss.push(s).drop_first() =~= ss.drop_first().push(s));
        lemma_instances_bytes_push(ss.drop_first(), s);
        assert(ss.push(s)[0] == ss[0]);
        assert(spec_instances_bytes(ss.push(s)) == spec_sprite_bytes(ss[0]) + (
        spec_instances_bytes(ss.drop_first()) + spec_sprite_bytes(s)));
        assert(spec_instances_bytes(ss.push(s)) =~= spec_instances_bytes(ss)
            + spec_sprite_bytes(s));
    }
}

/// Round trip through GPU-visible memory: slot `i` of the upload image is
/// exactly the byte image of the `i`-th appended instance, and decodes back
/// to it unchanged.
pub proof fn lemma_uploaded_instance_round_trip(ss: Seq<Sprite>, i: int)
    requires
        0 <= i < ss.len(),
    ensures
        spec_instances_bytes(ss).subrange(SPRITE_BYTES * i, SPRITE_BYTES * (i + 1))
            == spec_sprite_bytes(ss[i]),
        spec_sprite_from_bytes(
            spec_instances_bytes(ss).subrange(SPRITE_BYTES * i, SPRITE_BYTES * (i + 1)),
        ) == ss[i],
{
    lemma_instances_bytes_index(ss, i);
    lemma_sprite_bytes_round_trip(ss[i]);
}

/// The growable instance buffer: the host-side run of live instances
/// waiting for upload, and the slot capacity both GPU buffers were
/// allocated with. Capacity never falls and always covers the count.
pub struct SpritesBuffer {
    data: Vec<Sprite>,
    capacity: usize,
}

impl SpritesBuffer {
    /// The live instances, in append order.
    pub closed spec fn instances(self) -> Seq<Sprite> {
        self.data@
    }

    /// Allocated slot capacity.
    pub closed spec fn spec_capacity(self) -> int {
        self.capacity as int
    }

    /// Count of live instances.
    pub open spec fn spec_count(self) -> int {
        self.instances().len() as int
    }

    /// The buffer invariant: the count never exceeds the capacity, and the
    /// capacity stays within the range whose byte sizes the GPU layer can
    /// express.
    pub open spec fn wf(self) -> bool {
        self.spec_count() <= self.spec_capacity() <= MAX_CAPACITY as int
    }

    /// A fresh, empty buffer with the given slot capacity.
    pub fn new(initial_capacity: usize) -> (buf: SpritesBuffer)
        requires
            initial_capacity <= MAX_CAPACITY,
        ensures
            buf.wf(),
            buf.instances() == Seq::<Sprite>::empty(),
            buf.spec_capacity() == initial_capacity as int,
    {
        SpritesBuffer { data: Vec::new(), capacity: initial_capacity }
    }

    /// Count of live instances.
    pub fn count(&self) -> (n: usize)
        ensures
            n == self.spec_count(),
    {
        self.data.len()
    }

    /// Allocated slot capacity.
    pub fn capacity(&self) -> (n: usize)
        ensures
            n == self.spec_capacity(),
    {
        self.capacity
    }

    /// Registers one more live instance and hands back its slot index. The
    /// GPU is not touched; the instance reaches it on the next sync. The
    /// caller must have kept enough headroom, which the growth policy
    /// guarantees between frames.
    pub fn append(&mut self, sprite: Sprite) -> (idx: usize)
        requires
            old(self).wf(),
            old(self).spec_count() < old(self).spec_capacity(),
        ensures
            final(self).wf(),
            final(self).instances() == old(self).instances().push(sprite),
            final(self).spec_capacity() == old(self).spec_capacity(),
            idx == old(self).spec_count(),
    {
        let idx = self.data.len();
        self.data.push(sprite);
        idx
    }

    /// Pre-emptive growth: when the free headroom falls under the
    /// low-water mark, the capacity grows by the fixed increment — and by
    /// nothing otherwise. After the call the headroom is at least the
    /// low-water mark again. The caller owns the matching reallocation of
    /// the two GPU buffers and the release of the old handles.
    pub fn resize(&mut self)
        requires
            old(self).wf(),
            spec_needs_growth(old(self).spec_capacity(), old(self).spec_count())
                ==> old(self).spec_capacity() + GROWTH_INCREMENT <= MAX_CAPACITY,
        ensures
            final(self).wf(),
            final(self).instances() == old(self).instances(),
            spec_needs_growth(old(self).spec_capacity(), old(self).spec_count())
                ==> final(self).spec_capacity() == old(self).spec_capacity() + GROWTH_INCREMENT,
            !spec_needs_growth(old(self).spec_capacity(), old(self).spec_count())
                ==> final(self).spec_capacity() == old(self).spec_capacity(),
            final(self).spec_capacity() - final(self).spec_count() >= LOW_WATER_MARK,
    {
        if self.capacity - self.data.len() < LOW_WATER_MARK {
            self.capacity = self.capacity + GROWTH_INCREMENT;
        }
    }

    /// The full byte image of the live instances, exactly what the mapped
    /// transfer buffer must hold before the copy pass uploads it to the
    /// storage buffer. Re-built in full every frame.
    pub fn sync_and_bind(&self) -> (bytes: Vec<u8>)
        requires
            self.wf(),
        ensures
            bytes@ == spec_instances_bytes(self.instances()),
            bytes@.len() == SPRITE_BYTES * self.spec_count(),
    {
        let mut bytes: Vec<u8> = Vec::new();
        let mut i: usize = 0;
        while i < self.data.len()
            invariant
                i <= self.data@.len(),
                bytes@ == spec_instances_bytes(self.data@.take(i as int)),
            decreases self.data@.len() - i,
        {
            let image = sprite_to_bytes(&self.data[i]);
            bytes.extend_from_slice(image.as_slice());
            proof {
                assert(self.data@.take(i + 1) =~= self.data@.take(i as int).push(
                    self.data@[i as int],
                ));
                lemma_instances_bytes_push(self.data@.take(i as int), self.data@[i as int]);
            }
            i += 1;
        }
        proof {
            assert(self.data@.take(self.data@.len() as int) =~= self.data@);
            lemma_instances_bytes_len(self.data@);
        }
        bytes
    }
}

/// The default sprite record spawned at a position: zero rotation, the
/// default scale, the whole texture rectangle, opaque white.
pub open spec fn spec_default_sprite(position: Vec3Bits) -> Sprite {
    Sprite {
        position,
        rotation: F32_ZERO_BITS,
        scale: Vec2Bits { x: F32_THIRTY_TWO_BITS, y: F32_THIRTY_TWO_BITS },
        padding: Vec2Bits { x: F32_ZERO_BITS, y: F32_ZERO_BITS },
        texture: Texture { u: F32_ZERO_BITS, v: F32_ZERO_BITS, w: F32_ONE_BITS, h: F32_ONE_BITS },
        color: ColorRgba { r: F32_ONE_BITS, g: F32_ONE_BITS, b: F32_ONE_BITS, a: F32_ONE_BITS },
    }
}

impl Sprite {
    /// A fresh sprite at `position` with the default appearance,
    /// registered in the instance buffer.
    pub fn new(position: Vec3Bits, sprites_buffer: &mut SpritesBuffer) -> (s: Sprite)
        requires
            old(sprites_buffer).wf(),
            old(sprites_buffer).spec_count() < old(sprites_buffer).spec_capacity(),
        ensures
            s == spec_default_sprite(position),
            final(sprites_buffer).wf(),
            final(sprites_buffer).instances() == old(sprites_buffer).instances().push(s),
            final(sprites_buffer).spec_capacity() == old(sprites_buffer).spec_capacity(),
    {
        let sprite = Sprite {
            position,
            rotation: F32_ZERO_BITS,
            scale: Vec2Bits { x: F32_THIRTY_TWO_BITS, y: F32_THIRTY_TWO_BITS },
            padding: Vec2Bits { x: F32_ZERO_BITS, y: F32_ZERO_BITS },
            texture: Texture {
                u: F32_ZERO_BITS,
                v: F32_ZERO_BITS,
                w: F32_ONE_BITS,
                h: F32_ONE_BITS,
            },
            color: ColorRgba {
                r: F32_ONE_BITS,
                g: F32_ONE_BITS,
                b: F32_ONE_BITS,
                a: F32_ONE_BITS,
            },
        };
        sprites_buffer.append(sprite);
        sprite
    }
}

/// Growing by the fixed increment always restores at least the low-water
/// headroom, whatever run of appends brought the buffer to this state.
pub proof fn lemma_growth_restores_headroom(capacity: int, count: int)
    requires
        0 <= count <= capacity,
        spec_needs_growth(capacity, count),
    ensures
        capacity + GROWTH_INCREMENT - count >= LOW_WATER_MARK,
{
}

} // verus!
