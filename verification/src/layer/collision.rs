//! Collision of objects, and how its attributes are stored.
use vstd::prelude::*;
use crate::bytes::{
    lemma_read_at, lemma_u32_be, lemma_u32_le, push_u32_be, push_u32_le, read_u32_be, read_u32_le,
    u32_be, u32_be_bytes, u32_le, u32_le_bytes, Endian,
};
use crate::layer::HeapString;

verus! {

/// The collision material of an object.
#[derive(Debug, PartialEq, Eq, Structural, Clone, Copy)]
pub struct CollisionAttributes {
    /// The material.
    pub material_id: u64,
    /// The mask of the material.
    pub material_mask: u64,
}

/// A box that collides.
#[derive(Debug, PartialEq, Clone)]
pub struct CollisionBoxInstanceObject {
    /// The trigger box.
    pub parent_data: TriggerBoxInstanceObject,
    /// The collision material.
    pub collision_attributes: CollisionAttributes,
    /// Whether the layer mask is 0x43.
    pub layer_mask_is_43h: bool,
    /// Path to the collision model.
    pub collision_asset_path: HeapString,
}

/// The shape of a trigger box.
#[derive(Debug, PartialEq, Eq, Structural, Clone, Copy)]
pub enum TriggerBoxShape {
    /// No shape.
    NoShape,
    /// A box.
    Box,
    /// A sphere.
    Sphere,
    /// A cylinder.
    Cylinder,
    /// A plane.
    Plane,
    /// A mesh.
    Mesh,
    /// A plane with two sides.
    PlaneTwoSided,
}

/// An area that triggers something.
#[derive(Debug, PartialEq, Eq, Structural, Clone, Copy)]
pub struct TriggerBoxInstanceObject {
    /// The shape.
    pub trigger_box_shape: TriggerBoxShape,
    /// The priority over other trigger boxes.
    pub priority: i16,
    /// Whether it triggers.
    pub enabled: bool,
}

/// Anything occluded by this object is not drawn.
#[derive(Debug, PartialEq, Eq, Structural, Clone, Copy)]
pub struct CullingBoxInstanceObject {
    unk1: u32,
}

/// How many bytes collision attributes take in a file of this byte order.
pub open spec fn collision_attributes_size(endian: Endian) -> nat {
    match endian {
        Endian::Big => 8,
        Endian::Little => 16,
    }
}

/// How collision attributes are stored. Big-endian files, of an older era, hold the mask and
/// the material as 32 bits each; little-endian files hold the low 32 bits of the mask and of
/// the material, then their high 32 bits.
pub open spec fn collision_attributes_bytes(a: CollisionAttributes, endian: Endian) -> Seq<u8> {
    match endian {
        Endian::Big => u32_be_bytes(a.material_mask as u32) + u32_be_bytes(a.material_id as u32),
        Endian::Little => u32_le_bytes(a.material_mask as u32) + u32_le_bytes(a.material_id as u32)
            + u32_le_bytes((a.material_mask >> 32u64) as u32) + u32_le_bytes(
            (a.material_id >> 32u64) as u32,
        ),
    }
}

/// The collision attributes stored at `i`.
pub open spec fn collision_attributes_at(b: Seq<u8>, i: int, endian: Endian) -> CollisionAttributes {
    match endian {
        Endian::Big => CollisionAttributes {
            material_id: u32_be(b, i + 4) as u64,
            material_mask: u32_be(b, i) as u64,
        },
        Endian::Little => CollisionAttributes {
            material_id: ((u32_le(b, i + 12) as u64) << 32u64) | (u32_le(b, i + 4) as u64),
            material_mask: ((u32_le(b, i + 8) as u64) << 32u64) | (u32_le(b, i) as u64),
        },
    }
}

/// Reads the collision attributes stored at `i` in `b`, and gives them with the position
/// after them; `None` where `b` ends before them.
pub fn read_collision_attributes(b: &[u8], i: usize, endian: Endian) -> (r: Option<
    (CollisionAttributes, usize),
>)
    ensures
        r is Some <==> i + collision_attributes_size(endian) <= b@.len(),
        r matches Some((a, next)) ==> a == collision_attributes_at(b@, i as int, endian) && next
            == i + collision_attributes_size(endian),
{
    let len = b.len();
    match endian {
        Endian::Big => {
            if i > len || len - i < 8 {
                return None;
            }
            let mask = read_u32_be(b, i);
            let id = read_u32_be(b, i + 4);
            Some((CollisionAttributes { material_id: id as u64, material_mask: mask as u64 }, i + 8))
        },
        Endian::Little => {
            if i > len || len - i < 16 {
                return None;
            }
            let mask_low = read_u32_le(b, i);
            let id_low = read_u32_le(b, i + 4);
            let mask_high = read_u32_le(b, i + 8);
            let id_high = read_u32_le(b, i + 12);
            Some(
                (
                    CollisionAttributes {
                        material_id: ((id_high as u64) << 32u64) | (id_low as u64),
                        material_mask: ((mask_high as u64) << 32u64) | (mask_low as u64),
                    },
                    i + 16,
                ),
            )
        },
    }
}

/// Appends the stored form of `a` to `out`.
pub fn write_collision_attributes(out: &mut Vec<u8>, a: &CollisionAttributes, endian: Endian)
    ensures
        final(out)@ == old(out)@ + collision_attributes_bytes(*a, endian),
{
    match endian {
        Endian::Big => {
            push_u32_be(out, a.material_mask as u32);
            push_u32_be(out, a.material_id as u32);
        },
        Endian::Little => {
            push_u32_le(out, a.material_mask as u32);
            push_u32_le(out, a.material_id as u32);
            push_u32_le(out, (a.material_mask >> 32u64) as u32);
            push_u32_le(out, (a.material_id >> 32u64) as u32);
        },
    }
    assert(final(out)@ =~= old(out)@ + collision_attributes_bytes(*a, endian));
}

/// Collision attributes read back from what was written for them are the same, in a
/// little-endian file; in a big-endian file, where the material and mask fit 32 bits.
pub proof fn law_collision_attributes_round_trip(a: CollisionAttributes, endian: Endian)
    requires
        endian == Endian::Big ==> a.material_id <= u32::MAX && a.material_mask <= u32::MAX,
    ensures
        collision_attributes_bytes(a, endian).len() == collision_attributes_size(endian),
        collision_attributes_at(collision_attributes_bytes(a, endian), 0, endian) == a,
{
    let b = collision_attributes_bytes(a, endian);
    let id = a.material_id;
    let mask = a.material_mask;
    match endian {
        Endian::Big => {
            lemma_u32_be(mask as u32);
            lemma_u32_be(id as u32);
            assert(b.subrange(0, 4) =~= u32_be_bytes(mask as u32));
            lemma_read_at(b, 0, u32_be_bytes(mask as u32));
            assert(b.subrange(4, 8) =~= u32_be_bytes(id as u32));
            lemma_read_at(b, 4, u32_be_bytes(id as u32));
        },
        Endian::Little => {
            let ml = mask as u32;
            let il = id as u32;
            let mh = (mask >> 32u64) as u32;
            let ih = (id >> 32u64) as u32;
            lemma_u32_le(ml);
            lemma_u32_le(il);
            lemma_u32_le(mh);
            lemma_u32_le(ih);
            assert(b.subrange(0, 4) =~= u32_le_bytes(ml));
            assert(b.subrange(4, 8) =~= u32_le_bytes(il));
            assert(b.subrange(8, 12) =~= u32_le_bytes(mh));
            assert(b.subrange(12, 16) =~= u32_le_bytes(ih));
            lemma_read_at(b, 0, u32_le_bytes(ml));
            lemma_read_at(b, 4, u32_le_bytes(il));
            lemma_read_at(b, 8, u32_le_bytes(mh));
            lemma_read_at(b, 12, u32_le_bytes(ih));
            assert(((ih as u64) << 32u64) | (il as u64) == id) by (bit_vector)
                requires
                    il == id as u32,
                    ih == (id >> 32u64) as u32,
            ;
            assert(((mh as u64) << 32u64) | (ml as u64) == mask) by (bit_vector)
                requires
                    ml == mask as u32,
                    mh == (mask >> 32u64) as u32,
            ;
        },
    }
}

} // verus!
