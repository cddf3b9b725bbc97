//! Shader packages (SHPK): their shaders, parameters, keys and nodes.
use vstd::prelude::*;
use vstd::arithmetic::power::pow;
use vstd::utf8::{decode_utf8, encode_utf8, valid_utf8};
use crate::bytes::{bytes_in, read_u16_le, read_u32_le, u16_le, u32_le};
use crate::text::{chars_of, string_from_chars, text_from_utf8, trim_nul_chars, trim_nul_end, trim_nul_start};

verus! {

/// A parameter of a shader.
#[derive(Debug, Clone, PartialEq)]
pub struct ResourceParameter {
    id: u32,
    local_string_offset: u32,
    string_length: u16,
    unknown: u16,
    /// The slot of the parameter.
    pub slot: u16,
    size: u16,
    /// The name of the parameter.
    pub name: String,
}

/// A shader of a package.
#[derive(Debug, Clone)]
pub struct Shader {
    data_offset: u32,
    data_size: u32,
    scalar_parameter_count: u16,
    resource_parameter_count: u16,
    uav_parameter_count: u16,
    texture_count: u16,
    /// The scalar parameters.
    pub scalar_parameters: Vec<ResourceParameter>,
    /// The resource parameters.
    pub resource_parameters: Vec<ResourceParameter>,
    /// The UAV parameters.
    pub uav_parameters: Vec<ResourceParameter>,
    /// The texture parameters.
    pub texture_parameters: Vec<ResourceParameter>,
    /// Data after the parameters.
    pub additional_data: Vec<u8>,
    /// The bytecode.
    pub bytecode: Vec<u8>,
}

/// A parameter of the materials that use a package.
#[derive(Debug, Clone, Copy, PartialEq, Eq, Structural)]
pub struct MaterialParameter {
    id: u32,
    byte_offset: u16,
    byte_size: u16,
}

/// A key that selects shaders, with its default value.
#[derive(Debug, Clone, Copy, PartialEq, Eq, Structural)]
pub struct Key {
    /// The key.
    pub id: u32,
    /// Its default value.
    pub default_value: u32,
}

/// A render pass: the vertex and pixel shader it uses.
#[derive(Debug, Clone, Copy, PartialEq, Eq, Structural)]
pub struct Pass {
    id: u32,
    vertex_shader: u32,
    pixel_shader: u32,
}

/// Another selector for a node.
#[derive(Debug, Clone, Copy, PartialEq, Eq, Structural)]
pub struct NodeAlias {
    selector: u32,
    node: u32,
}

/// A node of a package: the passes that a selector chooses.
#[derive(Debug, Clone)]
pub struct Node {
    /// The selector.
    pub selector: u32,
    /// How many passes the node has.
    pub pass_count: u32,
    /// The index of the pass of each stage.
    pub pass_indices: [u8; 16],
    /// The system keys.
    pub system_keys: Vec<u32>,
    /// The scene keys.
    pub scene_keys: Vec<u32>,
    /// The material keys.
    pub material_keys: Vec<u32>,
    /// The subview keys.
    pub subview_keys: Vec<u32>,
    /// The passes.
    pub passes: Vec<Pass>,
}


/// A shader package: its shaders, the parameters and keys of its materials, and its nodes.
#[derive(Debug)]
pub struct ShaderPackage {
    version: u32,
    format: String,
    file_length: u32,
    shader_data_offset: u32,
    strings_offset: u32,
    vertex_shader_count: u32,
    pixel_shader_count: u32,
    /// The size of the material parameters.
    pub material_parameters_size: u32,
    material_parameter_count: u16,
    has_mat_param_defaults: u16,
    scalar_parameter_count: u16,
    sampler_count: u16,
    texture_count: u16,
    uav_count: u16,
    system_key_count: u32,
    scene_key_count: u32,
    material_key_count: u32,
    node_count: u32,
    node_alias_count: u32,
    /// The vertex shaders.
    pub vertex_shaders: Vec<Shader>,
    /// The pixel shaders.
    pub pixel_shaders: Vec<Shader>,
    /// The parameters of the materials.
    pub material_parameters: Vec<MaterialParameter>,
    /// The defaults of the material parameters, each the bits of a 32-bit float.
    mat_param_defaults: Vec<u32>,
    scalar_parameters: Vec<ResourceParameter>,
    sampler_parameters: Vec<ResourceParameter>,
    texture_parameters: Vec<ResourceParameter>,
    uav_parameters: Vec<ResourceParameter>,
    /// The system keys.
    pub system_keys: Vec<Key>,
    /// The scene keys.
    pub scene_keys: Vec<Key>,
    /// The material keys.
    pub material_keys: Vec<Key>,
    /// The default of the first subview key.
    pub sub_view_key1_default: u32,
    /// The default of the second subview key.
    pub sub_view_key2_default: u32,
    /// The nodes.
    pub nodes: Vec<Node>,
    node_selectors: Vec<(u32, u32)>,
    node_aliases: Vec<NodeAlias>,
}

/// The index of the first pair whose selector is `selector`, if any.
pub open spec fn first_selected(selectors: Seq<(u32, u32)>, selector: u32) -> Option<int>
    decreases selectors.len(),
{
    if selectors.len() == 0 {
        None
    } else {
        match first_selected(selectors.drop_last(), selector) {
            Some(j) => Some(j),
            None => if selectors.last().0 == selector {
                Some(selectors.len() - 1)
            } else {
                None
            },
        }
    }
}

/// Whether the node that `selector` selects in the package `p`, if any, is one of its nodes.
pub open spec fn selects_a_node(p: ShaderPackageView, selector: u32) -> bool {
    match first_selected(p.node_selectors, selector) {
        Some(j) => p.node_selectors[j].1 < p.nodes.len(),
        None => true,
    }
}

impl ShaderPackage {
    /// The node that the first pair of `selector` selects; `None` where no pair has it.
    pub fn find_node(&self, selector: u32) -> (r: Option<&Node>)
        requires
            selects_a_node(self@, selector),
        ensures
            match first_selected(self@.node_selectors, selector) {
                Some(j) => r matches Some(n) && n@ == self@.nodes[self@.node_selectors[j].1 as int],
                None => r is None,
            },
    {
        let mut i: usize = 0;
        while i < self.node_selectors.len()
            invariant
                i <= self.node_selectors.len(),
                selects_a_node(self@, selector),
                first_selected(self.node_selectors@.take(i as int), selector) is None,
            decreases self.node_selectors.len() - i,
        {
            let (sel, node) = self.node_selectors[i];
            proof {
                lemma_first_selected_take(self.node_selectors@, selector, i as int);
            }
            if sel == selector {
                return Some(&self.nodes[node as usize]);
            }
            i = i + 1;
        }
        assert(self.node_selectors@.take(i as int) =~= self.node_selectors@);
        None
    }
}

/// Where no pair before the `i`-th has the selector, the first is the `i`-th if it has it,
/// and else none before the next.
proof fn lemma_first_selected_take(selectors: Seq<(u32, u32)>, selector: u32, i: int)
    requires
        0 <= i < selectors.len(),
        first_selected(selectors.take(i), selector) is None,
    ensures
        selectors[i].0 == selector ==> first_selected(selectors, selector) == Some(i),
        selectors[i].0 != selector ==> first_selected(selectors.take(i + 1), selector) is None,
{
    assert(selectors.take(i + 1).drop_last() =~= selectors.take(i));
    if selectors[i].0 == selector {
        lemma_first_selected_prefix(selectors, selector, i + 1);
    }
}

/// Where a prefix has a first pair of the selector, the whole has it there too.
proof fn lemma_first_selected_prefix(selectors: Seq<(u32, u32)>, selector: u32, n: int)
    requires
        0 <= n <= selectors.len(),
        first_selected(selectors.take(n), selector) is Some,
    ensures
        first_selected(selectors, selector) == first_selected(selectors.take(n), selector),
    decreases selectors.len() - n,
{
    if n < selectors.len() {
        assert(selectors.take(n + 1).drop_last() =~= selectors.take(n));
        lemma_first_selected_prefix(selectors, selector, n + 1);
    } else {
        assert(selectors.take(n) =~= selectors);
    }
}

/// What each further key of a selector is multiplied by, once more than the one before.
pub const SELECTOR_MULTIPLIER: u32 = 31;

/// The sum of the keys, the `i`-th times `31` to the power of `i`.
pub open spec fn selector_sum(keys: Seq<u32>) -> int
    decreases keys.len(),
{
    if keys.len() == 0 {
        0
    } else {
        selector_sum(keys.drop_last()) + keys.last() * pow(
            SELECTOR_MULTIPLIER as int,
            (keys.len() - 1) as nat,
        )
    }
}

/// The selector of keys: their sum, the `i`-th times `31` to the power of `i`, modulo
/// `2^32`.
pub open spec fn selector_of(keys: Seq<u32>) -> u32 {
    (selector_sum(keys) % 0x1_0000_0000) as u32
}

/// One step of the checksum over one bit: shifted right, with the reversed polynomial
/// `0xEDB88320` added where the bit shifted out was set.
pub open spec fn crc_bit(c: u32) -> u32 {
    if c % 2 == 1 {
        (c >> 1u32) ^ 0xEDB8_8320u32
    } else {
        c >> 1u32
    }
}

/// `n` steps of the checksum over bits.
pub open spec fn crc_bits(c: u32, n: nat) -> u32
    decreases n,
{
    if n == 0 {
        c
    } else {
        crc_bit(crc_bits(c, (n - 1) as nat))
    }
}

/// The checksum after one more byte, its lowest bit first.
pub open spec fn crc_byte(c: u32, b: u8) -> u32 {
    crc_bits(c ^ (b as u32), 8)
}

/// The checksum of bytes: the reflected CRC-32 of the polynomial `0x04C11DB7`, from zero
/// and with nothing added at the end.
pub open spec fn crc_of(bytes: Seq<u8>) -> u32
    decreases bytes.len(),
{
    if bytes.len() == 0 {
        0
    } else {
        crc_byte(crc_of(bytes.drop_last()), bytes.last())
    }
}

impl ShaderPackage {
    /// The selector of the four keys of a node's kinds, each the selector of its keys.
    pub fn build_selector_from_all_keys(
        system_keys: &[u32],
        scene_keys: &[u32],
        material_keys: &[u32],
        subview_keys: &[u32],
    ) -> (r: u32)
        ensures
            r == selector_of(
                seq![
                    selector_of(system_keys@),
                    selector_of(scene_keys@),
                    selector_of(material_keys@),
                    selector_of(subview_keys@),
                ],
            ),
    {
        Self::build_selector_from_keys(
            Self::build_selector(system_keys),
            Self::build_selector(scene_keys),
            Self::build_selector(material_keys),
            Self::build_selector(subview_keys),
        )
    }

    /// The selector of the keys of a node's four kinds.
    pub fn build_selector_from_keys(
        system_key: u32,
        scene_key: u32,
        material_key: u32,
        subview_key: u32,
    ) -> (r: u32)
        ensures
            r == selector_of(seq![system_key, scene_key, material_key, subview_key]),
    {
        let keys: [u32; 4] = [system_key, scene_key, material_key, subview_key];
        let r = Self::build_selector(&keys);
        assert(keys@ =~= seq![system_key, scene_key, material_key, subview_key]);
        r
    }

    /// The selector of keys: their sum, the `i`-th times `31` to the power of `i`, modulo
    /// `2^32`.
    pub fn build_selector(keys: &[u32]) -> (r: u32)
        ensures
            r == selector_of(keys@),
    {
        let mut selector: u32 = 0;
        let mut multiplier: u32 = 1;
        let mut i: usize = 0;
        proof {
            reveal(pow);
        }
        while i < keys.len()
            invariant
                i <= keys.len(),
                selector == selector_sum(keys@.take(i as int)) % 0x1_0000_0000,
                multiplier == pow(SELECTOR_MULTIPLIER as int, i as nat) % 0x1_0000_0000,
            decreases keys.len() - i,
        {
            let key = keys[i];
            proof {
                lemma_selector_step(keys@, i as int, selector, multiplier);
            }
            selector = selector.wrapping_add(key.wrapping_mul(multiplier));
            multiplier = multiplier.wrapping_mul(SELECTOR_MULTIPLIER);
            i = i + 1;
        }
        assert(keys@.take(i as int) =~= keys@);
        selector
    }

    /// The checksum of a string's UTF-8 bytes: the reflected CRC-32 of the polynomial
    /// `0x04C11DB7`, from zero and with nothing added at the end.
    pub fn crc(str: &str) -> (r: u32)
        ensures
            r == crc_of(encode_utf8(str@)),
    {
        let bytes = str.as_bytes();
        let mut c: u32 = 0;
        let mut i: usize = 0;
        while i < bytes.len()
            invariant
                i <= bytes.len(),
                bytes@ == encode_utf8(str@),
                c == crc_of(bytes@.take(i as int)),
            decreases bytes.len() - i,
        {
            let start = c ^ (bytes[i] as u32);
            c = start;
            let mut k: u32 = 0;
            while k < 8
                invariant
                    k <= 8,
                    c == crc_bits(start, k as nat),
                decreases 8 - k,
            {
                if c % 2 == 1 {
                    c = (c >> 1u32) ^ 0xEDB8_8320u32;
                } else {
                    c = c >> 1u32;
                }
                k = k + 1;
            }
            assert(bytes@.take(i + 1).drop_last() =~= bytes@.take(i as int));
            i = i + 1;
        }
        assert(bytes@.take(i as int) =~= bytes@);
        c
    }
}

/// One step of the selector: adding the next key times the next power, both modulo
/// `2^32`, keeps the selector the sum modulo `2^32`.
proof fn lemma_selector_step(keys: Seq<u32>, i: int, selector: u32, multiplier: u32)
    requires
        0 <= i < keys.len(),
        selector == selector_sum(keys.take(i)) % 0x1_0000_0000,
        multiplier == pow(SELECTOR_MULTIPLIER as int, i as nat) % 0x1_0000_0000,
    ensures
        vstd::wrapping::u32_specs::wrapping_add(
            selector,
            vstd::wrapping::u32_specs::wrapping_mul(keys[i], multiplier),
        ) == selector_sum(keys.take(i + 1)) % 0x1_0000_0000,
        vstd::wrapping::u32_specs::wrapping_mul(multiplier, SELECTOR_MULTIPLIER) == pow(
            SELECTOR_MULTIPLIER as int,
            (i + 1) as nat,
        ) % 0x1_0000_0000,
{
    let m: int = 0x1_0000_0000;
    let p = pow(SELECTOR_MULTIPLIER as int, i as nat);
    let k = keys[i] as int;
    let s = selector_sum(keys.take(i));
    assert(keys.take(i + 1).drop_last() =~= keys.take(i));
    assert(selector_sum(keys.take(i + 1)) == s + k * p);
    vstd::arithmetic::div_mod::lemma_mul_mod_noop_right(k, p, m);
    vstd::arithmetic::div_mod::lemma_add_mod_noop(s, k * p, m);
    vstd::arithmetic::div_mod::lemma_mod_twice(k * p, m);
    vstd::arithmetic::div_mod::lemma_mod_bound(s, m);
    vstd::arithmetic::div_mod::lemma_mod_bound(k * p, m);
    assert(k * (p % m) >= 0) by (nonlinear_arith)
        requires
            k >= 0,
            p % m >= 0,
    ;
    vstd::arithmetic::div_mod::lemma_mod_bound(k * (p % m), m);
    let x = (k * (p % m)) % m;
    assert(((s % m) + x) % m == (s + k * p) % m) by {
        vstd::arithmetic::div_mod::lemma_mod_twice(k * p, m);
    }
    if (s % m) + x >= m {
        let a = (s % m) + x;
        vstd::arithmetic::div_mod::lemma_fundamental_div_mod(a, m);
        vstd::arithmetic::div_mod::lemma_mod_bound(a, m);
        let q = a / m;
        assert(a % m == a - m) by (nonlinear_arith)
            requires
                a == m * q + a % m,
                0 <= a % m < m,
                m <= a < 2 * m,
        ;
    } else {
        vstd::arithmetic::div_mod::lemma_small_mod(((s % m) + x) as nat, m as nat);
    }
    // the multiplier
    assert(pow(SELECTOR_MULTIPLIER as int, (i + 1) as nat) == 31 * p) by {
        reveal(pow);
    }
    vstd::arithmetic::div_mod::lemma_mul_mod_noop_left(p, 31, m);
    assert(p * 31 == 31 * p) by (nonlinear_arith);
}


// ---------------------------------------------------------------------------
// The file format.
// ---------------------------------------------------------------------------

/// The number that starts a shader package: `ShPk`.
pub const SHPK_MAGIC: u32 = 0x6B50_6853;

/// The size of the header of a shader package.
pub const SHPK_HEADER_SIZE: usize = 72;

/// The contents of a [ResourceParameter].
pub struct ResourceParameterView {
    pub id: u32,
    pub local_string_offset: u32,
    pub string_length: u16,
    pub unknown: u16,
    pub slot: u16,
    pub size: u16,
    pub name: Seq<char>,
}

/// The contents of a [Shader].
pub struct ShaderView {
    pub data_offset: u32,
    pub data_size: u32,
    pub scalar_parameter_count: u16,
    pub resource_parameter_count: u16,
    pub uav_parameter_count: u16,
    pub texture_count: u16,
    pub scalar_parameters: Seq<ResourceParameterView>,
    pub resource_parameters: Seq<ResourceParameterView>,
    pub uav_parameters: Seq<ResourceParameterView>,
    pub texture_parameters: Seq<ResourceParameterView>,
    pub additional_data: Seq<u8>,
    pub bytecode: Seq<u8>,
}

/// The contents of a [Node].
pub struct NodeView {
    pub selector: u32,
    pub pass_count: u32,
    pub pass_indices: Seq<u8>,
    pub system_keys: Seq<u32>,
    pub scene_keys: Seq<u32>,
    pub material_keys: Seq<u32>,
    pub subview_keys: Seq<u32>,
    pub passes: Seq<Pass>,
}

/// The contents of a [ShaderPackage].
pub struct ShaderPackageView {
    pub version: u32,
    pub format: Seq<char>,
    pub file_length: u32,
    pub shader_data_offset: u32,
    pub strings_offset: u32,
    pub vertex_shader_count: u32,
    pub pixel_shader_count: u32,
    pub material_parameters_size: u32,
    pub material_parameter_count: u16,
    pub has_mat_param_defaults: u16,
    pub scalar_parameter_count: u16,
    pub sampler_count: u16,
    pub texture_count: u16,
    pub uav_count: u16,
    pub system_key_count: u32,
    pub scene_key_count: u32,
    pub material_key_count: u32,
    pub node_count: u32,
    pub node_alias_count: u32,
    pub vertex_shaders: Seq<ShaderView>,
    pub pixel_shaders: Seq<ShaderView>,
    pub material_parameters: Seq<MaterialParameter>,
    pub mat_param_defaults: Seq<u32>,
    pub scalar_parameters: Seq<ResourceParameterView>,
    pub sampler_parameters: Seq<ResourceParameterView>,
    pub texture_parameters: Seq<ResourceParameterView>,
    pub uav_parameters: Seq<ResourceParameterView>,
    pub system_keys: Seq<Key>,
    pub scene_keys: Seq<Key>,
    pub material_keys: Seq<Key>,
    pub sub_view_key1_default: u32,
    pub sub_view_key2_default: u32,
    pub nodes: Seq<NodeView>,
    pub node_selectors: Seq<(u32, u32)>,
    pub node_aliases: Seq<NodeAlias>,
}

impl View for ResourceParameter {
    type V = ResourceParameterView;

    closed spec fn view(&self) -> ResourceParameterView {
        ResourceParameterView {
            id: self.id,
            local_string_offset: self.local_string_offset,
            string_length: self.string_length,
            unknown: self.unknown,
            slot: self.slot,
            size: self.size,
            name: self.name@,
        }
    }
}

/// The contents of resource parameters.
pub open spec fn parameter_views(v: Seq<ResourceParameter>) -> Seq<ResourceParameterView> {
    v.map_values(|x: ResourceParameter| x@)
}

/// `count` items read one after the other from `p` on by `item`, which gives each item and
/// the position after it; `None` where one cannot be read.
pub open spec fn items_at<T>(p: int, count: nat, item: spec_fn(int) -> Option<(T, int)>) -> Option<
    (Seq<T>, int),
>
    decreases count,
{
    if count == 0 {
        Some((Seq::empty(), p))
    } else {
        match items_at(p, (count - 1) as nat, item) {
            Some((v, q)) => match item(q) {
                Some((x, r)) => Some((v.push(x), r)),
                None => None,
            },
            None => None,
        }
    }
}

/// Where `count` items cannot be read, no more can.
pub proof fn lemma_items_none<T>(p: int, count: nat, more: nat, item: spec_fn(int) -> Option<(T, int)>)
    requires
        items_at(p, count, item) is None,
        count <= more,
    ensures
        items_at(p, more, item) is None,
    decreases more,
{
    if count < more {
        lemma_items_none(p, count, (more - 1) as nat, item);
    }
}

/// The `count` bytes from `start` on, if `b` holds them.
pub open spec fn bytes_at(b: Seq<u8>, start: int, count: int) -> Option<Seq<u8>> {
    if 0 <= start && 0 <= count && start + count <= b.len() {
        Some(b.subrange(start, start + count))
    } else {
        None
    }
}

/// A string of the package: its `len` bytes at `local` past the strings, read as UTF-8,
/// without leading and trailing zero characters.
pub open spec fn name_at(b: Seq<u8>, strings: u32, local: u32, len: u16) -> Option<Seq<char>> {
    match bytes_at(b, strings + local, len as int) {
        Some(bytes) => if valid_utf8(bytes) {
            Some(trim_nul_end(trim_nul_start(decode_utf8(bytes))))
        } else {
            None
        },
        None => None,
    }
}

/// The resource parameter stored at `p`, with the position after it: its id, the offset and
/// length of its name, three more numbers, and its name among the strings.
pub open spec fn resource_parameter_at(b: Seq<u8>, p: int, strings: u32) -> Option<
    (ResourceParameterView, int),
> {
    if p < 0 || p + 16 > b.len() {
        None
    } else {
        match name_at(b, strings, u32_le(b, p + 4), u16_le(b, p + 8)) {
            Some(name) => Some(
                (
                    ResourceParameterView {
                        id: u32_le(b, p),
                        local_string_offset: u32_le(b, p + 4),
                        string_length: u16_le(b, p + 8),
                        unknown: u16_le(b, p + 10),
                        slot: u16_le(b, p + 12),
                        size: u16_le(b, p + 14),
                        name,
                    },
                    p + 16,
                ),
            ),
            None => None,
        }
    }
}

/// The reader of resource parameters.
pub open spec fn parameter_reader(b: Seq<u8>, strings: u32) -> spec_fn(int) -> Option<
    (ResourceParameterView, int),
> {
    |q: int| resource_parameter_at(b, q, strings)
}

/// The material parameter stored at `p`, with the position after it.
pub closed spec fn material_parameter_at(b: Seq<u8>, p: int) -> Option<(MaterialParameter, int)> {
    if p < 0 || p + 8 > b.len() {
        None
    } else {
        Some(
            (
                MaterialParameter {
                    id: u32_le(b, p),
                    byte_offset: u16_le(b, p + 4),
                    byte_size: u16_le(b, p + 6),
                },
                p + 8,
            ),
        )
    }
}

/// The key stored at `p`, with the position after it.
pub open spec fn key_at(b: Seq<u8>, p: int) -> Option<(Key, int)> {
    if p < 0 || p + 8 > b.len() {
        None
    } else {
        Some((Key { id: u32_le(b, p), default_value: u32_le(b, p + 4) }, p + 8))
    }
}

/// The pass stored at `p`, with the position after it.
pub closed spec fn pass_at(b: Seq<u8>, p: int) -> Option<(Pass, int)> {
    if p < 0 || p + 12 > b.len() {
        None
    } else {
        Some(
            (
                Pass {
                    id: u32_le(b, p),
                    vertex_shader: u32_le(b, p + 4),
                    pixel_shader: u32_le(b, p + 8),
                },
                p + 12,
            ),
        )
    }
}

/// The node alias stored at `p`, with the position after it.
pub closed spec fn alias_at(b: Seq<u8>, p: int) -> Option<(NodeAlias, int)> {
    if p < 0 || p + 8 > b.len() {
        None
    } else {
        Some((NodeAlias { selector: u32_le(b, p), node: u32_le(b, p + 4) }, p + 8))
    }
}

/// The `u32` stored at `p`, with the position after it.
pub open spec fn word_at(b: Seq<u8>, p: int) -> Option<(u32, int)> {
    if p < 0 || p + 4 > b.len() {
        None
    } else {
        Some((u32_le(b, p), p + 4))
    }
}

/// The reader of material parameters.
pub open spec fn material_parameter_reader(b: Seq<u8>) -> spec_fn(int) -> Option<(MaterialParameter, int)> {
    |q: int| material_parameter_at(b, q)
}

/// The reader of keys.
pub open spec fn key_reader(b: Seq<u8>) -> spec_fn(int) -> Option<(Key, int)> {
    |q: int| key_at(b, q)
}

/// The reader of passes.
pub open spec fn pass_reader(b: Seq<u8>) -> spec_fn(int) -> Option<(Pass, int)> {
    |q: int| pass_at(b, q)
}

/// The reader of node aliases.
pub open spec fn alias_reader(b: Seq<u8>) -> spec_fn(int) -> Option<(NodeAlias, int)> {
    |q: int| alias_at(b, q)
}

/// The reader of `u32`s.
pub open spec fn word_reader(b: Seq<u8>) -> spec_fn(int) -> Option<(u32, int)> {
    |q: int| word_at(b, q)
}

/// Reads the string of `len` bytes at `local` past the strings; see `name_at`.
fn read_name(b: &[u8], strings: u32, local: u32, len: u16) -> (r: Option<String>)
    ensures
        match r {
            Some(s) => name_at(b@, strings, local, len) == Some(s@),
            None => name_at(b@, strings, local, len) is None,
        },
{
    let blen = b.len();
    let start = match (strings as usize).checked_add(local as usize) {
        Some(s) => s,
        None => {
            assert(strings + local > blen);
            return None;
        },
    };
    if start > b.len() || b.len() - start < len as usize {
        return None;
    }
    let bytes = bytes_in(b, start, start + len as usize);
    match text_from_utf8(bytes) {
        Some(text) => Some(string_from_chars(&trim_nul_chars(&chars_of(text.as_str())))),
        None => None,
    }
}

/// Reads the resource parameter stored at `p`; see `resource_parameter_at`.
fn read_resource_parameter(b: &[u8], p: usize, strings: u32) -> (r: Option<(ResourceParameter, usize)>)
    ensures
        match r {
            Some((x, q)) => resource_parameter_at(b@, p as int, strings) == Some((x@, q as int)),
            None => resource_parameter_at(b@, p as int, strings) is None,
        },
{
    if p > b.len() || b.len() - p < 16 {
        return None;
    }
    let local_string_offset = read_u32_le(b, p + 4);
    let string_length = read_u16_le(b, p + 8);
    match read_name(b, strings, local_string_offset, string_length) {
        Some(name) => Some(
            (
                ResourceParameter {
                    id: read_u32_le(b, p),
                    local_string_offset,
                    string_length,
                    unknown: read_u16_le(b, p + 10),
                    slot: read_u16_le(b, p + 12),
                    size: read_u16_le(b, p + 14),
                    name,
                },
                p + 16,
            ),
        ),
        None => None,
    }
}


/// The contents of shaders.
pub open spec fn shader_views(v: Seq<Shader>) -> Seq<ShaderView> {
    v.map_values(|x: Shader| x@)
}

/// The contents of nodes.
pub open spec fn node_views(v: Seq<Node>) -> Seq<NodeView> {
    v.map_values(|x: Node| x@)
}

impl View for Shader {
    type V = ShaderView;

    closed spec fn view(&self) -> ShaderView {
        ShaderView {
            data_offset: self.data_offset,
            data_size: self.data_size,
            scalar_parameter_count: self.scalar_parameter_count,
            resource_parameter_count: self.resource_parameter_count,
            uav_parameter_count: self.uav_parameter_count,
            texture_count: self.texture_count,
            scalar_parameters: parameter_views(self.scalar_parameters@),
            resource_parameters: parameter_views(self.resource_parameters@),
            uav_parameters: parameter_views(self.uav_parameters@),
            texture_parameters: parameter_views(self.texture_parameters@),
            additional_data: self.additional_data@,
            bytecode: self.bytecode@,
        }
    }
}

impl View for Node {
    type V = NodeView;

    open spec fn view(&self) -> NodeView {
        NodeView {
            selector: self.selector,
            pass_count: self.pass_count,
            pass_indices: self.pass_indices@,
            system_keys: self.system_keys@,
            scene_keys: self.scene_keys@,
            material_keys: self.material_keys@,
            subview_keys: self.subview_keys@,
            passes: self.passes@,
        }
    }
}

/// The shader stored at `p`, with the position after its parameters: the offset and size of
/// its data, the counts of its four kinds of parameters, the parameters, and, in the shader
/// data, its additional data (as many bytes as the offset of the shader data, for a vertex
/// shader; none else) and its bytecode (after eight bytes, for a vertex shader).
pub open spec fn shader_at(b: Seq<u8>, p: int, sdo: u32, strings: u32, is_vertex: bool) -> Option<
    (ShaderView, int),
> {
    if p < 0 || p + 16 > b.len() {
        None
    } else {
        let data_offset = u32_le(b, p);
        let data_size = u32_le(b, p + 4);
        let c0 = u16_le(b, p + 8);
        let c1 = u16_le(b, p + 10);
        let c2 = u16_le(b, p + 12);
        let c3 = u16_le(b, p + 14);
        let rp = parameter_reader(b, strings);
        match items_at(p + 16, c0 as nat, rp) {
            None => None,
            Some((scalar, q1)) => match items_at(q1, c1 as nat, rp) {
                None => None,
                Some((resource, q2)) => match items_at(q2, c2 as nat, rp) {
                    None => None,
                    Some((uav, q3)) => match items_at(q3, c3 as nat, rp) {
                        None => None,
                        Some((texture, q4)) => match (
                            bytes_at(
                                b,
                                sdo + data_offset,
                                if is_vertex {
                                    sdo as int
                                } else {
                                    0
                                },
                            ),
                            bytes_at(
                                b,
                                sdo + data_offset + if is_vertex {
                                    8int
                                } else {
                                    0
                                },
                                data_size as int,
                            ),
                        ) {
                            (Some(additional_data), Some(bytecode)) => Some(
                                (
                                    ShaderView {
                                        data_offset,
                                        data_size,
                                        scalar_parameter_count: c0,
                                        resource_parameter_count: c1,
                                        uav_parameter_count: c2,
                                        texture_count: c3,
                                        scalar_parameters: scalar,
                                        resource_parameters: resource,
                                        uav_parameters: uav,
                                        texture_parameters: texture,
                                        additional_data,
                                        bytecode,
                                    },
                                    q4,
                                ),
                            ),
                            _ => None,
                        },
                    },
                },
            },
        }
    }
}

/// The reader of shaders.
pub open spec fn shader_reader(b: Seq<u8>, sdo: u32, strings: u32, is_vertex: bool) -> spec_fn(
    int,
) -> Option<(ShaderView, int)> {
    |q: int| shader_at(b, q, sdo, strings, is_vertex)
}

/// The node stored at `p`, with the position after it: its selector, its number of passes,
/// sixteen pass indices, its system, scene and material keys, as many as the package has of
/// each, two subview keys, and its passes.
pub open spec fn node_at(b: Seq<u8>, p: int, systems: u32, scenes: u32, materials: u32) -> Option<
    (NodeView, int),
> {
    if p < 0 || p + 24 > b.len() {
        None
    } else {
        let pass_count = u32_le(b, p + 4);
        let w = word_reader(b);
        match items_at(p + 24, systems as nat, w) {
            None => None,
            Some((system_keys, q1)) => match items_at(q1, scenes as nat, w) {
                None => None,
                Some((scene_keys, q2)) => match items_at(q2, materials as nat, w) {
                    None => None,
                    Some((material_keys, q3)) => match items_at(q3, 2, w) {
                        None => None,
                        Some((subview_keys, q4)) => match items_at(
                            q4,
                            pass_count as nat,
                            pass_reader(b),
                        ) {
                            None => None,
                            Some((passes, q5)) => Some(
                                (
                                    NodeView {
                                        selector: u32_le(b, p),
                                        pass_count,
                                        pass_indices: b.subrange(p + 8, p + 24),
                                        system_keys,
                                        scene_keys,
                                        material_keys,
                                        subview_keys,
                                        passes,
                                    },
                                    q5,
                                ),
                            ),
                        },
                    },
                },
            },
        }
    }
}

/// The reader of nodes.
pub open spec fn node_reader(b: Seq<u8>, systems: u32, scenes: u32, materials: u32) -> spec_fn(
    int,
) -> Option<(NodeView, int)> {
    |q: int| node_at(b, q, systems, scenes, materials)
}

/// Reads the `count` bytes from `start` on; see `bytes_at`.
fn read_bytes(b: &[u8], start: usize, count: usize) -> (r: Option<Vec<u8>>)
    ensures
        match r {
            Some(v) => bytes_at(b@, start as int, count as int) == Some(v@),
            None => bytes_at(b@, start as int, count as int) is None,
        },
{
    if start > b.len() || b.len() - start < count {
        return None;
    }
    Some(bytes_in(b, start, start + count))
}

/// Reads the material parameter stored at `p`; see `material_parameter_at`.
fn read_material_parameter(b: &[u8], p: usize) -> (r: Option<(MaterialParameter, usize)>)
    ensures
        match r {
            Some((x, q)) => material_parameter_at(b@, p as int) == Some((x, q as int)),
            None => material_parameter_at(b@, p as int) is None,
        },
{
    if p > b.len() || b.len() - p < 8 {
        return None;
    }
    Some(
        (
            MaterialParameter {
                id: read_u32_le(b, p),
                byte_offset: read_u16_le(b, p + 4),
                byte_size: read_u16_le(b, p + 6),
            },
            p + 8,
        ),
    )
}

/// Reads the key stored at `p`; see `key_at`.
fn read_key(b: &[u8], p: usize) -> (r: Option<(Key, usize)>)
    ensures
        match r {
            Some((x, q)) => key_at(b@, p as int) == Some((x, q as int)),
            None => key_at(b@, p as int) is None,
        },
{
    if p > b.len() || b.len() - p < 8 {
        return None;
    }
    Some((Key { id: read_u32_le(b, p), default_value: read_u32_le(b, p + 4) }, p + 8))
}

/// Reads the pass stored at `p`; see `pass_at`.
fn read_pass(b: &[u8], p: usize) -> (r: Option<(Pass, usize)>)
    ensures
        match r {
            Some((x, q)) => pass_at(b@, p as int) == Some((x, q as int)),
            None => pass_at(b@, p as int) is None,
        },
{
    if p > b.len() || b.len() - p < 12 {
        return None;
    }
    Some(
        (
            Pass {
                id: read_u32_le(b, p),
                vertex_shader: read_u32_le(b, p + 4),
                pixel_shader: read_u32_le(b, p + 8),
            },
            p + 12,
        ),
    )
}

/// Reads the node alias stored at `p`; see `alias_at`.
fn read_alias(b: &[u8], p: usize) -> (r: Option<(NodeAlias, usize)>)
    ensures
        match r {
            Some((x, q)) => alias_at(b@, p as int) == Some((x, q as int)),
            None => alias_at(b@, p as int) is None,
        },
{
    if p > b.len() || b.len() - p < 8 {
        return None;
    }
    Some((NodeAlias { selector: read_u32_le(b, p), node: read_u32_le(b, p + 4) }, p + 8))
}

/// Reads the `u32` stored at `p`; see `word_at`.
fn read_word(b: &[u8], p: usize) -> (r: Option<(u32, usize)>)
    ensures
        match r {
            Some((x, q)) => word_at(b@, p as int) == Some((x, q as int)),
            None => word_at(b@, p as int) is None,
        },
{
    if p > b.len() || b.len() - p < 4 {
        return None;
    }
    Some((read_u32_le(b, p), p + 4))
}

/// Reads `count` resource parameters from `p` on.
fn read_parameters(b: &[u8], p: usize, count: u16, strings: u32) -> (r: Option<(Vec<ResourceParameter>, usize)>)
    ensures
        match r {
            Some((v, q)) => items_at(p as int, count as nat, parameter_reader(b@, strings)) == Some((parameter_views(v@), q as int)),
            None => items_at(p as int, count as nat, parameter_reader(b@, strings)) is None,
        },
{
    let mut v: Vec<ResourceParameter> = Vec::new();
    let mut q = p;
    let mut k: u16 = 0;
    while k < count
        invariant
            k <= count,
            items_at(p as int, k as nat, parameter_reader(b@, strings)) == Some((parameter_views(v@), q as int)),
        decreases count - k,
    {
        match read_resource_parameter(b, q, strings) {
            Some((x, next)) => {
                proof {
                    assert(parameter_views(v@.push(x)) =~= parameter_views(v@).push(x@));
                }
                v.push(x);
                q = next;
            },
            None => {
                proof {
                    lemma_items_none(p as int, (k + 1) as nat, count as nat, parameter_reader(b@, strings));
                }
                return None;
            },
        }
        k = k + 1;
    }
    Some((v, q))
}

/// Reads `count` material parameters from `p` on.
fn read_material_parameters(b: &[u8], p: usize, count: u16) -> (r: Option<(Vec<MaterialParameter>, usize)>)
    ensures
        match r {
            Some((v, q)) => items_at(p as int, count as nat, material_parameter_reader(b@)) == Some((v@, q as int)),
            None => items_at(p as int, count as nat, material_parameter_reader(b@)) is None,
        },
{
    let mut v: Vec<MaterialParameter> = Vec::new();
    let mut q = p;
    let mut k: u16 = 0;
    while k < count
        invariant
            k <= count,
            items_at(p as int, k as nat, material_parameter_reader(b@)) == Some((v@, q as int)),
        decreases count - k,
    {
        match read_material_parameter(b, q) {
            Some((x, next)) => {
                v.push(x);
                q = next;
            },
            None => {
                proof {
                    lemma_items_none(p as int, (k + 1) as nat, count as nat, material_parameter_reader(b@));
                }
                return None;
            },
        }
        k = k + 1;
    }
    Some((v, q))
}

/// Reads `count` keys from `p` on.
fn read_keys(b: &[u8], p: usize, count: u32) -> (r: Option<(Vec<Key>, usize)>)
    ensures
        match r {
            Some((v, q)) => items_at(p as int, count as nat, key_reader(b@)) == Some((v@, q as int)),
            None => items_at(p as int, count as nat, key_reader(b@)) is None,
        },
{
    let mut v: Vec<Key> = Vec::new();
    let mut q = p;
    let mut k: u32 = 0;
    while k < count
        invariant
            k <= count,
            items_at(p as int, k as nat, key_reader(b@)) == Some((v@, q as int)),
        decreases count - k,
    {
        match read_key(b, q) {
            Some((x, next)) => {
                v.push(x);
                q = next;
            },
            None => {
                proof {
                    lemma_items_none(p as int, (k + 1) as nat, count as nat, key_reader(b@));
                }
                return None;
            },
        }
        k = k + 1;
    }
    Some((v, q))
}

/// Reads `count` passes from `p` on.
fn read_passes(b: &[u8], p: usize, count: u32) -> (r: Option<(Vec<Pass>, usize)>)
    ensures
        match r {
            Some((v, q)) => items_at(p as int, count as nat, pass_reader(b@)) == Some((v@, q as int)),
            None => items_at(p as int, count as nat, pass_reader(b@)) is None,
        },
{
    let mut v: Vec<Pass> = Vec::new();
    let mut q = p;
    let mut k: u32 = 0;
    while k < count
        invariant
            k <= count,
            items_at(p as int, k as nat, pass_reader(b@)) == Some((v@, q as int)),
        decreases count - k,
    {
        match read_pass(b, q) {
            Some((x, next)) => {
                v.push(x);
                q = next;
            },
            None => {
                proof {
                    lemma_items_none(p as int, (k + 1) as nat, count as nat, pass_reader(b@));
                }
                return None;
            },
        }
        k = k + 1;
    }
    Some((v, q))
}

/// Reads `count` node aliases from `p` on.
fn read_aliases(b: &[u8], p: usize, count: u32) -> (r: Option<(Vec<NodeAlias>, usize)>)
    ensures
        match r {
            Some((v, q)) => items_at(p as int, count as nat, alias_reader(b@)) == Some((v@, q as int)),
            None => items_at(p as int, count as nat, alias_reader(b@)) is None,
        },
{
    let mut v: Vec<NodeAlias> = Vec::new();
    let mut q = p;
    let mut k: u32 = 0;
    while k < count
        invariant
            k <= count,
            items_at(p as int, k as nat, alias_reader(b@)) == Some((v@, q as int)),
        decreases count - k,
    {
        match read_alias(b, q) {
            Some((x, next)) => {
                v.push(x);
                q = next;
            },
            None => {
                proof {
                    lemma_items_none(p as int, (k + 1) as nat, count as nat, alias_reader(b@));
                }
                return None;
            },
        }
        k = k + 1;
    }
    Some((v, q))
}

/// Reads `count` `u32`s from `p` on.
fn read_words(b: &[u8], p: usize, count: u32) -> (r: Option<(Vec<u32>, usize)>)
    ensures
        match r {
            Some((v, q)) => items_at(p as int, count as nat, word_reader(b@)) == Some((v@, q as int)),
            None => items_at(p as int, count as nat, word_reader(b@)) is None,
        },
{
    let mut v: Vec<u32> = Vec::new();
    let mut q = p;
    let mut k: u32 = 0;
    while k < count
        invariant
            k <= count,
            items_at(p as int, k as nat, word_reader(b@)) == Some((v@, q as int)),
        decreases count - k,
    {
        match read_word(b, q) {
            Some((x, next)) => {
                v.push(x);
                q = next;
            },
            None => {
                proof {
                    lemma_items_none(p as int, (k + 1) as nat, count as nat, word_reader(b@));
                }
                return None;
            },
        }
        k = k + 1;
    }
    Some((v, q))
}


/// Reads the shader stored at `p`; see `shader_at`.
fn read_shader(b: &[u8], p: usize, sdo: u32, strings: u32, is_vertex: bool) -> (r: Option<
    (Shader, usize),
>)
    ensures
        match r {
            Some((x, q)) => shader_at(b@, p as int, sdo, strings, is_vertex) == Some((x@, q as int)),
            None => shader_at(b@, p as int, sdo, strings, is_vertex) is None,
        },
{
    let blen = b.len();
    if p > blen || blen - p < 16 {
        return None;
    }
    let data_offset = read_u32_le(b, p);
    let data_size = read_u32_le(b, p + 4);
    let scalar_parameter_count = read_u16_le(b, p + 8);
    let resource_parameter_count = read_u16_le(b, p + 10);
    let uav_parameter_count = read_u16_le(b, p + 12);
    let texture_count = read_u16_le(b, p + 14);
    let (scalar_parameters, q1) = match read_parameters(b, p + 16, scalar_parameter_count, strings) {
        Some(x) => x,
        None => return None,
    };
    let (resource_parameters, q2) = match read_parameters(b, q1, resource_parameter_count, strings) {
        Some(x) => x,
        None => return None,
    };
    let (uav_parameters, q3) = match read_parameters(b, q2, uav_parameter_count, strings) {
        Some(x) => x,
        None => return None,
    };
    let (texture_parameters, q4) = match read_parameters(b, q3, texture_count, strings) {
        Some(x) => x,
        None => return None,
    };
    let start = match (sdo as usize).checked_add(data_offset as usize) {
        Some(s) => s,
        None => {
            assert(sdo + data_offset > blen);
            return None;
        },
    };
    let additional_count: usize = if is_vertex {
        sdo as usize
    } else {
        0
    };
    let additional_data = match read_bytes(b, start, additional_count) {
        Some(v) => v,
        None => return None,
    };
    let code_start = match start.checked_add(if is_vertex { 8 } else { 0 }) {
        Some(s) => s,
        None => {
            assert(sdo + data_offset + 8 > blen);
            return None;
        },
    };
    let bytecode = match read_bytes(b, code_start, data_size as usize) {
        Some(v) => v,
        None => return None,
    };
    let shader = Shader {
        data_offset,
        data_size,
        scalar_parameter_count,
        resource_parameter_count,
        uav_parameter_count,
        texture_count,
        scalar_parameters,
        resource_parameters,
        uav_parameters,
        texture_parameters,
        additional_data,
        bytecode,
    };
    Some((shader, q4))
}

/// Reads the node stored at `p`; see `node_at`.
fn read_node(b: &[u8], p: usize, systems: u32, scenes: u32, materials: u32) -> (r: Option<
    (Node, usize),
>)
    ensures
        match r {
            Some((x, q)) => node_at(b@, p as int, systems, scenes, materials) == Some(
                (x@, q as int),
            ),
            None => node_at(b@, p as int, systems, scenes, materials) is None,
        },
{
    if p > b.len() || b.len() - p < 24 {
        return None;
    }
    let selector = read_u32_le(b, p);
    let pass_count = read_u32_le(b, p + 4);
    let pass_indices: [u8; 16] = [
        b[p + 8],
        b[p + 9],
        b[p + 10],
        b[p + 11],
        b[p + 12],
        b[p + 13],
        b[p + 14],
        b[p + 15],
        b[p + 16],
        b[p + 17],
        b[p + 18],
        b[p + 19],
        b[p + 20],
        b[p + 21],
        b[p + 22],
        b[p + 23],
    ];
    assert(pass_indices@ =~= b@.subrange(p + 8, p + 24));
    let (system_keys, q1) = match read_words(b, p + 24, systems) {
        Some(x) => x,
        None => return None,
    };
    let (scene_keys, q2) = match read_words(b, q1, scenes) {
        Some(x) => x,
        None => return None,
    };
    let (material_keys, q3) = match read_words(b, q2, materials) {
        Some(x) => x,
        None => return None,
    };
    let (subview_keys, q4) = match read_words(b, q3, 2) {
        Some(x) => x,
        None => return None,
    };
    let (passes, q5) = match read_passes(b, q4, pass_count) {
        Some(x) => x,
        None => return None,
    };
    let node = Node {
        selector,
        pass_count,
        pass_indices,
        system_keys,
        scene_keys,
        material_keys,
        subview_keys,
        passes,
    };
    Some((node, q5))
}

/// Reads `count` shaders from `p` on.
fn read_shaders(b: &[u8], p: usize, count: u32, sdo: u32, strings: u32, is_vertex: bool) -> (r: Option<(Vec<Shader>, usize)>)
    ensures
        match r {
            Some((v, q)) => items_at(p as int, count as nat, shader_reader(b@, sdo, strings, is_vertex)) == Some((shader_views(v@), q as int)),
            None => items_at(p as int, count as nat, shader_reader(b@, sdo, strings, is_vertex)) is None,
        },
{
    let mut v: Vec<Shader> = Vec::new();
    let mut q = p;
    let mut k: u32 = 0;
    while k < count
        invariant
            k <= count,
            items_at(p as int, k as nat, shader_reader(b@, sdo, strings, is_vertex)) == Some((shader_views(v@), q as int)),
        decreases count - k,
    {
        match read_shader(b, q, sdo, strings, is_vertex) {
            Some((x, next)) => {
                proof {
                    assert(shader_views(v@.push(x)) =~= shader_views(v@).push(x@));
                }
                v.push(x);
                q = next;
            },
            None => {
                proof {
                    lemma_items_none(p as int, (k + 1) as nat, count as nat, shader_reader(b@, sdo, strings, is_vertex));
                }
                return None;
            },
        }
        k = k + 1;
    }
    Some((v, q))
}

/// Reads `count` nodes from `p` on.
fn read_nodes(b: &[u8], p: usize, count: u32, systems: u32, scenes: u32, materials: u32) -> (r: Option<(Vec<Node>, usize)>)
    ensures
        match r {
            Some((v, q)) => items_at(p as int, count as nat, node_reader(b@, systems, scenes, materials)) == Some((node_views(v@), q as int)),
            None => items_at(p as int, count as nat, node_reader(b@, systems, scenes, materials)) is None,
        },
{
    let mut v: Vec<Node> = Vec::new();
    let mut q = p;
    let mut k: u32 = 0;
    while k < count
        invariant
            k <= count,
            items_at(p as int, k as nat, node_reader(b@, systems, scenes, materials)) == Some((node_views(v@), q as int)),
        decreases count - k,
    {
        match read_node(b, q, systems, scenes, materials) {
            Some((x, next)) => {
                proof {
                    assert(node_views(v@.push(x)) =~= node_views(v@).push(x@));
                }
                v.push(x);
                q = next;
            },
            None => {
                proof {
                    lemma_items_none(p as int, (k + 1) as nat, count as nat, node_reader(b@, systems, scenes, materials));
                }
                return None;
            },
        }
        k = k + 1;
    }
    Some((v, q))
}


/// How many defaults of material parameters a package stores: a quarter of the size of the
/// parameters, read as a signed number, where it says it has them; `None` where that is
/// negative.
pub open spec fn defaults_count(size: u32, has_defaults: u16) -> Option<nat> {
    if has_defaults != 1 {
        Some(0)
    } else if size < 0x8000_0000 {
        Some((size / 4) as nat)
    } else {
        None
    }
}

/// The selector of a node alias and the index of the node it selects.
pub closed spec fn alias_pair(a: NodeAlias) -> (u32, u32) {
    (a.selector, a.node)
}

/// The pairs of a selector and the index of the node it selects: each node's own selector,
/// in order, then each alias's.
pub open spec fn selectors_of(nodes: Seq<NodeView>, aliases: Seq<NodeAlias>) -> Seq<(u32, u32)> {
    Seq::new(nodes.len(), |i: int| (nodes[i].selector, i as u32)) + Seq::new(
        aliases.len(),
        |i: int| alias_pair(aliases[i]),
    )
}

/// The shader package stored in `b`, little-endian: the header of 72 bytes, starting with
/// `ShPk`, whose format is the text of its four bytes without leading and trailing zero
/// characters; then, one after the other, the vertex shaders, the pixel shaders, the material
/// parameters, their defaults, the scalar, sampler, texture and UAV parameters, the system,
/// scene and material keys, the defaults of the two subview keys, the nodes and the node
/// aliases. `None` where `b` ends before one of them, a string is not valid UTF-8, or the
/// number of defaults is negative.
pub open spec fn shader_package_of(b: Seq<u8>) -> Option<ShaderPackageView> {
    if b.len() < SHPK_HEADER_SIZE || u32_le(b, 0) != SHPK_MAGIC || !valid_utf8(b.subrange(8, 12)) {
        None
    } else {
        let sdo = u32_le(b, 16);
        let strings = u32_le(b, 20);
        let vertex_shader_count = u32_le(b, 24);
        let pixel_shader_count = u32_le(b, 28);
        let material_parameters_size = u32_le(b, 32);
        let material_parameter_count = u16_le(b, 36);
        let has_mat_param_defaults = u16_le(b, 38);
        let scalar_parameter_count = u16_le(b, 40);
        let sampler_count = u16_le(b, 44);
        let texture_count = u16_le(b, 46);
        let uav_count = u16_le(b, 48);
        let system_key_count = u32_le(b, 52);
        let scene_key_count = u32_le(b, 56);
        let material_key_count = u32_le(b, 60);
        let node_count = u32_le(b, 64);
        let node_alias_count = u32_le(b, 68);
        let rp = parameter_reader(b, strings);
        match defaults_count(material_parameters_size, has_mat_param_defaults) {
            None => None,
            Some(dc) => match items_at(72, vertex_shader_count as nat, shader_reader(b, sdo, strings, true)) {
                None => None,
                Some((vertex_shaders, q1)) => match items_at(q1, pixel_shader_count as nat, shader_reader(b, sdo, strings, false)) {
                    None => None,
                    Some((pixel_shaders, q2)) => match items_at(q2, material_parameter_count as nat, material_parameter_reader(b)) {
                        None => None,
                        Some((material_parameters, q3)) => match items_at(q3, dc, word_reader(b)) {
                            None => None,
                            Some((mat_param_defaults, q4)) => match items_at(q4, scalar_parameter_count as nat, rp) {
                                None => None,
                                Some((scalar_parameters, q5)) => match items_at(q5, sampler_count as nat, rp) {
                                    None => None,
                                    Some((sampler_parameters, q6)) => match items_at(q6, texture_count as nat, rp) {
                                        None => None,
                                        Some((texture_parameters, q7)) => match items_at(q7, uav_count as nat, rp) {
                                            None => None,
                                            Some((uav_parameters, q8)) => match items_at(q8, system_key_count as nat, key_reader(b)) {
                                                None => None,
                                                Some((system_keys, q9)) => match items_at(q9, scene_key_count as nat, key_reader(b)) {
                                                    None => None,
                                                    Some((scene_keys, q10)) => match items_at(q10, material_key_count as nat, key_reader(b)) {
                                                        None => None,
                                                        Some((material_keys, q11)) => match items_at(q11, 2, word_reader(b)) {
                                                            None => None,
                                                            Some((subview_defaults, q12)) => match items_at(q12, node_count as nat, node_reader(b, system_key_count, scene_key_count, material_key_count)) {
                                                                None => None,
                                                                Some((nodes, q13)) => match items_at(q13, node_alias_count as nat, alias_reader(b)) {
                                                                    None => None,
                                                                    Some((node_aliases, _q14)) => Some(ShaderPackageView {
                                                                        version: u32_le(b, 4),
                                                                        format: trim_nul_end(trim_nul_start(decode_utf8(b.subrange(8, 12)))),
                                                                        file_length: u32_le(b, 12),
                                                                        shader_data_offset: sdo,
                                                                        strings_offset: strings,
                                                                        vertex_shader_count,
                                                                        pixel_shader_count,
                                                                        material_parameters_size,
                                                                        material_parameter_count,
                                                                        has_mat_param_defaults,
                                                                        scalar_parameter_count,
                                                                        sampler_count,
                                                                        texture_count,
                                                                        uav_count,
                                                                        system_key_count,
                                                                        scene_key_count,
                                                                        material_key_count,
                                                                        node_count,
                                                                        node_alias_count,
                                                                        vertex_shaders,
                                                                        pixel_shaders,
                                                                        material_parameters,
                                                                        mat_param_defaults,
                                                                        scalar_parameters,
                                                                        sampler_parameters,
                                                                        texture_parameters,
                                                                        uav_parameters,
                                                                        system_keys,
                                                                        scene_keys,
                                                                        material_keys,
                                                                        sub_view_key1_default: subview_defaults[0],
                                                                        sub_view_key2_default: subview_defaults[1],
                                                                        nodes,
                                                                        node_selectors: selectors_of(nodes, node_aliases),
                                                                        node_aliases,
                                                                    }),
                                                                },
                                                            },
                                                        },
                                                    },
                                                },
                                            },
                                        },
                                    },
                                },
                            },
                        },
                    },
                },
            },
        }
    }
}

impl View for ShaderPackage {
    type V = ShaderPackageView;

    closed spec fn view(&self) -> ShaderPackageView {
        ShaderPackageView {
            version: self.version,
            format: self.format@,
            file_length: self.file_length,
            shader_data_offset: self.shader_data_offset,
            strings_offset: self.strings_offset,
            vertex_shader_count: self.vertex_shader_count,
            pixel_shader_count: self.pixel_shader_count,
            material_parameters_size: self.material_parameters_size,
            material_parameter_count: self.material_parameter_count,
            has_mat_param_defaults: self.has_mat_param_defaults,
            scalar_parameter_count: self.scalar_parameter_count,
            sampler_count: self.sampler_count,
            texture_count: self.texture_count,
            uav_count: self.uav_count,
            system_key_count: self.system_key_count,
            scene_key_count: self.scene_key_count,
            material_key_count: self.material_key_count,
            node_count: self.node_count,
            node_alias_count: self.node_alias_count,
            vertex_shaders: shader_views(self.vertex_shaders@),
            pixel_shaders: shader_views(self.pixel_shaders@),
            material_parameters: self.material_parameters@,
            mat_param_defaults: self.mat_param_defaults@,
            scalar_parameters: parameter_views(self.scalar_parameters@),
            sampler_parameters: parameter_views(self.sampler_parameters@),
            texture_parameters: parameter_views(self.texture_parameters@),
            uav_parameters: parameter_views(self.uav_parameters@),
            system_keys: self.system_keys@,
            scene_keys: self.scene_keys@,
            material_keys: self.material_keys@,
            sub_view_key1_default: self.sub_view_key1_default,
            sub_view_key2_default: self.sub_view_key2_default,
            nodes: node_views(self.nodes@),
            node_selectors: self.node_selectors@,
            node_aliases: self.node_aliases@,
        }
    }
}


impl ShaderPackage {
    /// Reads an existing shader package; see `shader_package_of`. Its node selectors are each
    /// node's own selector, then each alias's.
    #[verifier::rlimit(40)]
    pub fn from_existing(buffer: &[u8]) -> (r: Option<ShaderPackage>)
        ensures
            match r {
                Some(p) => shader_package_of(buffer@) == Some(p@),
                None => shader_package_of(buffer@) is None,
            },
    {
        let b = buffer;
        if b.len() < SHPK_HEADER_SIZE || read_u32_le(b, 0) != SHPK_MAGIC {
            return None;
        }
        let format_text = match text_from_utf8(bytes_in(b, 8, 12)) {
            Some(t) => t,
            None => return None,
        };
        let format = string_from_chars(&trim_nul_chars(&chars_of(format_text.as_str())));
        let shader_data_offset = read_u32_le(b, 16);
        let strings_offset = read_u32_le(b, 20);
        let vertex_shader_count = read_u32_le(b, 24);
        let pixel_shader_count = read_u32_le(b, 28);
        let material_parameters_size = read_u32_le(b, 32);
        let material_parameter_count = read_u16_le(b, 36);
        let has_mat_param_defaults = read_u16_le(b, 38);
        let scalar_parameter_count = read_u16_le(b, 40);
        let sampler_count = read_u16_le(b, 44);
        let texture_count = read_u16_le(b, 46);
        let uav_count = read_u16_le(b, 48);
        let system_key_count = read_u32_le(b, 52);
        let scene_key_count = read_u32_le(b, 56);
        let material_key_count = read_u32_le(b, 60);
        let node_count = read_u32_le(b, 64);
        let node_alias_count = read_u32_le(b, 68);
        let defaults: u32 = if has_mat_param_defaults != 1 {
            0
        } else if material_parameters_size < 0x8000_0000 {
            material_parameters_size / 4
        } else {
            return None;
        };
        let (vertex_shaders, q1) = match read_shaders(
            b,
            SHPK_HEADER_SIZE,
            vertex_shader_count,
            shader_data_offset,
            strings_offset,
            true,
        ) {
            Some(x) => x,
            None => return None,
        };
        let (pixel_shaders, q2) = match read_shaders(
            b,
            q1,
            pixel_shader_count,
            shader_data_offset,
            strings_offset,
            false,
        ) {
            Some(x) => x,
            None => return None,
        };
        let (material_parameters, q3) = match read_material_parameters(b, q2, material_parameter_count) {
            Some(x) => x,
            None => return None,
        };
        let (mat_param_defaults, q4) = match read_words(b, q3, defaults) {
            Some(x) => x,
            None => return None,
        };
        let (scalar_parameters, q5) = match read_parameters(b, q4, scalar_parameter_count, strings_offset) {
            Some(x) => x,
            None => return None,
        };
        let (sampler_parameters, q6) = match read_parameters(b, q5, sampler_count, strings_offset) {
            Some(x) => x,
            None => return None,
        };
        let (texture_parameters, q7) = match read_parameters(b, q6, texture_count, strings_offset) {
            Some(x) => x,
            None => return None,
        };
        let (uav_parameters, q8) = match read_parameters(b, q7, uav_count, strings_offset) {
            Some(x) => x,
            None => return None,
        };
        let (system_keys, q9) = match read_keys(b, q8, system_key_count) {
            Some(x) => x,
            None => return None,
        };
        let (scene_keys, q10) = match read_keys(b, q9, scene_key_count) {
            Some(x) => x,
            None => return None,
        };
        let (material_keys, q11) = match read_keys(b, q10, material_key_count) {
            Some(x) => x,
            None => return None,
        };
        let (subview_defaults, q12) = match read_words(b, q11, 2) {
            Some(x) => x,
            None => return None,
        };
        proof {
            lemma_items_len(q11 as int, 2, word_reader(b@));
        }
        let (nodes, q13) = match read_nodes(
            b,
            q12,
            node_count,
            system_key_count,
            scene_key_count,
            material_key_count,
        ) {
            Some(x) => x,
            None => return None,
        };
        let (node_aliases, _q14) = match read_aliases(b, q13, node_alias_count) {
            Some(x) => x,
            None => return None,
        };
        let mut node_selectors: Vec<(u32, u32)> = Vec::new();
        let mut i: usize = 0;
        while i < nodes.len()
            invariant
                i <= nodes@.len(),
                node_selectors@ == Seq::new(
                    i as nat,
                    |j: int| (node_views(nodes@)[j].selector, j as u32),
                ),
            decreases nodes@.len() - i,
        {
            node_selectors.push((nodes[i].selector, i as u32));
            i = i + 1;
            assert(node_selectors@ =~= Seq::new(
                i as nat,
                |j: int| (node_views(nodes@)[j].selector, j as u32),
            ));
        }
        let ghost own = node_selectors@;
        let mut k: usize = 0;
        while k < node_aliases.len()
            invariant
                k <= node_aliases@.len(),
                node_selectors@ == own + Seq::new(k as nat, |j: int| alias_pair(node_aliases@[j])),
            decreases node_aliases@.len() - k,
        {
            let a = node_aliases[k];
            node_selectors.push((a.selector, a.node));
            k = k + 1;
            assert(node_selectors@ =~= own + Seq::new(
                k as nat,
                |j: int| alias_pair(node_aliases@[j]),
            ));
        }
        assert(node_selectors@ =~= selectors_of(node_views(nodes@), node_aliases@));
        let sub_view_key1_default = subview_defaults[0];
        let sub_view_key2_default = subview_defaults[1];
        Some(
            ShaderPackage {
                version: read_u32_le(b, 4),
                format,
                file_length: read_u32_le(b, 12),
                shader_data_offset,
                strings_offset,
                vertex_shader_count,
                pixel_shader_count,
                material_parameters_size,
                material_parameter_count,
                has_mat_param_defaults,
                scalar_parameter_count,
                sampler_count,
                texture_count,
                uav_count,
                system_key_count,
                scene_key_count,
                material_key_count,
                node_count,
                node_alias_count,
                vertex_shaders,
                pixel_shaders,
                material_parameters,
                mat_param_defaults,
                scalar_parameters,
                sampler_parameters,
                texture_parameters,
                uav_parameters,
                system_keys,
                scene_keys,
                material_keys,
                sub_view_key1_default,
                sub_view_key2_default,
                nodes,
                node_selectors,
                node_aliases,
            },
        )
    }
}

/// What `items_at` reads has as many items as were asked for.
pub proof fn lemma_items_len<T>(p: int, count: nat, item: spec_fn(int) -> Option<(T, int)>)
    ensures
        items_at(p, count, item) matches Some((v, _)) ==> v.len() == count,
    decreases count,
{
    if count > 0 {
        lemma_items_len(p, (count - 1) as nat, item);
    }
}

} // verus!
