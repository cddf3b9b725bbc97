//! Vertex declarations: which data each vertex of a model holds, and how a model file stores
//! that.
use vstd::prelude::*;
use crate::bytes::push_zeros;

verus! {

/// The size of a stored vertex element.
pub const VERTEX_ELEMENT_SIZE: usize = 8;

/// How many bytes a stored vertex declaration takes: room for every vertex element.
pub const DECLARATION_SIZE: usize = 136;

/// The stream number that ends the elements of a vertex declaration.
pub const END_OF_STREAM: u8 = 0xFF;

/// The type of the data of a vertex element.
#[derive(Copy, Clone, Debug, PartialEq, Eq, Structural)]
pub enum VertexType {
    /// 1 32-bit float
    Single1,
    /// 2 32-bit floats
    Single2,
    /// 3 32-bit floats
    Single3,
    /// 4 32-bit floats
    Single4,
    /// 4 bytes
    Byte4,
    /// 2 16-bit signed integers
    Short2,
    /// 4 16-bit signed integers
    Short4,
    /// 4 8-bit floats
    ByteFloat4,
    /// Duplicate of Short2?
    Short2n,
    /// Duplicate of Short4?
    Short4n,
    /// 2 16-bit floats
    Half2,
    /// 4 16-bit floats
    Half4,
    /// 2 16-bit unsigned integers
    UnsignedShort2,
    /// 4 16-bit unsigned integers
    UnsignedShort4,
}

/// What a vertex element is used for.
#[derive(Copy, Clone, Debug, PartialEq, Eq, Structural)]
pub enum VertexUsage {
    /// The position.
    Position,
    /// The blend weights.
    BlendWeights,
    /// The blend indices.
    BlendIndices,
    /// The normal.
    Normal,
    /// Texture coordinates.
    UV,
    /// The tangent.
    Tangent,
    /// The bitangent.
    BiTangent,
    /// The color.
    Color,
}

/// One datum of each vertex: where it is and what it is.
#[derive(Copy, Clone, Debug, PartialEq, Eq, Structural)]
pub struct VertexElement {
    /// The vertex stream it is in.
    pub stream: u8,
    /// Where it is in a vertex of that stream.
    pub offset: u8,
    /// The type of its data.
    pub vertex_type: VertexType,
    /// What it is used for.
    pub vertex_usage: VertexUsage,
    /// Which one of its usage it is.
    pub usage_index: u8,
}

/// The elements of each vertex of a mesh.
#[derive(Clone, Debug, PartialEq)]
pub struct VertexDeclaration {
    /// The elements, in order.
    pub elements: Vec<VertexElement>,
}

/// The number that stands for a vertex type in a file.
pub open spec fn vertex_type_number(t: VertexType) -> u8 {
    match t {
        VertexType::Single1 => 0,
        VertexType::Single2 => 1,
        VertexType::Single3 => 2,
        VertexType::Single4 => 3,
        VertexType::Byte4 => 5,
        VertexType::Short2 => 6,
        VertexType::Short4 => 7,
        VertexType::ByteFloat4 => 8,
        VertexType::Short2n => 9,
        VertexType::Short4n => 10,
        VertexType::Half2 => 13,
        VertexType::Half4 => 14,
        VertexType::UnsignedShort2 => 16,
        VertexType::UnsignedShort4 => 17,
    }
}

/// The vertex type that `n` stands for in a file, if any.
pub open spec fn vertex_type_of(n: u8) -> Option<VertexType> {
    if n == 0 { Some(VertexType::Single1) }
    else if n == 1 { Some(VertexType::Single2) }
    else if n == 2 { Some(VertexType::Single3) }
    else if n == 3 { Some(VertexType::Single4) }
    else if n == 5 { Some(VertexType::Byte4) }
    else if n == 6 { Some(VertexType::Short2) }
    else if n == 7 { Some(VertexType::Short4) }
    else if n == 8 { Some(VertexType::ByteFloat4) }
    else if n == 9 { Some(VertexType::Short2n) }
    else if n == 10 { Some(VertexType::Short4n) }
    else if n == 13 { Some(VertexType::Half2) }
    else if n == 14 { Some(VertexType::Half4) }
    else if n == 16 { Some(VertexType::UnsignedShort2) }
    else if n == 17 { Some(VertexType::UnsignedShort4) }
    else { None }
}

/// The number that stands for a vertex usage in a file.
pub open spec fn vertex_usage_number(u: VertexUsage) -> u8 {
    match u {
        VertexUsage::Position => 0,
        VertexUsage::BlendWeights => 1,
        VertexUsage::BlendIndices => 2,
        VertexUsage::Normal => 3,
        VertexUsage::UV => 4,
        VertexUsage::Tangent => 5,
        VertexUsage::BiTangent => 6,
        VertexUsage::Color => 7,
    }
}

/// The vertex usage that `n` stands for in a file, if any.
pub open spec fn vertex_usage_of(n: u8) -> Option<VertexUsage> {
    if n == 0 { Some(VertexUsage::Position) }
    else if n == 1 { Some(VertexUsage::BlendWeights) }
    else if n == 2 { Some(VertexUsage::BlendIndices) }
    else if n == 3 { Some(VertexUsage::Normal) }
    else if n == 4 { Some(VertexUsage::UV) }
    else if n == 5 { Some(VertexUsage::Tangent) }
    else if n == 6 { Some(VertexUsage::BiTangent) }
    else if n == 7 { Some(VertexUsage::Color) }
    else { None }
}

/// How a vertex element is stored: stream, offset, type, usage and usage index, then three
/// bytes of padding.
pub open spec fn element_bytes(e: VertexElement) -> Seq<u8> {
    seq![
        e.stream,
        e.offset,
        vertex_type_number(e.vertex_type),
        vertex_usage_number(e.vertex_usage),
        e.usage_index,
        0u8,
        0u8,
        0u8,
    ]
}

/// The vertex element stored at `i`: `None` where `b` ends within its five bytes of data or
/// they hold no known type or usage. The padding after them may lie past the end.
pub open spec fn element_at(b: Seq<u8>, i: int) -> Option<VertexElement> {
    if i < 0 || i + 5 > b.len() {
        None
    } else {
        match (vertex_type_of(b[i + 2]), vertex_usage_of(b[i + 3])) {
            (Some(t), Some(u)) => Some(
                VertexElement {
                    stream: b[i],
                    offset: b[i + 1],
                    vertex_type: t,
                    vertex_usage: u,
                    usage_index: b[i + 4],
                },
            ),
            _ => None,
        }
    }
}

/// The elements stored from `i` on, up to the one whose stream ends the declaration.
pub open spec fn elements_until_end(b: Seq<u8>, i: int) -> Option<Seq<VertexElement>>
    decreases b.len() + 8 - i,
{
    if i < 0 || i + 5 > b.len() {
        None
    } else {
        match element_at(b, i) {
            None => None,
            Some(e) => if e.stream == END_OF_STREAM {
                Some(seq![])
            } else {
                match elements_until_end(b, i + 8) {
                    Some(rest) => Some(seq![e] + rest),
                    None => None,
                }
            },
        }
    }
}

/// The elements of the vertex declaration stored at `i`: the first element whatever its
/// stream, then the elements up to the one that ends the declaration.
pub open spec fn declaration_at(b: Seq<u8>, i: int) -> Option<Seq<VertexElement>> {
    match element_at(b, i) {
        None => None,
        Some(first) => match elements_until_end(b, i + 8) {
            Some(rest) => Some(seq![first] + rest),
            None => None,
        },
    }
}

/// The `count` vertex declarations stored from `i` on, each in a block of its own.
pub open spec fn declarations_at(b: Seq<u8>, i: int, count: nat) -> Option<Seq<Seq<VertexElement>>>
    decreases count,
{
    if count == 0 {
        Some(seq![])
    } else {
        match declaration_at(b, i) {
            None => None,
            Some(d) => match declarations_at(b, i + DECLARATION_SIZE, (count - 1) as nat) {
                Some(rest) => Some(seq![d] + rest),
                None => None,
            },
        }
    }
}

/// Whether each of the `count` declarations stored from `i` on that can be read fits its
/// block, which holds sixteen elements and the end marker.
pub open spec fn declarations_fit(b: Seq<u8>, i: int, count: nat) -> bool
    decreases count,
{
    count == 0 || match declaration_at(b, i) {
        None => true,
        Some(d) => d.len() <= 16 && declarations_fit(b, i + DECLARATION_SIZE, (count - 1) as nat),
    }
}

/// The elements of each declaration.
pub open spec fn declaration_views(ds: Seq<VertexDeclaration>) -> Seq<Seq<VertexElement>> {
    Seq::new(ds.len(), |k: int| ds[k].elements@)
}

/// The stored elements of a declaration.
pub open spec fn elements_bytes(es: Seq<VertexElement>) -> Seq<u8>
    decreases es.len(),
{
    if es.len() == 0 {
        seq![]
    } else {
        elements_bytes(es.drop_last()) + element_bytes(es.last())
    }
}

/// The element that ends a declaration.
pub open spec fn end_element() -> VertexElement {
    VertexElement {
        stream: END_OF_STREAM,
        offset: 0,
        vertex_type: VertexType::Single1,
        vertex_usage: VertexUsage::Position,
        usage_index: 0,
    }
}

/// How a declaration of at most sixteen elements is stored: its elements, the end marker,
/// then zeros to the end of its block.
pub open spec fn declaration_bytes(es: Seq<VertexElement>) -> Seq<u8> {
    elements_bytes(es) + element_bytes(end_element()) + Seq::new(
        ((16 - es.len()) * 8) as nat,
        |k: int| 0u8,
    )
}

/// How declarations are stored, one after the other.
pub open spec fn declarations_bytes(ds: Seq<Seq<VertexElement>>) -> Seq<u8>
    decreases ds.len(),
{
    if ds.len() == 0 {
        seq![]
    } else {
        declarations_bytes(ds.drop_last()) + declaration_bytes(ds.last())
    }
}

impl VertexType {
    /// The number that stands for this type in a file.
    pub fn number(&self) -> (r: u8)
        ensures
            r == vertex_type_number(*self),
    {
        match self {
            VertexType::Single1 => 0,
            VertexType::Single2 => 1,
            VertexType::Single3 => 2,
            VertexType::Single4 => 3,
            VertexType::Byte4 => 5,
            VertexType::Short2 => 6,
            VertexType::Short4 => 7,
            VertexType::ByteFloat4 => 8,
            VertexType::Short2n => 9,
            VertexType::Short4n => 10,
            VertexType::Half2 => 13,
            VertexType::Half4 => 14,
            VertexType::UnsignedShort2 => 16,
            VertexType::UnsignedShort4 => 17,
        }
    }

    /// The type that `n` stands for in a file, if any.
    pub fn from_number(n: u8) -> (r: Option<VertexType>)
        ensures
            r == vertex_type_of(n),
    {
        match n {
            0 => Some(VertexType::Single1),
            1 => Some(VertexType::Single2),
            2 => Some(VertexType::Single3),
            3 => Some(VertexType::Single4),
            5 => Some(VertexType::Byte4),
            6 => Some(VertexType::Short2),
            7 => Some(VertexType::Short4),
            8 => Some(VertexType::ByteFloat4),
            9 => Some(VertexType::Short2n),
            10 => Some(VertexType::Short4n),
            13 => Some(VertexType::Half2),
            14 => Some(VertexType::Half4),
            16 => Some(VertexType::UnsignedShort2),
            17 => Some(VertexType::UnsignedShort4),
            _ => None,
        }
    }
}

impl VertexUsage {
    /// The number that stands for this usage in a file.
    pub fn number(&self) -> (r: u8)
        ensures
            r == vertex_usage_number(*self),
    {
        match self {
            VertexUsage::Position => 0,
            VertexUsage::BlendWeights => 1,
            VertexUsage::BlendIndices => 2,
            VertexUsage::Normal => 3,
            VertexUsage::UV => 4,
            VertexUsage::Tangent => 5,
            VertexUsage::BiTangent => 6,
            VertexUsage::Color => 7,
        }
    }

    /// The usage that `n` stands for in a file, if any.
    pub fn from_number(n: u8) -> (r: Option<VertexUsage>)
        ensures
            r == vertex_usage_of(n),
    {
        match n {
            0 => Some(VertexUsage::Position),
            1 => Some(VertexUsage::BlendWeights),
            2 => Some(VertexUsage::BlendIndices),
            3 => Some(VertexUsage::Normal),
            4 => Some(VertexUsage::UV),
            5 => Some(VertexUsage::Tangent),
            6 => Some(VertexUsage::BiTangent),
            7 => Some(VertexUsage::Color),
            _ => None,
        }
    }
}

/// Reads the vertex element stored at `i`.
pub fn read_element(b: &[u8], i: usize) -> (r: Option<VertexElement>)
    ensures
        r == element_at(b@, i as int),
{
    if i > b.len() || b.len() - i < 5 {
        return None;
    }
    match (VertexType::from_number(b[i + 2]), VertexUsage::from_number(b[i + 3])) {
        (Some(t), Some(u)) => Some(
            VertexElement {
                stream: b[i],
                offset: b[i + 1],
                vertex_type: t,
                vertex_usage: u,
                usage_index: b[i + 4],
            },
        ),
        _ => None,
    }
}

/// Appends the stored form of `e`.
pub fn write_element(out: &mut Vec<u8>, e: &VertexElement)
    ensures
        final(out)@ == old(out)@ + element_bytes(*e),
{
    out.push(e.stream);
    out.push(e.offset);
    out.push(e.vertex_type.number());
    out.push(e.vertex_usage.number());
    out.push(e.usage_index);
    out.push(0u8);
    out.push(0u8);
    out.push(0u8);
    assert(final(out)@ =~= old(out)@ + element_bytes(*e));
}

/// Reads `count` vertex declarations stored from `pos` on, each in a block of its own, and
/// gives them with the position after their blocks; `None` where one cannot be read.
pub fn vertex_element_parser(b: &[u8], pos: usize, count: u16) -> (r: Option<
    (Vec<VertexDeclaration>, usize),
>)
    requires
        b@.len() <= isize::MAX,
        pos <= b@.len(),
        declarations_fit(b@, pos as int, count as nat),
    ensures
        r is Some <==> declarations_at(b@, pos as int, count as nat) is Some,
        r matches Some((ds, next)) ==> Some(declaration_views(ds@)) == declarations_at(
            b@,
            pos as int,
            count as nat,
        ) && next == pos + DECLARATION_SIZE * count,
{
    let mut out: Vec<VertexDeclaration> = Vec::new();
    let mut i: usize = pos;
    let mut k: u16 = 0;
    while k < count
        invariant
            k <= count,
            b@.len() <= isize::MAX,
            i == pos + DECLARATION_SIZE * k,
            i <= b@.len() + DECLARATION_SIZE,
            declarations_fit(b@, i as int, (count - k) as nat),
            declarations_at(b@, pos as int, count as nat) == match declarations_at(
                b@,
                i as int,
                (count - k) as nat,
            ) {
                Some(rest) => Some(declaration_views(out@) + rest),
                None => None,
            },
        decreases count - k,
    {
        proof {
            reveal_with_fuel(declarations_at, 2);
        }
        if i > b.len() {
            return None;
        }
        let first = match read_element(b, i) {
            Some(e) => e,
            None => return None,
        };
        let mut elements: Vec<VertexElement> = Vec::new();
        elements.push(first);
        let mut j: usize = i + 8;
        loop
            invariant_except_break
                j <= b@.len() + 8,
            invariant
                i <= b@.len(),
                b@.len() <= isize::MAX,
                j > i,
                k < count,
                declarations_at(b@, pos as int, count as nat) == match declarations_at(
                    b@,
                    i as int,
                    (count - k) as nat,
                ) {
                    Some(rest) => Some(declaration_views(out@) + rest),
                    None => None,
                },
                declaration_at(b@, i as int) == match elements_until_end(b@, j as int) {
                    Some(rest) => Some(elements@ + rest),
                    None => None,
                },
            ensures
                declaration_at(b@, i as int) == Some(elements@),
            decreases b@.len() + 8 - j,
        {
            let e = match read_element(b, j) {
                Some(e) => e,
                None => {
                    proof {
                        reveal_with_fuel(declarations_at, 2);
                    }
                    return None;
                },
            };
            if e.stream == END_OF_STREAM {
                assert(elements@ + seq![] =~= elements@);
                break;
            }
            let ghost before = elements@;
            elements.push(e);
            proof {
                match elements_until_end(b@, j + 8) {
                    Some(rest) => assert(before + (seq![e] + rest) =~= elements@ + rest),
                    None => {},
                }
            }
            j = j + 8;
        }
        let ghost d = elements@;
        let ghost before = out@;
        out.push(VertexDeclaration { elements });
        proof {
            assert(declaration_views(out@) =~= declaration_views(before).push(d));
            match declarations_at(b@, i + DECLARATION_SIZE, (count - k - 1) as nat) {
                Some(rest) => assert(declaration_views(before) + (seq![d] + rest) =~= declaration_views(
                    out@,
                ) + rest),
                None => {},
            }
        }
        i = i + DECLARATION_SIZE;
        k = k + 1;
    }
    assert(declaration_views(out@) + seq![] =~= declaration_views(out@));
    Some((out, i))
}

/// Appends the stored form of each declaration: its elements, the end marker, then zeros to
/// the end of its block.
pub fn vertex_element_writer(out: &mut Vec<u8>, declarations: &Vec<VertexDeclaration>)
    requires
        forall|k: int|
            0 <= k < declarations@.len() ==> (#[trigger] declarations@[k]).elements@.len() <= 16,
    ensures
        final(out)@ == old(out)@ + declarations_bytes(declaration_views(declarations@)),
{
    let mut k: usize = 0;
    while k < declarations.len()
        invariant
            k <= declarations@.len(),
            forall|m: int|
                0 <= m < declarations@.len() ==> (#[trigger] declarations@[m]).elements@.len()
                    <= 16,
            out@ == old(out)@ + declarations_bytes(declaration_views(declarations@.take(k as int))),
        decreases declarations@.len() - k,
    {
        let ghost start = out@;
        let elements = &declarations[k].elements;
        let mut m: usize = 0;
        while m < elements.len()
            invariant
                m <= elements@.len(),
                out@ == start + elements_bytes(elements@.take(m as int)),
            decreases elements@.len() - m,
        {
            write_element(out, &elements[m]);
            assert(elements@.take(m + 1).drop_last() =~= elements@.take(m as int));
            m = m + 1;
        }
        assert(elements@.take(m as int) =~= elements@);
        write_element(
            out,
            &VertexElement {
                stream: END_OF_STREAM,
                offset: 0,
                vertex_type: VertexType::Single1,
                vertex_usage: VertexUsage::Position,
                usage_index: 0,
            },
        );
        push_zeros(out, (16 - elements.len()) * 8);
        proof {
            let views_next = declaration_views(declarations@.take(k + 1));
            assert(views_next.drop_last() =~= declaration_views(declarations@.take(k as int)));
            assert(views_next.last() == elements@);
            assert(out@ =~= old(out)@ + declarations_bytes(views_next));
        }
        k = k + 1;
    }
    assert(declarations@.take(k as int) =~= declarations@);
}


/// A vertex element reads back from where it was stored.
proof fn lemma_element_read(b: Seq<u8>, p: int, e: VertexElement)
    requires
        0 <= p,
        p + 8 <= b.len(),
        b.subrange(p, p + 8) == element_bytes(e),
    ensures
        element_at(b, p) == Some(e),
{
    assert forall|j: int| 0 <= j < 5 implies b[p + j] == #[trigger] element_bytes(e)[j] by {
        assert(b.subrange(p, p + 8)[j] == b[p + j]);
    }
    assert(vertex_type_of(vertex_type_number(e.vertex_type)) == Some(e.vertex_type));
    assert(vertex_usage_of(vertex_usage_number(e.vertex_usage)) == Some(e.vertex_usage));
}

/// The stored elements take eight bytes each, element `k` at `8 * k`.
proof fn lemma_elements_bytes(es: Seq<VertexElement>, k: int)
    requires
        0 <= k < es.len(),
    ensures
        elements_bytes(es).len() == 8 * es.len(),
        elements_bytes(es).subrange(8 * k, 8 * k + 8) == element_bytes(es[k]),
    decreases es.len(),
{
    lemma_elements_len(es);
    lemma_elements_len(es.drop_last());
    if k < es.len() - 1 {
        lemma_elements_bytes(es.drop_last(), k);
        assert(elements_bytes(es).subrange(8 * k, 8 * k + 8) =~= elements_bytes(
            es.drop_last(),
        ).subrange(8 * k, 8 * k + 8));
    } else {
        assert(elements_bytes(es).subrange(8 * k, 8 * k + 8) =~= element_bytes(es.last()));
    }
}

/// The stored elements take eight bytes each.
proof fn lemma_elements_len(es: Seq<VertexElement>)
    ensures
        elements_bytes(es).len() == 8 * es.len(),
    decreases es.len(),
{
    if es.len() > 0 {
        lemma_elements_len(es.drop_last());
    }
}

/// A stored declaration of at most sixteen elements takes a block of 136 bytes: its
/// elements, then the end marker at `8` times their number.
proof fn lemma_declaration_bytes(es: Seq<VertexElement>)
    requires
        es.len() <= 16,
    ensures
        declaration_bytes(es).len() == DECLARATION_SIZE,
        declaration_bytes(es).subrange(8 * es.len() as int, 8 * es.len() as int + 8) == element_bytes(
            end_element(),
        ),
        forall|k: int|
            0 <= k < es.len() ==> declaration_bytes(es).subrange(8 * k, 8 * k + 8)
                == element_bytes(#[trigger] es[k]),
{
    lemma_elements_len(es);
    let d = declaration_bytes(es);
    let n: int = 8 * es.len() as int;
    assert(d.subrange(n, n + 8) =~= element_bytes(end_element()));
    assert forall|k: int| 0 <= k < es.len() implies d.subrange(8 * k, 8 * k + 8)
        == element_bytes(#[trigger] es[k]) by {
        lemma_elements_bytes(es, k);
        assert(d.subrange(8 * k, 8 * k + 8) =~= elements_bytes(es).subrange(8 * k, 8 * k + 8));
    }
}

/// The elements stored from the `k`-th on, up to the end marker, read back.
proof fn lemma_elements_until_end(b: Seq<u8>, p: int, es: Seq<VertexElement>, k: int)
    requires
        0 <= p,
        1 <= k <= es.len() <= 16,
        p + DECLARATION_SIZE <= b.len(),
        b.subrange(p, p + DECLARATION_SIZE) == declaration_bytes(es),
        forall|j: int| 1 <= j < es.len() ==> (#[trigger] es[j]).stream != END_OF_STREAM,
    ensures
        elements_until_end(b, p + 8 * k) == Some(es.subrange(k, es.len() as int)),
    decreases es.len() - k,
{
    lemma_declaration_bytes(es);
    let d = declaration_bytes(es);
    let q = p + 8 * k;
    if k == es.len() {
        assert(b.subrange(q, q + 8) =~= d.subrange(8 * k, 8 * k + 8));
        lemma_element_read(b, q, end_element());
        assert(es.subrange(k, es.len() as int) =~= seq![]);
    } else {
        assert(d.subrange(8 * k, 8 * k + 8) == element_bytes(es[k]));
        assert(b.subrange(q, q + 8) =~= d.subrange(8 * k, 8 * k + 8));
        lemma_element_read(b, q, es[k]);
        lemma_elements_until_end(b, p, es, k + 1);
        assert(es.subrange(k, es.len() as int) =~= seq![es[k]] + es.subrange(
            k + 1,
            es.len() as int,
        ));
    }
}

/// A stored declaration of one to sixteen elements, all but its first of a stream other than
/// the one that ends a declaration, reads back.
pub(crate) proof fn lemma_declaration_read(b: Seq<u8>, p: int, es: Seq<VertexElement>)
    requires
        0 <= p,
        1 <= es.len() <= 16,
        p + DECLARATION_SIZE <= b.len(),
        b.subrange(p, p + DECLARATION_SIZE) == declaration_bytes(es),
        forall|j: int| 1 <= j < es.len() ==> (#[trigger] es[j]).stream != END_OF_STREAM,
    ensures
        declaration_at(b, p) == Some(es),
{
    lemma_declaration_bytes(es);
    let d = declaration_bytes(es);
    assert(d.subrange(0, 8) == element_bytes(es[0]));
    assert(b.subrange(p, p + 8) =~= d.subrange(0, 8));
    lemma_element_read(b, p, es[0]);
    lemma_elements_until_end(b, p, es, 1);
    assert(seq![es[0]] + es.subrange(1, es.len() as int) =~= es);
}

/// The stored declarations take a block each, declaration `k` at `136 * k`.
pub(crate) proof fn lemma_declarations_bytes(ds: Seq<Seq<VertexElement>>, k: int)
    requires
        0 <= k < ds.len(),
        forall|m: int| 0 <= m < ds.len() ==> (#[trigger] ds[m]).len() <= 16,
    ensures
        declarations_bytes(ds).len() == DECLARATION_SIZE * ds.len(),
        declarations_bytes(ds).subrange(DECLARATION_SIZE * k, DECLARATION_SIZE * k + DECLARATION_SIZE)
            == declaration_bytes(ds[k]),
    decreases ds.len(),
{
    lemma_declarations_len(ds);
    lemma_declarations_len(ds.drop_last());
    let before = declarations_bytes(ds.drop_last());
    let all = declarations_bytes(ds);
    let a = DECLARATION_SIZE * k;
    if k < ds.len() - 1 {
        lemma_declarations_bytes(ds.drop_last(), k);
        assert(all.subrange(a, a + DECLARATION_SIZE) =~= before.subrange(a, a + DECLARATION_SIZE));
    } else {
        lemma_declaration_bytes(ds.last());
        assert(all.subrange(a, a + DECLARATION_SIZE) =~= declaration_bytes(ds.last()));
    }
}

/// The stored declarations take a block each.
pub(crate) proof fn lemma_declarations_len(ds: Seq<Seq<VertexElement>>)
    requires
        forall|m: int| 0 <= m < ds.len() ==> (#[trigger] ds[m]).len() <= 16,
    ensures
        declarations_bytes(ds).len() == DECLARATION_SIZE * ds.len(),
    decreases ds.len(),
{
    if ds.len() > 0 {
        lemma_declarations_len(ds.drop_last());
        lemma_declaration_bytes(ds.last());
    }
}

/// The declarations stored from the `k`-th on read back, and fit their blocks.
proof fn lemma_declarations_from(ds: Seq<Seq<VertexElement>>, k: int)
    requires
        0 <= k <= ds.len(),
        forall|m: int| 0 <= m < ds.len() ==> 1 <= (#[trigger] ds[m]).len() <= 16,
        forall|m: int, j: int|
            0 <= m < ds.len() && 1 <= j < ds[m].len() ==> (#[trigger] ds[m][j]).stream
                != END_OF_STREAM,
    ensures
        declarations_at(declarations_bytes(ds), DECLARATION_SIZE * k, (ds.len() - k) as nat)
            == Some(ds.subrange(k, ds.len() as int)),
        declarations_fit(declarations_bytes(ds), DECLARATION_SIZE * k, (ds.len() - k) as nat),
    decreases ds.len() - k,
{
    let b = declarations_bytes(ds);
    if k == ds.len() {
        assert(ds.subrange(k, ds.len() as int) =~= seq![]);
    } else {
        lemma_declarations_bytes(ds, k);
        let es = ds[k];
        assert forall|j: int| 1 <= j < es.len() implies (#[trigger] es[j]).stream != END_OF_STREAM by {
            assert(ds[k][j] == es[j]);
        }
        lemma_declaration_read(b, DECLARATION_SIZE * k, es);
        lemma_declarations_from(ds, k + 1);
        assert(DECLARATION_SIZE * k + DECLARATION_SIZE == DECLARATION_SIZE * (k + 1));
        assert(ds.subrange(k, ds.len() as int) =~= seq![es] + ds.subrange(k + 1, ds.len() as int));
    }
}

/// Vertex declarations read back from what the writer stores for them are the same, where each
/// has one to sixteen elements and all but its first element have a stream other than the one
/// that ends a declaration; what is read fits the blocks.
pub proof fn law_vertex_declarations_round_trip(ds: Seq<Seq<VertexElement>>)
    requires
        forall|m: int| 0 <= m < ds.len() ==> 1 <= (#[trigger] ds[m]).len() <= 16,
        forall|m: int, j: int|
            0 <= m < ds.len() && 1 <= j < ds[m].len() ==> (#[trigger] ds[m][j]).stream
                != END_OF_STREAM,
    ensures
        declarations_at(declarations_bytes(ds), 0, ds.len()) == Some(ds),
        declarations_fit(declarations_bytes(ds), 0, ds.len()),
{
    lemma_declarations_from(ds, 0);
    assert(ds.subrange(0, ds.len() as int) =~= ds);
}

} // verus!
