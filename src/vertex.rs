use vstd::prelude::*;

verus! {

/// Format of one vertex attribute as the shader reads it.
#[derive(Clone, Copy, Debug, PartialEq, Eq, Structural)]
pub enum AttributeFormat {
    /// Two 32-bit floats.
    Float32x2,
    /// Three 32-bit floats.
    Float32x3,
}

impl AttributeFormat {
    /// Size in bytes of one attribute of this format.
    pub open spec fn size_spec(self) -> nat {
        match self {
            AttributeFormat::Float32x2 => 8,
            AttributeFormat::Float32x3 => 12,
        }
    }

    pub fn byte_size(self) -> (r: u64)
        ensures
            r == self.size_spec(),
    {
        match self {
            AttributeFormat::Float32x2 => 8,
            AttributeFormat::Float32x3 => 12,
        }
    }
}

/// One attribute of a vertex buffer layout.
#[derive(Clone, Copy, Debug, PartialEq, Eq, Structural)]
pub struct VertexAttribute {
    pub format: AttributeFormat,
    /// Byte offset of the attribute inside one vertex.
    pub offset: u64,
    /// Location the shader binds the attribute to.
    pub shader_location: u32,
}

/// Per-vertex buffer layout: the stride between vertices and the attributes
/// inside one vertex.
#[derive(Clone, Debug)]
pub struct VertexLayout {
    pub array_stride: u64,
    pub attributes: Vec<VertexAttribute>,
}

/// Total size of the first `n` formats of `fs`, laid end to end.
pub open spec fn packed_size(fs: Seq<AttributeFormat>, n: int) -> nat
    decreases n,
{
    if n <= 0 {
        0
    } else {
        packed_size(fs, n - 1) + fs[n - 1].size_spec()
    }
}

/// `layout` lays the formats `fs` out tightly, in order: attribute `i` has
/// format `fs[i]`, location `i` and the offset of the sizes before it, and the
/// stride is the size of all of them.
pub open spec fn is_packed_layout(layout: VertexLayout, fs: Seq<AttributeFormat>) -> bool {
    &&& layout.attributes@.len() == fs.len()
    &&& layout.array_stride == packed_size(fs, fs.len() as int)
    &&& forall|i: int|
        #![trigger layout.attributes@[i]]
        0 <= i < fs.len() ==> {
            &&& layout.attributes@[i].format == fs[i]
            &&& layout.attributes@[i].offset == packed_size(fs, i)
            &&& layout.attributes@[i].shader_location == i
        }
}

proof fn lemma_packed_size_bound(fs: Seq<AttributeFormat>, n: int)
    requires
        0 <= n <= fs.len(),
    ensures
        packed_size(fs, n) <= 12 * n,
    decreases n,
{
    if n > 0 {
        lemma_packed_size_bound(fs, n - 1);
    }
}

/// Builds the tightly packed layout of `formats`, one shader location per
/// attribute in order.
pub fn packed_layout(formats: &Vec<AttributeFormat>) -> (r: VertexLayout)
    requires
        formats.len() <= u32::MAX,
    ensures
        is_packed_layout(r, formats@),
{
    let mut attributes: Vec<VertexAttribute> = Vec::new();
    let mut offset: u64 = 0;
    let mut i: usize = 0;
    while i < formats.len()
        invariant
            i <= formats.len() <= u32::MAX,
            attributes@.len() == i,
            offset == packed_size(formats@, i as int),
            forall|j: int|
                #![trigger attributes@[j]]
                0 <= j < i ==> {
                    &&& attributes@[j].format == formats@[j]
                    &&& attributes@[j].offset == packed_size(formats@, j)
                    &&& attributes@[j].shader_location == j
                },
        decreases formats.len() - i,
    {
        proof {
            lemma_packed_size_bound(formats@, i as int);
        }
        let format = formats[i];
        attributes.push(VertexAttribute { format, offset, shader_location: i as u32 });
        offset = offset + format.byte_size();
        i = i + 1;
    }
    VertexLayout { array_stride: offset, attributes }
}

/// Layout of a vertex holding a position and a color: two three-float
/// attributes.
pub fn color_vertex_layout() -> (r: VertexLayout)
    ensures
        is_packed_layout(r, seq![AttributeFormat::Float32x3, AttributeFormat::Float32x3]),
        r.array_stride == 24,
{
    let formats = vec![AttributeFormat::Float32x3, AttributeFormat::Float32x3];
    let r = packed_layout(&formats);
    assert(formats@ =~= seq![AttributeFormat::Float32x3, AttributeFormat::Float32x3]);
    reveal_with_fuel(packed_size, 3);
    r
}

/// Layout of a vertex holding a position and texture coordinates: three
/// floats, then two.
pub fn texture_vertex_layout() -> (r: VertexLayout)
    ensures
        is_packed_layout(r, seq![AttributeFormat::Float32x3, AttributeFormat::Float32x2]),
        r.array_stride == 20,
{
    let formats = vec![AttributeFormat::Float32x3, AttributeFormat::Float32x2];
    let r = packed_layout(&formats);
    assert(formats@ =~= seq![AttributeFormat::Float32x3, AttributeFormat::Float32x2]);
    reveal_with_fuel(packed_size, 3);
    r
}

/// Layout of a vertex holding a position, texture coordinates and a normal.
pub fn model_vertex_layout() -> (r: VertexLayout)
    ensures
        is_packed_layout(
            r,
            seq![AttributeFormat::Float32x3, AttributeFormat::Float32x2, AttributeFormat::Float32x3],
        ),
        r.array_stride == 32,
{
    let formats = vec![
        AttributeFormat::Float32x3,
        AttributeFormat::Float32x2,
        AttributeFormat::Float32x3,
    ];
    let r = packed_layout(&formats);
    assert(formats@ =~= seq![
        AttributeFormat::Float32x3,
        AttributeFormat::Float32x2,
        AttributeFormat::Float32x3,
    ]);
    reveal_with_fuel(packed_size, 4);
    r
}

} // verus!
