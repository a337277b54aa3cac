//! How vertex and instance records lie in their buffers, the grid of
//! instances, and the phase of the rotation.

use vstd::prelude::*;

verus! {

/// Bytes of one 32-bit float.
pub const FLOAT_BYTES: u64 = 4;

/// Instances in one row of the grid; the grid has as many rows.
pub const NUM_INSTANCES_PER_ROW: u32 = 9;

/// Distance between neighbours in the grid, in whole units.
pub const SPACE_BETWEEN: i32 = 3;

/// Steps of the rotation in a full turn: one step is one degree.
pub const STEPS_PER_TURN: u32 = 360;

/// The type of a vertex attribute.
#[derive(Clone, Copy, Debug, PartialEq, Eq, Structural)]
pub enum VertexFormat {
    Float32x2,
    Float32x3,
    Float32x4,
}

/// Whether a buffer advances per vertex or per instance.
#[derive(Clone, Copy, Debug, PartialEq, Eq, Structural)]
pub enum StepMode {
    Vertex,
    Instance,
}

/// One attribute of a record in a vertex buffer.
#[derive(Clone, Copy, Debug, PartialEq, Eq, Structural)]
pub struct VertexAttribute {
    pub offset: u64,
    pub shader_location: u32,
    pub format: VertexFormat,
}

/// The layout of the records of one vertex buffer.
#[derive(Debug)]
pub struct VertexBufferLayout {
    pub array_stride: u64,
    pub step_mode: StepMode,
    pub attributes: Vec<VertexAttribute>,
}

impl VertexFormat {
    /// Bytes of a value of this format.
    pub open spec fn spec_size(self) -> u64 {
        match self {
            VertexFormat::Float32x2 => 8,
            VertexFormat::Float32x3 => 12,
            VertexFormat::Float32x4 => 16,
        }
    }

    /// Bytes of a value of this format.
    #[verifier::when_used_as_spec(spec_size)]
    pub fn size(self) -> (bytes: u64)
        ensures
            bytes == self.spec_size(),
    {
        match self {
            VertexFormat::Float32x2 => 2 * FLOAT_BYTES,
            VertexFormat::Float32x3 => 3 * FLOAT_BYTES,
            VertexFormat::Float32x4 => 4 * FLOAT_BYTES,
        }
    }
}

impl VertexAttribute {
    /// The offset just past this attribute.
    pub open spec fn end(self) -> int {
        self.offset + self.format.spec_size()
    }
}

/// Bytes of a record that holds one value of each of `formats`.
pub open spec fn packed_size(formats: Seq<VertexFormat>) -> int
    decreases formats.len(),
{
    if formats.len() == 0 {
        0
    } else {
        packed_size(formats.drop_last()) + formats.last().spec_size()
    }
}

/// The formats of `attributes`, in order.
pub open spec fn formats_of(attributes: Seq<VertexAttribute>) -> Seq<VertexFormat> {
    attributes.map_values(|a: VertexAttribute| a.format)
}

/// The attributes lie one after another without gap from offset 0 and fill
/// `stride` bytes; their shader locations count up from `first_location`.
pub open spec fn packed_attributes(
    attributes: Seq<VertexAttribute>,
    stride: int,
    first_location: int,
) -> bool {
    &&& forall|i: int|
        0 <= i < attributes.len() ==> (#[trigger] attributes[i]).shader_location == first_location
            + i
    &&& forall|i: int|
        0 <= i < attributes.len() ==> (#[trigger] attributes[i]).offset == packed_size(
            formats_of(attributes).take(i),
        )
    &&& stride == packed_size(formats_of(attributes))
}

/// The attributes that `formats` give when packed from offset 0, with
/// shader locations from `first_location` on.
pub open spec fn pack_formats(formats: Seq<VertexFormat>, first_location: u32) -> Seq<
    VertexAttribute,
> {
    Seq::new(
        formats.len(),
        |i: int|
            VertexAttribute {
                offset: packed_size(formats.take(i)) as u64,
                shader_location: (first_location + i) as u32,
                format: formats[i],
            },
    )
}

/// One more format adds its size to the record.
pub proof fn lemma_packed_size_step(formats: Seq<VertexFormat>, i: int)
    requires
        0 <= i < formats.len(),
    ensures
        packed_size(formats.take(i + 1)) == packed_size(formats.take(i)) + formats[i].spec_size(),
{
    assert(formats.take(i + 1).drop_last() =~= formats.take(i));
    assert(formats.take(i + 1).last() == formats[i]);
}

/// A record grows with every format: the first `i` formats take no more
/// bytes than the first `j`, and a format takes at most 16 bytes.
pub proof fn lemma_packed_size_grows(formats: Seq<VertexFormat>, i: int, j: int)
    requires
        0 <= i <= j <= formats.len(),
    ensures
        0 <= packed_size(formats.take(i)) <= packed_size(formats.take(j)),
        packed_size(formats.take(j)) <= 16 * j,
        i < j ==> packed_size(formats.take(i)) + formats[i].spec_size() <= packed_size(
            formats.take(j),
        ),
    decreases j,
{
    if j == 0 {
        assert(formats.take(0) =~= Seq::<VertexFormat>::empty());
    } else {
        assert(formats.take(j).drop_last() =~= formats.take(j - 1));
        assert(formats.take(j).last() == formats[j - 1]);
        if i < j {
            lemma_packed_size_grows(formats, i, j - 1);
        } else {
            lemma_packed_size_grows(formats, j - 1, j - 1);
        }
    }
}

/// Packing yields a packed record with the given formats.
pub proof fn lemma_pack_formats(formats: Seq<VertexFormat>, first_location: u32)
    requires
        first_location + formats.len() <= u32::MAX,
        16 * formats.len() <= u64::MAX,
    ensures
        formats_of(pack_formats(formats, first_location)) == formats,
        packed_attributes(
            pack_formats(formats, first_location),
            packed_size(formats),
            first_location as int,
        ),
{
    let all = pack_formats(formats, first_location);
    assert(formats_of(all) =~= formats);
    assert forall|i: int| 0 <= i < all.len() implies (#[trigger] all[i]).offset == packed_size(
        formats.take(i),
    ) by {
        lemma_packed_size_grows(formats, i, i);
    }
}

/// In a packed record no two attributes overlap, none reaches past the
/// stride, and no two share a shader location.
pub proof fn lemma_packed_attributes_disjoint(
    attributes: Seq<VertexAttribute>,
    stride: int,
    first_location: int,
    i: int,
    j: int,
)
    requires
        packed_attributes(attributes, stride, first_location),
        0 <= i < j < attributes.len(),
    ensures
        attributes[i].end() <= attributes[j].offset,
        attributes[j].end() <= stride,
        attributes[i].shader_location != attributes[j].shader_location,
{
    let formats = formats_of(attributes);
    lemma_packed_size_grows(formats, i, j);
    lemma_packed_size_grows(formats, j, formats.len() as int);
    assert(formats.take(formats.len() as int) =~= formats);
}

impl VertexBufferLayout {
    /// The record is packed, from the shader location `first_location` on.
    pub open spec fn packed_from(&self, first_location: int) -> bool {
        packed_attributes(self.attributes@, self.array_stride as int, first_location)
    }

    /// Packs one attribute per format into a record.
    pub fn packed(formats: &Vec<VertexFormat>, step_mode: StepMode, first_location: u32) -> (layout:
        Self)
        requires
            first_location + formats@.len() <= u32::MAX,
            16 * formats@.len() <= u64::MAX,
        ensures
            layout.attributes@ == pack_formats(formats@, first_location),
            layout.array_stride == packed_size(formats@),
            layout.step_mode == step_mode,
            layout.packed_from(first_location as int),
    {
        let mut attributes: Vec<VertexAttribute> = Vec::new();
        let mut offset: u64 = 0;
        let mut location: u32 = first_location;
        let mut i: usize = 0;
        proof {
            lemma_packed_size_grows(formats@, 0, 0);
        }
        while i < formats.len()
            invariant
                i <= formats@.len(),
                first_location + formats@.len() <= u32::MAX,
                16 * formats@.len() <= u64::MAX,
                location == first_location + i,
                offset == packed_size(formats@.take(i as int)),
                attributes@.len() == i,
                forall|k: int|
                    0 <= k < i ==> attributes@[k] == pack_formats(formats@, first_location)[k],
            decreases formats@.len() - i,
        {
            let format = formats[i];
            proof {
                lemma_packed_size_step(formats@, i as int);
                lemma_packed_size_grows(formats@, i + 1, i + 1);
            }
            attributes.push(VertexAttribute { offset, shader_location: location, format });
            offset = offset + format.size();
            location = location + 1;
            i += 1;
        }
        proof {
            assert(formats@.take(i as int) =~= formats@);
            assert(attributes@ =~= pack_formats(formats@, first_location));
            lemma_pack_formats(formats@, first_location);
        }
        VertexBufferLayout { array_stride: offset, step_mode, attributes }
    }
}

/// A vertex of a mesh: position, texture coordinates, normal.
pub struct ModelVertex {}

/// The record of one instance: the four columns of its model matrix, then
/// the three columns of its normal matrix.
pub struct InstanceRaw {}

/// First shader location of the instance record; the locations below it
/// belong to the vertex.
pub const INSTANCE_FIRST_LOCATION: u32 = 5;

impl ModelVertex {
    /// The formats of a vertex, in order.
    pub open spec fn formats() -> Seq<VertexFormat> {
        seq![VertexFormat::Float32x3, VertexFormat::Float32x2, VertexFormat::Float32x3]
    }

    /// The layout of the vertex buffer: 32 bytes per vertex, at the shader
    /// locations 0, 1 and 2.
    pub fn desc() -> (layout: VertexBufferLayout)
        ensures
            layout.attributes@ == pack_formats(Self::formats(), 0),
            layout.step_mode == StepMode::Vertex,
            layout.array_stride == 32,
            layout.packed_from(0),
    {
        let mut formats: Vec<VertexFormat> = Vec::new();
        formats.push(VertexFormat::Float32x3);
        formats.push(VertexFormat::Float32x2);
        formats.push(VertexFormat::Float32x3);
        proof {
            assert(formats@ =~= Self::formats());
            lemma_model_vertex_size();
        }
        VertexBufferLayout::packed(&formats, StepMode::Vertex, 0)
    }
}

impl InstanceRaw {
    /// The formats of an instance record, in order.
    pub open spec fn formats() -> Seq<VertexFormat> {
        seq![
            VertexFormat::Float32x4,
            VertexFormat::Float32x4,
            VertexFormat::Float32x4,
            VertexFormat::Float32x4,
            VertexFormat::Float32x3,
            VertexFormat::Float32x3,
            VertexFormat::Float32x3,
        ]
    }

    /// The layout of the instance buffer: 100 bytes per instance, advanced
    /// once per instance, at the shader locations 5 to 11.
    pub fn desc() -> (layout: VertexBufferLayout)
        ensures
            layout.attributes@ == pack_formats(Self::formats(), INSTANCE_FIRST_LOCATION),
            layout.step_mode == StepMode::Instance,
            layout.array_stride == 100,
            layout.packed_from(INSTANCE_FIRST_LOCATION as int),
    {
        let mut formats: Vec<VertexFormat> = Vec::new();
        formats.push(VertexFormat::Float32x4);
        formats.push(VertexFormat::Float32x4);
        formats.push(VertexFormat::Float32x4);
        formats.push(VertexFormat::Float32x4);
        formats.push(VertexFormat::Float32x3);
        formats.push(VertexFormat::Float32x3);
        formats.push(VertexFormat::Float32x3);
        proof {
            assert(formats@ =~= Self::formats());
            lemma_instance_raw_size();
        }
        VertexBufferLayout::packed(&formats, StepMode::Instance, INSTANCE_FIRST_LOCATION)
    }
}

/// A vertex takes 32 bytes.
pub proof fn lemma_model_vertex_size()
    ensures
        packed_size(ModelVertex::formats()) == 32,
{
    let f = ModelVertex::formats();
    assert(f.drop_last() =~= seq![VertexFormat::Float32x3, VertexFormat::Float32x2]);
    assert(f.drop_last().drop_last() =~= seq![VertexFormat::Float32x3]);
    assert(f.drop_last().drop_last().drop_last() =~= Seq::<VertexFormat>::empty());
    reveal_with_fuel(packed_size, 4);
}

/// An instance record takes 100 bytes: sixteen floats of the model matrix
/// and nine of the normal matrix.
pub proof fn lemma_instance_raw_size()
    ensures
        packed_size(InstanceRaw::formats()) == 100,
{
    let f7 = InstanceRaw::formats();
    let f6 = f7.drop_last();
    let f5 = f6.drop_last();
    let f4 = f5.drop_last();
    let f3 = f4.drop_last();
    let f2 = f3.drop_last();
    let f1 = f2.drop_last();
    let f0 = f1.drop_last();
    assert(f0 =~= Seq::<VertexFormat>::empty());
    assert(packed_size(f0) == 0);
    assert(packed_size(f1) == 16);
    assert(packed_size(f2) == 32);
    assert(packed_size(f3) == 48);
    assert(packed_size(f4) == 64);
    assert(packed_size(f5) == 76);
    assert(packed_size(f6) == 88);
}

/// The vertex and the instance record use different shader locations, so
/// one pipeline can read both.
pub proof fn lemma_vertex_and_instance_locations_differ(i: int, j: int)
    requires
        0 <= i < ModelVertex::formats().len(),
        0 <= j < InstanceRaw::formats().len(),
    ensures
        pack_formats(ModelVertex::formats(), 0)[i].shader_location != pack_formats(
            InstanceRaw::formats(),
            INSTANCE_FIRST_LOCATION,
        )[j].shader_location,
{
    lemma_model_vertex_size();
    lemma_instance_raw_size();
    lemma_pack_formats(ModelVertex::formats(), 0);
    lemma_pack_formats(InstanceRaw::formats(), INSTANCE_FIRST_LOCATION);
}

/// One instance of the grid. Its position is given in half units, so that
/// the centre of a grid with an odd count needs no fraction: the instance
/// stands at (`x_halves` / 2, 0, `z_halves` / 2).
#[derive(Clone, Copy, Debug, PartialEq, Eq, Structural)]
pub struct Instance {
    pub x_halves: i32,
    pub z_halves: i32,
    /// Whether the instance is turned by 45 degrees about the direction of
    /// its position. An instance at the origin has no such direction and
    /// stays unturned.
    pub tilted: bool,
}

/// The instance in column `column` of row `row`: the grid is centred on the origin.
pub open spec fn grid_instance(column: int, row: int) -> Instance {
    let x = 3 * (2 * column - 9);
    let z = 3 * (2 * row - 9);
    Instance { x_halves: x as i32, z_halves: z as i32, tilted: !(x == 0 && z == 0) }
}

/// The grid, row by row.
pub open spec fn grid() -> Seq<Instance> {
    Seq::new(81, |i: int| grid_instance(i % 9, i / 9))
}

/// Builds the grid of instances, row by row.
pub fn instance_grid() -> (instances: Vec<Instance>)
    ensures
        instances@ == grid(),
        instances@.len() == NUM_INSTANCES_PER_ROW * NUM_INSTANCES_PER_ROW,
{
    let mut instances: Vec<Instance> = Vec::new();
    let mut row: u32 = 0;
    while row < NUM_INSTANCES_PER_ROW
        invariant
            row <= NUM_INSTANCES_PER_ROW,
            instances@.len() == row * 9,
            forall|i: int| 0 <= i < instances@.len() ==> instances@[i] == grid()[i],
        decreases NUM_INSTANCES_PER_ROW - row,
    {
        let mut column: u32 = 0;
        while column < NUM_INSTANCES_PER_ROW
            invariant
                row < NUM_INSTANCES_PER_ROW,
                column <= NUM_INSTANCES_PER_ROW,
                instances@.len() == row * 9 + column,
                forall|i: int| 0 <= i < instances@.len() ==> instances@[i] == grid()[i],
            decreases NUM_INSTANCES_PER_ROW - column,
        {
            let x: i32 = SPACE_BETWEEN * (2 * (column as i32) - (NUM_INSTANCES_PER_ROW as i32));
            let z: i32 = SPACE_BETWEEN * (2 * (row as i32) - (NUM_INSTANCES_PER_ROW as i32));
            let tilted = !(x == 0 && z == 0);
            proof {
                let i = row * 9 + column;
                assert(i % 9 == column && i / 9 == row);
            }
            instances.push(Instance { x_halves: x, z_halves: z, tilted });
            column += 1;
        }
        row += 1;
    }
    assert(instances@ =~= grid());
    instances
}

/// With an odd count per row no instance stands at the origin, so every
/// instance is turned.
pub proof fn lemma_grid_all_tilted(i: int)
    requires
        0 <= i < 81,
    ensures
        grid()[i].tilted,
        grid()[i].x_halves % 2 != 0,
{
}

/// The next phase of a rotation that advances by one step per frame and
/// starts over after a full turn.
pub open spec fn phase_after(phase: u32) -> u32 {
    ((phase + 1) % 360) as u32
}

/// The rotation, as the count of its steps within the turn.
#[derive(Clone, Copy, Debug, PartialEq, Eq, Structural)]
pub struct RotationUniform {
    pub phase: u32,
}

impl RotationUniform {
    /// The phase lies within one turn.
    pub open spec fn wf(&self) -> bool {
        self.phase < STEPS_PER_TURN
    }

    /// The rotation at rest.
    pub fn new() -> (rotation: Self)
        ensures
            rotation.phase == 0,
            rotation.wf(),
    {
        RotationUniform { phase: 0 }
    }

    /// Sets the angle, given in steps; whole turns are dropped.
    pub fn update_angle(&mut self, steps: u32)
        ensures
            final(self).phase == steps % STEPS_PER_TURN,
            final(self).wf(),
    {
        self.phase = steps % STEPS_PER_TURN;
    }

    /// Advances the rotation by one step.
    pub fn advance(&mut self)
        requires
            old(self).wf(),
        ensures
            final(self).phase == phase_after(old(self).phase),
            final(self).wf(),
    {
        self.phase = (self.phase + 1) % STEPS_PER_TURN;
    }
}

/// Positions of the gradient between its two ends.
pub const GRADIENT_STEPS: u32 = 100;

/// A walk along a colour gradient, one hundredth of its length per frame.
#[derive(Clone, Copy, Debug, PartialEq, Eq, Structural)]
pub struct GradientSource {
    /// Position on the gradient, in hundredths of its length.
    pub index: u32,
}

impl GradientSource {
    /// The position lies on the gradient.
    pub open spec fn wf(&self) -> bool {
        self.index < GRADIENT_STEPS
    }

    /// The walk at the gradient's start.
    pub fn new() -> (source: Self)
        ensures
            source.index == 0,
            source.wf(),
    {
        GradientSource { index: 0 }
    }

    /// Returns the position whose colour this frame shows, and moves on by
    /// one hundredth; past the end the walk starts over.
    pub fn update(&mut self) -> (sample: u32)
        requires
            old(self).wf(),
        ensures
            sample == old(self).index,
            final(self).index == (old(self).index + 1) % 100,
            final(self).wf(),
    {
        let sample = self.index;
        self.index = (self.index + 1) % GRADIENT_STEPS;
        sample
    }
}

} // verus!
