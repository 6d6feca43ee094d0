//! The optimized-mesh file: a header and a five-level tree of body parts,
//! models, levels of detail, meshes and strip groups. Every offset in a record
//! is relative to the start of that record.
use vstd::prelude::*;
use super::bytes::{
    decode_array, decode_record, offset_from, read_i16, read_i32, read_u16, read_u32, read_u8,
    read_u8x3, record_fits, spec_array, spec_i16, spec_i32, spec_u16, spec_u32, spec_u8,
    spec_u8x3, Record,
};
use super::ModelLoadError;

verus! {

/// The one optimized-mesh format revision that is decoded.
pub const OPTIMIZED_MODEL_FILE_VERSION: i32 = 7;

/// Errors of the optimized-mesh decoder.
pub type VTXDeserializeError = ModelLoadError;

/// The file header (36 bytes).
#[derive(Clone, Copy, Debug, PartialEq, Eq)]
pub struct VTXFileHeader {
    /// Format revision; must be 7.
    pub version: i32,
    /// Hardware vertex cache size the mesh was optimized for.
    pub vert_cache_size: i32,
    pub max_bones_per_strip: u16,
    pub max_bones_per_tri: u16,
    pub max_bones_per_vert: i32,
    /// Must match the checksum of the other two files.
    pub checksum: i32,
    pub num_lods: i32,
    pub material_replacement_list_offset: i32,
    /// Number of body parts.
    pub num_body_parts: i32,
    /// Offset of the body-part array from the start of the file.
    pub body_part_offset: i32,
}

impl Record for VTXFileHeader {
    open spec fn spec_width() -> nat {
        36
    }

    open spec fn spec_decode(b: Seq<u8>, p: int) -> Self {
        VTXFileHeader {
            version: spec_i32(b, p),
            vert_cache_size: spec_i32(b, p + 4),
            max_bones_per_strip: spec_u16(b, p + 8),
            max_bones_per_tri: spec_u16(b, p + 10),
            max_bones_per_vert: spec_i32(b, p + 12),
            checksum: spec_i32(b, p + 16),
            num_lods: spec_i32(b, p + 20),
            material_replacement_list_offset: spec_i32(b, p + 24),
            num_body_parts: spec_i32(b, p + 28),
            body_part_offset: spec_i32(b, p + 32),
        }
    }

    fn width() -> (r: usize) {
        36
    }

    fn decode_at(b: &[u8], p: usize) -> (r: Self) {
        VTXFileHeader {
            version: read_i32(b, p),
            vert_cache_size: read_i32(b, p + 4),
            max_bones_per_strip: read_u16(b, p + 8),
            max_bones_per_tri: read_u16(b, p + 10),
            max_bones_per_vert: read_i32(b, p + 12),
            checksum: read_i32(b, p + 16),
            num_lods: read_i32(b, p + 20),
            material_replacement_list_offset: read_i32(b, p + 24),
            num_body_parts: read_i32(b, p + 28),
            body_part_offset: read_i32(b, p + 32),
        }
    }
}

/// A body part (8 bytes).
#[derive(Clone, Copy, Debug, PartialEq, Eq)]
pub struct VTXFileBodyPartHeader {
    pub num_models: i32,
    /// Offset of the model array from this record.
    pub model_offset: i32,
}

impl Record for VTXFileBodyPartHeader {
    open spec fn spec_width() -> nat {
        8
    }

    open spec fn spec_decode(b: Seq<u8>, p: int) -> Self {
        VTXFileBodyPartHeader {
            num_models: spec_i32(b, p),
            model_offset: spec_i32(b, p + 4),
        }
    }

    fn width() -> (r: usize) {
        8
    }

    fn decode_at(b: &[u8], p: usize) -> (r: Self) {
        VTXFileBodyPartHeader {
            num_models: read_i32(b, p),
            model_offset: read_i32(b, p + 4),
        }
    }
}

/// A model (8 bytes).
#[derive(Clone, Copy, Debug, PartialEq, Eq)]
pub struct VTXFileModelHeader {
    pub num_lods: i32,
    /// Offset of the level-of-detail array from this record.
    pub lod_offset: i32,
}

impl Record for VTXFileModelHeader {
    open spec fn spec_width() -> nat {
        8
    }

    open spec fn spec_decode(b: Seq<u8>, p: int) -> Self {
        VTXFileModelHeader {
            num_lods: spec_i32(b, p),
            lod_offset: spec_i32(b, p + 4),
        }
    }

    fn width() -> (r: usize) {
        8
    }

    fn decode_at(b: &[u8], p: usize) -> (r: Self) {
        VTXFileModelHeader {
            num_lods: read_i32(b, p),
            lod_offset: read_i32(b, p + 4),
        }
    }
}

/// A level of detail (12 bytes).
#[derive(Clone, Copy, Debug, PartialEq, Eq)]
pub struct VTXFileModelLODHeader {
    pub num_meshes: i32,
    /// Offset of the mesh array from this record.
    pub mesh_offset: i32,
    /// Distance at which this level becomes active, as IEEE-754 single-precision bits.
    pub switch_point: u32,
}

impl Record for VTXFileModelLODHeader {
    open spec fn spec_width() -> nat {
        12
    }

    open spec fn spec_decode(b: Seq<u8>, p: int) -> Self {
        VTXFileModelLODHeader {
            num_meshes: spec_i32(b, p),
            mesh_offset: spec_i32(b, p + 4),
            switch_point: spec_u32(b, p + 8),
        }
    }

    fn width() -> (r: usize) {
        12
    }

    fn decode_at(b: &[u8], p: usize) -> (r: Self) {
        VTXFileModelLODHeader {
            num_meshes: read_i32(b, p),
            mesh_offset: read_i32(b, p + 4),
            switch_point: read_u32(b, p + 8),
        }
    }
}

/// A mesh (9 bytes).
#[derive(Clone, Copy, Debug, PartialEq, Eq)]
pub struct VTXFileMeshHeader {
    pub num_strip_groups: i32,
    /// Offset of the strip-group array from this record.
    pub strip_group_header_offset: i32,
    pub flags: u8,
}

impl Record for VTXFileMeshHeader {
    open spec fn spec_width() -> nat {
        9
    }

    open spec fn spec_decode(b: Seq<u8>, p: int) -> Self {
        VTXFileMeshHeader {
            num_strip_groups: spec_i32(b, p),
            strip_group_header_offset: spec_i32(b, p + 4),
            flags: spec_u8(b, p + 8),
        }
    }

    fn width() -> (r: usize) {
        9
    }

    fn decode_at(b: &[u8], p: usize) -> (r: Self) {
        VTXFileMeshHeader {
            num_strip_groups: read_i32(b, p),
            strip_group_header_offset: read_i32(b, p + 4),
            flags: read_u8(b, p + 8),
        }
    }
}

/// A strip group (25 bytes).
#[derive(Clone, Copy, Debug, PartialEq, Eq)]
pub struct VTXFileStripGroupHeader {
    pub num_verts: i32,
    /// Offset of the vertex array from this record.
    pub vert_offset: i32,
    pub num_indices: i32,
    /// Offset of the index array from this record.
    pub index_offset: i32,
    pub num_strips: i32,
    /// Offset of the strip array from this record.
    pub strip_offset: i32,
    /// Set bits mark flex (facial animation) data, which is not decoded.
    pub flags: u8,
}

impl Record for VTXFileStripGroupHeader {
    open spec fn spec_width() -> nat {
        25
    }

    open spec fn spec_decode(b: Seq<u8>, p: int) -> Self {
        VTXFileStripGroupHeader {
            num_verts: spec_i32(b, p),
            vert_offset: spec_i32(b, p + 4),
            num_indices: spec_i32(b, p + 8),
            index_offset: spec_i32(b, p + 12),
            num_strips: spec_i32(b, p + 16),
            strip_offset: spec_i32(b, p + 20),
            flags: spec_u8(b, p + 24),
        }
    }

    fn width() -> (r: usize) {
        25
    }

    fn decode_at(b: &[u8], p: usize) -> (r: Self) {
        VTXFileStripGroupHeader {
            num_verts: read_i32(b, p),
            vert_offset: read_i32(b, p + 4),
            num_indices: read_i32(b, p + 8),
            index_offset: read_i32(b, p + 12),
            num_strips: read_i32(b, p + 16),
            strip_offset: read_i32(b, p + 20),
            flags: read_u8(b, p + 24),
        }
    }
}

/// A mesh vertex (9 bytes).
#[derive(Clone, Copy, Debug, PartialEq, Eq)]
pub struct VTXFileVertex {
    pub bone_weight_index: [u8; 3],
    pub num_bones: u8,
    /// Index into the vertex-data file's flat vertex array.
    pub orig_mesh_vert_id: u16,
    pub bone_id: [u8; 3],
}

impl Record for VTXFileVertex {
    open spec fn spec_width() -> nat {
        9
    }

    open spec fn spec_decode(b: Seq<u8>, p: int) -> Self {
        VTXFileVertex {
            bone_weight_index: spec_u8x3(b, p),
            num_bones: spec_u8(b, p + 3),
            orig_mesh_vert_id: spec_u16(b, p + 4),
            bone_id: spec_u8x3(b, p + 6),
        }
    }

    fn width() -> (r: usize) {
        9
    }

    fn decode_at(b: &[u8], p: usize) -> (r: Self) {
        VTXFileVertex {
            bone_weight_index: read_u8x3(b, p),
            num_bones: read_u8(b, p + 3),
            orig_mesh_vert_id: read_u16(b, p + 4),
            bone_id: read_u8x3(b, p + 6),
        }
    }
}

/// A mesh index (2 bytes).
#[derive(Clone, Copy, Debug, PartialEq, Eq)]
pub struct VTXFileIndex {
    pub position: u16,
}

impl Record for VTXFileIndex {
    open spec fn spec_width() -> nat {
        2
    }

    open spec fn spec_decode(b: Seq<u8>, p: int) -> Self {
        VTXFileIndex {
            position: spec_u16(b, p),
        }
    }

    fn width() -> (r: usize) {
        2
    }

    fn decode_at(b: &[u8], p: usize) -> (r: Self) {
        VTXFileIndex {
            position: read_u16(b, p),
        }
    }
}

/// A strip (27 bytes).
#[derive(Clone, Copy, Debug, PartialEq, Eq)]
pub struct VTXFileStripHeader {
    pub num_indices: i32,
    pub index_offset: i32,
    pub num_verts: i32,
    pub vert_offset: i32,
    pub num_bones: i16,
    pub flags: u8,
    pub num_bone_state_changes: i32,
    pub bone_state_change_offset: i32,
}

impl Record for VTXFileStripHeader {
    open spec fn spec_width() -> nat {
        27
    }

    open spec fn spec_decode(b: Seq<u8>, p: int) -> Self {
        VTXFileStripHeader {
            num_indices: spec_i32(b, p),
            index_offset: spec_i32(b, p + 4),
            num_verts: spec_i32(b, p + 8),
            vert_offset: spec_i32(b, p + 12),
            num_bones: spec_i16(b, p + 16),
            flags: spec_u8(b, p + 18),
            num_bone_state_changes: spec_i32(b, p + 19),
            bone_state_change_offset: spec_i32(b, p + 23),
        }
    }

    fn width() -> (r: usize) {
        27
    }

    fn decode_at(b: &[u8], p: usize) -> (r: Self) {
        VTXFileStripHeader {
            num_indices: read_i32(b, p),
            index_offset: read_i32(b, p + 4),
            num_verts: read_i32(b, p + 8),
            vert_offset: read_i32(b, p + 12),
            num_bones: read_i16(b, p + 16),
            flags: read_u8(b, p + 18),
            num_bone_state_changes: read_i32(b, p + 19),
            bone_state_change_offset: read_i32(b, p + 23),
        }
    }
}

/// A strip; its bone-state changes are not decoded.
#[derive(Clone, Copy, Debug, PartialEq, Eq)]
pub struct Strip {
    pub header: VTXFileStripHeader,
}

impl Record for Strip {
    open spec fn spec_width() -> nat {
        27
    }

    open spec fn spec_decode(b: Seq<u8>, p: int) -> Self {
        Strip {
            header: VTXFileStripHeader::spec_decode(b, p),
        }
    }

    fn width() -> (r: usize) {
        27
    }

    fn decode_at(b: &[u8], p: usize) -> (r: Self) {
        Strip {
            header: VTXFileStripHeader::decode_at(b, p),
        }
    }
}

/// A strip group with its vertices, indices and strips.
#[derive(Clone, Debug, PartialEq, Eq)]
pub struct StripGroup {
    pub header: VTXFileStripGroupHeader,
    pub vertices: Vec<VTXFileVertex>,
    pub indices: Vec<VTXFileIndex>,
    pub strips: Vec<Strip>,
}

/// The value of a [`StripGroup`], with each collection as a sequence.
pub struct StripGroupView {
    pub header: VTXFileStripGroupHeader,
    pub vertices: Seq<VTXFileVertex>,
    pub indices: Seq<VTXFileIndex>,
    pub strips: Seq<Strip>,
}

impl View for StripGroup {
    type V = StripGroupView;

    open spec fn view(&self) -> StripGroupView {
        StripGroupView {
            header: self.header,
            vertices: self.vertices@,
            indices: self.indices@,
            strips: self.strips@,
        }
    }
}

/// The values of a sequence of [`StripGroup`]s.
pub open spec fn views_stripgroup(s: Seq<StripGroup>) -> Seq<StripGroupView> {
    s.map_values(|x: StripGroup| x@)
}

/// A mesh with its strip groups.
#[derive(Clone, Debug, PartialEq, Eq)]
pub struct Mesh {
    pub header: VTXFileMeshHeader,
    pub strip_groups: Vec<StripGroup>,
}

/// The value of a [`Mesh`], with each collection as a sequence.
pub struct MeshView {
    pub header: VTXFileMeshHeader,
    pub strip_groups: Seq<StripGroupView>,
}

impl View for Mesh {
    type V = MeshView;

    open spec fn view(&self) -> MeshView {
        MeshView {
            header: self.header,
            strip_groups: views_stripgroup(self.strip_groups@),
        }
    }
}

/// The values of a sequence of [`Mesh`]s.
pub open spec fn views_mesh(s: Seq<Mesh>) -> Seq<MeshView> {
    s.map_values(|x: Mesh| x@)
}

/// A level of detail with its meshes.
#[derive(Clone, Debug, PartialEq, Eq)]
pub struct LOD {
    pub header: VTXFileModelLODHeader,
    pub meshes: Vec<Mesh>,
}

/// The value of a [`LOD`], with each collection as a sequence.
pub struct LodView {
    pub header: VTXFileModelLODHeader,
    pub meshes: Seq<MeshView>,
}

impl View for LOD {
    type V = LodView;

    open spec fn view(&self) -> LodView {
        LodView {
            header: self.header,
            meshes: views_mesh(self.meshes@),
        }
    }
}

/// The values of a sequence of [`LOD`]s.
pub open spec fn views_lod(s: Seq<LOD>) -> Seq<LodView> {
    s.map_values(|x: LOD| x@)
}

/// A model with its levels of detail.
#[derive(Clone, Debug, PartialEq, Eq)]
pub struct Model {
    pub header: VTXFileModelHeader,
    pub lods: Vec<LOD>,
}

/// The value of a [`Model`], with each collection as a sequence.
pub struct ModelView {
    pub header: VTXFileModelHeader,
    pub lods: Seq<LodView>,
}

impl View for Model {
    type V = ModelView;

    open spec fn view(&self) -> ModelView {
        ModelView {
            header: self.header,
            lods: views_lod(self.lods@),
        }
    }
}

/// The values of a sequence of [`Model`]s.
pub open spec fn views_model(s: Seq<Model>) -> Seq<ModelView> {
    s.map_values(|x: Model| x@)
}

/// A body part with its models.
#[derive(Clone, Debug, PartialEq, Eq)]
pub struct BodyPart {
    pub header: VTXFileBodyPartHeader,
    pub models: Vec<Model>,
}

/// The value of a [`BodyPart`], with each collection as a sequence.
pub struct BodyPartView {
    pub header: VTXFileBodyPartHeader,
    pub models: Seq<ModelView>,
}

impl View for BodyPart {
    type V = BodyPartView;

    open spec fn view(&self) -> BodyPartView {
        BodyPartView {
            header: self.header,
            models: views_model(self.models@),
        }
    }
}

/// The values of a sequence of [`BodyPart`]s.
pub open spec fn views_bodypart(s: Seq<BodyPart>) -> Seq<BodyPartView> {
    s.map_values(|x: BodyPart| x@)
}

/// A decoded optimized-mesh file.
#[derive(Clone, Debug, PartialEq, Eq)]
pub struct VTXFile {
    pub header: VTXFileHeader,
    pub bodyparts: Vec<BodyPart>,
}

/// The value of a [`VTXFile`], with each collection as a sequence.
pub struct VTXFileView {
    pub header: VTXFileHeader,
    pub bodyparts: Seq<BodyPartView>,
}

impl View for VTXFile {
    type V = VTXFileView;

    open spec fn view(&self) -> VTXFileView {
        VTXFileView {
            header: self.header,
            bodyparts: views_bodypart(self.bodyparts@),
        }
    }
}

/// The strip group whose header stands at `p`, with everything below it; nothing
/// when any part of it lies outside `b`.
#[verifier::opaque]
pub open spec fn spec_strip_group(b: Seq<u8>, p: int) -> Option<StripGroupView> {
    if !record_fits::<VTXFileStripGroupHeader>(b, p) {
        None
    } else {
        let h = VTXFileStripGroupHeader::spec_decode(b, p);
        let vertices = spec_array::<VTXFileVertex>(b, p + h.vert_offset, h.num_verts as int);
        let indices = spec_array::<VTXFileIndex>(b, p + h.index_offset, h.num_indices as int);
        let strips = spec_array::<Strip>(b, p + h.strip_offset, h.num_strips as int);
        if vertices is Some && indices is Some && strips is Some {
            Some(StripGroupView { header: h, vertices: vertices->Some_0, indices: indices->Some_0, strips: strips->Some_0 })
        } else {
            None
        }
    }
}

/// The element `i` of an array of 25-byte records that starts at `start`.
pub open spec fn strip_group_at(b: Seq<u8>, start: int, i: int) -> Option<StripGroupView> {
    spec_strip_group(b, start + i * 25)
}

/// The `count` consecutive elements that start at `start`; nothing when the
/// count is negative or one of them cannot be decoded.
#[verifier::opaque]
pub open spec fn spec_strip_groups(b: Seq<u8>, start: int, count: int) -> Option<Seq<StripGroupView>> {
    if count < 0 {
        None
    } else if count == 0 {
        Some(Seq::empty())
    } else if forall|i: int| 0 <= i < count ==> (#[trigger] strip_group_at(b, start, i)) is Some {
        Some(Seq::new(count as nat, |i: int| strip_group_at(b, start, i)->Some_0))
    } else {
        None
    }
}

/// One element that cannot be decoded makes the whole array fail.
proof fn lemma_spec_strip_groups_fails(b: Seq<u8>, start: int, count: int, i: int)
    requires
        0 <= i < count,
        strip_group_at(b, start, i) is None,
    ensures
        spec_strip_groups(b, start, count) is None,
{
    reveal(spec_strip_groups);
}

/// When every element decodes, the array is the sequence of them.
proof fn lemma_spec_strip_groups_holds(b: Seq<u8>, start: int, count: int)
    requires
        count > 0,
        forall|k: int| 0 <= k < count ==> (#[trigger] strip_group_at(b, start, k)) is Some,
    ensures
        spec_strip_groups(b, start, count) == Some(Seq::new(count as nat, |k: int| strip_group_at(b, start, k)->Some_0)),
{
    reveal(spec_strip_groups);
}

/// A zero count gives an empty array.
proof fn lemma_spec_strip_groups_empty(b: Seq<u8>, start: int, count: int)
    requires
        count == 0,
    ensures
        spec_strip_groups(b, start, count) == Some(Seq::<StripGroupView>::empty()),
{
    reveal(spec_strip_groups);
}

/// A negative count makes the array fail.
proof fn lemma_spec_strip_groups_negative(b: Seq<u8>, start: int, count: int)
    requires
        count < 0,
    ensures
        spec_strip_groups(b, start, count) is None,
{
    reveal(spec_strip_groups);
}

/// The mesh whose header stands at `p`, with everything below it; nothing
/// when any part of it lies outside `b`.
#[verifier::opaque]
pub open spec fn spec_mesh(b: Seq<u8>, p: int) -> Option<MeshView> {
    if !record_fits::<VTXFileMeshHeader>(b, p) {
        None
    } else {
        let h = VTXFileMeshHeader::spec_decode(b, p);
        let strip_groups = spec_strip_groups(b, p + h.strip_group_header_offset, h.num_strip_groups as int);
        if strip_groups is Some {
            Some(MeshView { header: h, strip_groups: strip_groups->Some_0 })
        } else {
            None
        }
    }
}

/// The element `i` of an array of 9-byte records that starts at `start`.
pub open spec fn mesh_at(b: Seq<u8>, start: int, i: int) -> Option<MeshView> {
    spec_mesh(b, start + i * 9)
}

/// The `count` consecutive elements that start at `start`; nothing when the
/// count is negative or one of them cannot be decoded.
#[verifier::opaque]
pub open spec fn spec_meshes(b: Seq<u8>, start: int, count: int) -> Option<Seq<MeshView>> {
    if count < 0 {
        None
    } else if count == 0 {
        Some(Seq::empty())
    } else if forall|i: int| 0 <= i < count ==> (#[trigger] mesh_at(b, start, i)) is Some {
        Some(Seq::new(count as nat, |i: int| mesh_at(b, start, i)->Some_0))
    } else {
        None
    }
}

/// One element that cannot be decoded makes the whole array fail.
proof fn lemma_spec_meshes_fails(b: Seq<u8>, start: int, count: int, i: int)
    requires
        0 <= i < count,
        mesh_at(b, start, i) is None,
    ensures
        spec_meshes(b, start, count) is None,
{
    reveal(spec_meshes);
}

/// When every element decodes, the array is the sequence of them.
proof fn lemma_spec_meshes_holds(b: Seq<u8>, start: int, count: int)
    requires
        count > 0,
        forall|k: int| 0 <= k < count ==> (#[trigger] mesh_at(b, start, k)) is Some,
    ensures
        spec_meshes(b, start, count) == Some(Seq::new(count as nat, |k: int| mesh_at(b, start, k)->Some_0)),
{
    reveal(spec_meshes);
}

/// A zero count gives an empty array.
proof fn lemma_spec_meshes_empty(b: Seq<u8>, start: int, count: int)
    requires
        count == 0,
    ensures
        spec_meshes(b, start, count) == Some(Seq::<MeshView>::empty()),
{
    reveal(spec_meshes);
}

/// A negative count makes the array fail.
proof fn lemma_spec_meshes_negative(b: Seq<u8>, start: int, count: int)
    requires
        count < 0,
    ensures
        spec_meshes(b, start, count) is None,
{
    reveal(spec_meshes);
}

/// The level of detail whose header stands at `p`, with everything below it; nothing
/// when any part of it lies outside `b`.
#[verifier::opaque]
pub open spec fn spec_lod(b: Seq<u8>, p: int) -> Option<LodView> {
    if !record_fits::<VTXFileModelLODHeader>(b, p) {
        None
    } else {
        let h = VTXFileModelLODHeader::spec_decode(b, p);
        let meshes = spec_meshes(b, p + h.mesh_offset, h.num_meshes as int);
        if meshes is Some {
            Some(LodView { header: h, meshes: meshes->Some_0 })
        } else {
            None
        }
    }
}

/// The element `i` of an array of 12-byte records that starts at `start`.
pub open spec fn lod_at(b: Seq<u8>, start: int, i: int) -> Option<LodView> {
    spec_lod(b, start + i * 12)
}

/// The `count` consecutive elements that start at `start`; nothing when the
/// count is negative or one of them cannot be decoded.
#[verifier::opaque]
pub open spec fn spec_lods(b: Seq<u8>, start: int, count: int) -> Option<Seq<LodView>> {
    if count < 0 {
        None
    } else if count == 0 {
        Some(Seq::empty())
    } else if forall|i: int| 0 <= i < count ==> (#[trigger] lod_at(b, start, i)) is Some {
        Some(Seq::new(count as nat, |i: int| lod_at(b, start, i)->Some_0))
    } else {
        None
    }
}

/// One element that cannot be decoded makes the whole array fail.
proof fn lemma_spec_lods_fails(b: Seq<u8>, start: int, count: int, i: int)
    requires
        0 <= i < count,
        lod_at(b, start, i) is None,
    ensures
        spec_lods(b, start, count) is None,
{
    reveal(spec_lods);
}

/// When every element decodes, the array is the sequence of them.
proof fn lemma_spec_lods_holds(b: Seq<u8>, start: int, count: int)
    requires
        count > 0,
        forall|k: int| 0 <= k < count ==> (#[trigger] lod_at(b, start, k)) is Some,
    ensures
        spec_lods(b, start, count) == Some(Seq::new(count as nat, |k: int| lod_at(b, start, k)->Some_0)),
{
    reveal(spec_lods);
}

/// A zero count gives an empty array.
proof fn lemma_spec_lods_empty(b: Seq<u8>, start: int, count: int)
    requires
        count == 0,
    ensures
        spec_lods(b, start, count) == Some(Seq::<LodView>::empty()),
{
    reveal(spec_lods);
}

/// A negative count makes the array fail.
proof fn lemma_spec_lods_negative(b: Seq<u8>, start: int, count: int)
    requires
        count < 0,
    ensures
        spec_lods(b, start, count) is None,
{
    reveal(spec_lods);
}

/// The model whose header stands at `p`, with everything below it; nothing
/// when any part of it lies outside `b`.
#[verifier::opaque]
pub open spec fn spec_model(b: Seq<u8>, p: int) -> Option<ModelView> {
    if !record_fits::<VTXFileModelHeader>(b, p) {
        None
    } else {
        let h = VTXFileModelHeader::spec_decode(b, p);
        let lods = spec_lods(b, p + h.lod_offset, h.num_lods as int);
        if lods is Some {
            Some(ModelView { header: h, lods: lods->Some_0 })
        } else {
            None
        }
    }
}

/// The element `i` of an array of 8-byte records that starts at `start`.
pub open spec fn model_at(b: Seq<u8>, start: int, i: int) -> Option<ModelView> {
    spec_model(b, start + i * 8)
}

/// The `count` consecutive elements that start at `start`; nothing when the
/// count is negative or one of them cannot be decoded.
#[verifier::opaque]
pub open spec fn spec_models(b: Seq<u8>, start: int, count: int) -> Option<Seq<ModelView>> {
    if count < 0 {
        None
    } else if count == 0 {
        Some(Seq::empty())
    } else if forall|i: int| 0 <= i < count ==> (#[trigger] model_at(b, start, i)) is Some {
        Some(Seq::new(count as nat, |i: int| model_at(b, start, i)->Some_0))
    } else {
        None
    }
}

/// One element that cannot be decoded makes the whole array fail.
proof fn lemma_spec_models_fails(b: Seq<u8>, start: int, count: int, i: int)
    requires
        0 <= i < count,
        model_at(b, start, i) is None,
    ensures
        spec_models(b, start, count) is None,
{
    reveal(spec_models);
}

/// When every element decodes, the array is the sequence of them.
proof fn lemma_spec_models_holds(b: Seq<u8>, start: int, count: int)
    requires
        count > 0,
        forall|k: int| 0 <= k < count ==> (#[trigger] model_at(b, start, k)) is Some,
    ensures
        spec_models(b, start, count) == Some(Seq::new(count as nat, |k: int| model_at(b, start, k)->Some_0)),
{
    reveal(spec_models);
}

/// A zero count gives an empty array.
proof fn lemma_spec_models_empty(b: Seq<u8>, start: int, count: int)
    requires
        count == 0,
    ensures
        spec_models(b, start, count) == Some(Seq::<ModelView>::empty()),
{
    reveal(spec_models);
}

/// A negative count makes the array fail.
proof fn lemma_spec_models_negative(b: Seq<u8>, start: int, count: int)
    requires
        count < 0,
    ensures
        spec_models(b, start, count) is None,
{
    reveal(spec_models);
}

/// The body part whose header stands at `p`, with everything below it; nothing
/// when any part of it lies outside `b`.
#[verifier::opaque]
pub open spec fn spec_bodypart(b: Seq<u8>, p: int) -> Option<BodyPartView> {
    if !record_fits::<VTXFileBodyPartHeader>(b, p) {
        None
    } else {
        let h = VTXFileBodyPartHeader::spec_decode(b, p);
        let models = spec_models(b, p + h.model_offset, h.num_models as int);
        if models is Some {
            Some(BodyPartView { header: h, models: models->Some_0 })
        } else {
            None
        }
    }
}

/// The element `i` of an array of 8-byte records that starts at `start`.
pub open spec fn bodypart_at(b: Seq<u8>, start: int, i: int) -> Option<BodyPartView> {
    spec_bodypart(b, start + i * 8)
}

/// The `count` consecutive elements that start at `start`; nothing when the
/// count is negative or one of them cannot be decoded.
#[verifier::opaque]
pub open spec fn spec_bodyparts(b: Seq<u8>, start: int, count: int) -> Option<Seq<BodyPartView>> {
    if count < 0 {
        None
    } else if count == 0 {
        Some(Seq::empty())
    } else if forall|i: int| 0 <= i < count ==> (#[trigger] bodypart_at(b, start, i)) is Some {
        Some(Seq::new(count as nat, |i: int| bodypart_at(b, start, i)->Some_0))
    } else {
        None
    }
}

/// One element that cannot be decoded makes the whole array fail.
proof fn lemma_spec_bodyparts_fails(b: Seq<u8>, start: int, count: int, i: int)
    requires
        0 <= i < count,
        bodypart_at(b, start, i) is None,
    ensures
        spec_bodyparts(b, start, count) is None,
{
    reveal(spec_bodyparts);
}

/// When every element decodes, the array is the sequence of them.
proof fn lemma_spec_bodyparts_holds(b: Seq<u8>, start: int, count: int)
    requires
        count > 0,
        forall|k: int| 0 <= k < count ==> (#[trigger] bodypart_at(b, start, k)) is Some,
    ensures
        spec_bodyparts(b, start, count) == Some(Seq::new(count as nat, |k: int| bodypart_at(b, start, k)->Some_0)),
{
    reveal(spec_bodyparts);
}

/// A zero count gives an empty array.
proof fn lemma_spec_bodyparts_empty(b: Seq<u8>, start: int, count: int)
    requires
        count == 0,
    ensures
        spec_bodyparts(b, start, count) == Some(Seq::<BodyPartView>::empty()),
{
    reveal(spec_bodyparts);
}

/// A negative count makes the array fail.
proof fn lemma_spec_bodyparts_negative(b: Seq<u8>, start: int, count: int)
    requires
        count < 0,
    ensures
        spec_bodyparts(b, start, count) is None,
{
    reveal(spec_bodyparts);
}

/// The whole optimized-mesh file: its header, checked for the supported
/// revision, and the tree below it.
#[verifier::opaque]
pub open spec fn spec_vtx_file(b: Seq<u8>) -> Result<VTXFileView, ModelLoadError> {
    if !record_fits::<VTXFileHeader>(b, 0) {
        Err(ModelLoadError::TruncatedBuffer)
    } else {
        let h = VTXFileHeader::spec_decode(b, 0);
        if h.version != OPTIMIZED_MODEL_FILE_VERSION {
            Err(ModelLoadError::UnsupportedVersion)
        } else {
            match spec_bodyparts(b, h.body_part_offset as int, h.num_body_parts as int) {
                Some(s) => Ok(VTXFileView { header: h, bodyparts: s }),
                None => Err(ModelLoadError::TruncatedBuffer),
            }
        }
    }
}

/// Decodes an optimized-mesh file held in memory.
pub struct VTXDeserializer {
    /// Where the file's bytes were read from.
    pub path: String,
}

impl VTXDeserializer {
    pub fn new(path: String) -> (r: Self)
        ensures
            r.path == path,
    {
        VTXDeserializer { path }
    }

    /// Reads the vertex array of a strip group whose header stands at `strip_group_start_index`.
    pub fn read_vertices(&self, strip_group_header: &VTXFileStripGroupHeader, strip_group_start_index: usize, vtx_data_bytes: &[u8]) -> (r: Result<Vec<VTXFileVertex>, ModelLoadError>)
        ensures
            spec_array::<VTXFileVertex>(vtx_data_bytes@, strip_group_start_index + strip_group_header.vert_offset, strip_group_header.num_verts as int) is Some <==> r is Ok,
            r is Ok ==> r->Ok_0@ == spec_array::<VTXFileVertex>(vtx_data_bytes@, strip_group_start_index + strip_group_header.vert_offset, strip_group_header.num_verts as int)->Some_0,
            r is Err ==> r->Err_0 == ModelLoadError::TruncatedBuffer,
    {
        decode_array(vtx_data_bytes, strip_group_start_index, strip_group_header.vert_offset, strip_group_header.num_verts)
    }

    /// Reads the index array of a strip group whose header stands at `strip_group_start_index`.
    pub fn read_indices(&self, strip_group_header: &VTXFileStripGroupHeader, strip_group_start_index: usize, vtx_data_bytes: &[u8]) -> (r: Result<Vec<VTXFileIndex>, ModelLoadError>)
        ensures
            spec_array::<VTXFileIndex>(vtx_data_bytes@, strip_group_start_index + strip_group_header.index_offset, strip_group_header.num_indices as int) is Some <==> r is Ok,
            r is Ok ==> r->Ok_0@ == spec_array::<VTXFileIndex>(vtx_data_bytes@, strip_group_start_index + strip_group_header.index_offset, strip_group_header.num_indices as int)->Some_0,
            r is Err ==> r->Err_0 == ModelLoadError::TruncatedBuffer,
    {
        decode_array(vtx_data_bytes, strip_group_start_index, strip_group_header.index_offset, strip_group_header.num_indices)
    }

    /// Reads the strip array of a strip group whose header stands at `strip_group_start_index`.
    pub fn read_strips(&self, strip_group_header: &VTXFileStripGroupHeader, strip_group_start_index: usize, vtx_data_bytes: &[u8]) -> (r: Result<Vec<Strip>, ModelLoadError>)
        ensures
            spec_array::<Strip>(vtx_data_bytes@, strip_group_start_index + strip_group_header.strip_offset, strip_group_header.num_strips as int) is Some <==> r is Ok,
            r is Ok ==> r->Ok_0@ == spec_array::<Strip>(vtx_data_bytes@, strip_group_start_index + strip_group_header.strip_offset, strip_group_header.num_strips as int)->Some_0,
            r is Err ==> r->Err_0 == ModelLoadError::TruncatedBuffer,
    {
        decode_array(vtx_data_bytes, strip_group_start_index, strip_group_header.strip_offset, strip_group_header.num_strips)
    }

    /// Reads the strip groups of a mesh whose header stands at `mesh_start_index`.
    pub fn read_strip_groups(&self, mesh_header: &VTXFileMeshHeader, mesh_start_index: usize, vtx_data_bytes: &[u8]) -> (r: Result<Vec<StripGroup>, ModelLoadError>)
        ensures
            spec_strip_groups(vtx_data_bytes@, mesh_start_index + mesh_header.strip_group_header_offset, mesh_header.num_strip_groups as int) is Some <==> r is Ok,
            r is Ok ==> views_stripgroup(r->Ok_0@) == spec_strip_groups(vtx_data_bytes@, mesh_start_index + mesh_header.strip_group_header_offset, mesh_header.num_strip_groups as int)->Some_0,
            r is Err ==> r->Err_0 == ModelLoadError::TruncatedBuffer,
    {
        let b = vtx_data_bytes;
        let mut out: Vec<StripGroup> = Vec::new();
        let count = mesh_header.num_strip_groups;
        if count < 0 {
            proof {
                lemma_spec_strip_groups_negative(b@, mesh_start_index + mesh_header.strip_group_header_offset, mesh_header.num_strip_groups as int);
            }
            return Err(ModelLoadError::TruncatedBuffer);
        }
        if count == 0 {
            proof {
                lemma_spec_strip_groups_empty(b@, mesh_start_index + mesh_header.strip_group_header_offset, mesh_header.num_strip_groups as int);
                assert(views_stripgroup(out@) =~= Seq::empty());
            }
            return Ok(out);
        }
        let len = b.len();
        let ghost gstart: int = mesh_start_index + mesh_header.strip_group_header_offset;
        let start = match offset_from(mesh_start_index, mesh_header.strip_group_header_offset) {
            Some(s) => s,
            None => {
                proof {
                    reveal(spec_strip_group);
                    assert(strip_group_at(b@, gstart, 0) is None);
                    lemma_spec_strip_groups_fails(b@, gstart, count as int, 0);
                }
                return Err(ModelLoadError::TruncatedBuffer);
            }
        };
        let n = count as usize;
        let mut i: usize = 0;
        let mut p: usize = start;
        loop
            invariant
                0 < n,
                n == count,
                i < n,
                len == b@.len(),
                b@ == vtx_data_bytes@,
                gstart == start,
                gstart == mesh_start_index + mesh_header.strip_group_header_offset,
                count == mesh_header.num_strip_groups,
                p == start + i * 25,
                forall|k: int| 0 <= k < i ==> (#[trigger] strip_group_at(b@, gstart, k)) is Some,
                views_stripgroup(out@) == Seq::new(i as nat, |k: int| strip_group_at(b@, gstart, k)->Some_0),
            decreases n - i,
        {
            let h = match decode_record::<VTXFileStripGroupHeader>(b, p) {
                Ok(h) => h,
                Err(e) => {
                    proof {
                        reveal(spec_strip_group);
                        assert(strip_group_at(b@, gstart, i as int) is None);
                        lemma_spec_strip_groups_fails(b@, gstart, count as int, i as int);
                    }
                    return Err(e);
                }
            };
            let vertices = match self.read_vertices(&h, p, b) {
                Ok(v) => v,
                Err(e) => {
                    proof {
                        reveal(spec_strip_group);
                        assert(strip_group_at(b@, gstart, i as int) is None);
                        lemma_spec_strip_groups_fails(b@, gstart, count as int, i as int);
                    }
                    return Err(e);
                }
            };
            let indices = match self.read_indices(&h, p, b) {
                Ok(v) => v,
                Err(e) => {
                    proof {
                        reveal(spec_strip_group);
                        assert(strip_group_at(b@, gstart, i as int) is None);
                        lemma_spec_strip_groups_fails(b@, gstart, count as int, i as int);
                    }
                    return Err(e);
                }
            };
            let strips = match self.read_strips(&h, p, b) {
                Ok(v) => v,
                Err(e) => {
                    proof {
                        reveal(spec_strip_group);
                        assert(strip_group_at(b@, gstart, i as int) is None);
                        lemma_spec_strip_groups_fails(b@, gstart, count as int, i as int);
                    }
                    return Err(e);
                }
            };
            let item = StripGroup { header: h, vertices, indices, strips };
            proof {
                reveal(spec_strip_group);
                assert(strip_group_at(b@, gstart, i as int) == Some(item@));
            }
            let ghost prev = out@;
            out.push(item);
            proof {
                assert(out@ == prev.push(item));
                assert(views_stripgroup(out@) =~= views_stripgroup(prev).push(item@));
                assert(views_stripgroup(out@) =~= Seq::new((i + 1) as nat, |k: int| strip_group_at(b@, gstart, k)->Some_0));
            }
            if i + 1 == n {
                proof {
                    lemma_spec_strip_groups_holds(b@, gstart, count as int);
                }
                return Ok(out);
            }
            p = match p.checked_add(25) {
                Some(q) => q,
                None => {
                    proof {
                        reveal(spec_strip_group);
                        assert(strip_group_at(b@, gstart, i + 1) is None);
                        lemma_spec_strip_groups_fails(b@, gstart, count as int, i + 1);
                    }
                    return Err(ModelLoadError::TruncatedBuffer);
                }
            };
            i = i + 1;
        }
    }

    /// Reads the meshes of a level of detail whose header stands at `lod_start_index`.
    pub fn read_meshes(&self, lod_header: &VTXFileModelLODHeader, lod_start_index: usize, vtx_data_bytes: &[u8]) -> (r: Result<Vec<Mesh>, ModelLoadError>)
        ensures
            spec_meshes(vtx_data_bytes@, lod_start_index + lod_header.mesh_offset, lod_header.num_meshes as int) is Some <==> r is Ok,
            r is Ok ==> views_mesh(r->Ok_0@) == spec_meshes(vtx_data_bytes@, lod_start_index + lod_header.mesh_offset, lod_header.num_meshes as int)->Some_0,
            r is Err ==> r->Err_0 == ModelLoadError::TruncatedBuffer,
    {
        let b = vtx_data_bytes;
        let mut out: Vec<Mesh> = Vec::new();
        let count = lod_header.num_meshes;
        if count < 0 {
            proof {
                lemma_spec_meshes_negative(b@, lod_start_index + lod_header.mesh_offset, lod_header.num_meshes as int);
            }
            return Err(ModelLoadError::TruncatedBuffer);
        }
        if count == 0 {
            proof {
                lemma_spec_meshes_empty(b@, lod_start_index + lod_header.mesh_offset, lod_header.num_meshes as int);
                assert(views_mesh(out@) =~= Seq::empty());
            }
            return Ok(out);
        }
        let len = b.len();
        let ghost gstart: int = lod_start_index + lod_header.mesh_offset;
        let start = match offset_from(lod_start_index, lod_header.mesh_offset) {
            Some(s) => s,
            None => {
                proof {
                    reveal(spec_mesh);
                    assert(mesh_at(b@, gstart, 0) is None);
                    lemma_spec_meshes_fails(b@, gstart, count as int, 0);
                }
                return Err(ModelLoadError::TruncatedBuffer);
            }
        };
        let n = count as usize;
        let mut i: usize = 0;
        let mut p: usize = start;
        loop
            invariant
                0 < n,
                n == count,
                i < n,
                len == b@.len(),
                b@ == vtx_data_bytes@,
                gstart == start,
                gstart == lod_start_index + lod_header.mesh_offset,
                count == lod_header.num_meshes,
                p == start + i * 9,
                forall|k: int| 0 <= k < i ==> (#[trigger] mesh_at(b@, gstart, k)) is Some,
                views_mesh(out@) == Seq::new(i as nat, |k: int| mesh_at(b@, gstart, k)->Some_0),
            decreases n - i,
        {
            let h = match decode_record::<VTXFileMeshHeader>(b, p) {
                Ok(h) => h,
                Err(e) => {
                    proof {
                        reveal(spec_mesh);
                        assert(mesh_at(b@, gstart, i as int) is None);
                        lemma_spec_meshes_fails(b@, gstart, count as int, i as int);
                    }
                    return Err(e);
                }
            };
            let strip_groups = match self.read_strip_groups(&h, p, b) {
                Ok(v) => v,
                Err(e) => {
                    proof {
                        reveal(spec_mesh);
                        assert(mesh_at(b@, gstart, i as int) is None);
                        lemma_spec_meshes_fails(b@, gstart, count as int, i as int);
                    }
                    return Err(e);
                }
            };
            let item = Mesh { header: h, strip_groups };
            proof {
                reveal(spec_mesh);
                assert(mesh_at(b@, gstart, i as int) == Some(item@));
            }
            let ghost prev = out@;
            out.push(item);
            proof {
                assert(out@ == prev.push(item));
                assert(views_mesh(out@) =~= views_mesh(prev).push(item@));
                assert(views_mesh(out@) =~= Seq::new((i + 1) as nat, |k: int| mesh_at(b@, gstart, k)->Some_0));
            }
            if i + 1 == n {
                proof {
                    lemma_spec_meshes_holds(b@, gstart, count as int);
                }
                return Ok(out);
            }
            p = match p.checked_add(9) {
                Some(q) => q,
                None => {
                    proof {
                        reveal(spec_mesh);
                        assert(mesh_at(b@, gstart, i + 1) is None);
                        lemma_spec_meshes_fails(b@, gstart, count as int, i + 1);
                    }
                    return Err(ModelLoadError::TruncatedBuffer);
                }
            };
            i = i + 1;
        }
    }

    /// Reads the levels of detail of a model whose header stands at `model_start_index`.
    pub fn read_lods(&self, model_header: &VTXFileModelHeader, model_start_index: usize, vtx_data_bytes: &[u8]) -> (r: Result<Vec<LOD>, ModelLoadError>)
        ensures
            spec_lods(vtx_data_bytes@, model_start_index + model_header.lod_offset, model_header.num_lods as int) is Some <==> r is Ok,
            r is Ok ==> views_lod(r->Ok_0@) == spec_lods(vtx_data_bytes@, model_start_index + model_header.lod_offset, model_header.num_lods as int)->Some_0,
            r is Err ==> r->Err_0 == ModelLoadError::TruncatedBuffer,
    {
        let b = vtx_data_bytes;
        let mut out: Vec<LOD> = Vec::new();
        let count = model_header.num_lods;
        if count < 0 {
            proof {
                lemma_spec_lods_negative(b@, model_start_index + model_header.lod_offset, model_header.num_lods as int);
            }
            return Err(ModelLoadError::TruncatedBuffer);
        }
        if count == 0 {
            proof {
                lemma_spec_lods_empty(b@, model_start_index + model_header.lod_offset, model_header.num_lods as int);
                assert(views_lod(out@) =~= Seq::empty());
            }
            return Ok(out);
        }
        let len = b.len();
        let ghost gstart: int = model_start_index + model_header.lod_offset;
        let start = match offset_from(model_start_index, model_header.lod_offset) {
            Some(s) => s,
            None => {
                proof {
                    reveal(spec_lod);
                    assert(lod_at(b@, gstart, 0) is None);
                    lemma_spec_lods_fails(b@, gstart, count as int, 0);
                }
                return Err(ModelLoadError::TruncatedBuffer);
            }
        };
        let n = count as usize;
        let mut i: usize = 0;
        let mut p: usize = start;
        loop
            invariant
                0 < n,
                n == count,
                i < n,
                len == b@.len(),
                b@ == vtx_data_bytes@,
                gstart == start,
                gstart == model_start_index + model_header.lod_offset,
                count == model_header.num_lods,
                p == start + i * 12,
                forall|k: int| 0 <= k < i ==> (#[trigger] lod_at(b@, gstart, k)) is Some,
                views_lod(out@) == Seq::new(i as nat, |k: int| lod_at(b@, gstart, k)->Some_0),
            decreases n - i,
        {
            let h = match decode_record::<VTXFileModelLODHeader>(b, p) {
                Ok(h) => h,
                Err(e) => {
                    proof {
                        reveal(spec_lod);
                        assert(lod_at(b@, gstart, i as int) is None);
                        lemma_spec_lods_fails(b@, gstart, count as int, i as int);
                    }
                    return Err(e);
                }
            };
            let meshes = match self.read_meshes(&h, p, b) {
                Ok(v) => v,
                Err(e) => {
                    proof {
                        reveal(spec_lod);
                        assert(lod_at(b@, gstart, i as int) is None);
                        lemma_spec_lods_fails(b@, gstart, count as int, i as int);
                    }
                    return Err(e);
                }
            };
            let item = LOD { header: h, meshes };
            proof {
                reveal(spec_lod);
                assert(lod_at(b@, gstart, i as int) == Some(item@));
            }
            let ghost prev = out@;
            out.push(item);
            proof {
                assert(out@ == prev.push(item));
                assert(views_lod(out@) =~= views_lod(prev).push(item@));
                assert(views_lod(out@) =~= Seq::new((i + 1) as nat, |k: int| lod_at(b@, gstart, k)->Some_0));
            }
            if i + 1 == n {
                proof {
                    lemma_spec_lods_holds(b@, gstart, count as int);
                }
                return Ok(out);
            }
            p = match p.checked_add(12) {
                Some(q) => q,
                None => {
                    proof {
                        reveal(spec_lod);
                        assert(lod_at(b@, gstart, i + 1) is None);
                        lemma_spec_lods_fails(b@, gstart, count as int, i + 1);
                    }
                    return Err(ModelLoadError::TruncatedBuffer);
                }
            };
            i = i + 1;
        }
    }

    /// Reads the models of a body part whose header stands at `bodypart_start_index`.
    pub fn read_models(&self, bodyparts_header: &VTXFileBodyPartHeader, bodypart_start_index: usize, vtx_data_bytes: &[u8]) -> (r: Result<Vec<Model>, ModelLoadError>)
        ensures
            spec_models(vtx_data_bytes@, bodypart_start_index + bodyparts_header.model_offset, bodyparts_header.num_models as int) is Some <==> r is Ok,
            r is Ok ==> views_model(r->Ok_0@) == spec_models(vtx_data_bytes@, bodypart_start_index + bodyparts_header.model_offset, bodyparts_header.num_models as int)->Some_0,
            r is Err ==> r->Err_0 == ModelLoadError::TruncatedBuffer,
    {
        let b = vtx_data_bytes;
        let mut out: Vec<Model> = Vec::new();
        let count = bodyparts_header.num_models;
        if count < 0 {
            proof {
                lemma_spec_models_negative(b@, bodypart_start_index + bodyparts_header.model_offset, bodyparts_header.num_models as int);
            }
            return Err(ModelLoadError::TruncatedBuffer);
        }
        if count == 0 {
            proof {
                lemma_spec_models_empty(b@, bodypart_start_index + bodyparts_header.model_offset, bodyparts_header.num_models as int);
                assert(views_model(out@) =~= Seq::empty());
            }
            return Ok(out);
        }
        let len = b.len();
        let ghost gstart: int = bodypart_start_index + bodyparts_header.model_offset;
        let start = match offset_from(bodypart_start_index, bodyparts_header.model_offset) {
            Some(s) => s,
            None => {
                proof {
                    reveal(spec_model);
                    assert(model_at(b@, gstart, 0) is None);
                    lemma_spec_models_fails(b@, gstart, count as int, 0);
                }
                return Err(ModelLoadError::TruncatedBuffer);
            }
        };
        let n = count as usize;
        let mut i: usize = 0;
        let mut p: usize = start;
        loop
            invariant
                0 < n,
                n == count,
                i < n,
                len == b@.len(),
                b@ == vtx_data_bytes@,
                gstart == start,
                gstart == bodypart_start_index + bodyparts_header.model_offset,
                count == bodyparts_header.num_models,
                p == start + i * 8,
                forall|k: int| 0 <= k < i ==> (#[trigger] model_at(b@, gstart, k)) is Some,
                views_model(out@) == Seq::new(i as nat, |k: int| model_at(b@, gstart, k)->Some_0),
            decreases n - i,
        {
            let h = match decode_record::<VTXFileModelHeader>(b, p) {
                Ok(h) => h,
                Err(e) => {
                    proof {
                        reveal(spec_model);
                        assert(model_at(b@, gstart, i as int) is None);
                        lemma_spec_models_fails(b@, gstart, count as int, i as int);
                    }
                    return Err(e);
                }
            };
            let lods = match self.read_lods(&h, p, b) {
                Ok(v) => v,
                Err(e) => {
                    proof {
                        reveal(spec_model);
                        assert(model_at(b@, gstart, i as int) is None);
                        lemma_spec_models_fails(b@, gstart, count as int, i as int);
                    }
                    return Err(e);
                }
            };
            let item = Model { header: h, lods };
            proof {
                reveal(spec_model);
                assert(model_at(b@, gstart, i as int) == Some(item@));
            }
            let ghost prev = out@;
            out.push(item);
            proof {
                assert(out@ == prev.push(item));
                assert(views_model(out@) =~= views_model(prev).push(item@));
                assert(views_model(out@) =~= Seq::new((i + 1) as nat, |k: int| model_at(b@, gstart, k)->Some_0));
            }
            if i + 1 == n {
                proof {
                    lemma_spec_models_holds(b@, gstart, count as int);
                }
                return Ok(out);
            }
            p = match p.checked_add(8) {
                Some(q) => q,
                None => {
                    proof {
                        reveal(spec_model);
                        assert(model_at(b@, gstart, i + 1) is None);
                        lemma_spec_models_fails(b@, gstart, count as int, i + 1);
                    }
                    return Err(ModelLoadError::TruncatedBuffer);
                }
            };
            i = i + 1;
        }
    }

    /// Reads the body parts that a file header declares, with the file
    /// starting at `file_start`.
    fn read_bodyparts_from(&self, file_header: &VTXFileHeader, file_start: usize, vtx_data_bytes: &[u8]) -> (r: Result<Vec<BodyPart>, ModelLoadError>)
        ensures
            spec_bodyparts(vtx_data_bytes@, file_start + file_header.body_part_offset, file_header.num_body_parts as int) is Some <==> r is Ok,
            r is Ok ==> views_bodypart(r->Ok_0@) == spec_bodyparts(vtx_data_bytes@, file_start + file_header.body_part_offset, file_header.num_body_parts as int)->Some_0,
            r is Err ==> r->Err_0 == ModelLoadError::TruncatedBuffer,
    {
        let b = vtx_data_bytes;
        let mut out: Vec<BodyPart> = Vec::new();
        let count = file_header.num_body_parts;
        if count < 0 {
            proof {
                lemma_spec_bodyparts_negative(b@, file_start + file_header.body_part_offset, file_header.num_body_parts as int);
            }
            return Err(ModelLoadError::TruncatedBuffer);
        }
        if count == 0 {
            proof {
                lemma_spec_bodyparts_empty(b@, file_start + file_header.body_part_offset, file_header.num_body_parts as int);
                assert(views_bodypart(out@) =~= Seq::empty());
            }
            return Ok(out);
        }
        let len = b.len();
        let ghost gstart: int = file_start + file_header.body_part_offset;
        let start = match offset_from(file_start, file_header.body_part_offset) {
            Some(s) => s,
            None => {
                proof {
                    reveal(spec_bodypart);
                    assert(bodypart_at(b@, gstart, 0) is None);
                    lemma_spec_bodyparts_fails(b@, gstart, count as int, 0);
                }
                return Err(ModelLoadError::TruncatedBuffer);
            }
        };
        let n = count as usize;
        let mut i: usize = 0;
        let mut p: usize = start;
        loop
            invariant
                0 < n,
                n == count,
                i < n,
                len == b@.len(),
                b@ == vtx_data_bytes@,
                gstart == start,
                gstart == file_start + file_header.body_part_offset,
                count == file_header.num_body_parts,
                p == start + i * 8,
                forall|k: int| 0 <= k < i ==> (#[trigger] bodypart_at(b@, gstart, k)) is Some,
                views_bodypart(out@) == Seq::new(i as nat, |k: int| bodypart_at(b@, gstart, k)->Some_0),
            decreases n - i,
        {
            let h = match decode_record::<VTXFileBodyPartHeader>(b, p) {
                Ok(h) => h,
                Err(e) => {
                    proof {
                        reveal(spec_bodypart);
                        assert(bodypart_at(b@, gstart, i as int) is None);
                        lemma_spec_bodyparts_fails(b@, gstart, count as int, i as int);
                    }
                    return Err(e);
                }
            };
            let models = match self.read_models(&h, p, b) {
                Ok(v) => v,
                Err(e) => {
                    proof {
                        reveal(spec_bodypart);
                        assert(bodypart_at(b@, gstart, i as int) is None);
                        lemma_spec_bodyparts_fails(b@, gstart, count as int, i as int);
                    }
                    return Err(e);
                }
            };
            let item = BodyPart { header: h, models };
            proof {
                reveal(spec_bodypart);
                assert(bodypart_at(b@, gstart, i as int) == Some(item@));
            }
            let ghost prev = out@;
            out.push(item);
            proof {
                assert(out@ == prev.push(item));
                assert(views_bodypart(out@) =~= views_bodypart(prev).push(item@));
                assert(views_bodypart(out@) =~= Seq::new((i + 1) as nat, |k: int| bodypart_at(b@, gstart, k)->Some_0));
            }
            if i + 1 == n {
                proof {
                    lemma_spec_bodyparts_holds(b@, gstart, count as int);
                }
                return Ok(out);
            }
            p = match p.checked_add(8) {
                Some(q) => q,
                None => {
                    proof {
                        reveal(spec_bodypart);
                        assert(bodypart_at(b@, gstart, i + 1) is None);
                        lemma_spec_bodyparts_fails(b@, gstart, count as int, i + 1);
                    }
                    return Err(ModelLoadError::TruncatedBuffer);
                }
            };
            i = i + 1;
        }
    }

    /// Reads the body parts that a file header declares; their offset counts
    /// from the start of the file.
    pub fn read_bodyparts(&self, file_header: &VTXFileHeader, vtx_data_bytes: &[u8]) -> (r: Result<Vec<BodyPart>, ModelLoadError>)
        ensures
            spec_bodyparts(vtx_data_bytes@, file_header.body_part_offset as int, file_header.num_body_parts as int) is Some <==> r is Ok,
            r is Ok ==> views_bodypart(r->Ok_0@) == spec_bodyparts(vtx_data_bytes@, file_header.body_part_offset as int, file_header.num_body_parts as int)->Some_0,
            r is Err ==> r->Err_0 == ModelLoadError::TruncatedBuffer,
    {
        self.read_bodyparts_from(file_header, 0, vtx_data_bytes)
    }

    /// Decodes a whole optimized-mesh file: the header, whose revision must be
    /// the supported one, and the tree of body parts below it. A negative count
    /// at any level is rejected as `TruncatedBuffer`.
    pub fn deserialize(&self, vtx_data_bytes: &[u8]) -> (r: Result<VTXFile, ModelLoadError>)
        ensures
            match spec_vtx_file(vtx_data_bytes@) {
                Ok(v) => r is Ok && r->Ok_0@ == v,
                Err(e) => r == Err::<VTXFile, ModelLoadError>(e),
            },
    {
        reveal(spec_vtx_file);
        let header = match decode_record::<VTXFileHeader>(vtx_data_bytes, 0) {
            Ok(h) => h,
            Err(e) => return Err(e),
        };
        if header.version != OPTIMIZED_MODEL_FILE_VERSION {
            return Err(ModelLoadError::UnsupportedVersion);
        }
        let bodyparts = match self.read_bodyparts(&header, vtx_data_bytes) {
            Ok(v) => v,
            Err(e) => return Err(e),
        };
        Ok(VTXFile { header, bodyparts })
    }
}

/// Decodes an optimized-mesh file held in memory.
pub fn read_vtx_file(vtx_data_bytes: &[u8]) -> (r: Result<VTXFile, ModelLoadError>)
    ensures
        match spec_vtx_file(vtx_data_bytes@) {
            Ok(v) => r is Ok && r->Ok_0@ == v,
            Err(e) => r == Err::<VTXFile, ModelLoadError>(e),
        },
{
    let deserializer = VTXDeserializer::new(String::new());
    deserializer.deserialize(vtx_data_bytes)
}

/// Each array of a strip group has as many elements as its header declares.
pub open spec fn strip_group_counts_match(g: StripGroupView) -> bool {
    &&& g.vertices.len() == g.header.num_verts as int
    &&& g.indices.len() == g.header.num_indices as int
    &&& g.strips.len() == g.header.num_strips as int
}

/// Every collection of this mesh, and every one below it, has as many elements as
/// its header declares.
pub open spec fn mesh_counts_match(x: MeshView) -> bool {
    &&& x.strip_groups.len() == x.header.num_strip_groups as int
    &&& forall|k: int| 0 <= k < x.strip_groups.len() ==> strip_group_counts_match(#[trigger] x.strip_groups[k])
}

/// Every collection of this level of detail, and every one below it, has as many elements as
/// its header declares.
pub open spec fn lod_counts_match(x: LodView) -> bool {
    &&& x.meshes.len() == x.header.num_meshes as int
    &&& forall|k: int| 0 <= k < x.meshes.len() ==> mesh_counts_match(#[trigger] x.meshes[k])
}

/// Every collection of this model, and every one below it, has as many elements as
/// its header declares.
pub open spec fn model_counts_match(x: ModelView) -> bool {
    &&& x.lods.len() == x.header.num_lods as int
    &&& forall|k: int| 0 <= k < x.lods.len() ==> lod_counts_match(#[trigger] x.lods[k])
}

/// Every collection of this body part, and every one below it, has as many elements as
/// its header declares.
pub open spec fn bodypart_counts_match(x: BodyPartView) -> bool {
    &&& x.models.len() == x.header.num_models as int
    &&& forall|k: int| 0 <= k < x.models.len() ==> model_counts_match(#[trigger] x.models[k])
}

/// Every collection of the file has as many elements as its header declares.
pub open spec fn vtx_counts_match(f: VTXFileView) -> bool {
    &&& f.bodyparts.len() == f.header.num_body_parts as int
    &&& forall|k: int| 0 <= k < f.bodyparts.len() ==> bodypart_counts_match(#[trigger] f.bodyparts[k])
}

/// A decoded element has as many children at each level as its headers declare.
proof fn lemma_strip_group_counts(b: Seq<u8>, p: int)
    requires
        spec_strip_group(b, p) is Some,
    ensures
        strip_group_counts_match(spec_strip_group(b, p)->Some_0),
{
    reveal(spec_strip_group);
}

/// A decoded element has as many children at each level as its headers declare.
proof fn lemma_mesh_counts(b: Seq<u8>, p: int)
    requires
        spec_mesh(b, p) is Some,
    ensures
        mesh_counts_match(spec_mesh(b, p)->Some_0),
{
    reveal(spec_mesh);
    reveal(spec_strip_groups);
    let h = VTXFileMeshHeader::spec_decode(b, p);
    let start = p + h.strip_group_header_offset;
    let x = spec_mesh(b, p)->Some_0;
    assert forall|k: int| 0 <= k < x.strip_groups.len() implies strip_group_counts_match(#[trigger] x.strip_groups[k]) by {
        assert(strip_group_at(b, start, k) is Some);
        lemma_strip_group_counts(b, start + k * 25);
    }
}

/// A decoded element has as many children at each level as its headers declare.
proof fn lemma_lod_counts(b: Seq<u8>, p: int)
    requires
        spec_lod(b, p) is Some,
    ensures
        lod_counts_match(spec_lod(b, p)->Some_0),
{
    reveal(spec_lod);
    reveal(spec_meshes);
    let h = VTXFileModelLODHeader::spec_decode(b, p);
    let start = p + h.mesh_offset;
    let x = spec_lod(b, p)->Some_0;
    assert forall|k: int| 0 <= k < x.meshes.len() implies mesh_counts_match(#[trigger] x.meshes[k]) by {
        assert(mesh_at(b, start, k) is Some);
        lemma_mesh_counts(b, start + k * 9);
    }
}

/// A decoded element has as many children at each level as its headers declare.
proof fn lemma_model_counts(b: Seq<u8>, p: int)
    requires
        spec_model(b, p) is Some,
    ensures
        model_counts_match(spec_model(b, p)->Some_0),
{
    reveal(spec_model);
    reveal(spec_lods);
    let h = VTXFileModelHeader::spec_decode(b, p);
    let start = p + h.lod_offset;
    let x = spec_model(b, p)->Some_0;
    assert forall|k: int| 0 <= k < x.lods.len() implies lod_counts_match(#[trigger] x.lods[k]) by {
        assert(lod_at(b, start, k) is Some);
        lemma_lod_counts(b, start + k * 12);
    }
}

/// A decoded element has as many children at each level as its headers declare.
proof fn lemma_bodypart_counts(b: Seq<u8>, p: int)
    requires
        spec_bodypart(b, p) is Some,
    ensures
        bodypart_counts_match(spec_bodypart(b, p)->Some_0),
{
    reveal(spec_bodypart);
    reveal(spec_models);
    let h = VTXFileBodyPartHeader::spec_decode(b, p);
    let start = p + h.model_offset;
    let x = spec_bodypart(b, p)->Some_0;
    assert forall|k: int| 0 <= k < x.models.len() implies model_counts_match(#[trigger] x.models[k]) by {
        assert(model_at(b, start, k) is Some);
        lemma_model_counts(b, start + k * 8);
    }
}

/// Every collection of a decoded optimized-mesh file, at every level of the
/// tree, has exactly as many elements as the count that its header declares.
pub proof fn lemma_vtx_counts_match(b: Seq<u8>)
    requires
        spec_vtx_file(b) is Ok,
    ensures
        vtx_counts_match(spec_vtx_file(b)->Ok_0),
{
    reveal(spec_vtx_file);
    reveal(spec_bodyparts);
    let h = VTXFileHeader::spec_decode(b, 0);
    let f = spec_vtx_file(b)->Ok_0;
    assert forall|k: int| 0 <= k < f.bodyparts.len() implies bodypart_counts_match(#[trigger] f.bodyparts[k]) by {
        assert(bodypart_at(b, h.body_part_offset as int, k) is Some);
        lemma_bodypart_counts(b, h.body_part_offset + k * 8);
    }
}

} // verus!
