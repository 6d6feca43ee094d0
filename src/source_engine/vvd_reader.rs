//! The vertex-data file: a header, an optional fixup table and the flat
//! array of vertices. Its offsets count from the start of the file.
use vstd::prelude::*;
use super::bytes::{
    decode_array, decode_record, read_i32, read_i32x8, read_u32x3, read_u8, read_u8x3,
    record_fits, spec_array, spec_i32, spec_i32x8, spec_u32x3, spec_u8, spec_u8x3, Record,
};
use super::{ModelLoadError, SourceModelVector, SourceModelVector2D};

verus! {

/// The tag "IDSV" that opens a vertex-data file, read as a little-endian integer.
pub const VVD_HEADER: i32 = 1448297545;

/// Greatest number of levels of detail that a header counts vertices for.
pub const MAX_NUM_LODS: usize = 8;

/// Width in bytes of one vertex record.
pub const VERTEX_WIDTH: i32 = 48;

/// Errors of the vertex-data decoder.
pub type VVDDeserializeError = ModelLoadError;

/// The file header (64 bytes).
#[derive(Clone, Copy, Debug, PartialEq, Eq)]
pub struct VVDFileHeader {
    /// The tag [`VVD_HEADER`].
    pub id: i32,
    pub version: i32,
    /// Must match the checksum of the other two files.
    pub checksum: i32,
    /// Number of valid levels of detail.
    pub num_lods: i32,
    /// Vertex count for each level of detail.
    pub num_lod_vertexes: [i32; 8],
    /// Number of fixup-table entries.
    pub num_fixups: i32,
    /// Offset of the fixup table.
    pub fixup_table_start: i32,
    /// Offset of the vertex block.
    pub vertex_data_start: i32,
    /// Offset of the tangent block, which ends the vertex block.
    pub tangent_data_start: i32,
}

impl Record for VVDFileHeader {
    open spec fn spec_width() -> nat {
        64
    }

    open spec fn spec_decode(b: Seq<u8>, p: int) -> Self {
        VVDFileHeader {
            id: spec_i32(b, p),
            version: spec_i32(b, p + 4),
            checksum: spec_i32(b, p + 8),
            num_lods: spec_i32(b, p + 12),
            num_lod_vertexes: spec_i32x8(b, p + 16),
            num_fixups: spec_i32(b, p + 48),
            fixup_table_start: spec_i32(b, p + 52),
            vertex_data_start: spec_i32(b, p + 56),
            tangent_data_start: spec_i32(b, p + 60),
        }
    }

    fn width() -> (r: usize) {
        64
    }

    fn decode_at(b: &[u8], p: usize) -> (r: Self) {
        VVDFileHeader {
            id: read_i32(b, p),
            version: read_i32(b, p + 4),
            checksum: read_i32(b, p + 8),
            num_lods: read_i32(b, p + 12),
            num_lod_vertexes: read_i32x8(b, p + 16),
            num_fixups: read_i32(b, p + 48),
            fixup_table_start: read_i32(b, p + 52),
            vertex_data_start: read_i32(b, p + 56),
            tangent_data_start: read_i32(b, p + 60),
        }
    }
}

/// A fixup-table entry (12 bytes): the vertices of one level of detail.
#[derive(Clone, Copy, Debug, PartialEq, Eq)]
pub struct VVDFileFixupTable {
    pub lod: i32,
    /// Index of the first vertex in the vertex block.
    pub source_vertex_id: i32,
    pub num_vertexes: i32,
}

impl Record for VVDFileFixupTable {
    open spec fn spec_width() -> nat {
        12
    }

    open spec fn spec_decode(b: Seq<u8>, p: int) -> Self {
        VVDFileFixupTable {
            lod: spec_i32(b, p),
            source_vertex_id: spec_i32(b, p + 4),
            num_vertexes: spec_i32(b, p + 8),
        }
    }

    fn width() -> (r: usize) {
        12
    }

    fn decode_at(b: &[u8], p: usize) -> (r: Self) {
        VVDFileFixupTable {
            lod: read_i32(b, p),
            source_vertex_id: read_i32(b, p + 4),
            num_vertexes: read_i32(b, p + 8),
        }
    }
}

/// The bone weighting of a vertex (16 bytes).
#[derive(Clone, Copy, Debug, PartialEq, Eq)]
pub struct VVDFileBoneWeight {
    /// Weights as IEEE-754 single-precision bits.
    pub weight: [u32; 3],
    pub bone: [u8; 3],
    pub num_bones: u8,
}

impl Record for VVDFileBoneWeight {
    open spec fn spec_width() -> nat {
        16
    }

    open spec fn spec_decode(b: Seq<u8>, p: int) -> Self {
        VVDFileBoneWeight {
            weight: spec_u32x3(b, p),
            bone: spec_u8x3(b, p + 12),
            num_bones: spec_u8(b, p + 15),
        }
    }

    fn width() -> (r: usize) {
        16
    }

    fn decode_at(b: &[u8], p: usize) -> (r: Self) {
        VVDFileBoneWeight {
            weight: read_u32x3(b, p),
            bone: read_u8x3(b, p + 12),
            num_bones: read_u8(b, p + 15),
        }
    }
}

/// A vertex (48 bytes); every float is held as its IEEE-754 bits.
#[derive(Clone, Copy, Debug, PartialEq, Eq)]
pub struct VVDFileVertex {
    pub bone_weight: VVDFileBoneWeight,
    pub vec_position: SourceModelVector,
    pub vec_normal: SourceModelVector,
    pub vec_tex_coord: SourceModelVector2D,
}

impl Record for VVDFileVertex {
    open spec fn spec_width() -> nat {
        48
    }

    open spec fn spec_decode(b: Seq<u8>, p: int) -> Self {
        VVDFileVertex {
            bone_weight: VVDFileBoneWeight::spec_decode(b, p),
            vec_position: SourceModelVector::spec_decode(b, p + 16),
            vec_normal: SourceModelVector::spec_decode(b, p + 28),
            vec_tex_coord: SourceModelVector2D::spec_decode(b, p + 40),
        }
    }

    fn width() -> (r: usize) {
        48
    }

    fn decode_at(b: &[u8], p: usize) -> (r: Self) {
        VVDFileVertex {
            bone_weight: VVDFileBoneWeight::decode_at(b, p),
            vec_position: SourceModelVector::decode_at(b, p + 16),
            vec_normal: SourceModelVector::decode_at(b, p + 28),
            vec_tex_coord: SourceModelVector2D::decode_at(b, p + 40),
        }
    }
}

/// A decoded vertex-data file.
#[derive(Clone, Debug, PartialEq, Eq)]
pub struct VVDFile {
    pub header: VVDFileHeader,
    /// The fixup table; it is decoded but not applied to the vertices.
    pub fixup_table: Vec<VVDFileFixupTable>,
    pub vertices: Vec<VVDFileVertex>,
}

/// The value of a [`VVDFile`], with each collection as a sequence.
pub struct VVDFileView {
    pub header: VVDFileHeader,
    pub fixup_table: Seq<VVDFileFixupTable>,
    pub vertices: Seq<VVDFileVertex>,
}

impl View for VVDFile {
    type V = VVDFileView;

    open spec fn view(&self) -> VVDFileView {
        VVDFileView { header: self.header, fixup_table: self.fixup_table@, vertices: self.vertices@ }
    }
}

/// How many whole vertex records fit between the start of the vertex block
/// and the start of the tangent block.
pub open spec fn spec_vertex_count(h: VVDFileHeader) -> int {
    if h.tangent_data_start > h.vertex_data_start {
        (h.tangent_data_start - h.vertex_data_start) / 48
    } else {
        0
    }
}

/// The whole vertex-data file.
#[verifier::opaque]
pub open spec fn spec_vvd_file(b: Seq<u8>) -> Result<VVDFileView, ModelLoadError> {
    if !record_fits::<VVDFileHeader>(b, 0) {
        Err(ModelLoadError::TruncatedBuffer)
    } else {
        let h = VVDFileHeader::spec_decode(b, 0);
        let fixups = spec_array::<VVDFileFixupTable>(b, h.fixup_table_start as int, h.num_fixups as int);
        let vertices = spec_array::<VVDFileVertex>(b, h.vertex_data_start as int, spec_vertex_count(h));
        if h.id != VVD_HEADER {
            Err(ModelLoadError::BadMagic)
        } else if fixups is None || h.tangent_data_start < h.vertex_data_start || vertices is None {
            Err(ModelLoadError::TruncatedBuffer)
        } else {
            Ok(VVDFileView { header: h, fixup_table: fixups->Some_0, vertices: vertices->Some_0 })
        }
    }
}

/// The number of vertex records in the vertex block that a header describes.
pub fn vertex_count(header: &VVDFileHeader) -> (r: i32)
    ensures
        r == spec_vertex_count(*header),
{
    if header.tangent_data_start > header.vertex_data_start {
        let span = (header.tangent_data_start as i64) - (header.vertex_data_start as i64);
        (span / (VERTEX_WIDTH as i64)) as i32
    } else {
        0
    }
}

/// Decodes a vertex-data file held in memory: the header, whose tag must be
/// [`VVD_HEADER`], the fixup table when the header counts entries, and the
/// vertices that lie between the vertex block and the tangent block. A
/// negative fixup count, or a tangent block that starts before the vertex
/// block, is rejected as `TruncatedBuffer`.
pub fn read_vvd_file(vvd_data_bytes: &[u8]) -> (r: Result<VVDFile, ModelLoadError>)
    ensures
        match spec_vvd_file(vvd_data_bytes@) {
            Ok(v) => r is Ok && r->Ok_0@ == v,
            Err(e) => r == Err::<VVDFile, ModelLoadError>(e),
        },
{
    reveal(spec_vvd_file);
    let header = match decode_record::<VVDFileHeader>(vvd_data_bytes, 0) {
        Ok(h) => h,
        Err(e) => return Err(e),
    };
    if header.id != VVD_HEADER {
        return Err(ModelLoadError::BadMagic);
    }
    let fixup_table = match decode_array::<VVDFileFixupTable>(vvd_data_bytes, 0, header.fixup_table_start, header.num_fixups) {
        Ok(v) => v,
        Err(e) => return Err(e),
    };
    if header.tangent_data_start < header.vertex_data_start {
        return Err(ModelLoadError::TruncatedBuffer);
    }
    let count = vertex_count(&header);
    let vertices = match decode_array::<VVDFileVertex>(vvd_data_bytes, 0, header.vertex_data_start, count) {
        Ok(v) => v,
        Err(e) => return Err(e),
    };
    Ok(VVDFile { header, fixup_table, vertices })
}

/// The fixup table of a decoded vertex-data file has as many entries as its
/// header declares, and the vertex array holds every whole vertex record
/// between the vertex block and the tangent block, which starts no earlier.
pub proof fn lemma_vvd_counts_match(b: Seq<u8>)
    requires
        spec_vvd_file(b) is Ok,
    ensures
        ({
            let f = spec_vvd_file(b)->Ok_0;
            &&& f.fixup_table.len() == f.header.num_fixups as int
            &&& f.header.vertex_data_start <= f.header.tangent_data_start
            &&& f.vertices.len() == (f.header.tangent_data_start - f.header.vertex_data_start) / 48
        }),
{
    reveal(spec_vvd_file);
}

} // verus!
