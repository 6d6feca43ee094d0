//! The studio model format: three files that together describe one model.
//! The studio-model file carries the header and name, the optimized-mesh
//! file the mesh topology, and the vertex-data file the vertices.
use vstd::prelude::*;
use bytes::{read_u32, spec_i32, spec_u32, Record};
use mdl_reader::{read_mdl_file, spec_mdl_file, MDLFile, MDLFileView, MDL_HEADER};
use vtx_reader::{lemma_vtx_counts_match, read_vtx_file, spec_vtx_file, VTXFile, VTXFileView, OPTIMIZED_MODEL_FILE_VERSION};
use vvd_reader::{read_vvd_file, spec_vvd_file, VVDFile, VVDFileView, VVDFileVertex, VVD_HEADER};

pub mod bytes;
pub mod mdl_reader;
pub mod vtx_reader;
pub mod vvd_reader;

verus! {

/// Why a model could not be decoded.
#[derive(Clone, Copy, Debug, PartialEq, Eq, Structural)]
pub enum ModelLoadError {
    /// A file does not start with the tag of its kind.
    BadMagic,
    /// The optimized-mesh file has a format revision other than the one supported.
    UnsupportedVersion,
    /// A record lies, wholly or partly, outside its file.
    TruncatedBuffer,
    /// The display name is not valid UTF-8.
    InvalidText,
    /// The three files do not carry the same checksum.
    ChecksumMismatch,
    /// The studio header and the optimized-mesh file disagree on the body-part count.
    BodyPartCountMismatch,
    /// A file could not be read.
    Io,
}

/// A vector of three single-precision floats, each held as its IEEE-754 bits.
#[derive(Clone, Copy, Debug, PartialEq, Eq)]
pub struct SourceModelVector(pub u32, pub u32, pub u32);

/// A vector of two single-precision floats, each held as its IEEE-754 bits.
#[derive(Clone, Copy, Debug, PartialEq, Eq)]
pub struct SourceModelVector2D(pub u32, pub u32);

impl Record for SourceModelVector {
    open spec fn spec_width() -> nat {
        12
    }

    open spec fn spec_decode(b: Seq<u8>, p: int) -> Self {
        SourceModelVector(spec_u32(b, p), spec_u32(b, p + 4), spec_u32(b, p + 8))
    }

    fn width() -> (r: usize) {
        12
    }

    fn decode_at(b: &[u8], p: usize) -> (r: Self) {
        SourceModelVector(read_u32(b, p), read_u32(b, p + 4), read_u32(b, p + 8))
    }
}

impl Record for SourceModelVector2D {
    open spec fn spec_width() -> nat {
        8
    }

    open spec fn spec_decode(b: Seq<u8>, p: int) -> Self {
        SourceModelVector2D(spec_u32(b, p), spec_u32(b, p + 4))
    }

    fn width() -> (r: usize) {
        8
    }

    fn decode_at(b: &[u8], p: usize) -> (r: Self) {
        SourceModelVector2D(read_u32(b, p), read_u32(b, p + 4))
    }
}

/// Directory, relative to the working directory, that holds the model files.
pub const MODEL_PATH: &'static str = "source_assets/models/";

/// A model decoded from its three files, with the vertex positions and
/// normals projected out for a renderer.
#[derive(Clone, Debug, PartialEq, Eq)]
pub struct SourceEngineModel {
    pub mdl_file: MDLFile,
    pub vtx_file: VTXFile,
    pub vvd_file: VVDFile,
    /// The position of each vertex of the vertex-data file, in order.
    pub vertices: Vec<SourceModelVector>,
    /// The normal of each vertex of the vertex-data file, in order.
    pub normals: Vec<SourceModelVector>,
}

/// The value of a [`SourceEngineModel`].
pub struct SourceEngineModelView {
    pub mdl_file: MDLFileView,
    pub vtx_file: VTXFileView,
    pub vvd_file: VVDFileView,
    pub vertices: Seq<SourceModelVector>,
    pub normals: Seq<SourceModelVector>,
}

impl View for SourceEngineModel {
    type V = SourceEngineModelView;

    open spec fn view(&self) -> SourceEngineModelView {
        SourceEngineModelView {
            mdl_file: self.mdl_file@,
            vtx_file: self.vtx_file@,
            vvd_file: self.vvd_file@,
            vertices: self.vertices@,
            normals: self.normals@,
        }
    }
}

/// The positions of a sequence of vertices.
pub open spec fn positions_of(vs: Seq<VVDFileVertex>) -> Seq<SourceModelVector> {
    vs.map_values(|v: VVDFileVertex| v.vec_position)
}

/// The normals of a sequence of vertices.
pub open spec fn normals_of(vs: Seq<VVDFileVertex>) -> Seq<SourceModelVector> {
    vs.map_values(|v: VVDFileVertex| v.vec_normal)
}

/// Whether the three decoded files carry one checksum.
pub open spec fn checksums_agree(m: MDLFileView, t: VTXFileView, d: VVDFileView) -> bool {
    m.header.checksum == d.header.checksum && d.header.checksum == t.header.checksum
}

/// The model composed from three decoded files: the body-part counts must
/// agree first, then the checksums.
pub open spec fn spec_assemble(m: MDLFileView, t: VTXFileView, d: VVDFileView) -> Result<SourceEngineModelView, ModelLoadError> {
    if m.header.bodypart_count as int != t.bodyparts.len() {
        Err(ModelLoadError::BodyPartCountMismatch)
    } else if !checksums_agree(m, t, d) {
        Err(ModelLoadError::ChecksumMismatch)
    } else {
        Ok(SourceEngineModelView {
            mdl_file: m,
            vtx_file: t,
            vvd_file: d,
            vertices: positions_of(d.vertices),
            normals: normals_of(d.vertices),
        })
    }
}

/// The model decoded from the contents of its three files, each absent when
/// the file could not be read. The files are taken in the order studio model,
/// optimized mesh, vertex data, and the first failure is the result.
pub open spec fn spec_source_model(
    mdl: Option<Seq<u8>>,
    vtx: Option<Seq<u8>>,
    vvd: Option<Seq<u8>>,
) -> Result<SourceEngineModelView, ModelLoadError> {
    match mdl {
        None => Err(ModelLoadError::Io),
        Some(mb) => match spec_mdl_file(mb) {
            Err(e) => Err(e),
            Ok(m) => match vtx {
                None => Err(ModelLoadError::Io),
                Some(tb) => match spec_vtx_file(tb) {
                    Err(e) => Err(e),
                    Ok(t) => match vvd {
                        None => Err(ModelLoadError::Io),
                        Some(db) => match spec_vvd_file(db) {
                            Err(e) => Err(e),
                            Ok(d) => spec_assemble(m, t, d),
                        },
                    },
                },
            },
        },
    }
}

/// The view of a file's contents, when there are any.
pub open spec fn contents(f: Option<&[u8]>) -> Option<Seq<u8>> {
    match f {
        Some(b) => Some(b@),
        None => None,
    }
}

/// Projects the position of each vertex.
pub fn vertex_positions(vertices: &Vec<VVDFileVertex>) -> (r: Vec<SourceModelVector>)
    ensures
        r@ == positions_of(vertices@),
{
    let mut out: Vec<SourceModelVector> = Vec::new();
    let mut i: usize = 0;
    while i < vertices.len()
        invariant
            i <= vertices@.len(),
            out@ == positions_of(vertices@.subrange(0, i as int)),
        decreases vertices@.len() - i,
    {
        out.push(vertices[i].vec_position);
        proof {
            assert(positions_of(vertices@.subrange(0, i + 1)) =~= positions_of(vertices@.subrange(0, i as int)).push(vertices@[i as int].vec_position));
        }
        i = i + 1;
    }
    proof {
        assert(vertices@.subrange(0, i as int) =~= vertices@);
    }
    out
}

/// Projects the normal of each vertex.
pub fn vertex_normals(vertices: &Vec<VVDFileVertex>) -> (r: Vec<SourceModelVector>)
    ensures
        r@ == normals_of(vertices@),
{
    let mut out: Vec<SourceModelVector> = Vec::new();
    let mut i: usize = 0;
    while i < vertices.len()
        invariant
            i <= vertices@.len(),
            out@ == normals_of(vertices@.subrange(0, i as int)),
        decreases vertices@.len() - i,
    {
        out.push(vertices[i].vec_normal);
        proof {
            assert(normals_of(vertices@.subrange(0, i + 1)) =~= normals_of(vertices@.subrange(0, i as int)).push(vertices@[i as int].vec_normal));
        }
        i = i + 1;
    }
    proof {
        assert(vertices@.subrange(0, i as int) =~= vertices@);
    }
    out
}

/// Checks three decoded files against each other and composes the model.
pub fn assemble_model(mdl_file: MDLFile, vtx_file: VTXFile, vvd_file: VVDFile) -> (r: Result<SourceEngineModel, ModelLoadError>)
    ensures
        match spec_assemble(mdl_file@, vtx_file@, vvd_file@) {
            Ok(v) => r is Ok && r->Ok_0@ == v,
            Err(e) => r == Err::<SourceEngineModel, ModelLoadError>(e),
        },
{
    let count = mdl_file.header.bodypart_count;
    if count < 0 || count as usize != vtx_file.bodyparts.len() {
        return Err(ModelLoadError::BodyPartCountMismatch);
    }
    if mdl_file.header.checksum != vvd_file.header.checksum || vvd_file.header.checksum != vtx_file.header.checksum {
        return Err(ModelLoadError::ChecksumMismatch);
    }
    let vertices = vertex_positions(&vvd_file.vertices);
    let normals = vertex_normals(&vvd_file.vertices);
    Ok(SourceEngineModel { mdl_file, vtx_file, vvd_file, vertices, normals })
}

/// Decodes a model from the contents of its three files: the studio-model
/// file, the optimized-mesh file and the vertex-data file, each `None` when
/// it could not be read.
pub fn read_source_engine_model(mdl: Option<&[u8]>, vtx: Option<&[u8]>, vvd: Option<&[u8]>) -> (r: Result<SourceEngineModel, ModelLoadError>)
    ensures
        match spec_source_model(contents(mdl), contents(vtx), contents(vvd)) {
            Ok(v) => r is Ok && r->Ok_0@ == v,
            Err(e) => r == Err::<SourceEngineModel, ModelLoadError>(e),
        },
{
    let mdl_file = match mdl {
        None => return Err(ModelLoadError::Io),
        Some(b) => match read_mdl_file(b) {
            Ok(f) => f,
            Err(e) => return Err(e),
        },
    };
    let vtx_file = match vtx {
        None => return Err(ModelLoadError::Io),
        Some(b) => match read_vtx_file(b) {
            Ok(f) => f,
            Err(e) => return Err(e),
        },
    };
    let vvd_file = match vvd {
        None => return Err(ModelLoadError::Io),
        Some(b) => match read_vvd_file(b) {
            Ok(f) => f,
            Err(e) => return Err(e),
        },
    };
    assemble_model(mdl_file, vtx_file, vvd_file)
}

/// Three files that each decode, whose headers declare the same body-part
/// count and that share one checksum always give a model, and the three
/// checksums that the model carries are equal.
pub proof fn lemma_consistent_files_load(mdl: Seq<u8>, vtx: Seq<u8>, vvd: Seq<u8>)
    requires
        spec_mdl_file(mdl) is Ok,
        spec_vtx_file(vtx) is Ok,
        spec_vvd_file(vvd) is Ok,
        spec_mdl_file(mdl)->Ok_0.header.bodypart_count == spec_vtx_file(vtx)->Ok_0.header.num_body_parts,
        spec_mdl_file(mdl)->Ok_0.header.checksum == spec_vtx_file(vtx)->Ok_0.header.checksum,
        spec_vtx_file(vtx)->Ok_0.header.checksum == spec_vvd_file(vvd)->Ok_0.header.checksum,
    ensures
        spec_source_model(Some(mdl), Some(vtx), Some(vvd)) is Ok,
        ({
            let v = spec_source_model(Some(mdl), Some(vtx), Some(vvd))->Ok_0;
            &&& v.mdl_file.header.checksum == v.vtx_file.header.checksum
            &&& v.vtx_file.header.checksum == v.vvd_file.header.checksum
        }),
{
    lemma_vtx_counts_match(vtx);
}

/// Every model that decodes carries one checksum in all three of its files.
pub proof fn lemma_loaded_checksums_agree(mdl: Option<Seq<u8>>, vtx: Option<Seq<u8>>, vvd: Option<Seq<u8>>)
    requires
        spec_source_model(mdl, vtx, vvd) is Ok,
    ensures
        ({
            let v = spec_source_model(mdl, vtx, vvd)->Ok_0;
            &&& v.mdl_file.header.checksum == v.vtx_file.header.checksum
            &&& v.vtx_file.header.checksum == v.vvd_file.header.checksum
        }),
{
}

/// A studio-model file long enough for its header whose first four bytes are
/// not the tag "IDST" makes decoding fail with `BadMagic`.
pub proof fn lemma_mdl_bad_tag_rejected(mdl: Seq<u8>, vtx: Option<Seq<u8>>, vvd: Option<Seq<u8>>)
    requires
        mdl.len() >= 400,
        spec_i32(mdl, 0) != MDL_HEADER,
    ensures
        spec_source_model(Some(mdl), vtx, vvd) == Err::<SourceEngineModelView, ModelLoadError>(ModelLoadError::BadMagic),
{
    reveal(spec_mdl_file);
}

/// Beside a studio-model file that decodes, an optimized-mesh file long
/// enough for its header whose first four bytes are not the revision 7 makes
/// decoding fail with `UnsupportedVersion`.
pub proof fn lemma_vtx_bad_version_rejected(mdl: Seq<u8>, vtx: Seq<u8>, vvd: Option<Seq<u8>>)
    requires
        spec_mdl_file(mdl) is Ok,
        vtx.len() >= 36,
        spec_i32(vtx, 0) != OPTIMIZED_MODEL_FILE_VERSION,
    ensures
        spec_source_model(Some(mdl), Some(vtx), vvd) == Err::<SourceEngineModelView, ModelLoadError>(ModelLoadError::UnsupportedVersion),
{
    reveal(spec_vtx_file);
}

/// Beside studio-model and optimized-mesh files that decode, a vertex-data
/// file long enough for its header whose first four bytes are not the tag
/// "IDSV" makes decoding fail with `BadMagic`.
pub proof fn lemma_vvd_bad_tag_rejected(mdl: Seq<u8>, vtx: Seq<u8>, vvd: Seq<u8>)
    requires
        spec_mdl_file(mdl) is Ok,
        spec_vtx_file(vtx) is Ok,
        vvd.len() >= 64,
        spec_i32(vvd, 0) != VVD_HEADER,
    ensures
        spec_source_model(Some(mdl), Some(vtx), Some(vvd)) == Err::<SourceEngineModelView, ModelLoadError>(ModelLoadError::BadMagic),
{
    reveal(spec_vvd_file);
}

/// Decoding the same three files twice gives structurally equal models: any
/// two results that [`read_source_engine_model`] may return on the same
/// contents have the same value.
pub proof fn lemma_decode_deterministic(
    mdl: Option<Seq<u8>>,
    vtx: Option<Seq<u8>>,
    vvd: Option<Seq<u8>>,
    first: SourceEngineModel,
    second: SourceEngineModel,
)
    requires
        spec_source_model(mdl, vtx, vvd) == Ok::<SourceEngineModelView, ModelLoadError>(first@),
        spec_source_model(mdl, vtx, vvd) == Ok::<SourceEngineModelView, ModelLoadError>(second@),
    ensures
        first@ == second@,
{
}

} // verus!
