//! The studio-model file: its fixed header and the model's display name.
use vstd::prelude::*;
use super::bytes::{decode_record, read_i32, read_u32, read_u8, record_fits, spec_i32, spec_u32, spec_u8, Record};
use vstd::utf8::{decode_utf8, valid_utf8};
use super::{ModelLoadError, SourceModelVector};

verus! {

/// The tag "IDST" that opens a studio-model file, read as a little-endian integer.
pub const MDL_HEADER: i32 = 1414743113;

/// Position of the fixed-width display-name field in the header.
pub const NAME_START: usize = 12;

/// Width of the display-name field.
pub const NAME_WIDTH: usize = 64;

/// Errors of the studio-model decoder.
pub type MDLDeserializeError = ModelLoadError;

/// The studio-model header (400 bytes). The 64-byte name field at byte 12 is
/// decoded into [`MDLFile::name`] instead of being kept here.
#[derive(Clone, Copy, Debug, PartialEq, Eq)]
pub struct MDLFileHeader {
    /// The tag [`MDL_HEADER`].
    pub id: i32,
    pub version: i32,
    /// Must match the checksum of the other two files.
    pub checksum: i32,
    /// Length of the file in bytes.
    pub data_length: i32,
    /// Viewpoint relative to the model origin.
    pub eyeposition: SourceModelVector,
    pub illumposition: SourceModelVector,
    pub hull_min: SourceModelVector,
    pub hull_max: SourceModelVector,
    pub view_bbmin: SourceModelVector,
    pub view_bbmax: SourceModelVector,
    pub flags: i32,
    pub bone_count: i32,
    pub bone_offset: i32,
    pub bonecontroller_count: i32,
    pub bonecontroller_offset: i32,
    pub hitbox_count: i32,
    pub hitbox_offset: i32,
    pub localanim_count: i32,
    pub localanim_offset: i32,
    pub localseq_count: i32,
    pub localseq_offset: i32,
    pub activitylistversion: i32,
    pub eventsindexed: i32,
    pub texture_count: i32,
    pub texture_offset: i32,
    pub texturedir_count: i32,
    pub texturedir_offset: i32,
    pub skinreference_count: i32,
    pub skinrfamily_count: i32,
    pub skinreference_index: i32,
    /// Number of body parts.
    pub bodypart_count: i32,
    pub bodypart_offset: i32,
    pub attachment_count: i32,
    pub attachment_offset: i32,
    pub localnode_count: i32,
    pub localnode_index: i32,
    pub localnode_name_index: i32,
    pub flexdesc_count: i32,
    pub flexdesc_index: i32,
    pub flexcontroller_count: i32,
    pub flexcontroller_index: i32,
    pub flexrules_count: i32,
    pub flexrules_index: i32,
    pub ikchain_count: i32,
    pub ikchain_index: i32,
    pub mouths_count: i32,
    pub mouths_index: i32,
    pub localposeparam_count: i32,
    pub localposeparam_index: i32,
    pub surfaceprop_index: i32,
    pub keyvalue_index: i32,
    pub keyvalue_count: i32,
    pub iklock_count: i32,
    pub iklock_index: i32,
    /// Mass as IEEE-754 single-precision bits.
    pub mass: u32,
    pub contents: i32,
    pub includemodel_count: i32,
    pub includemodel_index: i32,
    pub virtual_model: i32,
    pub animblocks_name_index: i32,
    pub animblocks_count: i32,
    pub animblocks_index: i32,
    pub animblock_model: i32,
    pub bonetablename_index: i32,
    pub vertex_base: i32,
    pub offset_base: i32,
    pub directionaldotproduct: u8,
    pub root_lod: u8,
    pub num_allowed_root_lods: u8,
    pub unused1: u8,
    pub unused2: i32,
    pub flexcontrollerui_count: i32,
    pub flexcontrollerui_index: i32,
    /// Offset of the secondary header, or zero when there is none.
    pub studiohdr2index: i32,
    pub unused3: i32,
}

impl Record for MDLFileHeader {
    open spec fn spec_width() -> nat {
        400
    }

    open spec fn spec_decode(b: Seq<u8>, p: int) -> Self {
        MDLFileHeader {
            id: spec_i32(b, p),
            version: spec_i32(b, p + 4),
            checksum: spec_i32(b, p + 8),
            data_length: spec_i32(b, p + 76),
            eyeposition: SourceModelVector::spec_decode(b, p + 80),
            illumposition: SourceModelVector::spec_decode(b, p + 92),
            hull_min: SourceModelVector::spec_decode(b, p + 104),
            hull_max: SourceModelVector::spec_decode(b, p + 116),
            view_bbmin: SourceModelVector::spec_decode(b, p + 128),
            view_bbmax: SourceModelVector::spec_decode(b, p + 140),
            flags: spec_i32(b, p + 152),
            bone_count: spec_i32(b, p + 156),
            bone_offset: spec_i32(b, p + 160),
            bonecontroller_count: spec_i32(b, p + 164),
            bonecontroller_offset: spec_i32(b, p + 168),
            hitbox_count: spec_i32(b, p + 172),
            hitbox_offset: spec_i32(b, p + 176),
            localanim_count: spec_i32(b, p + 180),
            localanim_offset: spec_i32(b, p + 184),
            localseq_count: spec_i32(b, p + 188),
            localseq_offset: spec_i32(b, p + 192),
            activitylistversion: spec_i32(b, p + 196),
            eventsindexed: spec_i32(b, p + 200),
            texture_count: spec_i32(b, p + 204),
            texture_offset: spec_i32(b, p + 208),
            texturedir_count: spec_i32(b, p + 212),
            texturedir_offset: spec_i32(b, p + 216),
            skinreference_count: spec_i32(b, p + 220),
            skinrfamily_count: spec_i32(b, p + 224),
            skinreference_index: spec_i32(b, p + 228),
            bodypart_count: spec_i32(b, p + 232),
            bodypart_offset: spec_i32(b, p + 236),
            attachment_count: spec_i32(b, p + 240),
            attachment_offset: spec_i32(b, p + 244),
            localnode_count: spec_i32(b, p + 248),
            localnode_index: spec_i32(b, p + 252),
            localnode_name_index: spec_i32(b, p + 256),
            flexdesc_count: spec_i32(b, p + 260),
            flexdesc_index: spec_i32(b, p + 264),
            flexcontroller_count: spec_i32(b, p + 268),
            flexcontroller_index: spec_i32(b, p + 272),
            flexrules_count: spec_i32(b, p + 276),
            flexrules_index: spec_i32(b, p + 280),
            ikchain_count: spec_i32(b, p + 284),
            ikchain_index: spec_i32(b, p + 288),
            mouths_count: spec_i32(b, p + 292),
            mouths_index: spec_i32(b, p + 296),
            localposeparam_count: spec_i32(b, p + 300),
            localposeparam_index: spec_i32(b, p + 304),
            surfaceprop_index: spec_i32(b, p + 308),
            keyvalue_index: spec_i32(b, p + 312),
            keyvalue_count: spec_i32(b, p + 316),
            iklock_count: spec_i32(b, p + 320),
            iklock_index: spec_i32(b, p + 324),
            mass: spec_u32(b, p + 328),
            contents: spec_i32(b, p + 332),
            includemodel_count: spec_i32(b, p + 336),
            includemodel_index: spec_i32(b, p + 340),
            virtual_model: spec_i32(b, p + 344),
            animblocks_name_index: spec_i32(b, p + 348),
            animblocks_count: spec_i32(b, p + 352),
            animblocks_index: spec_i32(b, p + 356),
            animblock_model: spec_i32(b, p + 360),
            bonetablename_index: spec_i32(b, p + 364),
            vertex_base: spec_i32(b, p + 368),
            offset_base: spec_i32(b, p + 372),
            directionaldotproduct: spec_u8(b, p + 376),
            root_lod: spec_u8(b, p + 377),
            num_allowed_root_lods: spec_u8(b, p + 378),
            unused1: spec_u8(b, p + 379),
            unused2: spec_i32(b, p + 380),
            flexcontrollerui_count: spec_i32(b, p + 384),
            flexcontrollerui_index: spec_i32(b, p + 388),
            studiohdr2index: spec_i32(b, p + 392),
            unused3: spec_i32(b, p + 396),
        }
    }

    fn width() -> (r: usize) {
        400
    }

    fn decode_at(b: &[u8], p: usize) -> (r: Self) {
        MDLFileHeader {
            id: read_i32(b, p),
            version: read_i32(b, p + 4),
            checksum: read_i32(b, p + 8),
            data_length: read_i32(b, p + 76),
            eyeposition: SourceModelVector::decode_at(b, p + 80),
            illumposition: SourceModelVector::decode_at(b, p + 92),
            hull_min: SourceModelVector::decode_at(b, p + 104),
            hull_max: SourceModelVector::decode_at(b, p + 116),
            view_bbmin: SourceModelVector::decode_at(b, p + 128),
            view_bbmax: SourceModelVector::decode_at(b, p + 140),
            flags: read_i32(b, p + 152),
            bone_count: read_i32(b, p + 156),
            bone_offset: read_i32(b, p + 160),
            bonecontroller_count: read_i32(b, p + 164),
            bonecontroller_offset: read_i32(b, p + 168),
            hitbox_count: read_i32(b, p + 172),
            hitbox_offset: read_i32(b, p + 176),
            localanim_count: read_i32(b, p + 180),
            localanim_offset: read_i32(b, p + 184),
            localseq_count: read_i32(b, p + 188),
            localseq_offset: read_i32(b, p + 192),
            activitylistversion: read_i32(b, p + 196),
            eventsindexed: read_i32(b, p + 200),
            texture_count: read_i32(b, p + 204),
            texture_offset: read_i32(b, p + 208),
            texturedir_count: read_i32(b, p + 212),
            texturedir_offset: read_i32(b, p + 216),
            skinreference_count: read_i32(b, p + 220),
            skinrfamily_count: read_i32(b, p + 224),
            skinreference_index: read_i32(b, p + 228),
            bodypart_count: read_i32(b, p + 232),
            bodypart_offset: read_i32(b, p + 236),
            attachment_count: read_i32(b, p + 240),
            attachment_offset: read_i32(b, p + 244),
            localnode_count: read_i32(b, p + 248),
            localnode_index: read_i32(b, p + 252),
            localnode_name_index: read_i32(b, p + 256),
            flexdesc_count: read_i32(b, p + 260),
            flexdesc_index: read_i32(b, p + 264),
            flexcontroller_count: read_i32(b, p + 268),
            flexcontroller_index: read_i32(b, p + 272),
            flexrules_count: read_i32(b, p + 276),
            flexrules_index: read_i32(b, p + 280),
            ikchain_count: read_i32(b, p + 284),
            ikchain_index: read_i32(b, p + 288),
            mouths_count: read_i32(b, p + 292),
            mouths_index: read_i32(b, p + 296),
            localposeparam_count: read_i32(b, p + 300),
            localposeparam_index: read_i32(b, p + 304),
            surfaceprop_index: read_i32(b, p + 308),
            keyvalue_index: read_i32(b, p + 312),
            keyvalue_count: read_i32(b, p + 316),
            iklock_count: read_i32(b, p + 320),
            iklock_index: read_i32(b, p + 324),
            mass: read_u32(b, p + 328),
            contents: read_i32(b, p + 332),
            includemodel_count: read_i32(b, p + 336),
            includemodel_index: read_i32(b, p + 340),
            virtual_model: read_i32(b, p + 344),
            animblocks_name_index: read_i32(b, p + 348),
            animblocks_count: read_i32(b, p + 352),
            animblocks_index: read_i32(b, p + 356),
            animblock_model: read_i32(b, p + 360),
            bonetablename_index: read_i32(b, p + 364),
            vertex_base: read_i32(b, p + 368),
            offset_base: read_i32(b, p + 372),
            directionaldotproduct: read_u8(b, p + 376),
            root_lod: read_u8(b, p + 377),
            num_allowed_root_lods: read_u8(b, p + 378),
            unused1: read_u8(b, p + 379),
            unused2: read_i32(b, p + 380),
            flexcontrollerui_count: read_i32(b, p + 384),
            flexcontrollerui_index: read_i32(b, p + 388),
            studiohdr2index: read_i32(b, p + 392),
            unused3: read_i32(b, p + 396),
        }
    }
}

/// A decoded studio-model file.
#[derive(Clone, Debug, PartialEq, Eq)]
pub struct MDLFile {
    pub header: MDLFileHeader,
    /// The display name: the name field up to its first zero byte.
    pub name: String,
}

/// The value of an [`MDLFile`].
pub struct MDLFileView {
    pub header: MDLFileHeader,
    pub name: Seq<char>,
}

impl View for MDLFile {
    type V = MDLFileView;

    open spec fn view(&self) -> MDLFileView {
        MDLFileView { header: self.header, name: self.name@ }
    }
}

/// Relies on `std::str::from_utf8`: it accepts exactly the valid UTF-8
/// sequences and then holds the characters they encode.
#[verifier::external_body]
fn utf8_text(b: &[u8]) -> (r: Option<String>)
    ensures
        r is Some <==> valid_utf8(b@),
        r is Some ==> r->Some_0@ == decode_utf8(b@),
{
    match std::str::from_utf8(b) {
        Ok(s) => Some(s.to_string()),
        Err(_) => None,
    }
}

/// The position of the first zero byte of `s` at or after `i`, or the length
/// of `s` when there is none.
pub open spec fn nul_index(s: Seq<u8>, i: int) -> int
    decreases s.len() - i,
{
    if i >= s.len() {
        s.len() as int
    } else if s[i] == 0 {
        i
    } else {
        nul_index(s, i + 1)
    }
}

/// The bytes of a name field before its first zero byte; the whole field
/// when it holds none.
pub open spec fn name_bytes(field: Seq<u8>) -> Seq<u8> {
    field.subrange(0, nul_index(field, 0))
}

/// The whole studio-model file.
#[verifier::opaque]
pub open spec fn spec_mdl_file(b: Seq<u8>) -> Result<MDLFileView, ModelLoadError> {
    if !record_fits::<MDLFileHeader>(b, 0) {
        Err(ModelLoadError::TruncatedBuffer)
    } else {
        let h = MDLFileHeader::spec_decode(b, 0);
        if h.id != MDL_HEADER {
            Err(ModelLoadError::BadMagic)
        } else {
            let raw = name_bytes(b.subrange(12, 76));
            if valid_utf8(raw) {
                Ok(MDLFileView { header: h, name: decode_utf8(raw) })
            } else {
                Err(ModelLoadError::InvalidText)
            }
        }
    }
}

/// Copies the bytes of the name field that starts at `start`, up to its
/// first zero byte.
pub fn read_name_bytes(b: &[u8], start: usize) -> (r: Vec<u8>)
    requires
        start + NAME_WIDTH <= b.len(),
    ensures
        r@ == name_bytes(b@.subrange(start as int, start + NAME_WIDTH)),
{
    let ghost field = b@.subrange(start as int, start + NAME_WIDTH);
    let mut out: Vec<u8> = Vec::new();
    let mut i: usize = 0;
    while i < NAME_WIDTH
        invariant
            i <= NAME_WIDTH,
            start + NAME_WIDTH <= b.len(),
            field == b@.subrange(start as int, start + NAME_WIDTH),
            forall|j: int| 0 <= j < i ==> field[j] != 0,
            nul_index(field, 0) == nul_index(field, i as int),
            out@ == field.subrange(0, i as int),
        decreases NAME_WIDTH - i,
    {
        let c = b[start + i];
        if c == 0 {
            return out;
        }
        out.push(c);
        proof {
            assert(out@ =~= field.subrange(0, i + 1));
        }
        i = i + 1;
    }
    out
}

/// Decodes a studio-model file held in memory: the header, whose tag must be
/// [`MDL_HEADER`], and the display name, which must be valid UTF-8.
pub fn read_mdl_file(mdl_data_bytes: &[u8]) -> (r: Result<MDLFile, ModelLoadError>)
    ensures
        match spec_mdl_file(mdl_data_bytes@) {
            Ok(v) => r is Ok && r->Ok_0@ == v,
            Err(e) => r == Err::<MDLFile, ModelLoadError>(e),
        },
{
    reveal(spec_mdl_file);
    let header = match decode_record::<MDLFileHeader>(mdl_data_bytes, 0) {
        Ok(h) => h,
        Err(e) => return Err(e),
    };
    if header.id != MDL_HEADER {
        return Err(ModelLoadError::BadMagic);
    }
    let raw = read_name_bytes(mdl_data_bytes, NAME_START);
    match utf8_text(raw.as_slice()) {
        Some(name) => Ok(MDLFile { header, name }),
        None => Err(ModelLoadError::InvalidText),
    }
}

} // verus!
