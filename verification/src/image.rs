use object::{Object, ObjectSection};
use vstd::prelude::*;
use vstd::slice::slice_subrange;

use crate::error::AnalysisError;

verus! {

/// The error of the object parser; it is handed on unread.
#[verifier::external_type_specification]
#[verifier::external_body]
pub struct ExObjectError(object::read::Error);

/// Where the bytes of a section stand in the file.
#[derive(Clone, Copy, Debug, PartialEq, Eq, Structural)]
pub struct FileRange {
    pub offset: u64,
    pub size: u64,
}

/// Where a section stands, as the object file's headers say.
#[derive(Clone, Copy, Debug, PartialEq, Eq, Structural)]
pub struct SectionLayout {
    /// Virtual address of the section's first byte.
    pub address: u64,
    /// Where the section's bytes stand in the file, if it has any there.
    pub file_range: Option<FileRange>,
}

/// What the analysis reads from an object file's headers.
#[derive(Clone, Copy, Debug, PartialEq, Eq, Structural)]
pub struct ObjectLayout {
    /// The base that relative virtual addresses count from.
    pub image_base: u64,
    /// The section asked for, if the file has one of that name.
    pub section: Option<SectionLayout>,
}

/// What the object parser reads from `file` about the section named
/// `section`; `None` where it cannot read the file as an object file.
pub uninterp spec fn object_layout(file: Seq<u8>, section: Seq<char>) -> Option<ObjectLayout>;

/// Parses the file with the `object` crate (`File::parse`), looks up the
/// section (`Object::section_by_name`) and copies its address and file range
/// (`ObjectSection::address`, `ObjectSection::file_range`) and the file's
/// base address (`Object::relative_address_base`). The parser reads nothing
/// but the bytes, so the contract names the outcome after them.
#[verifier::external_body]
pub(crate) fn read_layout(file: &[u8], section: &str) -> (r: Result<ObjectLayout, object::read::Error>)
    ensures
        object_layout(file@, section@) == (match r {
            Ok(layout) => Some(layout),
            Err(_) => None,
        }),
{
    let parsed = object::File::parse(file)?;
    let found = parsed.section_by_name(section).map(|s| SectionLayout {
        address: s.address(),
        file_range: s.file_range().map(|r| FileRange { offset: r.0, size: r.1 }),
    });
    Ok(ObjectLayout { image_base: parsed.relative_address_base(), section: found })
}

/// A loaded executable: the bytes of the file and where its code stands.
pub struct BinaryImage {
    file: Vec<u8>,
    code_offset: usize,
    code_len: usize,
    code_address: u64,
    image_base: u64,
    va_offset: u64,
}

/// A loaded executable as a mathematical value.
pub ghost struct ImageView {
    /// The bytes of the file.
    pub file: Seq<u8>,
    /// Offset in the file of the code section's first byte.
    pub code_offset: int,
    /// Number of bytes of the code section in the file.
    pub code_len: int,
    /// Virtual address of the code section's first byte.
    pub code_address: u64,
    /// The base that jump table entries count from.
    pub image_base: u64,
    /// What is added to a file offset to get a virtual address.
    pub va_offset: u64,
}

impl ImageView {
    /// The code section lies in the file, its addresses are 64-bit
    /// addresses, and `va_offset` takes the offset of its first byte to that
    /// byte's virtual address.
    pub open spec fn wf(self) -> bool {
        &&& 0 <= self.code_offset
        &&& 0 <= self.code_len
        &&& self.code_offset + self.code_len <= self.file.len()
        &&& self.code_address + self.code_len <= u64::MAX
        &&& self.va_offset + self.code_offset == self.code_address
    }

    /// The bytes of the code section.
    pub open spec fn code(self) -> Seq<u8> {
        self.file.subrange(self.code_offset, self.code_offset + self.code_len)
    }
}

/// The image that a file and its layout make: the section's bytes are those
/// of its file range, or none where it has no bytes in the file.
pub open spec fn image_of(file: Seq<u8>, layout: ObjectLayout) -> Result<ImageView, AnalysisError> {
    match layout.section {
        None => Err(AnalysisError::MissingSectionError),
        Some(section) => {
            let range = match section.file_range {
                Some(range) => range,
                None => FileRange { offset: 0, size: 0 },
            };
            if range.offset + range.size <= file.len() && range.offset <= section.address
                && section.address + range.size <= u64::MAX {
                Ok(
                    ImageView {
                        file,
                        code_offset: range.offset as int,
                        code_len: range.size as int,
                        code_address: section.address,
                        image_base: layout.image_base,
                        va_offset: (section.address - range.offset) as u64,
                    },
                )
            } else {
                Err(AnalysisError::ParseError)
            }
        },
    }
}

/// The image that the bytes of an object file make, with `.text` as the
/// code section.
pub open spec fn parsed_image(file: Seq<u8>) -> Result<ImageView, AnalysisError> {
    match object_layout(file, ".text"@) {
        Some(layout) => image_of(file, layout),
        None => Err(AnalysisError::ParseError),
    }
}

impl View for BinaryImage {
    type V = ImageView;

    closed spec fn view(&self) -> ImageView {
        ImageView {
            file: self.file@,
            code_offset: self.code_offset as int,
            code_len: self.code_len as int,
            code_address: self.code_address,
            image_base: self.image_base,
            va_offset: self.va_offset,
        }
    }
}

impl BinaryImage {
    /// Every image is valid.
    #[verifier::type_invariant]
    pub open spec fn wf(&self) -> bool {
        self@.wf()
    }

    /// Builds the image from the bytes of a file and what its headers say.
    /// A file without the section is refused with `MissingSectionError`; a
    /// section whose bytes are not all in the file, whose address is below
    /// its file offset, or whose end is no 64-bit address, with `ParseError`.
    pub fn from_layout(file: Vec<u8>, layout: ObjectLayout) -> (r: Result<BinaryImage, AnalysisError>)
        ensures
            match r {
                Ok(image) => image.wf() && image_of(file@, layout) == Ok::<ImageView, AnalysisError>(
                    image@,
                ),
                Err(e) => image_of(file@, layout) == Err::<ImageView, AnalysisError>(e),
            },
    {
        match layout.section {
            None => Err(AnalysisError::MissingSectionError),
            Some(section) => {
                let (offset, size) = match section.file_range {
                    Some(range) => (range.offset, range.size),
                    None => (0, 0),
                };
                let len = file.len() as u64;
                if offset <= len && size <= len - offset && offset <= section.address && size
                    <= u64::MAX - section.address {
                    Ok(
                        BinaryImage {
                            file,
                            code_offset: offset as usize,
                            code_len: size as usize,
                            code_address: section.address,
                            image_base: layout.image_base,
                            va_offset: section.address - offset,
                        },
                    )
                } else {
                    Err(AnalysisError::ParseError)
                }
            },
        }
    }

    /// Reads the bytes of an object file. Fails with `ParseError` where the
    /// bytes are no object file that can be read, and as `from_layout` does.
    pub fn parse(file: Vec<u8>) -> (r: Result<BinaryImage, AnalysisError>)
        ensures
            match r {
                Ok(image) => image.wf() && parsed_image(file@) == Ok::<ImageView, AnalysisError>(
                    image@,
                ),
                Err(e) => parsed_image(file@) == Err::<ImageView, AnalysisError>(e),
            },
    {
        match read_layout(file.as_slice(), ".text") {
            Ok(layout) => BinaryImage::from_layout(file, layout),
            Err(_) => Err(AnalysisError::ParseError),
        }
    }

    /// The bytes of the file.
    pub fn file(&self) -> (r: &[u8])
        ensures
            r@ == self@.file,
    {
        self.file.as_slice()
    }

    /// The bytes of the code section.
    pub fn code(&self) -> (r: &[u8])
        ensures
            r@ == self@.code(),
    {
        proof {
            use_type_invariant(self);
        }
        let bytes = self.file.as_slice();
        assert(self.code_offset + self.code_len <= bytes.len());
        slice_subrange(bytes, self.code_offset, self.code_offset + self.code_len)
    }

    /// Virtual address of the code section's first byte.
    pub fn code_address(&self) -> (r: u64)
        ensures
            r == self@.code_address,
    {
        self.code_address
    }

    /// The base that jump table entries count from.
    pub fn image_base(&self) -> (r: u64)
        ensures
            r == self@.image_base,
    {
        self.image_base
    }

    /// What is added to a file offset to get a virtual address.
    pub fn va_offset(&self) -> (r: u64)
        ensures
            r == self@.va_offset,
    {
        self.va_offset
    }
}

} // verus!
