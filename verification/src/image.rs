//! Checking the layout of a PE32 image before it is loaded: the kind of
//! image, the data directories it may use, its alignments and sizes, and
//! sections that lie inside the image without overlapping.
use crate::memory::PAGE_SIZE;
use vstd::prelude::*;

verus! {

/// A data directory of the optional header: its address (a relative
/// virtual address, or a file offset for the certificate table) and size.
#[derive(Clone, Copy, Debug, PartialEq, Eq, Structural)]
pub struct Directory {
    pub address: u64,
    pub size: u32,
}

/// Where a section lies in the image and in the file.
#[derive(Clone, Copy, Debug, PartialEq, Eq, Structural)]
pub struct SectionLayout {
    pub virtual_address: u32,
    pub virtual_size: u32,
    pub size_of_raw_data: u32,
    pub pointer_to_raw_data: u64,
}

/// The header fields of a parsed image that loading depends on.
#[derive(Clone, Debug)]
pub struct ImageLayout {
    /// Whether the optional header is the 32-bit one.
    pub pe32: bool,
    pub machine: u16,
    pub characteristics: u16,
    pub subsystem: u16,
    /// The sixteen data directories, each where the header has it.
    pub directories: Vec<Option<Directory>>,
    pub pe_offset: u64,
    pub size_of_optional_header: u16,
    pub number_of_sections: u16,
    pub section_alignment: u32,
    pub file_alignment: u32,
    pub image_base: u64,
    pub size_of_image: u32,
    pub size_of_headers: u32,
    pub address_of_entry_point: u32,
    pub sections: Vec<SectionLayout>,
}

/// Why an image is not loaded.
#[derive(Clone, Copy, Debug, PartialEq, Eq, Structural)]
pub enum LoadError {
    /// Not an i386 executable for the GUI or console subsystem.
    UnsupportedImage,
    /// The image uses a data directory the loader does not handle.
    UnsupportedDirectory { index: u8 },
    /// The image's geometry is invalid.
    InvalidLayout,
}

/// `size` rounded up to whole pages.
pub open spec fn pages_of(size: int) -> int {
    (size + 4095) / 4096 * 4096
}

/// `size` rounded up to whole pages.
pub fn round_pages(size: u64) -> (rounded: u64)
    requires
        size <= u64::MAX - 4095,
    ensures
        rounded == pages_of(size as int),
{
    (size + (PAGE_SIZE - 1)) / PAGE_SIZE * PAGE_SIZE
}

/// Whether `value` is a power of two.
pub open spec fn power_of_two(value: u32) -> bool {
    value != 0 && value & (value - 1) as u32 == 0
}

/// Whether the image is not an i386 executable image (not a DLL) of the
/// GUI or console subsystem.
pub open spec fn unsupported_image(layout: ImageLayout) -> bool {
    ||| !layout.pe32
    ||| layout.machine != 0x14c
    ||| layout.characteristics & 0x2002 != 2
    ||| !(layout.subsystem == 2 || layout.subsystem == 3)
}

/// The data directories that are checked, in order: imports (1), TLS (9),
/// load configuration (10), bound imports (11), the import address table
/// (12), delay imports (13) and the CLR runtime header (14).
pub open spec fn checked_directories() -> Seq<u8> {
    seq![1u8, 9, 10, 11, 12, 13, 14]
}

/// Whether the directory `index` may be used: imports (1) and the import
/// address table (12) where imports are to be bound, the bound-import
/// directory (11) where they are not.
pub open spec fn directory_allowed(index: u8, allow_imports: bool) -> bool {
    (allow_imports && (index == 1 || index == 12)) || (!allow_imports && index == 11)
}

/// Whether directory `index` is present and not empty.
pub open spec fn directory_used(layout: ImageLayout, index: u8) -> bool {
    layout.directories@[index as int] matches Some(directory) && (directory.address != 0
        || directory.size != 0)
}

/// The first of the checked directories from position `position` on that
/// the image uses without being allowed to.
pub open spec fn refused_directory(layout: ImageLayout, allow_imports: bool, position: int) -> Option<u8>
    decreases 7 - position,
{
    if position >= 7 || position < 0 {
        None
    } else {
        let index = checked_directories()[position];
        if !directory_allowed(index, allow_imports) && directory_used(layout, index) {
            Some(index)
        } else {
            refused_directory(layout, allow_imports, position + 1)
        }
    }
}

/// Where the section headers end in the file.
pub open spec fn header_end(layout: ImageLayout) -> int {
    layout.pe_offset + 24 + layout.size_of_optional_header + layout.number_of_sections * 40
}

/// Whether the image's alignments, base, sizes and entry point are
/// invalid for a file of `file_size` bytes.
pub open spec fn geometry_refused(layout: ImageLayout, file_size: int) -> bool {
    let image = layout.size_of_image as int;
    ||| !power_of_two(layout.section_alignment)
    ||| layout.section_alignment < 4096
    ||| !power_of_two(layout.file_alignment)
    ||| !(512 <= layout.file_alignment <= 65536)
    ||| layout.file_alignment > layout.section_alignment
    ||| layout.image_base % 65536 != 0
    ||| image == 0
    ||| layout.size_of_image % layout.section_alignment != 0
    ||| layout.image_base + image > 0x1_0000_0000
    ||| layout.size_of_headers < header_end(layout)
    ||| layout.size_of_headers > file_size
    ||| layout.size_of_headers > image
    ||| layout.size_of_headers % layout.file_alignment != 0
    ||| layout.address_of_entry_point >= image
}

/// The bytes a section takes in the image, before rounding.
pub open spec fn section_size(section: SectionLayout) -> u32 {
    if section.virtual_size >= section.size_of_raw_data {
        section.virtual_size
    } else {
        section.size_of_raw_data
    }
}

/// The pages of the image that section `section` takes, `[start, end)`.
pub open spec fn section_range(section: SectionLayout) -> (u64, u64) {
    (
        section.virtual_address as u64,
        (section.virtual_address + pages_of(section_size(section) as int)) as u64,
    )
}

/// The ranges taken by the headers and the non-empty sections among the
/// first `count`.
pub open spec fn taken(layout: ImageLayout, count: int) -> Seq<(u64, u64)>
    decreases count,
{
    if count <= 0 {
        seq![(0u64, pages_of(layout.size_of_headers as int) as u64)]
    } else {
        let before = taken(layout, count - 1);
        let section = layout.sections@[count - 1];
        if section_size(section) != 0 {
            before.push(section_range(section))
        } else {
            before
        }
    }
}

/// Whether section `index` is misplaced: not aligned, past the end of the
/// image, with raw data not aligned in the file, or overlapping the headers
/// or an earlier section.
pub open spec fn section_refused(layout: ImageLayout, index: int) -> bool {
    let section = layout.sections@[index];
    let (start, end) = section_range(section);
    let alignment = layout.file_alignment;
    ||| section.virtual_address % layout.section_alignment != 0
    ||| end > layout.size_of_image
    ||| (section.size_of_raw_data != 0 && (section.pointer_to_raw_data % (alignment as u64) != 0
        || section.size_of_raw_data % alignment != 0))
    ||| (section_size(section) != 0 && exists|k: int|
        0 <= k < taken(layout, index).len() && #[trigger] taken(layout, index)[k].0 < end && start
            < taken(layout, index)[k].1)
}

/// What checking the image gives: an unsupported kind of image, then the
/// first checked directory it may not use, then an invalid geometry or a
/// misplaced section, else success.
pub open spec fn validation(layout: ImageLayout, file_size: int, allow_imports: bool) -> Result<
    (),
    LoadError,
> {
    if unsupported_image(layout) {
        Err(LoadError::UnsupportedImage)
    } else if let Some(index) = refused_directory(layout, allow_imports, 0) {
        Err(LoadError::UnsupportedDirectory { index })
    } else if geometry_refused(layout, file_size) || exists|index: int|
        0 <= index < layout.sections@.len() && #[trigger] section_refused(layout, index) {
        Err(LoadError::InvalidLayout)
    } else {
        Ok(())
    }
}

/// An image is refused as unsupported exactly when it is not a PE32 image
/// for the i386 (machine 0x14c), is not marked executable (characteristic
/// 0x0002), is a DLL (characteristic 0x2000), or is for neither the GUI (2)
/// nor the console (3) subsystem; the other checks never give that error.
pub proof fn law_unsupported_images(layout: ImageLayout, file_size: int, allow_imports: bool)
    ensures
        (validation(layout, file_size, allow_imports) == Err::<(), LoadError>(
            LoadError::UnsupportedImage,
        )) <==> !(layout.pe32 && layout.machine == 0x14c && layout.characteristics & 0x0002 != 0
            && layout.characteristics & 0x2000 == 0 && (layout.subsystem == 2 || layout.subsystem
            == 3)),
{
    let characteristics = layout.characteristics;
    assert((characteristics & 0x2002 == 2) == (characteristics & 0x0002 != 0 && characteristics
        & 0x2000 == 0)) by (bit_vector);
}

/// Whether `value` is a power of two.
fn is_power_of_two(value: u32) -> (answer: bool)
    ensures
        answer == power_of_two(value),
{
    value != 0 && value & (value - 1) == 0
}

/// Checks that the image can be loaded from a file of `file_size` bytes,
/// its imports bound where `allow_imports` is set.
#[verifier::loop_isolation(false)]
pub fn validate_image(layout: &ImageLayout, file_size: usize, allow_imports: bool) -> (outcome: Result<
    (),
    LoadError,
>)
    requires
        layout.directories@.len() == 16,
        layout.pe_offset <= u32::MAX,
    ensures
        outcome == validation(*layout, file_size as int, allow_imports),
{
    if !layout.pe32 || layout.machine != 0x14c || layout.characteristics & 0x2002 != 2
        || !(layout.subsystem == 2 || layout.subsystem == 3) {
        return Err(LoadError::UnsupportedImage);
    }
    let order: [u8; 7] = [1, 9, 10, 11, 12, 13, 14];
    assert(order@ =~= checked_directories());
    let mut position: usize = 0;
    while position < 7
        invariant
            position <= 7,
            order@ == checked_directories(),
            layout.directories@.len() == 16,
            refused_directory(*layout, allow_imports, 0) == refused_directory(
                *layout,
                allow_imports,
                position as int,
            ),
        decreases 7 - position,
    {
        let index = order[position];
        let allowed = (allow_imports && (index == 1 || index == 12)) || (!allow_imports && index
            == 11);
        if !allowed {
            if let Some(directory) = layout.directories[index as usize] {
                if directory.address != 0 || directory.size != 0 {
                    assert(directory_used(*layout, index));
                    assert(refused_directory(*layout, allow_imports, position as int) == Some(index));
                    return Err(LoadError::UnsupportedDirectory { index });
                }
            }
        }
        position = position + 1;
    }
    let image = layout.size_of_image as u64;
    let end = layout.pe_offset + 24 + layout.size_of_optional_header as u64
        + layout.number_of_sections as u64 * 40;
    let headers = layout.size_of_headers as u64;
    if !is_power_of_two(layout.section_alignment) || layout.section_alignment < 4096
        || !is_power_of_two(layout.file_alignment) || !(512 <= layout.file_alignment
        && layout.file_alignment <= 65536) || layout.file_alignment > layout.section_alignment
        || layout.image_base % 65536 != 0 || image == 0 || layout.size_of_image
        % layout.section_alignment != 0 || layout.image_base > 0x1_0000_0000 - image || headers
        < end || headers > file_size as u64 || headers > image || layout.size_of_headers
        % layout.file_alignment != 0 || layout.address_of_entry_point as u64 >= image {
        return Err(LoadError::InvalidLayout);
    }
    let mut ranges: Vec<(u64, u64)> = Vec::new();
    ranges.push((0, round_pages(headers)));
    let mut index: usize = 0;
    while index < layout.sections.len()
        invariant
            index <= layout.sections@.len(),
            !geometry_refused(*layout, file_size as int),
            !unsupported_image(*layout),
            refused_directory(*layout, allow_imports, 0) is None,
            ranges@ == taken(*layout, index as int),
            forall|i: int| 0 <= i < index ==> !#[trigger] section_refused(*layout, i),
        decreases layout.sections@.len() - index,
    {
        let section = layout.sections[index];
        let start = section.virtual_address as u64;
        let size = if section.virtual_size >= section.size_of_raw_data {
            section.virtual_size
        } else {
            section.size_of_raw_data
        };
        let stop = start + round_pages(size as u64);
        let alignment = layout.file_alignment;
        assert(section == layout.sections@[index as int]);
        assert(size == section_size(section));
        assert((start, stop) == section_range(section));
        if section.virtual_address % layout.section_alignment != 0 || stop > image || (
        section.size_of_raw_data != 0 && (section.pointer_to_raw_data % (alignment as u64) != 0
            || section.size_of_raw_data % alignment != 0)) {
            assert(section_refused(*layout, index as int));
            return Err(LoadError::InvalidLayout);
        }
        if size != 0 {
            let mut k: usize = 0;
            while k < ranges.len()
                invariant
                    k <= ranges@.len(),
                    forall|j: int| 0 <= j < k ==> !(#[trigger] ranges@[j].0 < stop && start
                        < ranges@[j].1),
                decreases ranges@.len() - k,
            {
                let (other_start, other_end) = ranges[k];
                if start < other_end && other_start < stop {
                    assert(ranges@[k as int].0 < stop && start < ranges@[k as int].1);
                    assert(section_refused(*layout, index as int));
                    return Err(LoadError::InvalidLayout);
                }
                k = k + 1;
            }
            ranges.push((start, stop));
        }
        assert(!section_refused(*layout, index as int));
        index = index + 1;
    }
    Ok(())
}

} // verus!
