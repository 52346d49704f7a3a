use ring3_core::image::{
    round_pages, validate_image, Directory, ImageLayout, LoadError, SectionLayout,
};

fn layout() -> ImageLayout {
    ImageLayout {
        pe32: true,
        machine: 0x14c,
        characteristics: 0x0102,
        subsystem: 2,
        directories: vec![None; 16],
        pe_offset: 0x80,
        size_of_optional_header: 0xe0,
        number_of_sections: 2,
        section_alignment: 0x1000,
        file_alignment: 0x200,
        image_base: 0x40_0000,
        size_of_image: 0x3000,
        size_of_headers: 0x400,
        address_of_entry_point: 0x1000,
        sections: vec![
            SectionLayout {
                virtual_address: 0x1000,
                virtual_size: 0x100,
                size_of_raw_data: 0x200,
                pointer_to_raw_data: 0x400,
            },
            SectionLayout {
                virtual_address: 0x2000,
                virtual_size: 0x80,
                size_of_raw_data: 0x200,
                pointer_to_raw_data: 0x600,
            },
        ],
    }
}

#[test]
fn a_plain_executable_passes() {
    assert_eq!(validate_image(&layout(), 0x800, false), Ok(()));
    assert_eq!(round_pages(0), 0);
    assert_eq!(round_pages(1), 4096);
    assert_eq!(round_pages(4096), 4096);
    assert_eq!(round_pages(4097), 8192);
}

#[test]
fn other_machines_and_libraries_are_unsupported() {
    let mut image = layout();
    image.machine = 0x8664;
    assert_eq!(validate_image(&image, 0x800, false), Err(LoadError::UnsupportedImage));
    let mut image = layout();
    image.characteristics = 0x2102;
    assert_eq!(validate_image(&image, 0x800, false), Err(LoadError::UnsupportedImage));
    let mut image = layout();
    image.subsystem = 1;
    assert_eq!(validate_image(&image, 0x800, false), Err(LoadError::UnsupportedImage));
}

#[test]
fn directories_are_refused_unless_imports_are_bound() {
    let mut image = layout();
    image.directories[1] = Some(Directory { address: 0x2000, size: 0x28 });
    assert_eq!(
        validate_image(&image, 0x800, false),
        Err(LoadError::UnsupportedDirectory { index: 1 })
    );
    assert_eq!(validate_image(&image, 0x800, true), Ok(()));
    image.directories[9] = Some(Directory { address: 0, size: 0 });
    assert_eq!(validate_image(&image, 0x800, true), Ok(()));
    image.directories[14] = Some(Directory { address: 0x2100, size: 8 });
    image.directories[9] = Some(Directory { address: 0, size: 4 });
    assert_eq!(
        validate_image(&image, 0x800, true),
        Err(LoadError::UnsupportedDirectory { index: 9 })
    );
}

#[test]
fn bad_geometry_and_overlapping_sections_are_invalid() {
    let mut image = layout();
    image.size_of_headers = 0x300;
    assert_eq!(validate_image(&image, 0x800, false), Err(LoadError::InvalidLayout));
    let mut image = layout();
    image.file_alignment = 0x300;
    assert_eq!(validate_image(&image, 0x800, false), Err(LoadError::InvalidLayout));
    let mut image = layout();
    image.sections[1].virtual_address = 0x1000;
    assert_eq!(validate_image(&image, 0x800, false), Err(LoadError::InvalidLayout));
    let mut image = layout();
    image.sections[0].virtual_size = 0x1001;
    assert_eq!(validate_image(&image, 0x800, false), Err(LoadError::InvalidLayout));
    let mut image = layout();
    image.sections[1].virtual_size = 0x1001;
    assert_eq!(validate_image(&image, 0x800, false), Err(LoadError::InvalidLayout));
    let mut image = layout();
    image.address_of_entry_point = 0x3000;
    assert_eq!(validate_image(&image, 0x800, false), Err(LoadError::InvalidLayout));
    assert_eq!(validate_image(&layout(), 0x3ff, false), Err(LoadError::InvalidLayout));
    let mut image = layout();
    image.image_base = 0xffff_0000;
    assert_eq!(validate_image(&image, 0x800, false), Ok(()));
    image.image_base = 0x1_0000_0000;
    assert_eq!(validate_image(&image, 0x800, false), Err(LoadError::InvalidLayout));
}
