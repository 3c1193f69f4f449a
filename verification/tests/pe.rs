use komac::error::Error;
use komac::exe::vs_version_info::VSVersionInfo;
use komac::file_analyser::{
    embedded_msi, extension, extract_msi, Analysis, Decoded, FileAnalyser, Request,
};
use komac::manifests::installer_manifest::{NestedInstallerType, Platform};
use komac::msi::Msi;
use komac::msix_family::msix::Msix;
use komac::msix_family::msixbundle::MsixBundle;
use komac::pe::image::{PeImage, PeKind, ResourceData};
use komac::pe::resource::{
    find_by_id, find_by_name, find_leaf, find_type, ResourceEntry, RT_MANIFEST, RT_RCDATA,
    RT_VERSION,
};
use komac::pe::section::{find_section, leaf_range, DataEntry, Section};
use komac::types::architecture::Architecture;
use komac::types::guid::Guid;
use komac::types::installer_type::InstallerType;
use komac::zip::Zip;

const RVA: u32 = 0x1000;
const RAW: u32 = 0x400;

enum Key {
    Id(u16),
    Name(&'static str),
}

enum Node {
    Table(Vec<(Key, Node)>),
    Leaf(Vec<u8>),
    /// A leaf that points wherever the test wants.
    LeafAt(u32, u32),
    /// A table at an offset outside the directory.
    TableAt(u32),
}

fn put16(bytes: &mut Vec<u8>, value: u16) {
    bytes.extend_from_slice(&value.to_le_bytes());
}

fn put32(bytes: &mut Vec<u8>, value: u32) {
    bytes.extend_from_slice(&value.to_le_bytes());
}

fn patch32(bytes: &mut [u8], at: usize, value: u32) {
    bytes[at..at + 4].copy_from_slice(&value.to_le_bytes());
}

fn pad(bytes: &mut Vec<u8>) {
    while bytes.len() % 4 != 0 {
        bytes.push(0);
    }
}

fn emit_table(bytes: &mut Vec<u8>, entries: &[(Key, Node)]) -> u32 {
    let at = bytes.len();
    bytes.extend_from_slice(&[0; 12]);
    put16(bytes, entries.iter().filter(|(key, _)| matches!(key, Key::Name(_))).count() as u16);
    put16(bytes, entries.iter().filter(|(key, _)| matches!(key, Key::Id(_))).count() as u16);
    bytes.extend(std::iter::repeat(0).take(8 * entries.len()));
    for (i, (key, node)) in entries.iter().enumerate() {
        let name_or_id = match key {
            Key::Id(id) => u32::from(*id),
            Key::Name(name) => {
                let offset = bytes.len() as u32;
                let units: Vec<u16> = name.encode_utf16().collect();
                put16(bytes, units.len() as u16);
                for unit in units {
                    put16(bytes, unit);
                }
                pad(bytes);
                0x8000_0000 | offset
            }
        };
        let offset = match node {
            Node::Table(children) => 0x8000_0000 | emit_table(bytes, children),
            Node::TableAt(offset) => 0x8000_0000 | offset,
            Node::Leaf(data) => {
                let entry = bytes.len();
                bytes.extend_from_slice(&[0; 16]);
                let start = bytes.len() as u32;
                bytes.extend_from_slice(data);
                pad(bytes);
                patch32(bytes, entry, RVA + start);
                patch32(bytes, entry + 4, data.len() as u32);
                entry as u32
            }
            Node::LeafAt(rva, size) => {
                let entry = bytes.len() as u32;
                put32(bytes, *rva);
                put32(bytes, *size);
                put32(bytes, 0);
                put32(bytes, 0);
                entry
            }
        };
        patch32(bytes, at + 16 + 8 * i, name_or_id);
        patch32(bytes, at + 16 + 8 * i + 4, offset);
    }
    at as u32
}

fn resources(root: &[(Key, Node)]) -> Vec<u8> {
    let mut bytes = Vec::new();
    emit_table(&mut bytes, root);
    bytes
}

/// A Portable Executable with one section, which holds the resources.
fn executable(machine: u16, wide: bool, resources: Option<&[u8]>) -> Vec<u8> {
    let mut file = vec![0u8; 64];
    file[0] = b'M';
    file[1] = b'Z';
    file[0x3c] = 0x40;
    file.extend_from_slice(b"PE\0\0");
    put16(&mut file, machine);
    put16(&mut file, u16::from(resources.is_some()));
    put32(&mut file, 0);
    put32(&mut file, 0);
    put32(&mut file, 0);
    put16(&mut file, if wide { 240 } else { 224 });
    put16(&mut file, 0x0102);
    let optional = file.len();
    put16(&mut file, if wide { 0x20b } else { 0x10b });
    file.resize(optional + if wide { 108 } else { 92 }, 0);
    put32(&mut file, 16);
    for directory in 0..16 {
        match resources {
            Some(resources) if directory == 2 => {
                put32(&mut file, RVA);
                put32(&mut file, resources.len() as u32);
            }
            _ => {
                put32(&mut file, 0);
                put32(&mut file, 0);
            }
        }
    }
    if let Some(resources) = resources {
        file.extend_from_slice(b".rsrc\0\0\0");
        put32(&mut file, resources.len() as u32);
        put32(&mut file, RVA);
        put32(&mut file, resources.len() as u32);
        put32(&mut file, RAW);
        file.extend_from_slice(&[0; 12]);
        put32(&mut file, 0x4000_0040);
        file.resize(RAW as usize, 0);
        file.extend_from_slice(resources);
    }
    file
}

fn units(text: &str) -> Vec<u16> {
    text.encode_utf16().collect()
}

fn record(key: &str, value_length: u16, kind: u16, value: &[u8], children: &[Vec<u8>]) -> Vec<u8> {
    let mut bytes = vec![0, 0];
    put16(&mut bytes, value_length);
    put16(&mut bytes, kind);
    for unit in units(key) {
        put16(&mut bytes, unit);
    }
    put16(&mut bytes, 0);
    if !value.is_empty() {
        pad(&mut bytes);
        bytes.extend_from_slice(value);
    }
    for child in children {
        pad(&mut bytes);
        bytes.extend_from_slice(child);
    }
    let length = bytes.len() as u16;
    bytes[..2].copy_from_slice(&length.to_le_bytes());
    bytes
}

fn version_info(strings: &[(&str, &str)]) -> Vec<u8> {
    let strings: Vec<Vec<u8>> = strings
        .iter()
        .map(|(key, text)| {
            let mut value = Vec::new();
            for unit in units(text) {
                put16(&mut value, unit);
            }
            put16(&mut value, 0);
            record(key, (value.len() / 2) as u16, 1, &value, &[])
        })
        .collect();
    let table = record("040904B0", 0, 1, &[], &strings);
    let info = record("StringFileInfo", 0, 1, &[], &[table]);
    record("VS_VERSION_INFO", 52, 0, &[0; 52], &[info])
}

fn language(node: Node) -> Node {
    Node::Table(vec![(Key::Id(1033), node)])
}

fn resource(type_id: u16, key: Key, data: &[u8]) -> (Key, Node) {
    (Key::Id(type_id), Node::Table(vec![(key, language(Node::Leaf(data.to_vec())))]))
}

const NULLSOFT_MANIFEST: &str = "<?xml version=\"1.0\"?><assembly><assemblyIdentity \
    name=\"Nullsoft.NSIS.exehead\" version=\"1.0.0.0\"/></assembly>";

fn msi(is_wix: bool) -> Msi {
    Msi {
        architecture: Architecture::X64,
        product_code: Guid { value: 7 },
        product_language: "en-US".to_owned(),
        is_wix,
    }
}

fn image(file: &[u8]) -> PeImage {
    PeImage::parse(file).unwrap().unwrap()
}

#[test]
fn test_not_an_executable() {
    assert!(PeImage::parse(b"").unwrap().is_none());
    assert!(PeImage::parse(b"PK\x03\x04 and so on, for more than sixteen bytes").unwrap().is_none());
    assert!(PeImage::parse(&[b'M', b'Z', 0, 0, 0, 0, 0, 0, 0, 0, 0, 0, 0, 0, 0, 0, 0, 0])
        .unwrap()
        .is_none());
}

#[test]
fn test_executable_without_resources() {
    let file = executable(0x014c, false, None);
    let image = image(&file);
    assert_eq!(image.kind, PeKind::Pe32);
    assert_eq!(image.machine, 0x014c);
    assert!(image.sections.is_empty());
    assert!(matches!(image.resources, ResourceData::Missing));
    assert_eq!(image.resource_range(file.len(), RT_VERSION, None), Ok(None));
}

#[test]
fn test_executable_with_resources() {
    let resources = resources(&[resource(RT_MANIFEST, Key::Id(1), b"<assembly/>")]);
    let file = executable(0x8664, true, Some(&resources));
    let image = image(&file);
    assert_eq!(image.kind, PeKind::Pe64);
    assert_eq!(image.machine, 0x8664);
    assert_eq!(
        image.sections,
        [Section {
            virtual_address: RVA,
            virtual_size: resources.len() as u32,
            pointer_to_raw_data: RAW,
            size_of_raw_data: resources.len() as u32,
        }]
    );
    match &image.resources {
        ResourceData::Bytes(bytes) => assert_eq!(bytes, &resources),
        _ => panic!("the resources are there"),
    }
}

#[test]
fn test_truncated_executable() {
    let resources = resources(&[resource(RT_MANIFEST, Key::Id(1), b"<assembly/>")]);
    let file = executable(0x8664, true, Some(&resources));
    // The headers say that a section table follows, which is cut off.
    assert_eq!(PeImage::parse(&file[..0x40 + 24 + 240 + 8]).err(), Some(Error::MalformedPE));
    // The section is cut off: the resource directory does not lie in the file.
    let cut = image(&file[..RAW as usize + 4]);
    assert!(matches!(cut.resources, ResourceData::Unreadable));
    assert_eq!(
        cut.resource_range(RAW as usize + 4, RT_MANIFEST, None),
        Err(Error::MalformedResource)
    );
}

#[test]
fn test_architecture_of_machine() {
    let of = |machine: u16| Architecture::get_from_exe(&image(&executable(machine, false, None)));
    assert_eq!(of(0x8664), Ok(Architecture::X64));
    assert_eq!(of(0x0200), Ok(Architecture::X64));
    assert_eq!(of(0x014c), Ok(Architecture::X86));
    assert_eq!(of(0xAA64), Ok(Architecture::Arm64));
    assert_eq!(of(0x01c0), Ok(Architecture::Arm));
    assert_eq!(of(0x01c2), Ok(Architecture::Arm));
    assert_eq!(of(0x01c4), Ok(Architecture::Arm));
    assert_eq!(of(0x0000), Err(Error::MalformedPE));
    assert_eq!(of(0x5032), Err(Error::MalformedPE));
}

#[test]
fn test_entry_numbers() {
    assert_eq!(ResourceEntry { name_or_id: 24, offset_to_data_or_directory: 0 }.number(), Some(24));
    assert_eq!(
        ResourceEntry { name_or_id: 0x0001_0018, offset_to_data_or_directory: 0 }.number(),
        Some(24)
    );
    assert_eq!(
        ResourceEntry { name_or_id: 0x8000_0018, offset_to_data_or_directory: 0 }.number(),
        None
    );
    let entries = [
        ResourceEntry { name_or_id: 0x8000_0010, offset_to_data_or_directory: 1 },
        ResourceEntry { name_or_id: 10, offset_to_data_or_directory: 2 },
        ResourceEntry { name_or_id: 16, offset_to_data_or_directory: 3 },
        ResourceEntry { name_or_id: 16, offset_to_data_or_directory: 4 },
    ];
    assert_eq!(find_by_id(&entries, 16), Some(entries[2]));
    assert_eq!(find_by_id(&entries, 10), Some(entries[1]));
    assert_eq!(find_by_id(&entries, 24), None);
    assert_eq!(find_by_id(&[], 24), None);
}

#[test]
fn test_find_leaf() {
    let directory = resources(&[
        resource(RT_RCDATA, Key::Name("MSI"), b"database"),
        resource(RT_VERSION, Key::Id(1), b"version"),
        (
            Key::Id(RT_MANIFEST),
            Node::Table(vec![
                (Key::Id(1), language(Node::Leaf(b"first".to_vec()))),
                (Key::Id(2), language(Node::Leaf(b"second".to_vec()))),
            ]),
        ),
    ]);
    let leaf = find_leaf(&directory, RT_MANIFEST, None).unwrap().unwrap();
    assert_eq!(leaf.size, 5);
    let at = (leaf.offset_to_data - RVA) as usize;
    assert_eq!(&directory[at..at + 5], b"first");
    let leaf = find_leaf(&directory, RT_VERSION, None).unwrap().unwrap();
    assert_eq!(leaf.size, 7);
    let leaf = find_leaf(&directory, RT_RCDATA, Some("msi")).unwrap().unwrap();
    assert_eq!(leaf.size, 8);
    assert_eq!(find_leaf(&directory, RT_RCDATA, Some("other")), Ok(None));
    assert_eq!(find_leaf(&directory, RT_MANIFEST, Some("msi")), Ok(None));
    assert_eq!(find_leaf(&directory, 3, None), Ok(None));
}

#[test]
fn test_find_by_name_folds_case() {
    let directory = resources(&[(
        Key::Id(RT_RCDATA),
        Node::Table(vec![
            (Key::Name("OTHER"), language(Node::Leaf(b"1".to_vec()))),
            (Key::Id(5), language(Node::Leaf(b"22".to_vec()))),
            (Key::Name("Msi"), language(Node::Leaf(b"333".to_vec()))),
            (Key::Name("MSI"), language(Node::Leaf(b"4444".to_vec()))),
        ]),
    )]);
    let entries = find_type(&directory, RT_RCDATA).unwrap().unwrap();
    assert_eq!(entries.len(), 4);
    let msi: Vec<char> = "msi".chars().collect();
    assert_eq!(find_by_name(&directory, &entries, &msi), Some(entries[2]));
    let upper: Vec<char> = "MSI".chars().collect();
    assert_eq!(find_by_name(&directory, &entries, &upper), None);
    assert_eq!(find_leaf(&directory, RT_RCDATA, Some("msi")).unwrap().unwrap().size, 3);
    assert_eq!(find_leaf(&directory, RT_RCDATA, None).unwrap().unwrap().size, 1);
}

#[test]
fn test_missing_levels_are_not_errors() {
    let leaf = || Node::Leaf(b"x".to_vec());
    // A leaf right below the root.
    let directory = resources(&[(Key::Id(RT_MANIFEST), leaf())]);
    assert_eq!(find_leaf(&directory, RT_MANIFEST, None), Ok(None));
    // A type without entries.
    let directory = resources(&[(Key::Id(RT_MANIFEST), Node::Table(vec![]))]);
    assert_eq!(find_leaf(&directory, RT_MANIFEST, None), Ok(None));
    // A leaf at the second level.
    let directory = resources(&[(Key::Id(RT_MANIFEST), Node::Table(vec![(Key::Id(1), leaf())]))]);
    assert_eq!(find_leaf(&directory, RT_MANIFEST, None), Ok(None));
    // A name without languages.
    let directory = resources(&[(
        Key::Id(RT_MANIFEST),
        Node::Table(vec![(Key::Id(1), Node::Table(vec![]))]),
    )]);
    assert_eq!(find_leaf(&directory, RT_MANIFEST, None), Ok(None));
    // A fourth level.
    let directory = resources(&[(
        Key::Id(RT_MANIFEST),
        Node::Table(vec![(Key::Id(1), language(language(leaf())))]),
    )]);
    assert_eq!(find_leaf(&directory, RT_MANIFEST, None), Ok(None));
    // An empty root.
    assert_eq!(find_leaf(&resources(&[]), RT_MANIFEST, None), Ok(None));
}

#[test]
fn test_unreadable_tables_are_errors() {
    assert_eq!(find_leaf(&[], RT_MANIFEST, None), Err(Error::MalformedResource));
    assert_eq!(find_leaf(&[0; 15], RT_MANIFEST, None), Err(Error::MalformedResource));
    let directory = resources(&[(Key::Id(RT_MANIFEST), Node::TableAt(0x1000))]);
    assert_eq!(find_leaf(&directory, RT_MANIFEST, None), Err(Error::MalformedResource));
    assert_eq!(find_leaf(&directory, RT_VERSION, None), Ok(None));
    let directory = resources(&[(
        Key::Id(RT_MANIFEST),
        Node::Table(vec![(Key::Id(1), Node::TableAt(0x1000))]),
    )]);
    assert_eq!(find_leaf(&directory, RT_MANIFEST, None), Err(Error::MalformedResource));
    let directory = resources(&[(
        Key::Id(RT_MANIFEST),
        Node::Table(vec![(Key::Id(1), language(Node::TableAt(0x1000)))]),
    )]);
    assert_eq!(find_leaf(&directory, RT_MANIFEST, None), Err(Error::MalformedResource));
}

#[test]
fn test_section_containing() {
    let sections = [
        Section { virtual_address: 0x1000, virtual_size: 0x100, pointer_to_raw_data: 0x400, size_of_raw_data: 0x200 },
        Section { virtual_address: 0x2000, virtual_size: 0x10, pointer_to_raw_data: 0x600, size_of_raw_data: 0x200 },
        Section { virtual_address: 0x2000, virtual_size: 0x20, pointer_to_raw_data: 0x800, size_of_raw_data: 0x200 },
    ];
    assert_eq!(find_section(&sections, 0x0fff), None);
    assert_eq!(find_section(&sections, 0x1000), Some(sections[0]));
    assert_eq!(find_section(&sections, 0x10ff), Some(sections[0]));
    assert_eq!(find_section(&sections, 0x1100), None);
    assert_eq!(find_section(&sections, 0x2000), Some(sections[1]));
    assert_eq!(find_section(&sections, 0x2010), Some(sections[2]));
    assert_eq!(find_section(&[], 0x1000), None);
}

#[test]
fn test_leaf_range() {
    let sections = [Section {
        virtual_address: 0x1000,
        virtual_size: 0x100,
        pointer_to_raw_data: 0x400,
        size_of_raw_data: 0x200,
    }];
    let leaf = |offset_to_data: u32, size: u32| DataEntry { offset_to_data, size };
    assert_eq!(leaf_range(&sections, leaf(0x1010, 0x20), 0x600), Ok((0x410, 0x20)));
    assert_eq!(leaf_range(&sections, leaf(0x1010, 0x1f0), 0x600), Ok((0x410, 0x1f0)));
    assert_eq!(leaf_range(&sections, leaf(0x1010, 0x1f1), 0x600), Err(Error::MalformedResource));
    assert_eq!(leaf_range(&sections, leaf(0x1010, u32::MAX), 0x600), Err(Error::MalformedResource));
    assert_eq!(leaf_range(&sections, leaf(0x1010, 0), 0x410), Ok((0x410, 0)));
    assert_eq!(leaf_range(&sections, leaf(0x1010, 0), 0x40f), Err(Error::MalformedResource));
    assert_eq!(leaf_range(&sections, leaf(0x0fff, 1), 0x600), Err(Error::MalformedResource));
    assert_eq!(leaf_range(&sections, leaf(0x1100, 1), 0x600), Err(Error::MalformedResource));
    let far = [Section {
        virtual_address: 0,
        virtual_size: u32::MAX,
        pointer_to_raw_data: u32::MAX,
        size_of_raw_data: u32::MAX,
    }];
    assert_eq!(
        leaf_range(&far, leaf(u32::MAX - 1, u32::MAX), usize::MAX),
        if usize::BITS > 32 {
            Ok((2 * (u32::MAX as usize) - 1, u32::MAX as usize))
        } else {
            Err(Error::MalformedResource)
        }
    );
}

#[test]
fn test_leaf_outside_the_file() {
    let directory = resources(&[(
        Key::Id(RT_MANIFEST),
        Node::Table(vec![(Key::Id(1), language(Node::LeafAt(RVA + 8, 0x10_0000)))]),
    )]);
    let file = executable(0x014c, false, Some(&directory));
    let image = image(&file);
    assert_eq!(
        image.resource_range(file.len(), RT_MANIFEST, None),
        Err(Error::MalformedResource)
    );
    assert_eq!(InstallerType::manifest_range(&image, file.len()), None);
    let directory = resources(&[(
        Key::Id(RT_MANIFEST),
        Node::Table(vec![(Key::Id(1), language(Node::LeafAt(0x9000, 4)))]),
    )]);
    let file = executable(0x014c, false, Some(&directory));
    assert_eq!(
        image_range(&file, RT_MANIFEST),
        Err(Error::MalformedResource)
    );
}

fn image_range(file: &[u8], type_id: u16) -> Result<Option<(usize, usize)>, Error> {
    image(file).resource_range(file.len(), type_id, None)
}

#[test]
fn test_resource_range() {
    let directory = resources(&[resource(RT_MANIFEST, Key::Id(1), NULLSOFT_MANIFEST.as_bytes())]);
    let file = executable(0x014c, false, Some(&directory));
    let (offset, size) = image_range(&file, RT_MANIFEST).unwrap().unwrap();
    assert_eq!(&file[offset..offset + size], NULLSOFT_MANIFEST.as_bytes());
    assert!(offset + size <= file.len());
    assert_eq!(image_range(&file, RT_VERSION), Ok(None));
}

#[test]
fn test_version_info_of_an_executable() {
    let info = version_info(&[("ProductName", "Tool")]);
    let directory = resources(&[resource(RT_VERSION, Key::Id(1), &info)]);
    let file = executable(0x014c, false, Some(&directory));
    let found = VSVersionInfo::find(&image(&file), &file).unwrap().unwrap();
    assert_eq!(found.string_table().unwrap().children[0].value, units("Tool"));
    let plain = executable(0x014c, false, None);
    assert!(VSVersionInfo::find(&image(&plain), &plain).unwrap().is_none());
    let directory = resources(&[resource(RT_VERSION, Key::Id(1), &info[..info.len() - 6])]);
    let file = executable(0x014c, false, Some(&directory));
    assert_eq!(
        VSVersionInfo::find(&image(&file), &file).err(),
        Some(Error::MalformedVersionInfo)
    );
}

#[test]
fn test_inno() {
    let info = version_info(&[
        ("CompanyName", "Example"),
        ("Comments", "This installation was built with Inno Setup."),
    ]);
    let directory = resources(&[
        resource(RT_RCDATA, Key::Name("MSI"), b"database"),
        resource(RT_VERSION, Key::Id(1), &info),
        resource(RT_MANIFEST, Key::Id(1), NULLSOFT_MANIFEST.as_bytes()),
    ]);
    let file = executable(0x014c, false, Some(&directory));
    let image = image(&file);
    assert!(InstallerType::is_inno(&image, &file));
    assert_eq!(
        InstallerType::get(&file, Some(&image), "exe", None, Some("Nullsoft.NSIS.exehead")),
        Ok(InstallerType::Inno)
    );
}

#[test]
fn test_not_inno() {
    let info = version_info(&[("Comments", "This installation was built with Inno Setup")]);
    let directory = resources(&[resource(RT_VERSION, Key::Id(1), &info)]);
    let file = executable(0x014c, false, Some(&directory));
    assert!(!InstallerType::is_inno(&image(&file), &file));
    let info = version_info(&[("comments", "This installation was built with Inno Setup.")]);
    let directory = resources(&[resource(RT_VERSION, Key::Id(1), &info)]);
    let file = executable(0x014c, false, Some(&directory));
    assert!(!InstallerType::is_inno(&image(&file), &file));
    let file = executable(0x014c, false, None);
    assert!(!InstallerType::is_inno(&image(&file), &file));
}

#[test]
fn test_nullsoft() {
    let directory = resources(&[
        resource(RT_RCDATA, Key::Name("MSI"), b"database"),
        resource(RT_MANIFEST, Key::Id(1), NULLSOFT_MANIFEST.as_bytes()),
    ]);
    let file = executable(0x014c, false, Some(&directory));
    let image = image(&file);
    assert!(InstallerType::is_nullsoft(Some("Nullsoft.NSIS.exehead")));
    assert!(!InstallerType::is_nullsoft(Some("nullsoft.nsis.exehead")));
    assert!(!InstallerType::is_nullsoft(None));
    assert_eq!(
        InstallerType::get(&file, Some(&image), "exe", None, Some("Nullsoft.NSIS.exehead")),
        Ok(InstallerType::Nullsoft)
    );
    assert_eq!(
        InstallerType::get(&file, Some(&image), "exe", None, Some("Other")),
        Ok(InstallerType::Burn)
    );
}

#[test]
fn test_burn() {
    let directory = resources(&[resource(RT_RCDATA, Key::Name("MSI"), b"the database")]);
    let file = executable(0x014c, false, Some(&directory));
    let image = image(&file);
    assert!(InstallerType::is_burn(&image));
    assert_eq!(InstallerType::get(&file, Some(&image), "exe", None, None), Ok(InstallerType::Burn));
    let bytes = extract_msi(&image, &file).unwrap();
    assert_eq!(bytes, b"the database");
    assert_eq!(bytes.len(), 12);
    let (offset, size) = embedded_msi(&image, file.len()).unwrap();
    assert_eq!(&file[offset..offset + size], b"the database");
}

#[test]
fn test_burn_in_lower_case() {
    let directory = resources(&[resource(RT_RCDATA, Key::Name("msi"), b"x")]);
    let file = executable(0x014c, false, Some(&directory));
    assert!(InstallerType::is_burn(&image(&file)));
}

#[test]
fn test_not_burn() {
    let directory = resources(&[resource(RT_RCDATA, Key::Name("MSIX"), b"x")]);
    let file = executable(0x014c, false, Some(&directory));
    let image = image(&file);
    assert!(!InstallerType::is_burn(&image));
    assert_eq!(InstallerType::get(&file, Some(&image), "exe", None, None), Ok(InstallerType::Exe));
    assert_eq!(extract_msi(&image, &file).err(), Some(Error::MalformedEmbeddedMsi));
    let plain = executable(0x014c, false, None);
    assert!(!InstallerType::is_burn(&self::image(&plain)));
    assert_eq!(
        extract_msi(&self::image(&plain), &plain).err(),
        Some(Error::MalformedEmbeddedMsi)
    );
}

#[test]
fn test_burn_with_a_broken_leaf() {
    let directory = resources(&[(
        Key::Id(RT_RCDATA),
        Node::Table(vec![(Key::Name("MSI"), language(Node::LeafAt(RVA + 8, 0x10_0000)))]),
    )]);
    let file = executable(0x014c, false, Some(&directory));
    let image = image(&file);
    assert!(InstallerType::is_burn(&image));
    assert_eq!(extract_msi(&image, &file).err(), Some(Error::MalformedResource));
    let directory = resources(&[(
        Key::Id(RT_RCDATA),
        Node::Table(vec![(Key::Name("MSI"), Node::Table(vec![]))]),
    )]);
    let file = executable(0x014c, false, Some(&directory));
    assert_eq!(
        extract_msi(&self::image(&file), &file).err(),
        Some(Error::MalformedEmbeddedMsi)
    );
}

#[test]
fn test_installer_type_by_extension() {
    let get = |extension: &str, msi: Option<&Msi>| InstallerType::get(&[], None, extension, msi, None);
    assert_eq!(get("msi", Some(&msi(true))), Ok(InstallerType::Wix));
    assert_eq!(get("msi", Some(&msi(false))), Ok(InstallerType::Msi));
    assert_eq!(get("msi", None), Ok(InstallerType::Msi));
    assert_eq!(get("msix", None), Ok(InstallerType::Msix));
    assert_eq!(get("msixbundle", None), Ok(InstallerType::Msix));
    assert_eq!(get("appx", None), Ok(InstallerType::Appx));
    assert_eq!(get("appxbundle", None), Ok(InstallerType::Appx));
    assert_eq!(get("zip", None), Ok(InstallerType::Zip));
    assert_eq!(get("exe", None), Ok(InstallerType::Exe));
    assert_eq!(get("exe", Some(&msi(true))), Ok(InstallerType::Exe));
    assert_eq!(get("", None), Err(Error::UnsupportedExtension));
    assert_eq!(get("EXE", None), Err(Error::UnsupportedExtension));
    assert_eq!(get("7z", None), Err(Error::UnsupportedExtension));
}

#[test]
fn test_error_texts() {
    let errors = [
        Error::Network,
        Error::MissingContentLength,
        Error::IO,
        Error::BadHeader,
        Error::UnsupportedExtension,
        Error::MalformedPE,
        Error::MalformedResource,
        Error::MalformedVersionInfo,
        Error::MalformedEmbeddedMsi,
        Error::Decoder,
        Error::Unexpected,
    ];
    for (i, error) in errors.iter().enumerate() {
        assert!(!error.as_str().is_empty());
        for other in &errors[i + 1..] {
            assert_ne!(error.as_str(), other.as_str());
        }
    }
    assert_eq!(Error::UnsupportedExtension.as_str(), "unsupported file extension");
}

#[test]
fn test_to_nested() {
    assert_eq!(InstallerType::Msix.to_nested(), Some(NestedInstallerType::Msix));
    assert_eq!(InstallerType::Msi.to_nested(), Some(NestedInstallerType::Msi));
    assert_eq!(InstallerType::Appx.to_nested(), Some(NestedInstallerType::Appx));
    assert_eq!(InstallerType::Exe.to_nested(), Some(NestedInstallerType::Exe));
    assert_eq!(InstallerType::Inno.to_nested(), Some(NestedInstallerType::Inno));
    assert_eq!(InstallerType::Nullsoft.to_nested(), Some(NestedInstallerType::Nullsoft));
    assert_eq!(InstallerType::Wix.to_nested(), Some(NestedInstallerType::Wix));
    assert_eq!(InstallerType::Burn.to_nested(), Some(NestedInstallerType::Burn));
    assert_eq!(InstallerType::Portable.to_nested(), Some(NestedInstallerType::Portable));
    assert_eq!(InstallerType::Zip.to_nested(), None);
    assert_eq!(InstallerType::Pwa.to_nested(), None);
}

#[test]
fn test_extension() {
    assert_eq!(extension("setup.exe"), "exe");
    assert_eq!(extension("Setup.1.2.MSI"), "msi");
    assert_eq!(extension("dir.d/setup"), "");
    assert_eq!(extension("dir.d\\setup.Zip"), "zip");
    assert_eq!(extension("setup."), "");
    assert_eq!(extension(".exe"), "exe");
    assert_eq!(extension(""), "");
    assert_eq!(extension("a.\u{212A}"), "k");
}

#[test]
fn test_analysis_of_an_inno_installer() {
    let info = version_info(&[
        ("CompanyName", "Example Ltd"),
        ("ProductName", "Tool"),
        ("LegalCopyright", "(c) Example"),
        ("Comments", "This installation was built with Inno Setup."),
    ]);
    let directory = resources(&[
        resource(RT_VERSION, Key::Id(1), &info),
        resource(RT_MANIFEST, Key::Id(1), b"<assembly/>"),
    ]);
    let file = executable(0x014c, false, Some(&directory));
    let state = Analysis::begin(&file, "Setup.EXE".to_owned(), false).unwrap();
    assert_eq!(state.extension, "exe");
    assert_eq!(state.request, None);
    assert_eq!(state.installer_type, Some(InstallerType::Inno));
    let analysed = FileAnalyser::new(state).unwrap();
    assert_eq!(analysed.installer_type, InstallerType::Inno);
    assert_eq!(analysed.architecture, Architecture::X86);
    assert_eq!(analysed.file_name, "Setup.EXE");
    assert_eq!(analysed.publisher.as_deref(), Some("Example Ltd"));
    assert_eq!(analysed.package_name.as_deref(), Some("Tool"));
    assert_eq!(analysed.copyright.as_deref(), Some("(c) Example"));
    assert_eq!(analysed.installer_sha_256, "");
    assert_eq!(analysed.last_modified, None);
    assert!(analysed.msi.is_none());
    assert!(analysed.platform.is_none());
}

#[test]
fn test_analysis_of_a_nullsoft_installer() {
    let directory = resources(&[
        resource(RT_RCDATA, Key::Name("MSI"), b"database"),
        resource(RT_MANIFEST, Key::Id(1), NULLSOFT_MANIFEST.as_bytes()),
    ]);
    let file = executable(0x8664, true, Some(&directory));
    let state = Analysis::begin(&file, "setup.exe".to_owned(), false).unwrap();
    assert_eq!(state.installer_type, None);
    let Some(Request::Manifest { offset, size }) = state.request else {
        panic!("the manifest is asked for");
    };
    assert_eq!(&file[offset..offset + size], NULLSOFT_MANIFEST.as_bytes());
    let state = state.supply(Decoded::Manifest(Some("Nullsoft.NSIS.exehead".to_owned()))).unwrap();
    assert_eq!(state.request, None);
    let analysed = FileAnalyser::new(state).unwrap();
    assert_eq!(analysed.installer_type, InstallerType::Nullsoft);
    assert_eq!(analysed.architecture, Architecture::X64);
    assert!(analysed.copyright.is_none());
}

#[test]
fn test_analysis_of_a_burn_bundle() {
    let directory = resources(&[
        resource(RT_RCDATA, Key::Name("MSI"), b"the database"),
        resource(RT_MANIFEST, Key::Id(1), b"<assembly/>"),
    ]);
    let file = executable(0x014c, false, Some(&directory));
    let state = Analysis::begin(&file, "bundle.exe".to_owned(), false).unwrap();
    assert!(matches!(state.request, Some(Request::Manifest { .. })));
    let state = state.supply(Decoded::Manifest(None)).unwrap();
    assert_eq!(state.installer_type, Some(InstallerType::Burn));
    let Some(Request::EmbeddedMsi { offset, size }) = state.request else {
        panic!("the database is asked for");
    };
    assert_eq!(&file[offset..offset + size], b"the database");
    assert_eq!(FileAnalyser::new(Analysis::begin(&file, "bundle.exe".to_owned(), false).unwrap()).err(), Some(Error::Unexpected));
    let state = state.supply(Decoded::Msi(msi(true))).unwrap();
    assert_eq!(state.request, None);
    let analysed = FileAnalyser::new(state).unwrap();
    assert_eq!(analysed.installer_type, InstallerType::Burn);
    // The database tells the architecture before the executable does.
    assert_eq!(analysed.architecture, Architecture::X64);
    assert_eq!(analysed.product_code, Some(Guid { value: 7 }));
    assert_eq!(analysed.product_language.as_deref(), Some("en-US"));
    assert_eq!(analysed.msi.unwrap().product_language, "en-US");
}

#[test]
fn test_analysis_of_a_burn_bundle_without_manifest() {
    let directory = resources(&[resource(RT_RCDATA, Key::Name("MSI"), b"the database")]);
    let file = executable(0x014c, false, Some(&directory));
    let state = Analysis::begin(&file, "bundle.exe".to_owned(), false).unwrap();
    assert_eq!(state.installer_type, Some(InstallerType::Burn));
    assert!(matches!(state.request, Some(Request::EmbeddedMsi { .. })));
}

#[test]
fn test_analysis_of_a_broken_burn_bundle() {
    let directory = resources(&[(
        Key::Id(RT_RCDATA),
        Node::Table(vec![(Key::Name("MSI"), language(Node::LeafAt(RVA + 8, 0x10_0000)))]),
    )]);
    let file = executable(0x014c, false, Some(&directory));
    assert_eq!(
        Analysis::begin(&file, "bundle.exe".to_owned(), false).err(),
        Some(Error::MalformedResource)
    );
    // With a manifest the error comes once the manifest is not that of Nullsoft.
    let directory = resources(&[
        (
            Key::Id(RT_RCDATA),
            Node::Table(vec![(Key::Name("MSI"), Node::Table(vec![]))]),
        ),
        resource(RT_MANIFEST, Key::Id(1), b"<assembly/>"),
    ]);
    let file = executable(0x014c, false, Some(&directory));
    let state = Analysis::begin(&file, "bundle.exe".to_owned(), false).unwrap();
    assert_eq!(
        state.supply(Decoded::Manifest(Some("Other".to_owned()))).err(),
        Some(Error::MalformedEmbeddedMsi)
    );
    let state = Analysis::begin(&file, "bundle.exe".to_owned(), false).unwrap();
    let state = state.supply(Decoded::Manifest(Some("Nullsoft.NSIS.exehead".to_owned()))).unwrap();
    assert_eq!(state.installer_type, Some(InstallerType::Nullsoft));
}

#[test]
fn test_analysis_of_a_plain_executable() {
    let file = executable(0xAA64, true, None);
    let state = Analysis::begin(&file, "tool.exe".to_owned(), true).unwrap();
    assert_eq!(state.request, None);
    let analysed = FileAnalyser::new(state).unwrap();
    assert_eq!(analysed.installer_type, InstallerType::Exe);
    assert_eq!(analysed.architecture, Architecture::Arm64);
}

#[test]
fn test_analysis_of_an_executable_that_is_none() {
    let state = Analysis::begin(b"#!/bin/sh", "tool.exe".to_owned(), false).unwrap();
    assert_eq!(state.request, None);
    assert_eq!(state.installer_type, None);
    // Nothing tells the architecture.
    assert_eq!(FileAnalyser::new(state).err(), Some(Error::Unexpected));
}

#[test]
fn test_analysis_errors_of_an_executable() {
    let file = executable(0x1234, false, None);
    assert_eq!(
        Analysis::begin(&file, "tool.exe".to_owned(), false).err(),
        Some(Error::MalformedPE)
    );
    let info = version_info(&[("ProductName", "Tool")]);
    let directory = resources(&[resource(RT_VERSION, Key::Id(1), &info[..info.len() - 6])]);
    let file = executable(0x014c, false, Some(&directory));
    assert_eq!(
        Analysis::begin(&file, "tool.exe".to_owned(), false).err(),
        Some(Error::MalformedVersionInfo)
    );
    // The same bytes under another extension are not read as an executable.
    assert!(Analysis::begin(&file, "tool.msi".to_owned(), false).is_ok());
}

#[test]
fn test_analysis_of_a_database() {
    let state = Analysis::begin(b"bytes", "product.msi".to_owned(), false).unwrap();
    assert_eq!(state.request, Some(Request::Msi));
    let state = state.supply(Decoded::Msi(msi(true))).unwrap();
    let analysed = FileAnalyser::new(state).unwrap();
    assert_eq!(analysed.installer_type, InstallerType::Wix);
    assert_eq!(analysed.architecture, Architecture::X64);
    let state = Analysis::begin(b"bytes", "product.msi".to_owned(), false).unwrap();
    let analysed = FileAnalyser::new(state.supply(Decoded::Msi(msi(false))).unwrap()).unwrap();
    assert_eq!(analysed.installer_type, InstallerType::Msi);
}

#[test]
fn test_analysis_of_a_packaged_app() {
    let msix = || Msix {
        processor_architecture: Architecture::Arm,
        target_device_family: Platform::WindowsDesktop,
        min_version: "10.0.17763.0".to_owned(),
        signature_sha_256: "AA".to_owned(),
        package_family_name: "Example.Tool_abc".to_owned(),
    };
    for (name, installer_type) in [("a.msix", InstallerType::Msix), ("a.AppX", InstallerType::Appx)] {
        let state = Analysis::begin(b"bytes", name.to_owned(), false).unwrap();
        assert_eq!(state.request, Some(Request::Msix));
        let analysed = FileAnalyser::new(state.supply(Decoded::Msix(msix())).unwrap()).unwrap();
        assert_eq!(analysed.installer_type, installer_type);
        assert_eq!(analysed.architecture, Architecture::Arm);
        assert_eq!(analysed.platform, Some(vec![Platform::WindowsDesktop]));
        assert_eq!(analysed.minimum_os_version.as_deref(), Some("10.0.17763.0"));
        assert_eq!(analysed.signature_sha_256.as_deref(), Some("AA"));
        assert_eq!(analysed.package_family_name.as_deref(), Some("Example.Tool_abc"));
        assert_eq!(analysed.product_code, None);
    }
}

#[test]
fn test_analysis_of_a_bundle() {
    let state = Analysis::begin(b"bytes", "a.msixbundle".to_owned(), false).unwrap();
    assert_eq!(state.request, Some(Request::MsixBundle));
    let bundle = MsixBundle {
        signature_sha_256: "BB".to_owned(),
        package_family_name: "Example.Tool_abc".to_owned(),
    };
    let state = state.supply(Decoded::MsixBundle(bundle)).unwrap();
    assert_eq!(state.request, None);
    // A bundle tells no architecture of its own.
    assert_eq!(FileAnalyser::new(state).err(), Some(Error::Unexpected));
}

#[test]
fn test_analysis_of_an_archive() {
    let state = Analysis::begin(b"bytes", "a.zip".to_owned(), false).unwrap();
    assert_eq!(state.request, Some(Request::Zip));
    let zip = Zip { nested_installer_type: None, nested_installer_files: vec![] };
    let state = state.supply(Decoded::Zip(zip)).unwrap();
    assert!(state.zip.is_some());
    let state = Analysis::begin(b"bytes", "a.zip".to_owned(), true).unwrap();
    assert_eq!(state.request, None);
}

#[test]
fn test_analysis_of_an_unknown_extension() {
    let state = Analysis::begin(b"bytes", "a.7z".to_owned(), false).unwrap();
    assert_eq!(state.request, None);
    assert_eq!(FileAnalyser::new(state).err(), Some(Error::UnsupportedExtension));
    let state = Analysis::begin(b"bytes", "noextension".to_owned(), false).unwrap();
    assert_eq!(FileAnalyser::new(state).err(), Some(Error::UnsupportedExtension));
}

#[test]
fn test_analysis_out_of_order() {
    let state = Analysis::begin(b"bytes", "product.msi".to_owned(), false).unwrap();
    assert_eq!(state.supply(Decoded::Manifest(None)).err(), Some(Error::Unexpected));
    let state = Analysis::begin(b"bytes", "product.msi".to_owned(), false).unwrap();
    assert_eq!(FileAnalyser::new(state).err(), Some(Error::Unexpected));
    let state = Analysis::begin(b"bytes", "a.7z".to_owned(), false).unwrap();
    assert_eq!(state.supply(Decoded::Msi(msi(false))).err(), Some(Error::Unexpected));
}

#[test]
fn test_analysis_is_repeatable() {
    let info = version_info(&[("CompanyName", "Example Ltd")]);
    let directory = resources(&[
        resource(RT_VERSION, Key::Id(1), &info),
        resource(RT_RCDATA, Key::Name("MSI"), b"the database"),
    ]);
    let file = executable(0x014c, false, Some(&directory));
    let run = || {
        let state = Analysis::begin(&file, "bundle.exe".to_owned(), false).unwrap();
        let analysed = FileAnalyser::new(state.supply(Decoded::Msi(msi(false))).unwrap()).unwrap();
        (
            analysed.installer_type,
            analysed.architecture,
            analysed.publisher,
            analysed.product_code,
            analysed.product_language,
            analysed.file_name,
        )
    };
    assert_eq!(run(), run());
}
