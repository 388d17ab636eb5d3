use wad2map::doom::vertex::Vertex;
use wad2map::error::FormatError;
use wad2map::mapmaker::level_to_svg;
use wad2map::optparse::Options;
use wad2map::parse_wad::{parse_wad, scan_directory};

fn entry(posn: u32, size: u32, name: &[u8]) -> Vec<u8> {
    let mut out = Vec::new();
    out.extend_from_slice(&posn.to_le_bytes());
    out.extend_from_slice(&size.to_le_bytes());
    let mut padded = [0u8; 8];
    padded[..name.len()].copy_from_slice(name);
    out.extend_from_slice(&padded);
    out
}

fn file(tag: &[u8; 4], count: u32, pool: &[u8], directory: &[Vec<u8>]) -> Vec<u8> {
    let mut out = Vec::new();
    out.extend_from_slice(tag);
    out.extend_from_slice(&count.to_le_bytes());
    out.extend_from_slice(&((12 + pool.len()) as u32).to_le_bytes());
    out.extend_from_slice(pool);
    for e in directory {
        out.extend_from_slice(e);
    }
    out
}

fn one_level_pool() -> Vec<u8> {
    // two vertices, (0, 0) and (10, 0), then one linedef in the Doom layout:
    // from 0 to 1, left side -1, right side 5
    let mut pool = vec![0u8, 0, 0, 0, 10, 0, 0, 0];
    pool.extend([0u8, 0, 1, 0, 0, 0, 0, 0, 0, 0, 0xFF, 0xFF, 5, 0]);
    pool
}

fn one_level_directory() -> Vec<Vec<u8>> {
    vec![entry(12, 0, b"E1M1"), entry(12, 8, b"VERTEXES"), entry(20, 14, b"LINEDEFS")]
}

#[test]
fn empty_directory_is_rejected() {
    let bytes = file(b"IWAD", 0, &[], &[]);
    assert_eq!(bytes.len(), 12);
    let error = parse_wad("empty.wad", &bytes).err().unwrap();
    assert_eq!(error, FormatError::NoLumps);
    assert_eq!(error.message(), "no directory entries");
}

#[test]
fn one_level_is_decoded() {
    let bytes = file(b"IWAD", 3, &one_level_pool(), &one_level_directory());
    let wad = parse_wad("one.wad", &bytes).unwrap();
    assert_eq!(wad.name, "one.wad");
    assert_eq!(wad.header.numlumps, 3);
    assert_eq!(wad.header.lumpaddr, 34);
    assert!(!wad.is_hexen);
    assert_eq!(wad.dropped, 0);
    assert_eq!(wad.levels.len(), 1);
    let level = &wad.levels[0];
    assert_eq!(level.name, "E1M1");
    assert_eq!(level.vertices, vec![Vertex { x: 0, y: 0 }, Vertex { x: 10, y: 0 }]);
    assert_eq!(level.linedefs.len(), 1);
    assert_eq!(level.linedefs[0].start, 0);
    assert_eq!(level.linedefs[0].end, 1);
    assert_eq!(level.linedefs[0].left, -1);
    assert_eq!(level.linedefs[0].right, 5);
    assert!(level.linedefs[0].is_one_sided());
}

#[test]
fn decoded_level_is_drawn() {
    let bytes = file(b"PWAD", 3, &one_level_pool(), &one_level_directory());
    let wad = parse_wad("one.wad", &bytes).unwrap();
    let opts = Options {
        help: false,
        files: vec![String::from("one.wad")],
        version: false,
        verbose: false,
        lighting: false,
        inverted: false,
        target_size: 1024,
        transparent: false,
        color_doors: false,
    };
    let svg = level_to_svg(&wad.levels[0], &opts).unwrap();
    assert_eq!(
        svg.document(),
        "<svg width=\"1024\" height=\"930\" viewBox=\"0 0 110 100\" \
         xmlns=\"http://www.w3.org/2000/svg\" version=\"1.1\">\
         <rect x=\"0\" y=\"0\" width=\"110\" height=\"100\" fill=\"white\" />\
         <line x1=\"50\" y1=\"50\" x2=\"60\" y2=\"50\" stroke=\"black\" stroke-width=\"7\" />\
         </svg>"
    );
}

#[test]
fn behavior_lump_marks_the_whole_wad() {
    // the linedef table holds one record in the Hexen layout
    let mut pool = vec![0u8, 0, 0, 0, 10, 0, 0, 0];
    pool.extend([0u8, 0, 1, 0, 0, 0, 26, 0, 0, 0, 0, 0, 5, 0, 0xFF, 0xFF]);
    let directory = vec![
        entry(12, 0, b"MAP01"),
        entry(12, 8, b"VERTEXES"),
        entry(20, 16, b"LINEDEFS"),
        entry(12, 0, b"BEHAVIOR"),
    ];
    let wad = parse_wad("hexen.wad", &file(b"PWAD", 4, &pool, &directory)).unwrap();
    assert!(wad.is_hexen);
    assert_eq!(wad.levels.len(), 1);
    assert_eq!(wad.levels[0].name, "MAP01");
    assert_eq!(wad.levels[0].linedefs.len(), 1);
    assert_eq!(wad.levels[0].linedefs[0].right, 5);
    assert_eq!(wad.levels[0].linedefs[0].left, -1);
    assert_eq!(wad.levels[0].linedefs[0].special_type(), 26);
}

#[test]
fn scan_finds_behavior_anywhere() {
    let mut dir = Vec::new();
    for e in [entry(12, 0, b"BEHAVIOR"), entry(12, 0, b"E1M1")] {
        dir.extend(e);
    }
    let (lumps, is_hexen) = scan_directory(&dir).unwrap();
    assert!(is_hexen);
    assert_eq!(lumps.len(), 2);
    assert_eq!(lumps[0].name, "BEHAVIOR");
    assert_eq!(lumps[1].name, "E1M1");
    assert!(lumps[1].is_level);

    let mut plain = Vec::new();
    for e in [entry(12, 0, b"BEHAVIO"), entry(12, 0, b"EHAVIOR"), entry(12, 0, b"behavior")] {
        plain.extend(e);
    }
    let (others, no_hexen) = scan_directory(&plain).unwrap();
    assert!(!no_hexen);
    assert_eq!(others.len(), 3);

    let (none, empty_hexen) = scan_directory(&[]).unwrap();
    assert!(none.is_empty());
    assert!(!empty_hexen);
}

#[test]
fn scan_rejects_a_directory_that_ends_inside_an_entry() {
    let mut dir = entry(12, 0, b"E1M1");
    dir.extend([0u8; 5]);
    assert_eq!(
        scan_directory(&dir).err(),
        Some(FormatError::RecordWidth { expected: 16, actual: 5 })
    );
    assert_eq!(
        scan_directory(&[0u8; 15]).err(),
        Some(FormatError::RecordWidth { expected: 16, actual: 15 })
    );
}

#[test]
fn file_shorter_than_a_header_is_rejected() {
    assert_eq!(
        parse_wad("short.wad", b"IWAD").err(),
        Some(FormatError::RecordWidth { expected: 12, actual: 4 })
    );
    assert_eq!(
        parse_wad("none.wad", &[]).err(),
        Some(FormatError::RecordWidth { expected: 12, actual: 0 })
    );
}

#[test]
fn wrong_magic_is_rejected_before_the_directory() {
    // the directory offset is wrong too: the type tag is looked at first
    let mut bytes = file(b"WAD2", 3, &one_level_pool(), &one_level_directory());
    bytes[8] = 0xFF;
    bytes[9] = 0xFF;
    assert_eq!(
        parse_wad("other.wad", &bytes).err(),
        Some(FormatError::NotAWad { wadtype: u32::from_le_bytes(*b"WAD2") })
    );
}

#[test]
fn directory_outside_the_file_is_rejected() {
    let mut bytes = file(b"IWAD", 0, &[], &[]);
    bytes[8] = 13;
    assert_eq!(
        parse_wad("w", &bytes).err(),
        Some(FormatError::DirectoryOutside { lumpaddr: 13, file: 12 })
    );
    bytes[8] = 11;
    assert_eq!(
        parse_wad("w", &bytes).err(),
        Some(FormatError::DirectoryOutside { lumpaddr: 11, file: 12 })
    );
}

#[test]
fn lump_count_must_match_the_header() {
    let pool = one_level_pool();
    let directory = one_level_directory();
    assert_eq!(
        parse_wad("w", &file(b"IWAD", 2, &pool, &directory)).err(),
        Some(FormatError::LumpCount { expected: 2, actual: 3 })
    );
    assert_eq!(
        parse_wad("w", &file(b"IWAD", 4, &pool, &directory)).err(),
        Some(FormatError::LumpCount { expected: 4, actual: 3 })
    );
    assert!(parse_wad("w", &file(b"IWAD", 3, &pool, &directory)).is_ok());
}

#[test]
fn lump_outside_the_pool_is_rejected() {
    let pool = one_level_pool();
    let directory =
        vec![entry(12, 0, b"E1M1"), entry(12, 8, b"VERTEXES"), entry(20, 15, b"LINEDEFS")];
    assert_eq!(
        parse_wad("w", &file(b"IWAD", 3, &pool, &directory)).err(),
        Some(FormatError::LumpOutside { posn: 20, size: 15, pool: 22 })
    );
}

#[test]
fn unfinished_level_is_counted() {
    let pool = one_level_pool();
    let mut directory = one_level_directory();
    directory.push(entry(12, 0, b"E1M2"));
    directory.push(entry(12, 8, b"VERTEXES"));
    let wad = parse_wad("w", &file(b"IWAD", 5, &pool, &directory)).unwrap();
    assert_eq!(wad.levels.len(), 1);
    assert_eq!(wad.dropped, 2);
}

#[test]
fn messages_name_what_is_wrong() {
    assert_eq!(
        FormatError::RecordWidth { expected: 14, actual: 3 }.message(),
        "expected a record of 14 bytes, found 3"
    );
    assert_eq!(FormatError::NotAWad { wadtype: 77 }.message(), "not a WAD: type tag 77");
    assert_eq!(
        FormatError::LumpCount { expected: 4, actual: 3 }.message(),
        "lump count does not match header: 4 announced, 3 found"
    );
    assert_eq!(FormatError::NoLumps.message(), "no directory entries");
    assert_eq!(
        FormatError::DirectoryOutside { lumpaddr: 13, file: 12 }.message(),
        "directory at offset 13 outside a file of 12 bytes"
    );
    assert_eq!(
        FormatError::LumpOutside { posn: 20, size: 15, pool: 22 }.message(),
        "lump of 15 bytes at offset 20 outside a data pool of 22 bytes"
    );
    assert_eq!(
        FormatError::VertexIndex { index: 4, count: 4 }.message(),
        "vertex 4 named in a level of 4 vertices"
    );
}
