use std::io::Write;

use saten::archive_reader::{read_slice, ArcReader, ArchiveError, CompressionType, MemberFile};
use saten::compress_deflate::uncomp_deflate;
use saten::file_checker::{check_file_type, FileType};
use saten::model::archive_manager::ArchiveManager;
use saten::primitives::{encode_vint, read_vint};
use saten::rar_handler::{RarHandler, RarVersion};
use saten::reader_rar4::Rar4Reader;
use saten::reader_rar5::Rar5Reader;
use saten::reader_zip::ZipReader;
use saten::sort_filename::sort_filename;

fn member(path: &str, offset: u64, size: u64, fsize: u64, ctype: CompressionType) -> MemberFile {
    MemberFile {
        filepath: path.to_string(),
        filename: path.rsplit(['/', '\\']).next().unwrap().to_string(),
        offset,
        size,
        fsize,
        ctype,
    }
}

#[test]
fn test_rar_version_detection() {
    let rar4_sig = b"Rar!\x1a\x07\x00some data";
    let rar5_sig = b"Rar!\x1a\x07\x01\x00some data";
    let invalid = b"Not a RAR file";

    assert_eq!(RarHandler::detect_rar_version(rar4_sig), RarVersion::Rar4);
    assert_eq!(RarHandler::detect_rar_version(rar5_sig), RarVersion::Rar5);
    assert_eq!(RarHandler::detect_rar_version(invalid), RarVersion::Unknown);
}

#[test]
fn test_file_search() {
    let files = vec![
        MemberFile {
            filepath: "folder/test.txt".to_string(),
            filename: "test.txt".to_string(),
            offset: 0,
            size: 100,
            fsize: 150,
            ctype: CompressionType::Uncompress,
        },
        MemberFile {
            filepath: "image.jpg".to_string(),
            filename: "image.jpg".to_string(),
            offset: 100,
            size: 5000,
            fsize: 5000,
            ctype: CompressionType::Rar5,
        },
    ];

    let found = RarHandler::find_file_by_name(&files, "test.txt");
    assert!(found.is_some());
    assert_eq!(found.unwrap().filename, "test.txt");

    let txt_files = RarHandler::find_files_by_extension(&files, "txt");
    assert_eq!(txt_files.len(), 1);

    let jpg_files = RarHandler::find_files_by_extension(&files, "jpg");
    assert_eq!(jpg_files.len(), 1);
}

#[test]
fn test_rar5_signature() {
    let valid_rar = b"Rar!\x1a\x07\x01\x00some data";
    let (pos, found) = saten::reader_rar5::check_rarsign(valid_rar);
    assert_eq!(pos, 0);
    assert!(found);
}

#[test]
fn test_vint_reading() {
    let data = [0x81, 0x02];
    let result = read_vint(&data, 0).unwrap();
    assert_eq!(result.0, 257);
    assert_eq!(result.1, 2);
}

#[test]
fn test_filename_decoding() {
    let utf8_name = b"test.txt";
    let result = saten::reader_rar5::decode_filename(utf8_name).unwrap();
    assert_eq!(result, "test.txt");
}

#[test]
fn test_vint_round_trip() {
    let values: [u64; 10] =
        [0, 1, 127, 128, 255, 300, 16384, 1 << 21, (1 << 35) - 1, u64::MAX];
    for &v in values.iter() {
        let enc = encode_vint(v);
        let (decoded, used) = read_vint(&enc, 0).unwrap();
        assert_eq!(decoded, v);
        assert_eq!(used as usize, enc.len());
    }
}

#[test]
fn test_vint_errors() {
    // The buffer ends before a terminating byte appears.
    let truncated = [0x80, 0x80];
    assert_eq!(
        read_vint(&truncated, 0),
        Err(ArchiveError::OutOfBounds { offset: 0, size: 3, buffer_len: 2 })
    );
    // Ten continuation bytes: the value would exceed 64 bits.
    let too_long = [0x80u8; 11];
    assert_eq!(read_vint(&too_long, 0), Err(ArchiveError::CorruptedArchive));
}

#[test]
fn test_signature_detection() {
    assert_eq!(
        check_file_type(b"Rar!\x1a\x07\x01\x00rest").unwrap(),
        FileType::Rar5
    );
    assert_eq!(check_file_type(b"Rar!\x1a\x07\x00rest").unwrap(), FileType::Rar4);
    assert_eq!(check_file_type(b"PK\x03\x04rest").unwrap(), FileType::Zip);
    assert_eq!(check_file_type(b"plain text").unwrap(), FileType::Unsupported);
    assert_eq!(check_file_type(b""), Err(ArchiveError::CorruptedArchive));
}

#[test]
fn test_natural_sort() {
    let mut files = vec![
        member("page10.jpg", 0, 1, 1, CompressionType::Uncompress),
        member("page2.jpg", 1, 1, 1, CompressionType::Uncompress),
        member("page1.jpg", 2, 1, 1, CompressionType::Uncompress),
    ];
    sort_filename(&mut files);
    assert_eq!(files[0].filepath, "page1.jpg");
    assert_eq!(files[1].filepath, "page2.jpg");
    assert_eq!(files[2].filepath, "page10.jpg");
}

#[test]
fn test_zip_filename_is_base_name() {
    let mut buf: Vec<u8> = Vec::new();
    buf.extend_from_slice(&[0x50, 0x4B, 0x03, 0x04]);
    buf.extend_from_slice(&[20, 0, 0, 0, 0, 0, 0, 0, 0, 0]);
    buf.extend_from_slice(&[0, 0, 0, 0]); // crc32
    buf.extend_from_slice(&[2, 0, 0, 0]); // compressed size
    buf.extend_from_slice(&[2, 0, 0, 0]); // uncompressed size
    buf.extend_from_slice(&[11, 0]); // name length
    buf.extend_from_slice(&[0, 0]); // extra length
    buf.extend_from_slice(b"dir/pic.png");
    buf.extend_from_slice(b"hi");
    let mut files: Vec<MemberFile> = Vec::new();
    ZipReader::read_archive(&buf, &mut files).unwrap();
    assert_eq!(files.len(), 1);
    assert_eq!(files[0].filepath, "dir/pic.png");
    assert_eq!(files[0].filename, "pic.png");
}

#[test]
fn test_natural_sort_is_stable() {
    // Two members with the same key (paths equal up to case) keep
    // their input order; a third sorts between by magnitude.
    let mut files = vec![
        member("Page2.jpg", 10, 1, 1, CompressionType::Uncompress),
        member("page2.jpg", 20, 1, 1, CompressionType::Uncompress),
        member("page1.jpg", 30, 1, 1, CompressionType::Uncompress),
    ];
    sort_filename(&mut files);
    assert_eq!(files[0].filepath, "page1.jpg");
    assert_eq!(files[1].offset, 10);
    assert_eq!(files[2].offset, 20);
}

#[test]
fn test_natural_sort_case_insensitive() {
    let mut files = vec![
        member("Page3.jpg", 0, 1, 1, CompressionType::Uncompress),
        member("page2.jpg", 1, 1, 1, CompressionType::Uncompress),
    ];
    sort_filename(&mut files);
    assert_eq!(files[0].filepath, "page2.jpg");
    assert_eq!(files[1].filepath, "Page3.jpg");
}

fn zip_single_entry() -> Vec<u8> {
    let mut buf: Vec<u8> = Vec::new();
    buf.extend_from_slice(&[0x50, 0x4B, 0x03, 0x04]); // local-file-header magic
    buf.extend_from_slice(&[20, 0]); // version needed
    buf.extend_from_slice(&[0, 0]); // general-purpose flags
    buf.extend_from_slice(&[0, 0]); // method: stored
    buf.extend_from_slice(&[0, 0]); // mtime
    buf.extend_from_slice(&[0, 0]); // mdate
    buf.extend_from_slice(&[0, 0, 0, 0]); // crc32
    buf.extend_from_slice(&[2, 0, 0, 0]); // compressed size
    buf.extend_from_slice(&[2, 0, 0, 0]); // uncompressed size
    buf.extend_from_slice(&[9, 0]); // name length
    buf.extend_from_slice(&[0, 0]); // extra length
    buf.extend_from_slice(b"hello.txt");
    buf.extend_from_slice(b"hi");
    buf
}

#[test]
fn test_zip_round_trip() {
    let buf = zip_single_entry();
    let mut files: Vec<MemberFile> = Vec::new();
    ZipReader::read_archive(&buf, &mut files).unwrap();
    assert_eq!(files.len(), 1);
    assert_eq!(files[0].filename, "hello.txt");
    assert_eq!(files[0].offset, 39);
    assert_eq!(files[0].size, 2);
    assert_eq!(files[0].fsize, 2);
    assert!(matches!(files[0].ctype, CompressionType::Uncompress));
    let data = ZipReader::read_data(&buf, files[0].offset, files[0].size).unwrap();
    assert_eq!(data, b"hi");
}

#[test]
fn test_zip_bad_name_is_rejected() {
    let mut buf = zip_single_entry();
    buf[30] = 0xff; // the name is no longer valid UTF-8
    let mut files: Vec<MemberFile> = Vec::new();
    assert_eq!(
        ZipReader::read_archive(&buf, &mut files),
        Err(ArchiveError::StringConversionError)
    );
    assert!(files.is_empty());
}

#[test]
fn test_process_archive_sorts_zip() {
    let buf = zip_single_entry();
    let files = ArchiveManager::process_archive(&buf).unwrap();
    assert_eq!(files.len(), 1);
    assert_eq!(files[0].filename, "hello.txt");
    let data = ArchiveManager::decompress_file_data(&buf, &files[0]).unwrap();
    assert_eq!(data, b"hi");
}

#[test]
fn test_process_archive_unsupported() {
    let r = ArchiveManager::process_archive(b"plain text");
    assert_eq!(r.err(), Some(ArchiveError::UnsupportedFormat));
}

fn rar4_large_archive() -> Vec<u8> {
    let mut buf: Vec<u8> = Vec::new();
    buf.extend_from_slice(b"Rar!\x1a\x07\x00"); // signature
    buf.extend_from_slice(&[0, 0]); // header crc (skipped)
    buf.push(0x74); // FILE_HEAD
    buf.extend_from_slice(&[0x00, 0x01]); // flags: LHD_LARGE
    buf.extend_from_slice(&[40, 0]); // header size
    buf.extend_from_slice(&[0x10, 0, 0, 0]); // pack size low
    buf.extend_from_slice(&[0x20, 0, 0, 0]); // unpack size low
    buf.push(0); // host OS
    buf.extend_from_slice(&[0, 0, 0, 0]); // file crc
    buf.extend_from_slice(&[0, 0, 0, 0]); // file time
    buf.push(0); // unpack version: stored
    buf.push(0x30); // method
    buf.extend_from_slice(&[5, 0]); // name size
    buf.extend_from_slice(&[0, 0, 0, 0]); // file attributes
    buf.extend_from_slice(&[2, 0, 0, 0]); // high pack size
    buf.extend_from_slice(&[3, 0, 0, 0]); // high unpack size
    buf.extend_from_slice(b"a.jpg");
    buf
}

#[test]
fn test_rar4_lhd_large_extension() {
    let buf = rar4_large_archive();
    let mut files: Vec<MemberFile> = Vec::new();
    Rar4Reader::read_archive(&buf, &mut files).unwrap();
    assert_eq!(files.len(), 1);
    assert_eq!(files[0].filepath, "a.jpg");
    assert_eq!(files[0].size, (2u64 << 32) | 0x10);
    assert_eq!(files[0].fsize, (3u64 << 32) | 0x20);
}

#[test]
fn test_rar4_without_signature() {
    let mut files: Vec<MemberFile> = Vec::new();
    assert_eq!(
        Rar4Reader::read_archive(b"garbage bytes here", &mut files),
        Err(ArchiveError::CorruptedArchive)
    );
}

#[test]
fn test_rar4_bad_header_size() {
    let mut buf: Vec<u8> = Vec::new();
    buf.extend_from_slice(b"Rar!\x1a\x07\x00");
    buf.extend_from_slice(&[0, 0, 0x73, 0, 0, 3, 0]); // MAIN_HEAD with size 3 < 7
    buf.push(0);
    let mut files: Vec<MemberFile> = Vec::new();
    assert_eq!(
        Rar4Reader::read_archive(&buf, &mut files),
        Err(ArchiveError::CorruptedArchive)
    );
}

fn rar5_archive() -> Vec<u8> {
    let mut buf: Vec<u8> = Vec::new();
    buf.extend_from_slice(b"Rar!\x1a\x07\x01\x00"); // signature
    // main archive header: crc + size vint + type 1 + flags 0 + archive flags 0
    buf.extend_from_slice(&[0, 0, 0, 0, 3, 1, 0, 0]);
    // file header: crc + size vint + type 2 + flags (has data) + data size +
    // file flags + unpacked size + attributes + compression info + host OS +
    // name length + name
    buf.extend_from_slice(&[0, 0, 0, 0, 18, 2, 2, 2, 0, 2, 0, 0, 0, 9]);
    buf.extend_from_slice(b"dir/c.gif");
    buf.extend_from_slice(b"xy");
    // end-of-archive header
    buf.extend_from_slice(&[0, 0, 0, 0, 1, 5]);
    buf
}

#[test]
fn test_rar5_parse_member() {
    let buf = rar5_archive();
    let mut files: Vec<MemberFile> = Vec::new();
    Rar5Reader::read_archive(&buf, &mut files).unwrap();
    assert_eq!(files.len(), 1);
    assert_eq!(files[0].filepath, "dir/c.gif");
    assert_eq!(files[0].filename, "c.gif");
    assert_eq!(files[0].size, 2);
    assert_eq!(files[0].fsize, 2);
    assert!(matches!(files[0].ctype, CompressionType::Uncompress));
    let data = Rar5Reader::read_data(&buf, files[0].offset, files[0].size).unwrap();
    assert_eq!(data, b"xy");
}

#[test]
fn test_rar_handler_dispatch() {
    let buf = rar5_archive();
    let mut files: Vec<MemberFile> = Vec::new();
    let version = RarHandler::read_archive(&buf, &mut files).unwrap();
    assert_eq!(version, RarVersion::Rar5);
    assert_eq!(files.len(), 1);

    let mut none: Vec<MemberFile> = Vec::new();
    assert_eq!(
        RarHandler::read_archive(b"not an archive", &mut none),
        Err(ArchiveError::UnsupportedFormat)
    );
}

#[test]
fn test_rar_handler_extract_uncompressed() {
    let buf = rar5_archive();
    let mut files: Vec<MemberFile> = Vec::new();
    RarHandler::read_archive(&buf, &mut files).unwrap();
    let data = RarHandler::extract_file(&buf, &files[0], RarVersion::Rar5).unwrap();
    assert_eq!(data, b"xy");
}

#[test]
fn test_rar5_truncated_after_signature() {
    let buf = b"Rar!\x1a\x07\x01\x00\x00\x00";
    let mut files: Vec<MemberFile> = Vec::new();
    let r = Rar5Reader::read_archive(buf, &mut files);
    assert!(r.is_err());
    assert!(files.is_empty());
}

#[test]
fn test_out_of_bounds_read() {
    let buf = [1u8, 2, 3, 4];
    assert_eq!(
        read_slice(&buf, 2, 3),
        Err(ArchiveError::OutOfBounds { offset: 2, size: 3, buffer_len: 4 })
    );
    assert_eq!(
        ZipReader::read_data(&buf, 0, 5),
        Err(ArchiveError::OutOfBounds { offset: 0, size: 5, buffer_len: 4 })
    );
    assert_eq!(read_slice(&buf, 1, 2).unwrap(), vec![2, 3]);
}

#[test]
fn test_deflate_round_trip() {
    let mut encoder =
        flate2::write::DeflateEncoder::new(Vec::new(), flate2::Compression::default());
    encoder.write_all(b"hello deflate world").unwrap();
    let compressed = encoder.finish().unwrap();

    let mut buf: Vec<u8> = vec![7, 7, 7];
    buf.extend_from_slice(&compressed);
    let out = uncomp_deflate(&buf, 3, compressed.len() as u64).unwrap();
    assert_eq!(out, b"hello deflate world");
}

#[test]
fn test_deflate_errors() {
    let buf = [7u8, 7, 7];
    assert_eq!(uncomp_deflate(&buf, 0, 3), Err(ArchiveError::DecompressionError));
    assert_eq!(
        uncomp_deflate(&buf, 1, 5),
        Err(ArchiveError::OutOfBounds { offset: 1, size: 5, buffer_len: 3 })
    );
}

#[test]
fn test_garbage_never_panics() {
    let mut x: u64 = 0x1234_5678;
    let mut next = || {
        x = x.wrapping_mul(6364136223846793005).wrapping_add(1442695040888963407);
        (x >> 33) as u8
    };
    let mut bufs: Vec<Vec<u8>> = Vec::new();
    for len in 0..64usize {
        let buf: Vec<u8> = (0..len).map(|_| next()).collect();
        bufs.push(buf);
    }
    for sig in [
        &b"Rar!\x1a\x07\x00"[..],
        &b"Rar!\x1a\x07\x01\x00"[..],
        &b"PK\x03\x04"[..],
    ] {
        for len in 0..48usize {
            let mut buf = sig.to_vec();
            buf.extend((0..len).map(|_| next()));
            bufs.push(buf);
        }
    }
    for buf in &bufs {
        let _ = check_file_type(buf);
        let mut f = Vec::new();
        let _ = Rar4Reader::read_archive(buf, &mut f);
        let mut f = Vec::new();
        let _ = Rar5Reader::read_archive(buf, &mut f);
        let mut f = Vec::new();
        let _ = ZipReader::read_archive(buf, &mut f);
        let mut f = Vec::new();
        let _ = RarHandler::read_archive(buf, &mut f);
        let _ = ArchiveManager::process_archive(buf);
        let _ = read_vint(buf, 0);
        let _ = read_vint(buf, buf.len());
        let _ = uncomp_deflate(buf, 0, buf.len() as u64);
        let _ = RarHandler::detect_rar_version(buf);
    }
}

#[test]
fn test_legacy_name_decoding() {
    // 0x80 is not valid UTF-8; IBM866 maps it to the Cyrillic capital A.
    let decoded = saten::reader_rar4::decode_filename(&[0x80]).unwrap();
    assert_eq!(decoded, "А");
    // 0xE9 is not valid UTF-8; windows-1252 maps it to e with acute.
    let decoded5 = saten::reader_rar5::decode_filename(&[0xE9]).unwrap();
    assert_eq!(decoded5, "é");
}

#[test]
fn test_rar4_salt_and_ext_time_are_skipped() {
    let mut buf: Vec<u8> = Vec::new();
    buf.extend_from_slice(b"Rar!\x1a\x07\x00"); // signature
    buf.extend_from_slice(&[0, 0]); // header crc
    buf.push(0x74); // FILE_HEAD
    buf.extend_from_slice(&[0x00, 0x14]); // flags: salt + extended time
    buf.extend_from_slice(&[60, 0]); // header size
    buf.extend_from_slice(&[2, 0, 0, 0]); // pack size
    buf.extend_from_slice(&[2, 0, 0, 0]); // unpack size
    buf.push(0); // host OS
    buf.extend_from_slice(&[0, 0, 0, 0]); // file crc
    buf.extend_from_slice(&[0, 0, 0, 0]); // file time
    buf.push(0); // unpack version: stored
    buf.push(0x30); // method
    buf.extend_from_slice(&[5, 0]); // name size
    buf.extend_from_slice(&[0, 0, 0, 0]); // file attributes
    buf.extend_from_slice(b"b.png");
    buf.extend_from_slice(&[0; 8]); // salt
    buf.extend_from_slice(&[0x01, 0x00]); // extended-time section flags
    buf.extend_from_slice(&[0; 4]); // one four-byte time section
    buf.extend_from_slice(b"ab"); // member data
    let mut files: Vec<MemberFile> = Vec::new();
    Rar4Reader::read_archive(&buf, &mut files).unwrap();
    assert_eq!(files.len(), 1);
    assert_eq!(files[0].offset, 58);
    assert_eq!(files[0].size, 2);
    let data = Rar4Reader::read_data(&buf, files[0].offset, files[0].size).unwrap();
    assert_eq!(data, b"ab");
}

#[test]
fn test_rar5_directory_is_excluded() {
    let mut buf: Vec<u8> = Vec::new();
    buf.extend_from_slice(b"Rar!\x1a\x07\x01\x00");
    buf.extend_from_slice(&[0, 0, 0, 0, 3, 1, 0, 0]); // main header
    // file header whose file flags mark a directory
    buf.extend_from_slice(&[0, 0, 0, 0, 18, 2, 2, 2, 1, 2, 0, 0, 0, 9]);
    buf.extend_from_slice(b"dir/c.gif");
    buf.extend_from_slice(b"xy");
    buf.extend_from_slice(&[0, 0, 0, 0, 1, 5]); // end of archive
    let mut files: Vec<MemberFile> = Vec::new();
    Rar5Reader::read_archive(&buf, &mut files).unwrap();
    assert!(files.is_empty());
}

#[test]
fn test_rar5_unknown_block_is_skipped() {
    let mut buf: Vec<u8> = Vec::new();
    buf.extend_from_slice(b"Rar!\x1a\x07\x01\x00");
    buf.extend_from_slice(&[0, 0, 0, 0, 3, 1, 0, 0]); // main header
    buf.extend_from_slice(&[0, 0, 0, 0, 2, 7, 0]); // unknown block type 7
    buf.extend_from_slice(&[0, 0, 0, 0, 18, 2, 2, 2, 0, 2, 0, 0, 0, 9]);
    buf.extend_from_slice(b"dir/c.gif");
    buf.extend_from_slice(b"xy");
    buf.extend_from_slice(&[0, 0, 0, 0, 1, 5]); // end of archive
    let mut files: Vec<MemberFile> = Vec::new();
    Rar5Reader::read_archive(&buf, &mut files).unwrap();
    assert_eq!(files.len(), 1);
    assert_eq!(files[0].filename, "c.gif");
}

#[test]
fn test_zip_placeholder_entry_is_skipped() {
    let mut buf: Vec<u8> = Vec::new();
    // a directory placeholder: zero compressed size
    buf.extend_from_slice(&[0x50, 0x4B, 0x03, 0x04]);
    buf.extend_from_slice(&[20, 0, 0, 0, 0, 0, 0, 0, 0, 0]);
    buf.extend_from_slice(&[0, 0, 0, 0]); // crc32
    buf.extend_from_slice(&[0, 0, 0, 0]); // compressed size 0
    buf.extend_from_slice(&[0, 0, 0, 0]); // uncompressed size 0
    buf.extend_from_slice(&[2, 0]); // name length
    buf.extend_from_slice(&[0, 0]); // extra length
    buf.extend_from_slice(b"d/");
    buf.extend_from_slice(&zip_single_entry());
    let mut files: Vec<MemberFile> = Vec::new();
    ZipReader::read_archive(&buf, &mut files).unwrap();
    assert_eq!(files.len(), 1);
    assert_eq!(files[0].filename, "hello.txt");
    assert_eq!(files[0].offset, 32 + 39);
}

#[test]
fn test_multibyte_name_decoding() {
    let name = "画像ページ.png";
    let decoded = saten::reader_rar5::decode_filename(name.as_bytes()).unwrap();
    assert_eq!(decoded, name);
    assert_eq!(decoded.chars().count(), 9);
}


#[test]
fn test_extension_search_is_case_insensitive() {
    let files = vec![member("scan.TXT", 0, 1, 1, CompressionType::Uncompress)];
    let found = RarHandler::find_files_by_extension(&files, "txt");
    assert_eq!(found.len(), 1);
}
