use emu::errors::Error;
use emu::targets::appleii::io::disks::crc::crc32;
use emu::targets::appleii::io::disks::dsk::{DskFile, SystemType, DSK_IMAGE_SIZE};
use emu::targets::appleii::io::disks::encode_sector;
use emu::targets::appleii::io::disks::woz::{
    Chunk, DiskType, InfoChunk, MetaChunk, TrackData, TrackMap35Chunk, TrackMap525Chunk, TracksChunk, TracksChunkV2,
    WozDisk, WozDiskReader, WozDiskTrack,
};
use emu::utils::bitstream::Bitstream;

#[test]
fn crc32_of_check_string() {
    assert_eq!(0xCBF43926, crc32(0, b"123456789"));
    assert_eq!(0, crc32(0, b""));
}

#[test]
fn crc32_continues_over_pieces() {
    let whole = crc32(0, b"123456789");
    let part = crc32(0, b"1234");
    assert_eq!(whole, crc32(part, b"56789"));
}

#[test]
fn bitstream_packs_msb_first() {
    let mut bs = Bitstream::new();
    bs.write_bit(1);
    bs.write_bit(0);
    bs.write_bit(1);
    assert_eq!(3, bs.num_bits());
    assert_eq!(&[0b1010_0000u8][..], bs.packed());
    bs.write_byte(0xff);
    assert_eq!(11, bs.num_bits());
    assert_eq!(1, bs.read_bit(3));
    assert_eq!(0, bs.read_bit(100));
}

#[test]
fn encode_sector_rejects_short_data() {
    assert!(matches!(encode_sector(0, 0, &[0u8; 10]), Err(Error::InvalidSectorLength)));
}

#[test]
fn encode_sector_writes_prologues() {
    let bs = encode_sector(1, 2, &[0u8; 256]).unwrap();
    assert_eq!(3134, bs.num_bits());
    let packed = bs.packed();
    // sixteen sync bytes of ten bits come first, then D5 AA 96
    let mut bits = vec![];
    for i in 160..184 {
        bits.push(bs.read_bit(i));
    }
    let mut v = 0u32;
    for b in bits {
        v = v * 2 + b as u32;
    }
    assert_eq!(0xd5aa96, v);
    assert!(packed.len() >= 392);
}

#[test]
fn track_maps_need_160_bytes() {
    assert!(matches!(TrackMap525Chunk::parse(&[0u8; 10]), Err(Error::InvalidSize)));
    let mut buf = [0u8; 160];
    buf[4] = 9;
    let tm = TrackMap525Chunk::parse(&buf).unwrap();
    assert_eq!(9, tm.indexes[4]);
    let mut buf35 = [0u8; 160];
    buf35[80] = 3;
    let tm35 = TrackMap35Chunk::parse(&buf35).unwrap();
    assert_eq!(3, tm35.indexes[1][0]);
    assert!(matches!(TrackMap35Chunk::parse(&[0u8; 159]), Err(Error::InvalidSize)));
}

fn info_bytes(disk_type: u8, creator: &str) -> Vec<u8> {
    let mut data = vec![1u8, disk_type, 1, 0, 1];
    let mut c = creator.as_bytes().to_vec();
    c.resize(32, b' ');
    data.extend(c);
    data.resize(60, 0);
    data
}

#[test]
fn info_chunk_reads_fields_and_trims_creator() {
    let info = InfoChunk::parse(&info_bytes(1, "  emu test")).unwrap();
    assert_eq!(1, info.version);
    assert_eq!(DiskType::Disk525, info.disk_type);
    assert!(info.write_protected);
    assert!(!info.synchronized);
    assert!(info.cleaned);
    assert_eq!("emu test", info.creator);
}

#[test]
fn info_chunk_errors() {
    assert!(matches!(InfoChunk::parse(&[0u8; 59]), Err(Error::InvalidSize)));
    assert!(matches!(InfoChunk::parse(&info_bytes(3, "x")), Err(Error::UnknownDiskType { value: 3 })));
    let mut bad = info_bytes(2, "x");
    bad[5] = 0xff;
    assert!(matches!(InfoChunk::parse(&bad), Err(Error::InvalidCreator)));
}

#[test]
fn meta_chunk_reads_tab_separated_lines() {
    let meta = MetaChunk::parse(b"title\tChoplifter\nnote\n  side\tA  \r\n").unwrap();
    assert_eq!(2, meta.metadata.len());
    assert_eq!(("title".to_string(), "Choplifter".to_string()), meta.metadata[0]);
    assert_eq!(("side".to_string(), "A".to_string()), meta.metadata[1]);
    assert!(matches!(MetaChunk::parse(&[0x41, 0xff, 0x0a]), Err(Error::InvalidMetadata)));
}

#[test]
fn track_data_reads_trailer() {
    let mut rec = vec![0u8; 6656];
    rec[6646] = 0x10;
    rec[6648] = 0x20;
    rec[6649] = 0x01;
    rec[6652] = 0xd5;
    rec[6653] = 3;
    let t = TrackData::parse(&rec).unwrap();
    assert_eq!(0x10, t.num_bytes);
    assert_eq!(0x120, t.num_bits);
    assert_eq!(0xd5, t.splice_nibble);
    assert_eq!(3, t.splice_bit_count);
    assert!(matches!(TrackData::parse(&rec[0..100]), Err(Error::UnexpectedEof)));
    assert!(matches!(TracksChunk::parse(&rec[0..100]), Err(Error::InvalidSize)));
    assert_eq!(1, TracksChunk::parse(&rec).unwrap().tracks.len());
}

#[test]
fn tracks_v2_errors() {
    assert!(matches!(TracksChunkV2::parse(&[0u8; 100]), Err(Error::UnexpectedEof)));
    let mut table = vec![0u8; 1280];
    table[0] = 1;
    table[2] = 1;
    assert!(matches!(TracksChunkV2::parse(&table), Err(Error::InvalidTrackBlock)));
    let mut table = vec![0u8; 1280 + 512];
    table[0] = 3;
    table[2] = 1;
    table[4] = 0x00;
    table[5] = 0x10;
    let t = TracksChunkV2::parse(&table).unwrap();
    assert_eq!(1, t.tracks.len());
    assert_eq!(0x1000, t.tracks[0].num_bits);
}

fn woz1_image(crc_ok: bool) -> Vec<u8> {
    let mut img = vec![0x57, 0x4f, 0x5a, 0x31, 0xff, 0x0a, 0x0d, 0x0a, 0, 0, 0, 0];
    img.extend(b"INFO");
    img.extend(60u32.to_le_bytes());
    img.extend(info_bytes(1, "emu"));
    img.extend(b"TMAP");
    img.extend(160u32.to_le_bytes());
    img.extend(vec![0u8; 160]);
    img.extend(b"TRKS");
    img.extend(6656u32.to_le_bytes());
    let mut rec = vec![0xffu8; 6656];
    rec[6646] = 0x10;
    rec[6647] = 0;
    rec[6648] = 0x00;
    rec[6649] = 0x01;
    img.extend(rec);
    if crc_ok {
        let crc = crc32(0, &img[12..]);
        img[8..12].copy_from_slice(&crc.to_le_bytes());
    } else {
        img[8] = 1;
    }
    img
}

#[test]
fn woz_image_parses() {
    let disk = WozDisk::parse(&woz1_image(true)).unwrap();
    assert_eq!(DiskType::Disk525, disk.info_chunk.disk_type);
    assert_eq!(2, disk.chunks.len());
    assert!(matches!(disk.chunks[0], Chunk::TrackMap525(_)));
    assert!(matches!(disk.chunks[1], Chunk::Tracks(_)));
    assert!(disk.tracks_valid());
}

#[test]
fn woz_image_errors() {
    assert!(matches!(WozDisk::parse(&woz1_image(false)), Err(Error::InvalidCrc)));
    let mut bad = woz1_image(true);
    bad[0] = 0;
    assert!(matches!(WozDisk::parse(&bad), Err(Error::InvalidSignature)));
    let mut bad = woz1_image(true);
    bad[4] = 0;
    assert!(matches!(WozDisk::parse(&bad), Err(Error::InvalidHeaderMarker)));
    let mut bad = woz1_image(true);
    bad[6] = 0;
    assert!(matches!(WozDisk::parse(&bad), Err(Error::InvalidHeaderLineEnding)));
    let mut bad = woz1_image(true);
    bad[12] = b'X';
    assert!(matches!(WozDisk::parse(&bad), Err(Error::InvalidInfoChunkId)));
    let mut bad = woz1_image(true);
    bad[16] = 61;
    assert!(matches!(WozDisk::parse(&bad), Err(Error::InvalidInfoChunkSize)));
    let short = woz1_image(true)[0..20].to_vec();
    assert!(matches!(WozDisk::parse(&short), Err(Error::UnexpectedEof)));
}

#[test]
fn woz_image_without_tracks_is_refused() {
    let mut img = vec![0x57, 0x4f, 0x5a, 0x32, 0xff, 0x0a, 0x0d, 0x0a, 0, 0, 0, 0];
    img.extend(b"INFO");
    img.extend(60u32.to_le_bytes());
    img.extend(info_bytes(1, "emu"));
    assert!(matches!(WozDisk::parse(&img), Err(Error::MissingTracks)));
}

#[test]
fn woz_chunk_too_large_is_refused() {
    let mut img = vec![0x57, 0x4f, 0x5a, 0x32, 0xff, 0x0a, 0x0d, 0x0a, 0, 0, 0, 0];
    img.extend(b"INFO");
    img.extend(60u32.to_le_bytes());
    img.extend(info_bytes(1, "emu"));
    img.extend(b"JUNK");
    img.extend((8u32 * 1024 * 1024 + 1).to_le_bytes());
    assert!(matches!(WozDisk::parse(&img), Err(Error::ChunkTooLarge { size: 8388609 })));
}

#[test]
fn woz_reader_reads_and_seeks() {
    let disk = WozDisk::parse(&woz1_image(true)).unwrap();
    let mut reader = WozDiskReader::new(disk);
    reader.seek_track(0).unwrap();
    let mut last = 0;
    for _ in 0..8 {
        last = reader.read().unwrap();
    }
    assert_eq!(0xff, last);
    assert_eq!(8, reader.bit_index);
    reader.reset().unwrap();
    assert_eq!(0, reader.bit_index);
}

#[test]
fn track_reads_weak_bits_after_three_zeros() {
    let random = [true; 32];
    let mut t = WozDiskTrack::with_random(vec![0u8; 2], 16, random);
    let mut bytes = vec![];
    for _ in 0..8 {
        bytes.push(t.next_byte().0);
    }
    // the first three zero bits come through, then the random ones
    assert_eq!(0b0001_1111, bytes[7]);
}

#[test]
fn track_write_then_read_gives_bit_back() {
    let mut t = WozDiskTrack::with_random(vec![0u8; 2], 16, [false; 32]);
    t.reset(5);
    t.write_bit(1);
    t.reset(5);
    let (sr, next) = t.next_byte();
    assert_eq!(1, sr & 1);
    assert_eq!(6, next);
}

#[test]
fn dsk_reads_sectors_in_dos_order() {
    let mut image = vec![0u8; DSK_IMAGE_SIZE];
    for s in 0..16 {
        for b in 0..256 {
            image[s * 256 + b] = s as u8;
        }
    }
    let mut dsk = DskFile::new_16_sector(image, SystemType::Dos);
    let first = dsk.read(0).unwrap();
    assert_eq!(0, first.sector);
    assert_eq!(0, first.data[0]);
    let second = dsk.read(0).unwrap();
    assert_eq!(1, second.sector);
    assert_eq!(7, second.data[0]);
    let past = dsk.read(40).unwrap();
    assert_eq!(0, past.sector);
    assert_eq!(vec![0u8; 256], past.data);
}

#[test]
fn dsk_short_image_fails() {
    let mut dsk = DskFile::new_16_sector(vec![0u8; 100], SystemType::ProDos);
    assert!(matches!(dsk.read(0), Err(Error::UnexpectedEof)));
    let dsk = DskFile::new_16_sector(vec![0u8; 1000], SystemType::Dos);
    assert!(matches!(WozDisk::try_from(dsk), Err(Error::UnexpectedEof)));
}

#[test]
fn dsk_becomes_woz_disk() {
    let dsk = DskFile::new_16_sector(vec![0u8; DSK_IMAGE_SIZE], SystemType::Dos);
    let disk = WozDisk::try_from(dsk).unwrap();
    assert_eq!("emu", disk.info_chunk.creator);
    assert_eq!(0, disk.info_chunk.version);
    match &disk.chunks[0] {
        Chunk::TrackMap525(tm) => {
            assert_eq!(0, tm.indexes[0]);
            assert_eq!(1, tm.indexes[4]);
            assert_eq!(0xff, tm.indexes[1]);
            assert_eq!(34, tm.indexes[136]);
            assert_eq!(0xff, tm.indexes[140]);
        }
        _ => panic!("expected a track map"),
    }
    match &disk.chunks[1] {
        Chunk::Tracks(tc) => {
            assert_eq!(35, tc.tracks.len());
            assert_eq!(16 * 3134, tc.tracks[0].num_bits);
        }
        _ => panic!("expected tracks"),
    }
    assert!(disk.tracks_valid());
}
