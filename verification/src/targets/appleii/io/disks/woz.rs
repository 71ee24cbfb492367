use vstd::prelude::*;

use crate::errors::Error;
use crate::utils::bits::lemma_and_one;
use crate::targets::appleii::io::disks::crc::{crc32, crc32_spec};
use crate::targets::appleii::io::disks::dsk::{dsk_indexes, dsk_track_bits_upto, lemma_dsk_track_bits_len, dsk_track_map, encode_dsk_track, DskFile, SystemType, DSK_IMAGE_SIZE};
use crate::utils::bitstream::is_packing_of;
use crate::utils::text::{split_once_chars, split_once_tab, trim_to_string, trimmed, utf8_to_string};

verus! {

/// The largest chunk a WOZ image may hold.
pub const MAX_CHUNK_SIZE: usize = 1024 * 1024 * 8;

/// The size of one track record of a WOZ 1 TRKS chunk.
pub const TRACK_RECORD_SIZE: usize = 6656;

/// The size of the bit data of a WOZ 1 track record.
pub const TRACK_BITSTREAM_SIZE: usize = 6646;

/// The kind of disk an image holds.
#[derive(Debug, Copy, Clone, PartialEq, Eq, Structural)]
pub enum DiskType {
    Disk525,
    Disk35,
}

impl DiskType {
    /// The disk type an INFO chunk names: 1 for 5.25", 2 for 3.5".
    pub fn try_from_u8(value: u8) -> (r: Result<DiskType, Error>)
        ensures
            value == 1 ==> r == Ok::<DiskType, Error>(DiskType::Disk525),
            value == 2 ==> r == Ok::<DiskType, Error>(DiskType::Disk35),
            value != 1 && value != 2 ==> r == Err::<DiskType, Error>(Error::UnknownDiskType { value }),
    {
        match value {
            1 => Ok(DiskType::Disk525),
            2 => Ok(DiskType::Disk35),
            _ => Err(Error::UnknownDiskType { value }),
        }
    }
}

/// The track map of a 3.5" disk: for each side, the track index of each of 80 tracks.
pub struct TrackMap35Chunk {
    pub indexes: [[u8; 80]; 3],
}

impl TrackMap35Chunk {
    /// Parses a TMAP chunk of a 3.5" disk: 160 bytes, side 0 then side 1.
    pub fn parse(buf: &[u8]) -> (r: Result<TrackMap35Chunk, Error>)
        ensures
            buf@.len() != 160 ==> r is Err && r == Err::<TrackMap35Chunk, Error>(Error::InvalidSize),
            buf@.len() == 160 ==> (r matches Ok(tm) && tm.indexes@[0]@ == buf@.subrange(0, 80)
                && tm.indexes@[1]@ == buf@.subrange(80, 160) && tm.indexes@[2]@ == Seq::new(80, |i: int| 0u8)),
    {
        if buf.len() != 160 {
            return Err(Error::InvalidSize);
        }
        let mut side0 = [0u8; 80];
        let mut side1 = [0u8; 80];
        let mut i: usize = 0;
        while i < 80
            invariant
                i <= 80,
                buf@.len() == 160,
                forall|k: int| 0 <= k < i ==> side0@[k] == buf@[k] && side1@[k] == buf@[k + 80],
            decreases 80 - i,
        {
            side0[i] = buf[i];
            side1[i] = buf[i + 80];
            i += 1;
        }
        let tm = TrackMap35Chunk { indexes: [side0, side1, [0u8; 80]] };
        assert(tm.indexes@[0]@ =~= buf@.subrange(0, 80));
        assert(tm.indexes@[1]@ =~= buf@.subrange(80, 160));
        assert(tm.indexes@[2]@ =~= Seq::new(80, |i: int| 0u8));
        Ok(tm)
    }
}

/// The track map of a 5.25" disk: the track index of each quarter track.
pub struct TrackMap525Chunk {
    pub indexes: [u8; 160],
}

impl TrackMap525Chunk {
    /// Parses a TMAP chunk of a 5.25" disk: 160 bytes.
    pub fn parse(buf: &[u8]) -> (r: Result<TrackMap525Chunk, Error>)
        ensures
            buf@.len() != 160 ==> r is Err && r == Err::<TrackMap525Chunk, Error>(Error::InvalidSize),
            buf@.len() == 160 ==> (r matches Ok(tm) && tm.indexes@ == buf@),
    {
        if buf.len() != 160 {
            return Err(Error::InvalidSize);
        }
        let mut indexes = [0u8; 160];
        let mut i: usize = 0;
        while i < 160
            invariant
                i <= 160,
                buf@.len() == 160,
                forall|k: int| 0 <= k < i ==> indexes@[k] == buf@[k],
            decreases 160 - i,
        {
            indexes[i] = buf[i];
            i += 1;
        }
        assert(indexes@ =~= buf@);
        Ok(TrackMap525Chunk { indexes })
    }
}

/// What the INFO chunk says of a disk: format version, disk type, write protection, whether
/// its tracks are synchronized and cleaned, and the program that made it.
pub struct InfoChunk {
    pub version: u8,
    pub disk_type: DiskType,
    pub write_protected: bool,
    pub synchronized: bool,
    pub cleaned: bool,
    pub creator: String,
}

/// The disk type that an INFO byte names, if any.
pub open spec fn disk_type_of(value: u8) -> Option<DiskType> {
    if value == 1 {
        Some(DiskType::Disk525)
    } else if value == 2 {
        Some(DiskType::Disk35)
    } else {
        None
    }
}

/// What parsing a 60-byte INFO chunk gives.
pub open spec fn info_parse_spec(data: Seq<u8>) -> Result<(u8, DiskType, bool, bool, bool, Seq<char>), Error> {
    if data.len() != 60 {
        Err(Error::InvalidSize)
    } else if disk_type_of(data[1]) is None {
        Err(Error::UnknownDiskType { value: data[1] })
    } else if !vstd::utf8::valid_utf8(data.subrange(5, 37)) {
        Err(Error::InvalidCreator)
    } else {
        Ok((
            data[0],
            disk_type_of(data[1])->Some_0,
            data[2] == 1,
            data[3] == 1,
            data[4] == 1,
            trimmed(vstd::utf8::decode_utf8(data.subrange(5, 37))),
        ))
    }
}

/// Whether `r` is what parsing `data` as an INFO chunk gives.
pub open spec fn info_parsed(r: Result<InfoChunk, Error>, data: Seq<u8>) -> bool {
    match info_parse_spec(data) {
        Ok(t) => r matches Ok(info) && (info.version, info.disk_type, info.write_protected,
            info.synchronized, info.cleaned, info.creator@) == t,
        Err(e) => r == Err::<InfoChunk, Error>(e),
    }
}

impl InfoChunk {
    /// Parses an INFO chunk: version, disk type, write protected, synchronized and cleaned
    /// flags (each 1 for yes), then 32 bytes of UTF-8 naming the creator, padded with spaces.
    pub fn parse(data: &[u8]) -> (r: Result<InfoChunk, Error>)
        ensures
            info_parsed(r, data@),
    {
        if data.len() != 60 {
            return Err(Error::InvalidSize);
        }
        let disk_type = match DiskType::try_from_u8(data[1]) {
            Ok(d) => d,
            Err(e) => return Err(e),
        };
        let creator = match Self::parse_info_creator(data) {
            Some(c) => c,
            None => return Err(Error::InvalidCreator),
        };
        Ok(InfoChunk {
            version: data[0],
            disk_type,
            write_protected: data[2] == 1,
            synchronized: data[3] == 1,
            cleaned: data[4] == 1,
            creator,
        })
    }

    fn parse_info_creator(data: &[u8]) -> (r: Option<String>)
        requires
            data@.len() == 60,
        ensures
            r is Some <==> vstd::utf8::valid_utf8(data@.subrange(5, 37)),
            r matches Some(s) ==> s@ == trimmed(vstd::utf8::decode_utf8(data@.subrange(5, 37))),
    {
        let bytes = copy_range(data, 5, 37);
        match utf8_to_string(bytes) {
            Some(s) => Some(trim_to_string(s.as_str())),
            None => None,
        }
    }
}

/// The end of the line that starts at `start`: just past its newline, or the end of the data.
pub open spec fn line_end(data: Seq<u8>, start: int) -> int
    decreases data.len() - start,
{
    if start >= data.len() {
        data.len() as int
    } else if data[start] == 10u8 {
        start + 1
    } else {
        line_end(data, start + 1)
    }
}

/// What one line of the META chunk gives: its key and value where the trimmed line holds a
/// tab.
pub open spec fn meta_line_entry(line: Seq<u8>) -> Option<(Seq<char>, Seq<char>)> {
    split_once_chars(trimmed(vstd::utf8::decode_utf8(line)), '\t')
}

/// The entries of the META chunk lines from `start` on, or `None` where a line is not
/// valid UTF-8.
pub open spec fn meta_entries_from(data: Seq<u8>, start: int) -> Option<Seq<(Seq<char>, Seq<char>)>>
    decreases data.len() - start,
{
    if start < 0 || start >= data.len() {
        Some(Seq::empty())
    } else {
        let end = line_end(data, start);
        let line = data.subrange(start, end);
        if end <= start || end > data.len() || !vstd::utf8::valid_utf8(line) {
            None
        } else {
            match meta_entries_from(data, end) {
                None => None,
                Some(rest) => match meta_line_entry(line) {
                    Some(e) => Some(seq![e] + rest),
                    None => Some(rest),
                },
            }
        }
    }
}

/// The key-value map that entries give when inserted in order, a later key replacing an
/// earlier one.
pub open spec fn entries_map(entries: Seq<(Seq<char>, Seq<char>)>) -> Map<Seq<char>, Seq<char>>
    decreases entries.len(),
{
    if entries.len() == 0 {
        Map::empty()
    } else {
        entries_map(entries.drop_last()).insert(entries.last().0, entries.last().1)
    }
}

/// The META chunk: key-value pairs, one per line, key and value separated by a tab.
pub struct MetaChunk {
    pub metadata: Vec<(String, String)>,
}

/// The text of the entries, in order.
pub open spec fn meta_entries_view(entries: Seq<(String, String)>) -> Seq<(Seq<char>, Seq<char>)> {
    entries.map_values(|e: (String, String)| (e.0@, e.1@))
}

impl MetaChunk {
    /// The metadata as a map: for a key given twice, the later value.
    pub open spec fn metadata_map(&self) -> Map<Seq<char>, Seq<char>> {
        entries_map(meta_entries_view(self.metadata@))
    }
}

/// Lines from `start` on in `data` end at or past `j` when none of `start..j` is a newline.
proof fn lemma_line_end_skip(data: Seq<u8>, start: int, j: int)
    requires
        0 <= start <= j <= data.len(),
        forall|k: int| start <= k < j ==> data[k] != 10u8,
    ensures
        line_end(data, start) == line_end(data, j),
    decreases j - start,
{
    if start < j {
        lemma_line_end_skip(data, start + 1, j);
    }
}

impl MetaChunk {
    /// Parses a META chunk: each line, trimmed, that holds a tab gives the key before the
    /// first tab and the value after it; other lines are skipped. Fails where a line is not
    /// valid UTF-8.
    pub fn parse(data: &[u8]) -> (r: Result<MetaChunk, Error>)
        ensures
            meta_entries_from(data@, 0) is None ==> r == Err::<MetaChunk, Error>(Error::InvalidMetadata),
            meta_entries_from(data@, 0) matches Some(es) ==> (r matches Ok(m) && meta_entries_view(
                m.metadata@,
            ) == es),
    {
        let len = data.len();
        let mut entries: Vec<(String, String)> = Vec::new();
        let mut start: usize = 0;
        while start < len
            invariant
                len == data@.len(),
                start <= len,
                meta_entries_from(data@, 0) == match meta_entries_from(data@, start as int) {
                    None => None,
                    Some(rest) => Some(meta_entries_view(entries@) + rest),
                },
            decreases len - start,
        {
            let mut end: usize = start;
            while end < len && data[end] != 10u8
                invariant
                    len == data@.len(),
                    start <= end <= len,
                    forall|k: int| start <= k < end ==> data@[k] != 10u8,
                decreases len - end,
            {
                end += 1;
            }
            proof {
                lemma_line_end_skip(data@, start as int, end as int);
            }
            if end < len {
                end += 1;
            }
            assert(end == line_end(data@, start as int));
            let line = copy_range(data, start, end);
            let ghost rest = meta_entries_from(data@, end as int);
            let text = match utf8_to_string(line) {
                Some(t) => t,
                None => return Err(Error::InvalidMetadata),
            };
            let t = trim_to_string(text.as_str());
            let ghost before = meta_entries_view(entries@);
            match split_once_tab(t.as_str()) {
                Some(p) => {
                    entries.push(p);
                    proof {
                        assert(meta_entries_view(entries@) =~= before + seq![(p.0@, p.1@)]);
                        match rest {
                            None => {},
                            Some(rs) => {
                                assert(meta_entries_view(entries@) + rs =~= before + (seq![(p.0@, p.1@)] + rs));
                            },
                        }
                    }
                },
                None => {},
            }
            start = end;
        }
        Ok(MetaChunk { metadata: entries })
    }
}

/// The little-endian 16-bit value at `pos`.
pub open spec fn le16(data: Seq<u8>, pos: int) -> u16 {
    (data[pos] as int + data[pos + 1] as int * 256) as u16
}

/// The little-endian 32-bit value at `pos`.
pub open spec fn le32(data: Seq<u8>, pos: int) -> u32 {
    (data[pos] as int + data[pos + 1] as int * 256 + data[pos + 2] as int * 65536 + data[pos + 3] as int
        * 16777216) as u32
}

/// `byteorder::LittleEndian::read_u16` on two bytes: claimed to give the first byte plus 256
/// times the second.
#[verifier::external_body]
fn read_le_u16(bytes: [u8; 2]) -> (r: u16)
    ensures
        r == le16(bytes@, 0),
{
    <byteorder::LittleEndian as byteorder::ByteOrder>::read_u16(&bytes)
}

/// `byteorder::LittleEndian::read_u32` on four bytes: claimed to give the bytes as a number,
/// least significant first.
#[verifier::external_body]
fn read_le_u32(bytes: [u8; 4]) -> (r: u32)
    ensures
        r == le32(bytes@, 0),
{
    <byteorder::LittleEndian as byteorder::ByteOrder>::read_u32(&bytes)
}

/// The little-endian 16-bit value at `pos` of `data`.
pub fn u16_at(data: &[u8], pos: usize) -> (r: u16)
    requires
        pos + 2 <= data@.len(),
    ensures
        r == le16(data@, pos as int),
{
    let r = read_le_u16([data[pos], data[pos + 1]]);
    r
}

/// The little-endian 32-bit value at `pos` of `data`.
pub fn u32_at(data: &[u8], pos: usize) -> (r: u32)
    requires
        pos + 4 <= data@.len(),
    ensures
        r == le32(data@, pos as int),
{
    let r = read_le_u32([data[pos], data[pos + 1], data[pos + 2], data[pos + 3]]);
    r
}

/// The bytes `data[start..end]` as a vector.
pub fn copy_range(data: &[u8], start: usize, end: usize) -> (r: Vec<u8>)
    requires
        start <= end <= data@.len(),
    ensures
        r@ == data@.subrange(start as int, end as int),
{
    let mut out: Vec<u8> = Vec::new();
    let mut i = start;
    while i < end
        invariant
            start <= i <= end,
            end <= data@.len(),
            out@ == data@.subrange(start as int, i as int),
        decreases end - i,
    {
        out.push(data[i]);
        assert(out@ =~= data@.subrange(start as int, i + 1));
        i += 1;
    }
    out
}

/// One track of a WOZ 1 image.
#[derive(Debug, Clone)]
pub struct TrackData {
    pub bitstream: Vec<u8>,
    pub num_bytes: usize,
    pub num_bits: usize,
    pub splice_point: usize,
    pub splice_nibble: u8,
    pub splice_bit_count: usize,
}

impl TrackData {
    /// Parses a WOZ 1 track record: 6646 bytes of bits, then the used byte count, the bit
    /// count and the splice point (16-bit little-endian each), the splice nibble and the
    /// splice bit count.
    pub fn parse(buf: &[u8]) -> (r: Result<TrackData, Error>)
        ensures
            buf@.len() < 6654 ==> r == Err::<TrackData, Error>(Error::UnexpectedEof),
            buf@.len() >= 6654 ==> (r matches Ok(t) && t.bitstream@ == buf@.subrange(0, 6646)
                && t.num_bytes == le16(buf@, 6646) && t.num_bits == le16(buf@, 6648)
                && t.splice_point == le16(buf@, 6650) && t.splice_nibble == buf@[6652]
                && t.splice_bit_count == buf@[6653]),
    {
        if buf.len() < 6654 {
            return Err(Error::UnexpectedEof);
        }
        let bitstream = copy_range(buf, 0, 6646);
        Ok(TrackData {
            bitstream,
            num_bytes: u16_at(buf, 6646) as usize,
            num_bits: u16_at(buf, 6648) as usize,
            splice_point: u16_at(buf, 6650) as usize,
            splice_nibble: buf[6652],
            splice_bit_count: buf[6653] as usize,
        })
    }
}

/// One track of a WOZ 2 image.
#[derive(Debug, Clone)]
pub struct TrackDataV2 {
    pub starting_block: u16,
    pub block_count: u16,
    pub num_bits: usize,
    pub data: Vec<u8>,
}

/// One entry of the WOZ 2 track table: its starting block, block count, bit count and the
/// byte range of its bits; `None` for an unused entry.
pub type TrackEntry = (u16, u16, u32, int, int);

/// What entry `i` of the WOZ 2 track table says, or why it cannot be read.
pub open spec fn track_v2_entry(data: Seq<u8>, i: int) -> Result<Option<TrackEntry>, Error> {
    let p = 8 * i;
    if p + 8 > data.len() {
        Err(Error::UnexpectedEof)
    } else {
        let sb = le16(data, p);
        let bc = le16(data, p + 2);
        let nb = le32(data, p + 4);
        if sb == 0 || bc == 0 {
            Ok(None)
        } else {
            let start = 1280 + (sb - 3) * 512;
            let end = start + 512 * bc;
            if sb < 3 || end > data.len() {
                Err(Error::InvalidTrackBlock)
            } else {
                Ok(Some((sb, bc, nb, start, end)))
            }
        }
    }
}

/// The used entries among the first `n` of the WOZ 2 track table, or the error of the first
/// entry that cannot be read.
pub open spec fn tracks_v2_upto(data: Seq<u8>, n: int) -> Result<Seq<TrackEntry>, Error>
    decreases n,
{
    if n <= 0 {
        Ok(Seq::empty())
    } else {
        match tracks_v2_upto(data, n - 1) {
            Err(e) => Err(e),
            Ok(s) => match track_v2_entry(data, n - 1) {
                Err(e) => Err(e),
                Ok(None) => Ok(s),
                Ok(Some(t)) => Ok(s.push(t)),
            },
        }
    }
}

/// Once an entry of the table cannot be read, the table cannot.
proof fn lemma_tracks_v2_err_stays(data: Seq<u8>, n: int, m: int)
    requires
        0 <= n <= m,
        tracks_v2_upto(data, n) is Err,
    ensures
        tracks_v2_upto(data, m) == tracks_v2_upto(data, n),
    decreases m - n,
{
    if n < m {
        lemma_tracks_v2_err_stays(data, n, m - 1);
    }
}

/// Whether `t` is the track that entry `e` of the table in `data` describes.
pub open spec fn track_v2_is(t: TrackDataV2, e: TrackEntry, data: Seq<u8>) -> bool {
    &&& t.starting_block == e.0
    &&& t.block_count == e.1
    &&& t.num_bits == e.2
    &&& t.data@ == data.subrange(e.3, e.4)
}

/// Whether `tracks` are the tracks that the entries describe, in order.
pub open spec fn tracks_v2_are(tracks: Seq<TrackDataV2>, es: Seq<TrackEntry>, data: Seq<u8>) -> bool {
    &&& tracks.len() == es.len()
    &&& forall|k: int| 0 <= k < tracks.len() ==> track_v2_is(#[trigger] tracks[k], es[k], data)
}

/// The TRKS chunk of a WOZ 2 image: the tracks that its table of 160 entries uses.
pub struct TracksChunkV2 {
    pub tracks: Vec<TrackDataV2>,
}

/// Whether `r` is what parsing `data` as a WOZ 2 TRKS chunk gives.
pub open spec fn tracks_v2_parsed(r: Result<TracksChunkV2, Error>, data: Seq<u8>) -> bool {
    match tracks_v2_upto(data, 160) {
        Ok(es) => r matches Ok(tc) && tracks_v2_are(tc.tracks@, es, data),
        Err(e) => r == Err::<TracksChunkV2, Error>(e),
    }
}

impl TracksChunkV2 {
    /// Parses a WOZ 2 TRKS chunk: 160 entries of starting block, block count (16 bits
    /// each) and bit count (32 bits), little-endian; an entry with no block is unused. Block
    /// 3 starts 1280 bytes into the chunk and each block is 512 bytes long.
    pub fn parse(data: &[u8]) -> (r: Result<TracksChunkV2, Error>)
        ensures
            tracks_v2_parsed(r, data@),
    {
        let len = data.len();
        let mut tracks: Vec<TrackDataV2> = Vec::new();
        let mut i: usize = 0;
        while i < 160
            invariant
                i <= 160,
                len == data@.len(),
                tracks_v2_upto(data@, i as int) matches Ok(es) && tracks_v2_are(tracks@, es, data@),
            decreases 160 - i,
        {
            let ghost es = tracks_v2_upto(data@, i as int)->Ok_0;
            let p = 8 * i;
            if p + 8 > len {
                proof {
                    lemma_tracks_v2_err_stays(data@, i + 1, 160);
                }
                return Err(Error::UnexpectedEof);
            }
            let starting_block = u16_at(data, p);
            let block_count = u16_at(data, p + 2);
            let num_bits = u32_at(data, p + 4);
            if starting_block != 0 && block_count != 0 {
                if starting_block < 3 {
                    proof {
                        lemma_tracks_v2_err_stays(data@, i + 1, 160);
                    }
                    return Err(Error::InvalidTrackBlock);
                }
                let start: usize = 1280 + (starting_block as usize - 3) * 512;
                let end: usize = start + 512 * block_count as usize;
                if end > len {
                    proof {
                        lemma_tracks_v2_err_stays(data@, i + 1, 160);
                    }
                    return Err(Error::InvalidTrackBlock);
                }
                let td = TrackDataV2 {
                    starting_block,
                    block_count,
                    num_bits: num_bits as usize,
                    data: copy_range(data, start, end),
                };
                tracks.push(td);
                proof {
                    let e = (starting_block, block_count, num_bits, start as int, end as int);
                    assert(track_v2_entry(data@, i as int) == Ok::<Option<TrackEntry>, Error>(Some(e)));
                    let es2 = es.push(e);
                    assert(tracks_v2_upto(data@, i + 1) == Ok::<Seq<TrackEntry>, Error>(es2));
                    assert forall|k: int| 0 <= k < tracks@.len() implies track_v2_is(#[trigger] tracks@[k], es2[k], data@) by {
                        if k < i {
                        }
                    }
                }
            }
            i += 1;
        }
        Ok(TracksChunkV2 { tracks })
    }
}

/// The TRKS chunk of a WOZ 1 image.
pub struct TracksChunk {
    pub tracks: Vec<TrackData>,
}

/// Whether `t` is the track record parsed from `record`.
pub open spec fn track_record_parsed(t: TrackData, record: Seq<u8>) -> bool {
    &&& t.bitstream@ == record.subrange(0, 6646)
    &&& t.num_bytes == le16(record, 6646)
    &&& t.num_bits == le16(record, 6648)
    &&& t.splice_point == le16(record, 6650)
    &&& t.splice_nibble == record[6652]
    &&& t.splice_bit_count == record[6653]
}

impl TracksChunk {
    /// Parses a WOZ 1 TRKS chunk: a whole number of 6656-byte track records.
    pub fn parse(data: &[u8]) -> (r: Result<TracksChunk, Error>)
        ensures
            data@.len() % 6656 != 0 ==> r == Err::<TracksChunk, Error>(Error::InvalidSize),
            data@.len() % 6656 == 0 ==> (r matches Ok(tc) && tc.tracks@.len() == data@.len() / 6656
                && forall|i: int| 0 <= i < tc.tracks@.len() ==> track_record_parsed(
                #[trigger] tc.tracks@[i],
                data@.subrange(i * 6656, i * 6656 + 6656),
            )),
    {
        if data.len() % 6656 != 0 {
            return Err(Error::InvalidSize);
        }
        let len = data.len();
        let n = len / 6656;
        let mut tracks: Vec<TrackData> = Vec::new();
        let mut i: usize = 0;
        while i < n
            invariant
                i <= n,
                len == data@.len(),
                n == data@.len() / 6656,
                data@.len() % 6656 == 0,
                tracks@.len() == i,
                forall|k: int| 0 <= k < i ==> track_record_parsed(
                    #[trigger] tracks@[k],
                    data@.subrange(k * 6656, k * 6656 + 6656),
                ),
            decreases n - i,
        {
            proof {
                vstd::arithmetic::div_mod::lemma_fundamental_div_mod(data@.len() as int, 6656);
            }
            assert(i * 6656 + 6656 <= data@.len());
            let start: usize = i * 6656;
            let record = copy_range(data, start, start + 6656);
            let t = match TrackData::parse(record.as_slice()) {
                Ok(t) => t,
                Err(e) => return Err(e),
            };
            tracks.push(t);
            i += 1;
        }
        Ok(TracksChunk { tracks })
    }
}


/// The WOZ format version that the signature names.
#[derive(Debug, Copy, Clone, PartialEq, Eq, Structural)]
pub enum WozVersion {
    V1,
    V2,
}

/// The header of a WOZ image: the checksum of everything after it and the version.
#[derive(Debug, Copy, Clone, PartialEq, Eq, Structural)]
pub struct Header {
    pub crc: u32,
    pub version: WozVersion,
}

/// The signature "WOZ1".
pub const WOZ1_SIGNATURE: u32 = 0x315A4F57;
/// The signature "WOZ2".
pub const WOZ2_SIGNATURE: u32 = 0x325A4F57;
/// The chunk id "INFO".
pub const CHUNK_INFO: u32 = 0x4F464E49;
/// The chunk id "TMAP".
pub const CHUNK_TMAP: u32 = 0x50414D54;
/// The chunk id "META".
pub const CHUNK_META: u32 = 0x4154454D;
/// The chunk id "TRKS".
pub const CHUNK_TRKS: u32 = 0x534B5254;

/// What the 12-byte header of `data` says, or what is wrong with it.
pub open spec fn header_spec(data: Seq<u8>) -> Result<Header, Error> {
    if data.len() < 4 {
        Err(Error::UnexpectedEof)
    } else if le32(data, 0) != WOZ1_SIGNATURE && le32(data, 0) != WOZ2_SIGNATURE {
        Err(Error::InvalidSignature)
    } else if data.len() < 5 {
        Err(Error::UnexpectedEof)
    } else if data[4] != 0xff {
        Err(Error::InvalidHeaderMarker)
    } else if data.len() < 8 {
        Err(Error::UnexpectedEof)
    } else if data[5] != 0x0a || data[6] != 0x0d || data[7] != 0x0a {
        Err(Error::InvalidHeaderLineEnding)
    } else if data.len() < 12 {
        Err(Error::UnexpectedEof)
    } else {
        Ok(Header {
            crc: le32(data, 8),
            version: if le32(data, 0) == WOZ1_SIGNATURE { WozVersion::V1 } else { WozVersion::V2 },
        })
    }
}

/// Parses the header: the signature "WOZ1" or "WOZ2", 0xff, LF CR LF, and the CRC-32 of
/// the rest of the image.
pub fn parse_header(data: &[u8]) -> (r: Result<Header, Error>)
    ensures
        r == header_spec(data@),
{
    if data.len() < 4 {
        return Err(Error::UnexpectedEof);
    }
    let sig = u32_at(data, 0);
    let version = if sig == WOZ1_SIGNATURE {
        WozVersion::V1
    } else if sig == WOZ2_SIGNATURE {
        WozVersion::V2
    } else {
        return Err(Error::InvalidSignature);
    };
    if data.len() < 5 {
        return Err(Error::UnexpectedEof);
    }
    if data[4] != 0xff {
        return Err(Error::InvalidHeaderMarker);
    }
    if data.len() < 8 {
        return Err(Error::UnexpectedEof);
    }
    if data[5] != 0x0a || data[6] != 0x0d || data[7] != 0x0a {
        return Err(Error::InvalidHeaderLineEnding);
    }
    if data.len() < 12 {
        return Err(Error::UnexpectedEof);
    }
    Ok(Header { crc: u32_at(data, 8), version })
}

/// What is wrong with the INFO chunk that follows the header, if anything.
pub open spec fn info_chunk_error(data: Seq<u8>) -> Option<Error> {
    if data.len() < 16 {
        Some(Error::UnexpectedEof)
    } else if le32(data, 12) != CHUNK_INFO {
        Some(Error::InvalidInfoChunkId)
    } else if data.len() < 20 {
        Some(Error::UnexpectedEof)
    } else if le32(data, 16) != 60 {
        Some(Error::InvalidInfoChunkSize)
    } else if data.len() < 80 {
        Some(Error::UnexpectedEof)
    } else {
        match info_parse_spec(data.subrange(20, 80)) {
            Err(e) => Some(e),
            Ok(_) => None,
        }
    }
}

/// Reads the INFO chunk, which must follow the header: its id, its size (60) and its data.
pub fn read_info_chunk(data: &[u8]) -> (r: Result<InfoChunk, Error>)
    ensures
        info_chunk_error(data@) matches Some(e) ==> r == Err::<InfoChunk, Error>(e),
        info_chunk_error(data@) is None ==> r is Ok && info_parsed(r, data@.subrange(20, 80)),
{
    if data.len() < 16 {
        return Err(Error::UnexpectedEof);
    }
    if u32_at(data, 12) != CHUNK_INFO {
        return Err(Error::InvalidInfoChunkId);
    }
    if data.len() < 20 {
        return Err(Error::UnexpectedEof);
    }
    if u32_at(data, 16) != 60 {
        return Err(Error::InvalidInfoChunkSize);
    }
    if data.len() < 80 {
        return Err(Error::UnexpectedEof);
    }
    let bytes = copy_range(data, 20, 80);
    InfoChunk::parse(bytes.as_slice())
}

/// A chunk of a WOZ image.
pub enum Chunk {
    Info(InfoChunk),
    TrackMap525(TrackMap525Chunk),
    TrackMap35(TrackMap35Chunk),
    Tracks(TracksChunk),
    TracksV2(TracksChunkV2),
    Meta(MetaChunk),
    Unknown(u32),
}

/// What is wrong with the data of a chunk with id `id`, if anything.
pub open spec fn chunk_payload_error(id: u32, payload: Seq<u8>, version: WozVersion) -> Option<Error> {
    if id == CHUNK_TMAP {
        if payload.len() != 160 {
            Some(Error::InvalidSize)
        } else {
            None
        }
    } else if id == CHUNK_META {
        if meta_entries_from(payload, 0) is None {
            Some(Error::InvalidMetadata)
        } else {
            None
        }
    } else if id == CHUNK_TRKS {
        match version {
            WozVersion::V1 => if payload.len() % 6656 != 0 {
                Some(Error::InvalidSize)
            } else {
                None
            },
            WozVersion::V2 => match tracks_v2_upto(payload, 160) {
                Err(e) => Some(e),
                Ok(_) => None,
            },
        }
    } else {
        None
    }
}

/// Whether `tm` holds the 160 bytes of a 5.25" track map.
pub open spec fn tmap525_parsed(tm: TrackMap525Chunk, buf: Seq<u8>) -> bool {
    buf.len() == 160 && tm.indexes@ == buf
}

/// Whether `tm` holds the two sides of a 3.5" track map.
pub open spec fn tmap35_parsed(tm: TrackMap35Chunk, buf: Seq<u8>) -> bool {
    &&& buf.len() == 160
    &&& tm.indexes@[0]@ == buf.subrange(0, 80)
    &&& tm.indexes@[1]@ == buf.subrange(80, 160)
    &&& tm.indexes@[2]@ == Seq::new(80, |i: int| 0u8)
}

/// Whether `tc` holds the track records of a WOZ 1 TRKS chunk.
pub open spec fn tracks_parsed(tc: TracksChunk, data: Seq<u8>) -> bool {
    &&& tc.tracks@.len() == data.len() / 6656
    &&& forall|i: int| 0 <= i < tc.tracks@.len() ==> track_record_parsed(
        #[trigger] tc.tracks@[i],
        data.subrange(i * 6656, i * 6656 + 6656),
    )
}

/// Whether `c` is the chunk with id `id` and data `payload`, of an image of version
/// `version` and disk type `disk_type`.
pub open spec fn chunk_parsed(c: Chunk, id: u32, payload: Seq<u8>, version: WozVersion, disk_type: DiskType) -> bool {
    if id == CHUNK_TMAP {
        match disk_type {
            DiskType::Disk525 => c matches Chunk::TrackMap525(tm) && tmap525_parsed(tm, payload),
            DiskType::Disk35 => c matches Chunk::TrackMap35(tm) && tmap35_parsed(tm, payload),
        }
    } else if id == CHUNK_META {
        c matches Chunk::Meta(m) && meta_entries_from(payload, 0) == Some(meta_entries_view(m.metadata@))
    } else if id == CHUNK_TRKS {
        match version {
            WozVersion::V1 => c matches Chunk::Tracks(tc) && tracks_parsed(tc, payload),
            WozVersion::V2 => c matches Chunk::TracksV2(tc) && tracks_v2_parsed(Ok(tc), payload),
        }
    } else {
        c == Chunk::Unknown(id)
    }
}

/// What stands at `pos`: the end of the image, an error, or a chunk with its id and the
/// range of its data.
pub open spec fn chunk_step(data: Seq<u8>, pos: int, version: WozVersion) -> Result<Option<(u32, int, int)>, Error> {
    if pos + 4 > data.len() {
        Ok(None)
    } else if pos + 8 > data.len() {
        Err(Error::UnexpectedEof)
    } else {
        let id = le32(data, pos);
        let size = le32(data, pos + 4);
        if size > MAX_CHUNK_SIZE {
            Err(Error::ChunkTooLarge { size: size as usize })
        } else if pos + 8 + size > data.len() {
            Err(Error::UnexpectedEof)
        } else {
            match chunk_payload_error(id, data.subrange(pos + 8, pos + 8 + size), version) {
                Some(e) => Err(e),
                None => Ok(Some((id, pos + 8, pos + 8 + size))),
            }
        }
    }
}

/// The chunks from `pos` to the end of the image, each with its id and the range of its
/// data, or the error of the first that cannot be read.
pub open spec fn chunk_walk(data: Seq<u8>, pos: int, version: WozVersion) -> Result<Seq<(u32, int, int)>, Error>
    decreases data.len() - pos,
{
    if pos < 0 {
        Ok(Seq::empty())
    } else {
        match chunk_step(data, pos, version) {
            Err(e) => Err(e),
            Ok(None) => Ok(Seq::empty()),
            Ok(Some((id, start, end))) => if end <= pos || end > data.len() {
                Ok(Seq::empty())
            } else {
                match chunk_walk(data, end, version) {
                    Err(e) => Err(e),
                    Ok(rest) => Ok(seq![(id, start, end)] + rest),
                }
            },
        }
    }
}

/// Whether `chunks` are the chunks that `spans` locate in `data`.
pub open spec fn chunks_parsed(chunks: Seq<Chunk>, spans: Seq<(u32, int, int)>, data: Seq<u8>, version: WozVersion, disk_type: DiskType) -> bool {
    &&& chunks.len() == spans.len()
    &&& forall|i: int| 0 <= i < chunks.len() ==> chunk_parsed(
        #[trigger] chunks[i],
        spans[i].0,
        data.subrange(spans[i].1, spans[i].2),
        version,
        disk_type,
    )
}

/// Reads the chunk at `pos`: `None` at the end of the image, else the chunk and where the
/// next one starts.
fn read_chunk(data: &[u8], pos: usize, header: &Header, info: &InfoChunk) -> (r: Result<Option<(Chunk, usize)>, Error>)
    ensures
        match chunk_step(data@, pos as int, header.version) {
            Err(e) => r == Err::<Option<(Chunk, usize)>, Error>(e),
            Ok(None) => r == Ok::<Option<(Chunk, usize)>, Error>(None),
            Ok(Some((id, start, end))) => r matches Ok(Some((c, next))) && next == end && chunk_parsed(
                c,
                id,
                data@.subrange(start, end),
                header.version,
                info.disk_type,
            ),
        },
{
    let len = data.len();
    if pos > len || len - pos < 4 {
        return Ok(None);
    }
    if len - pos < 8 {
        return Err(Error::UnexpectedEof);
    }
    let chunk_id = u32_at(data, pos);
    let chunk_size = u32_at(data, pos + 4) as usize;
    if chunk_size > MAX_CHUNK_SIZE {
        return Err(Error::ChunkTooLarge { size: chunk_size });
    }
    if len - pos - 8 < chunk_size {
        return Err(Error::UnexpectedEof);
    }
    let start = pos + 8;
    let end = start + chunk_size;
    let payload = copy_range(data, start, end);
    let chunk = if chunk_id == CHUNK_TMAP {
        match info.disk_type {
            DiskType::Disk525 => match TrackMap525Chunk::parse(payload.as_slice()) {
                Ok(tm) => Chunk::TrackMap525(tm),
                Err(e) => return Err(e),
            },
            DiskType::Disk35 => match TrackMap35Chunk::parse(payload.as_slice()) {
                Ok(tm) => Chunk::TrackMap35(tm),
                Err(e) => return Err(e),
            },
        }
    } else if chunk_id == CHUNK_META {
        match MetaChunk::parse(payload.as_slice()) {
            Ok(m) => Chunk::Meta(m),
            Err(e) => return Err(e),
        }
    } else if chunk_id == CHUNK_TRKS {
        match header.version {
            WozVersion::V1 => match TracksChunk::parse(payload.as_slice()) {
                Ok(tc) => Chunk::Tracks(tc),
                Err(e) => return Err(e),
            },
            WozVersion::V2 => match TracksChunkV2::parse(payload.as_slice()) {
                Ok(tc) => Chunk::TracksV2(tc),
                Err(e) => return Err(e),
            },
        }
    } else {
        Chunk::Unknown(chunk_id)
    };
    Ok(Some((chunk, end)))
}

/// Reads the chunks from `pos` to the end of the image.
fn read_chunks(data: &[u8], pos: usize, header: &Header, info: &InfoChunk) -> (r: Result<Vec<Chunk>, Error>)
    ensures
        match chunk_walk(data@, pos as int, header.version) {
            Err(e) => r == Err::<Vec<Chunk>, Error>(e),
            Ok(spans) => r matches Ok(cs) && chunks_parsed(cs@, spans, data@, header.version, info.disk_type),
        },
{
    let mut chunks: Vec<Chunk> = Vec::new();
    let mut p = pos;
    let ghost mut done: Seq<(u32, int, int)> = Seq::empty();
    loop
        invariant
            chunk_walk(data@, pos as int, header.version) == match chunk_walk(data@, p as int, header.version) {
                Err(e) => Err(e),
                Ok(rest) => Ok(done + rest),
            },
            chunks_parsed(chunks@, done, data@, header.version, info.disk_type),
        decreases data@.len() - p,
    {
        match read_chunk(data, p, header, info) {
            Err(e) => return Err(e),
            Ok(None) => {
                assert(done + Seq::<(u32, int, int)>::empty() =~= done);
                return Ok(chunks);
            },
            Ok(Some((c, next))) => {
                let ghost step = chunk_step(data@, p as int, header.version)->Ok_0->Some_0;
                assert(next > p);
                chunks.push(c);
                proof {
                    let ghost old_done = done;
                    done = done.push(step);
                    match chunk_walk(data@, next as int, header.version) {
                        Err(e) => {},
                        Ok(rest) => {
                            assert(old_done + (seq![step] + rest) =~= done + rest);
                        },
                    }
                    assert forall|i: int| 0 <= i < chunks@.len() implies chunk_parsed(
                        #[trigger] chunks@[i],
                        done[i].0,
                        data@.subrange(done[i].1, done[i].2),
                        header.version,
                        info.disk_type,
                    ) by {
                        if i < chunks@.len() - 1 {
                        }
                    }
                }
                p = next;
            },
        }
    }
}

} // verus!

verus! {

/// Bit `i` of packed track data, most significant bit of each byte first.
pub open spec fn track_bit(data: Seq<u8>, i: int) -> u8 {
    (data[i / 8] >> ((7 - i % 8) as u8)) & 1u8
}

/// What a track head sees of a track: its bits, where the head is, the shift register and
/// the random bits it reads where the flux is weak.
pub struct TrackView {
    pub total_bits: usize,
    pub bit_index: usize,
    pub sr: u8,
    pub random: Seq<bool>,
    pub random_index: usize,
    pub data: Seq<u8>,
    pub zeros: usize,
}

/// A track can be read: it has bits, they lie within its data, and the head and the random
/// source point inside them.
pub open spec fn track_wf(t: TrackView) -> bool {
    &&& 0 < t.total_bits <= 8 * t.data.len()
    &&& t.bit_index < t.total_bits
    &&& t.random.len() == 32
    &&& t.random_index < 32
}

/// The bit index after `i`, wrapping to the start of the track.
pub open spec fn next_index(t: TrackView, i: usize) -> usize {
    if i + 1 == t.total_bits {
        0
    } else {
        (i + 1) as usize
    }
}

/// Reading the next bit: the bit under the head, except that after more than three zero
/// bits in a row the head reads random bits, as a real drive does.
pub open spec fn next_bit_spec(t: TrackView) -> (TrackView, u8) {
    let bit = track_bit(t.data, t.bit_index as int);
    let zeros = if bit == 1 { 0 } else if t.zeros < usize::MAX { (t.zeros + 1) as usize } else { t.zeros };
    let t1 = TrackView { bit_index: next_index(t, t.bit_index), zeros, ..t };
    if zeros > 3 {
        let r = t.random[t.random_index as int];
        let ri = if t.random_index + 1 == 32 { 0 } else { (t.random_index + 1) as usize };
        (TrackView { random_index: ri, ..t1 }, if r { 1u8 } else { 0u8 })
    } else {
        (t1, bit)
    }
}

/// Reading the next byte: the shift register takes in one bit; once it has a byte (bit 7
/// set) the next bit starts a new one.
pub open spec fn next_byte_spec(t: TrackView) -> (TrackView, u8) {
    let sr0 = if t.sr >= 128 { 0u8 } else { t.sr };
    let (t1, bit) = next_bit_spec(TrackView { sr: sr0, ..t });
    let sr = ((sr0 as int * 2) % 256 + bit) as u8;
    (TrackView { sr, ..t1 }, sr)
}

/// Writing a bit: the bit under the head is replaced and the head moves on.
pub open spec fn write_bit_spec(t: TrackView, bit: u8) -> TrackView {
    let i = t.bit_index as int;
    let byte = t.data[i / 8];
    let mask = (1u8 << ((7 - i % 8) as u8)) as u8;
    let nb = ((byte & !mask) | ((bit & 1u8) << ((7 - i % 8) as u8))) as u8;
    TrackView { data: t.data.update(i / 8, nb), bit_index: next_index(t, t.bit_index), ..t }
}

/// The head moved to `bit_index`, or to the start when that is past the end.
pub open spec fn reset_spec(t: TrackView, bit_index: usize) -> TrackView {
    TrackView { bit_index: if bit_index >= t.total_bits { 0 } else { bit_index }, ..t }
}

/// A track as the drive head reads and writes it.
pub struct WozDiskTrack {
    total_bits: usize,
    bit_index: usize,
    sr: u8,
    random: [bool; 32],
    random_index: usize,
    data: Vec<u8>,
    zeros: usize,
}

impl View for WozDiskTrack {
    type V = TrackView;

    closed spec fn view(&self) -> TrackView {
        TrackView {
            total_bits: self.total_bits,
            bit_index: self.bit_index,
            sr: self.sr,
            random: self.random@,
            random_index: self.random_index,
            data: self.data@,
            zeros: self.zeros,
        }
    }
}

/// 32 bits from `rand::Rng::fill` on `rand::rng()`, the thread-local generator; nothing is
/// claimed of them, as they are random.
#[verifier::external_body]
fn random_bits() -> (r: [bool; 32]) {
    let mut random = [false; 32];
    rand::Rng::fill(&mut rand::rng(), &mut random);
    random
}

impl WozDiskTrack {
    /// A track over the given bits, the head at the start, with the given random bits for
    /// weak flux.
    pub fn with_random(data: Vec<u8>, num_bits: usize, random: [bool; 32]) -> (t: WozDiskTrack)
        ensures
            t@ == (TrackView {
                total_bits: num_bits,
                bit_index: 0,
                sr: 0,
                random: random@,
                random_index: 0,
                data: data@,
                zeros: 0,
            }),
    {
        WozDiskTrack { random_index: 0, random, total_bits: num_bits, bit_index: 0, sr: 0, zeros: 0, data }
    }

    /// A track over a WOZ 2 track's bits, with fresh random bits for weak flux.
    pub fn new_v2(track_data: &TrackDataV2) -> (t: WozDiskTrack)
        ensures
            t@.total_bits == track_data.num_bits,
            t@.bit_index == 0,
            t@.sr == 0,
            t@.random.len() == 32,
            t@.random_index == 0,
            t@.data == track_data.data@,
            t@.zeros == 0,
    {
        let random = random_bits();
        Self::with_random(vstd::slice::slice_to_vec(track_data.data.as_slice()), track_data.num_bits, random)
    }

    /// A track over a WOZ 1 track's bits, with fresh random bits for weak flux.
    pub fn new(track_data: &TrackData) -> (t: WozDiskTrack)
        ensures
            t@.total_bits == track_data.num_bits,
            t@.bit_index == 0,
            t@.sr == 0,
            t@.random.len() == 32,
            t@.random_index == 0,
            t@.data == track_data.bitstream@,
            t@.zeros == 0,
    {
        let random = random_bits();
        Self::with_random(vstd::slice::slice_to_vec(track_data.bitstream.as_slice()), track_data.num_bits, random)
    }

    /// Whether the track can be read and written.
    pub fn is_valid(&self) -> (r: bool)
        ensures
            r == track_wf(self@),
    {
        0 < self.total_bits && self.total_bits / 8 <= self.data.len() && (self.total_bits <= 8 * (self.total_bits / 8) || self.total_bits / 8 < self.data.len()) && self.bit_index < self.total_bits && self.random_index < 32
    }

    fn next_bit(&mut self) -> (r: u8)
        requires
            track_wf(old(self)@),
        ensures
            (final(self)@, r) == next_bit_spec(old(self)@),
            track_wf(final(self)@),
            r < 2,
    {
        let byte = self.data[self.bit_index / 8];
        let shift = (7 - (self.bit_index % 8)) as u8;
        let bit = (byte >> shift) & 1;
        proof {
            lemma_and_one(byte >> shift);
        }
        self.bit_index += 1;
        if self.bit_index == self.total_bits {
            self.bit_index = 0;
        }
        if bit == 1 {
            self.zeros = 0;
        } else if self.zeros < usize::MAX {
            self.zeros += 1;
        }
        if self.zeros > 3 {
            let bit = self.random[self.random_index];
            self.random_index += 1;
            if self.random_index == 32 {
                self.random_index = 0;
            }
            if bit {
                1
            } else {
                0
            }
        } else {
            bit
        }
    }

    /// Moves the head to `bit_index`, or to the start when that is past the end.
    pub fn reset(&mut self, bit_index: usize)
        ensures
            final(self)@ == reset_spec(old(self)@, bit_index),
    {
        if bit_index >= self.total_bits {
            self.bit_index = 0;
        } else {
            self.bit_index = bit_index;
        }
    }

    /// Writes a bit under the head and moves on; returns the new head position.
    pub fn write_bit(&mut self, data: u8) -> (r: usize)
        requires
            track_wf(old(self)@),
        ensures
            final(self)@ == write_bit_spec(old(self)@, data),
            r == final(self)@.bit_index,
            track_wf(final(self)@),
    {
        let byte_index = self.bit_index / 8;
        let shift = (7 - (self.bit_index % 8)) as u8;
        let byte = self.data[byte_index];
        let cleared = byte & !(1u8 << shift);
        self.data.set(byte_index, cleared | ((data & 1) << shift));
        self.bit_index += 1;
        if self.bit_index == self.total_bits {
            self.bit_index = 0;
        }
        self.bit_index
    }

    /// Shifts the next bit into the shift register; returns the register and the new head
    /// position.
    pub fn next_byte(&mut self) -> (r: (u8, usize))
        requires
            track_wf(old(self)@),
        ensures
            (final(self)@, r.0) == next_byte_spec(old(self)@),
            r.1 == final(self)@.bit_index,
            track_wf(final(self)@),
    {
        let sr_in = self.sr;
        assert((sr_in >> 7u8 == 1u8) == (sr_in >= 128)) by (bit_vector);
        if (self.sr >> 7) == 1 {
            self.sr = 0;
        }
        let sr0 = self.sr;
        let bit = self.next_bit();
        assert(bit < 2);
        let sr = (sr0 << 1) | bit;
        assert(sr == ((sr0 as int * 2) % 256 + bit) as u8) by (bit_vector)
            requires
                bit < 2,
                sr == (sr0 << 1u8) | bit,
        ;
        self.sr = sr;
        (self.sr, self.bit_index)
    }
}

/// The bit count and the bits of each track that a list of chunks holds, in order.
pub open spec fn chunk_track_sources(chunks: Seq<Chunk>) -> Seq<(usize, Seq<u8>)>
    decreases chunks.len(),
{
    if chunks.len() == 0 {
        Seq::empty()
    } else {
        chunk_track_sources(chunks.drop_last()) + track_sources_of(chunks.last())
    }
}

/// The bit count and the bits of each track of one chunk.
pub open spec fn track_sources_of(c: Chunk) -> Seq<(usize, Seq<u8>)> {
    match c {
        Chunk::Tracks(tc) => tc.tracks@.map_values(|t: TrackData| (t.num_bits, t.bitstream@)),
        Chunk::TracksV2(tc) => tc.tracks@.map_values(|t: TrackDataV2| (t.num_bits, t.data@)),
        _ => Seq::empty(),
    }
}

/// Whether `v` is a track freshly made over `src`: the head at the start, nothing shifted
/// in, 32 random bits.
pub open spec fn fresh_track(v: TrackView, src: (usize, Seq<u8>)) -> bool {
    &&& v.total_bits == src.0
    &&& v.data == src.1
    &&& v.bit_index == 0
    &&& v.sr == 0
    &&& v.random.len() == 32
    &&& v.random_index == 0
    &&& v.zeros == 0
}

/// Whether `views` are tracks freshly made over `srcs`, one for one.
pub open spec fn fresh_tracks(views: Seq<TrackView>, srcs: Seq<(usize, Seq<u8>)>) -> bool {
    &&& views.len() == srcs.len()
    &&& forall|i: int| 0 <= i < views.len() ==> fresh_track(#[trigger] views[i], srcs[i])
}

/// How many tracks the chunk that `span` locates holds.
pub open spec fn span_track_count(span: (u32, int, int), data: Seq<u8>, version: WozVersion) -> int {
    if span.0 == CHUNK_TRKS {
        let payload = data.subrange(span.1, span.2);
        match version {
            WozVersion::V1 => payload.len() as int / 6656,
            WozVersion::V2 => match tracks_v2_upto(payload, 160) {
                Ok(es) => es.len() as int,
                Err(_) => 0,
            },
        }
    } else {
        0
    }
}

/// How many tracks the chunks that `spans` locate hold.
pub open spec fn spans_track_count(spans: Seq<(u32, int, int)>, data: Seq<u8>, version: WozVersion) -> int
    decreases spans.len(),
{
    if spans.len() == 0 {
        0
    } else {
        spans_track_count(spans.drop_last(), data, version) + span_track_count(spans.last(), data, version)
    }
}

proof fn lemma_track_count(chunks: Seq<Chunk>, spans: Seq<(u32, int, int)>, data: Seq<u8>, version: WozVersion, disk_type: DiskType)
    requires
        chunks_parsed(chunks, spans, data, version, disk_type),
    ensures
        chunk_track_sources(chunks).len() == spans_track_count(spans, data, version),
    decreases chunks.len(),
{
    if chunks.len() > 0 {
        let n = chunks.len() - 1;
        assert(chunk_parsed(chunks[n], spans[n].0, data.subrange(spans[n].1, spans[n].2), version, disk_type));
        assert(chunks_parsed(chunks.drop_last(), spans.drop_last(), data, version, disk_type)) by {
            assert forall|i: int| 0 <= i < chunks.drop_last().len() implies chunk_parsed(
                #[trigger] chunks.drop_last()[i],
                spans.drop_last()[i].0,
                data.subrange(spans.drop_last()[i].1, spans.drop_last()[i].2),
                version,
                disk_type,
            ) by {
                assert(chunk_parsed(chunks[i], spans[i].0, data.subrange(spans[i].1, spans[i].2), version, disk_type));
            }
        }
        lemma_track_count(chunks.drop_last(), spans.drop_last(), data, version, disk_type);
    }
}

/// Where the head of a disk is and what its tracks hold.
pub struct WozDiskState {
    current_track_index: usize,
    tracks: Vec<WozDiskTrack>,
}

/// A WOZ disk: its INFO chunk, the other chunks, and the tracks as the head sees them.
pub struct WozDisk {
    pub info_chunk: InfoChunk,
    pub chunks: Vec<Chunk>,
    pub state: WozDiskState,
}

/// Whether `r` is what parsing the WOZ image `data` gives.
pub open spec fn woz_parsed(r: Result<WozDisk, Error>, data: Seq<u8>) -> bool {
    match header_spec(data) {
        Err(e) => r == Err::<WozDisk, Error>(e),
        Ok(header) => match info_chunk_error(data) {
            Some(e) => r == Err::<WozDisk, Error>(e),
            None => match chunk_walk(data, 80, header.version) {
                Err(e) => r == Err::<WozDisk, Error>(e),
                Ok(spans) => if header.crc != 0 && crc32_spec(0, data.subrange(12, data.len() as int)) != header.crc {
                    r == Err::<WozDisk, Error>(Error::InvalidCrc)
                } else if spans_track_count(spans, data, header.version) == 0 {
                    r == Err::<WozDisk, Error>(Error::MissingTracks)
                } else {
                    r matches Ok(disk) && info_parsed(Ok(disk.info_chunk), data.subrange(20, 80))
                        && chunks_parsed(disk.chunks@, spans, data, header.version, disk.info_chunk.disk_type)
                        && fresh_tracks(disk.tracks_view(), chunk_track_sources(disk.chunks@))
                        && disk.current_track() == 0
                },
            },
        },
    }
}

/// Two chunks parsed from the same data under the same id and version hold the same tracks.
proof fn lemma_chunk_sources_unique(c1: Chunk, c2: Chunk, id: u32, payload: Seq<u8>, version: WozVersion, t1: DiskType, t2: DiskType)
    requires
        chunk_parsed(c1, id, payload, version, t1),
        chunk_parsed(c2, id, payload, version, t2),
    ensures
        track_sources_of(c1) == track_sources_of(c2),
{
    if id == CHUNK_TRKS {
        match (c1, c2) {
            (Chunk::Tracks(a), Chunk::Tracks(b)) => {
                assert forall|i: int| 0 <= i < a.tracks@.len() implies #[trigger] a.tracks@[i].num_bits == b.tracks@[i].num_bits
                    && a.tracks@[i].bitstream@ == b.tracks@[i].bitstream@ by {
                    assert(track_record_parsed(a.tracks@[i], payload.subrange(i * 6656, i * 6656 + 6656)));
                    assert(track_record_parsed(b.tracks@[i], payload.subrange(i * 6656, i * 6656 + 6656)));
                }
                assert(track_sources_of(c1) =~= track_sources_of(c2));
            },
            (Chunk::TracksV2(a), Chunk::TracksV2(b)) => {
                let es = tracks_v2_upto(payload, 160)->Ok_0;
                assert forall|i: int| 0 <= i < a.tracks@.len() implies #[trigger] a.tracks@[i].num_bits == b.tracks@[i].num_bits
                    && a.tracks@[i].data@ == b.tracks@[i].data@ by {
                    assert(track_v2_is(a.tracks@[i], es[i], payload));
                    assert(track_v2_is(b.tracks@[i], es[i], payload));
                }
                assert(track_sources_of(c1) =~= track_sources_of(c2));
            },
            _ => {},
        }
    }
}

/// Chunks parsed from the same spans of the same data hold the same tracks.
proof fn lemma_chunks_sources_unique(cs1: Seq<Chunk>, cs2: Seq<Chunk>, spans: Seq<(u32, int, int)>, data: Seq<u8>, version: WozVersion, t1: DiskType, t2: DiskType)
    requires
        chunks_parsed(cs1, spans, data, version, t1),
        chunks_parsed(cs2, spans, data, version, t2),
    ensures
        chunk_track_sources(cs1) == chunk_track_sources(cs2),
    decreases cs1.len(),
{
    if cs1.len() > 0 {
        let n = cs1.len() - 1;
        assert(chunks_parsed(cs1.drop_last(), spans.drop_last(), data, version, t1)) by {
            assert forall|i: int| 0 <= i < cs1.drop_last().len() implies chunk_parsed(
                #[trigger] cs1.drop_last()[i], spans.drop_last()[i].0,
                data.subrange(spans.drop_last()[i].1, spans.drop_last()[i].2), version, t1) by {
                assert(chunk_parsed(cs1[i], spans[i].0, data.subrange(spans[i].1, spans[i].2), version, t1));
            }
        }
        assert(chunks_parsed(cs2.drop_last(), spans.drop_last(), data, version, t2)) by {
            assert forall|i: int| 0 <= i < cs2.drop_last().len() implies chunk_parsed(
                #[trigger] cs2.drop_last()[i], spans.drop_last()[i].0,
                data.subrange(spans.drop_last()[i].1, spans.drop_last()[i].2), version, t2) by {
                assert(chunk_parsed(cs2[i], spans[i].0, data.subrange(spans[i].1, spans[i].2), version, t2));
            }
        }
        lemma_chunks_sources_unique(cs1.drop_last(), cs2.drop_last(), spans.drop_last(), data, version, t1, t2);
        assert(chunk_parsed(cs1[n], spans[n].0, data.subrange(spans[n].1, spans[n].2), version, t1));
        assert(chunk_parsed(cs2[n], spans[n].0, data.subrange(spans[n].1, spans[n].2), version, t2));
        lemma_chunk_sources_unique(cs1[n], cs2[n], spans[n].0, data.subrange(spans[n].1, spans[n].2), version, t1, t2);
    }
}

/// Whether the tracks of a disk can all be read and written is a property of the WOZ image
/// it was parsed from: every disk parsed from one image agrees.
pub proof fn lemma_woz_tracks_wf_unique(d1: WozDisk, d2: WozDisk, data: Seq<u8>)
    requires
        woz_parsed(Ok(d1), data),
        woz_parsed(Ok(d2), data),
    ensures
        d1.tracks_wf() == d2.tracks_wf(),
{
    let header = header_spec(data)->Ok_0;
    let spans = chunk_walk(data, 80, header.version)->Ok_0;
    lemma_chunks_sources_unique(d1.chunks@, d2.chunks@, spans, data, header.version, d1.info_chunk.disk_type, d2.info_chunk.disk_type);
    let srcs = chunk_track_sources(d1.chunks@);
    let v1 = d1.tracks_view();
    let v2 = d2.tracks_view();
    assert forall|i: int| 0 <= i < v1.len() implies track_wf(#[trigger] v1[i]) == track_wf(v2[i]) by {
        assert(fresh_track(v1[i], srcs[i]));
        assert(fresh_track(v2[i], srcs[i]));
    }
    if d1.tracks_wf() {
        assert forall|i: int| 0 <= i < v2.len() implies track_wf(#[trigger] v2[i]) by {
            assert(track_wf(v1[i]));
        }
    }
    if d2.tracks_wf() {
        assert forall|i: int| 0 <= i < v1.len() implies track_wf(#[trigger] v1[i]) by {
            assert(track_wf(v2[i]));
        }
    }
}

/// Makes a fresh track over each track of the chunks.
fn tracks_of_chunks(chunks: &Vec<Chunk>) -> (r: Vec<WozDiskTrack>)
    ensures
        fresh_tracks(r@.map_values(|t: WozDiskTrack| t@), chunk_track_sources(chunks@)),
{
    let mut tracks: Vec<WozDiskTrack> = Vec::new();
    let mut i: usize = 0;
    while i < chunks.len()
        invariant
            i <= chunks@.len(),
            fresh_tracks(tracks@.map_values(|t: WozDiskTrack| t@), chunk_track_sources(chunks@.take(i as int))),
        decreases chunks@.len() - i,
    {
        let ghost before = chunk_track_sources(chunks@.take(i as int));
        assert(chunks@.take(i + 1).drop_last() =~= chunks@.take(i as int));
        let ghost base = tracks@.len();
        match &chunks[i] {
            Chunk::Tracks(tc) => {
                let mut j: usize = 0;
                while j < tc.tracks.len()
                    invariant
                        j <= tc.tracks@.len(),
                        tracks@.len() == base + j,
                        fresh_tracks(tracks@.map_values(|t: WozDiskTrack| t@), before + tc.tracks@.take(j as int).map_values(|t: TrackData| (t.num_bits, t.bitstream@))),
                    decreases tc.tracks@.len() - j,
                {
                    let t = WozDiskTrack::new(&tc.tracks[j]);
                    let ghost prev = tracks@;
                    let ghost tv = t@;
                    tracks.push(t);
                    assert(tc.tracks@.take(j + 1).map_values(|t: TrackData| (t.num_bits, t.bitstream@)) =~= tc.tracks@.take(j as int).map_values(|t: TrackData| (t.num_bits, t.bitstream@)).push((tc.tracks@[j as int].num_bits, tc.tracks@[j as int].bitstream@)));
                    assert(tracks@.map_values(|t: WozDiskTrack| t@) =~= prev.map_values(|t: WozDiskTrack| t@).push(tv));
                    j += 1;
                }
                assert(tc.tracks@.take(j as int) =~= tc.tracks@);
            },
            Chunk::TracksV2(tc) => {
                let mut j: usize = 0;
                while j < tc.tracks.len()
                    invariant
                        j <= tc.tracks@.len(),
                        tracks@.len() == base + j,
                        fresh_tracks(tracks@.map_values(|t: WozDiskTrack| t@), before + tc.tracks@.take(j as int).map_values(|t: TrackDataV2| (t.num_bits, t.data@))),
                    decreases tc.tracks@.len() - j,
                {
                    let t = WozDiskTrack::new_v2(&tc.tracks[j]);
                    let ghost prev = tracks@;
                    let ghost tv = t@;
                    tracks.push(t);
                    assert(tc.tracks@.take(j + 1).map_values(|t: TrackDataV2| (t.num_bits, t.data@)) =~= tc.tracks@.take(j as int).map_values(|t: TrackDataV2| (t.num_bits, t.data@)).push((tc.tracks@[j as int].num_bits, tc.tracks@[j as int].data@)));
                    assert(tracks@.map_values(|t: WozDiskTrack| t@) =~= prev.map_values(|t: WozDiskTrack| t@).push(tv));
                    j += 1;
                }
                assert(tc.tracks@.take(j as int) =~= tc.tracks@);
            },
            _ => {
                assert(before + Seq::<(usize, Seq<u8>)>::empty() =~= before);
            },
        }
        i += 1;
    }
    assert(chunks@.take(i as int) =~= chunks@);
    tracks
}

impl WozDisk {
    /// The tracks as the head sees them.
    pub closed spec fn tracks_view(&self) -> Seq<TrackView> {
        self.state.tracks@.map_values(|t: WozDiskTrack| t@)
    }

    /// The index of the track under the head.
    pub closed spec fn current_track(&self) -> usize {
        self.state.current_track_index
    }

    /// Whether every track can be read and written.
    pub open spec fn tracks_wf(&self) -> bool {
        forall|i: int| 0 <= i < self.tracks_view().len() ==> track_wf(#[trigger] self.tracks_view()[i])
    }

    /// Whether every track can be read and written; the head reads past the end of a
    /// track that cannot.
    pub fn tracks_valid(&self) -> (r: bool)
        ensures
            r == self.tracks_wf(),
    {
        let mut i: usize = 0;
        while i < self.state.tracks.len()
            invariant
                i <= self.state.tracks@.len(),
                forall|k: int| 0 <= k < i ==> track_wf(#[trigger] self.tracks_view()[k]),
            decreases self.state.tracks@.len() - i,
        {
            if !self.state.tracks[i].is_valid() {
                assert(self.tracks_view()[i as int] == self.state.tracks@[i as int]@);
                assert(!track_wf(self.tracks_view()[i as int]));
                return false;
            }
            assert(self.tracks_view()[i as int] == self.state.tracks@[i as int]@);
            i += 1;
        }
        true
    }

    /// Parses a WOZ 1 or WOZ 2 image: the header, the INFO chunk, then the other chunks to
    /// the end. The checksum in the header, where it is not zero, must match the rest of the
    /// image, and the image must hold tracks.
    pub fn parse(data: &[u8]) -> (r: Result<WozDisk, Error>)
        requires
            data@.len() >= 12,
        ensures
            woz_parsed(r, data@),
    {
        let rest = copy_range(data, 12, data.len());
        let crcval = crc32(0, rest.as_slice());
        let header = match parse_header(data) {
            Ok(h) => h,
            Err(e) => return Err(e),
        };
        let info_chunk = match read_info_chunk(data) {
            Ok(i) => i,
            Err(e) => return Err(e),
        };
        let chunks = match read_chunks(data, 80, &header, &info_chunk) {
            Ok(c) => c,
            Err(e) => return Err(e),
        };
        if header.crc != 0 && crcval != header.crc {
            return Err(Error::InvalidCrc);
        }
        let tracks = tracks_of_chunks(&chunks);
        proof {
            lemma_track_count(chunks@, chunk_walk(data@, 80, header.version)->Ok_0, data@, header.version, info_chunk.disk_type);
        }
        if tracks.len() == 0 {
            return Err(Error::MissingTracks);
        }
        let disk = WozDisk { info_chunk, chunks, state: WozDiskState { current_track_index: 0, tracks } };
        assert(disk.tracks_view() == tracks@.map_values(|t: WozDiskTrack| t@));
        Ok(disk)
    }
}

/// Whether `tc` holds the 35 tracks encoded from a 16-sector image, the sectors read in turn
/// from physical sector `first`.
pub open spec fn dsk_tracks_encoded(tc: TracksChunk, image: Seq<u8>, order: SystemType, first: int) -> bool {
    &&& tc.tracks@.len() == 35
    &&& forall|t: int| 0 <= t < 35 ==> {
        let bits = dsk_track_bits_upto(image, order, first, t, 16);
        let td = #[trigger] tc.tracks@[t];
        &&& is_packing_of(td.bitstream@, bits)
        &&& td.num_bits == bits.len()
        &&& td.num_bytes == td.bitstream@.len()
        &&& td.splice_point == 0
        &&& td.splice_nibble == 0
        &&& td.splice_bit_count == 0
    }
}

/// Whether `disk` is the WOZ disk made from the 16-sector image `image` in sector order
/// `order`, its tracks read from sector `first` on: no creator flags, the name "emu", the
/// identity track map, each track the encoded sectors, every track fresh and the head on
/// track 0.
pub open spec fn dsk_disk(disk: WozDisk, image: Seq<u8>, order: SystemType, first: int) -> bool {
    &&& disk.info_chunk.version == 0
    &&& disk.info_chunk.disk_type == DiskType::Disk525
    &&& !disk.info_chunk.write_protected
    &&& !disk.info_chunk.synchronized
    &&& !disk.info_chunk.cleaned
    &&& disk.info_chunk.creator@ == seq!['e', 'm', 'u']
    &&& disk.chunks@.len() == 2
    &&& disk.chunks@[0] matches Chunk::TrackMap525(tm) && tm.indexes@ == dsk_track_map()
    &&& disk.chunks@[1] matches Chunk::Tracks(tc) && dsk_tracks_encoded(
        tc,
        image,
        order,
        first,
    )
    &&& fresh_tracks(disk.tracks_view(), chunk_track_sources(disk.chunks@))
    &&& disk.current_track() == 0
}

impl WozDisk {
    /// Makes a WOZ disk from a 16-sector image: each of the 35 tracks becomes the bit stream
    /// of its 16 sectors, read in turn, and whole track `t` lies at quarter track `4 t`.
    /// Fails where the image is shorter than 35 tracks.
    pub fn try_from(value: DskFile) -> (r: Result<WozDisk, Error>)
        requires
            value.wf(),
        ensures
            value.image().len() < DSK_IMAGE_SIZE ==> r == Err::<WozDisk, Error>(Error::UnexpectedEof),
            value.image().len() >= DSK_IMAGE_SIZE ==> (r matches Ok(disk) && dsk_disk(disk, value.image(), value.order(), value.next_sector())),
    {
        let mut value = value;
        if value.image_len() < DSK_IMAGE_SIZE {
            return Err(Error::UnexpectedEof);
        }
        let ghost image = value.image();
        let ghost order = value.order();
        let ghost first = value.next_sector();
        let mut tracks: Vec<TrackData> = Vec::new();
        let mut track: usize = 0;
        while track < 35
            invariant
                track <= 35,
                value.wf(),
                value.image() == image,
                value.order() == order,
                value.next_sector() == first,
                image.len() >= DSK_IMAGE_SIZE,
                tracks@.len() == track,
                forall|t: int| 0 <= t < track ==> {
                    let bits = dsk_track_bits_upto(image, order, first, t, 16);
                    let td = #[trigger] tracks@[t];
                    &&& is_packing_of(td.bitstream@, bits)
                    &&& td.num_bits == bits.len()
                    &&& td.num_bytes == td.bitstream@.len()
                    &&& td.splice_point == 0
                    &&& td.splice_nibble == 0
                    &&& td.splice_bit_count == 0
                },
            decreases 35 - track,
        {
            let bitstream = encode_dsk_track(&mut value, track);
            let packed = bitstream.packed();
            tracks.push(TrackData {
                bitstream: vstd::slice::slice_to_vec(packed),
                num_bytes: packed.len(),
                num_bits: bitstream.num_bits(),
                splice_point: 0,
                splice_nibble: 0,
                splice_bit_count: 0,
            });
            track += 1;
        }
        let mut chunks: Vec<Chunk> = Vec::new();
        chunks.push(Chunk::TrackMap525(TrackMap525Chunk { indexes: dsk_indexes() }));
        let tc = TracksChunk { tracks };
        assert(dsk_tracks_encoded(tc, image, order, first));
        chunks.push(Chunk::Tracks(tc));
        let tracks = tracks_of_chunks(&chunks);
        let creator = "emu".to_owned();
        proof {
            reveal_strlit("emu");
        }
        let disk = WozDisk {
            info_chunk: InfoChunk {
                version: 0,
                disk_type: DiskType::Disk525,
                write_protected: false,
                synchronized: false,
                cleaned: false,
                creator,
            },
            chunks,
            state: WozDiskState { current_track_index: 0, tracks },
        };
        assert(disk.tracks_view() == tracks@.map_values(|t: WozDiskTrack| t@));
        assert(disk.info_chunk.creator@ =~= seq!['e', 'm', 'u']);
        assert(dsk_disk(disk, image, order, first));
        assert(disk.info_chunk.creator@ =~= seq!['e', 'm', 'u']);
        assert(dsk_disk(disk, image, order, first));
        Ok(disk)
    }
}

/// A disk made from a 16-sector image can read and write every track: each holds the 16
/// encoded sectors, 50144 bits packed into 6268 bytes.
pub proof fn lemma_dsk_disk_tracks_wf(disk: WozDisk, tc: TracksChunk, image: Seq<u8>, order: SystemType, first: int)
    requires
        disk.chunks@.len() == 2,
        disk.chunks@[0] is TrackMap525,
        disk.chunks@[1] == Chunk::Tracks(tc),
        dsk_tracks_encoded(tc, image, order, first),
        fresh_tracks(disk.tracks_view(), chunk_track_sources(disk.chunks@)),
    ensures
        disk.tracks_wf(),
{
    let cs = disk.chunks@;
    let c1 = cs.drop_last();
    assert(c1.drop_last() =~= Seq::<Chunk>::empty());
    assert(c1.last() == cs[0]);
    assert(chunk_track_sources(c1.drop_last()) == Seq::<(usize, Seq<u8>)>::empty());
    assert(track_sources_of(cs[0]) == Seq::<(usize, Seq<u8>)>::empty());
    assert(chunk_track_sources(c1) =~= Seq::<(usize, Seq<u8>)>::empty());
    assert(chunk_track_sources(cs) =~= track_sources_of(cs[1]));
    assert forall|i: int| 0 <= i < disk.tracks_view().len() implies track_wf(#[trigger] disk.tracks_view()[i]) by {
        lemma_dsk_track_bits_len(image, order, first, i, 16);
        let td = tc.tracks@[i];
        assert(disk.tracks_view()[i].total_bits == td.num_bits);
        assert(disk.tracks_view()[i].data == td.bitstream@);
    }
}

/// The track index that the track map of a 5.25" disk gives for quarter track `quarter`
/// (the map repeats every 40 tracks).
pub open spec fn quarter_track_index(indexes: Seq<u8>, quarter: usize) -> usize {
    indexes[((quarter / 4) % 40) * 4 + quarter % 4] as usize
}

/// The first 5.25" track map among the chunks, from index `i` on.
pub open spec fn first_tmap525_from(chunks: Seq<Chunk>, i: int) -> Option<Seq<u8>>
    decreases chunks.len() - i,
{
    if i < 0 || i >= chunks.len() {
        None
    } else {
        match chunks[i] {
            Chunk::TrackMap525(tm) => Some(tm.indexes@),
            _ => first_tmap525_from(chunks, i + 1),
        }
    }
}

/// The first WOZ 1 track list among the chunks, from index `i` on.
pub open spec fn first_tracks_from(chunks: Seq<Chunk>, i: int) -> Option<Seq<TrackData>>
    decreases chunks.len() - i,
{
    if i < 0 || i >= chunks.len() {
        None
    } else {
        match chunks[i] {
            Chunk::Tracks(tc) => Some(tc.tracks@),
            _ => first_tracks_from(chunks, i + 1),
        }
    }
}

impl WozDisk {
    /// The first 5.25" track map among the chunks.
    fn find_tmap525(&self) -> (r: Option<&TrackMap525Chunk>)
        ensures
            first_tmap525_from(self.chunks@, 0) matches Some(ix) ==> (r matches Some(tm) && tm.indexes@ == ix),
            first_tmap525_from(self.chunks@, 0) is None ==> r is None,
    {
        let mut i: usize = 0;
        while i < self.chunks.len()
            invariant
                i <= self.chunks@.len(),
                first_tmap525_from(self.chunks@, 0) == first_tmap525_from(self.chunks@, i as int),
            decreases self.chunks@.len() - i,
        {
            match &self.chunks[i] {
                Chunk::TrackMap525(tm) => return Some(tm),
                _ => {},
            }
            i += 1;
        }
        None
    }

    /// The first WOZ 1 track list among the chunks.
    fn find_tracks(&self) -> (r: Option<&TracksChunk>)
        ensures
            first_tracks_from(self.chunks@, 0) matches Some(ts) ==> (r matches Some(tc) && tc.tracks@ == ts),
            first_tracks_from(self.chunks@, 0) is None ==> r is None,
    {
        let mut i: usize = 0;
        while i < self.chunks.len()
            invariant
                i <= self.chunks@.len(),
                first_tracks_from(self.chunks@, 0) == first_tracks_from(self.chunks@, i as int),
            decreases self.chunks@.len() - i,
        {
            match &self.chunks[i] {
                Chunk::Tracks(tc) => return Some(tc),
                _ => {},
            }
            i += 1;
        }
        None
    }

    /// Moves the head to quarter track `quarter`: the track map of a 5.25" disk says which
    /// track lies there. A 3.5" disk is not supported.
    pub fn seek_track(&mut self, quarter: usize) -> (r: Result<(), Error>)
        ensures
            final(self).info_chunk == old(self).info_chunk,
            final(self).chunks == old(self).chunks,
            final(self).tracks_view() == old(self).tracks_view(),
            old(self).info_chunk.disk_type == DiskType::Disk35 ==> r == Err::<(), Error>(Error::UnsupportedDiskType)
                && final(self).current_track() == old(self).current_track(),
            old(self).info_chunk.disk_type == DiskType::Disk525 ==> match first_tmap525_from(old(self).chunks@, 0) {
                None => r == Err::<(), Error>(Error::TrackNotFound) && final(self).current_track() == old(self).current_track(),
                Some(ix) => r is Ok && final(self).current_track() == quarter_track_index(ix, quarter),
            },
    {
        match self.info_chunk.disk_type {
            DiskType::Disk525 => match self.find_tmap525() {
                Some(tm) => {
                    let index = (quarter / 4) % 40;
                    let subindex = quarter % 4;
                    let track_index = tm.indexes[index * 4 + subindex] as usize;
                    self.state.current_track_index = track_index;
                    Ok(())
                },
                None => Err(Error::TrackNotFound),
            },
            DiskType::Disk35 => Err(Error::UnsupportedDiskType),
        }
    }

    /// Writes a bit at bit `index` of the track under the head (or at its start, where the
    /// index is past its end); returns where the next bit goes. Under no track, it does
    /// nothing and returns 0.
    pub fn write_bit(&mut self, index: usize, data: u8) -> (r: Result<usize, Error>)
        requires
            old(self).tracks_wf(),
        ensures
            final(self).info_chunk == old(self).info_chunk,
            final(self).chunks == old(self).chunks,
            final(self).current_track() == old(self).current_track(),
            final(self).tracks_wf(),
            ({
                let ct = old(self).current_track() as int;
                let ts = old(self).tracks_view();
                if ct >= ts.len() {
                    r == Ok::<usize, Error>(0) && final(self).tracks_view() == ts
                } else {
                    let t = write_bit_spec(reset_spec(ts[ct], index), data);
                    r == Ok::<usize, Error>(t.bit_index) && final(self).tracks_view() == ts.update(ct, t)
                }
            }),
    {
        let track_index = self.state.current_track_index;
        if track_index >= self.state.tracks.len() {
            return Ok(0);
        }
        let ghost ts = self.tracks_view();
        assert(ts[track_index as int] == self.state.tracks@[track_index as int]@);
        let mut track = self.state.tracks.remove(track_index);
        track.reset(index);
        let next = track.write_bit(data);
        let ghost tv = track@;
        self.state.tracks.insert(track_index, track);
        assert(self.tracks_view() =~= ts.update(track_index as int, tv));
        Ok(next)
    }

    /// Reads the byte that the shift register holds after taking in the bit at bit `index`
    /// of the track under the head (or at its start, where the index is past its end), and
    /// where the next bit is. Under no track: nothing, and 0.
    pub fn get_byte(&mut self, index: usize) -> (r: (Option<u8>, usize))
        requires
            old(self).tracks_wf(),
        ensures
            final(self).info_chunk == old(self).info_chunk,
            final(self).chunks == old(self).chunks,
            final(self).current_track() == old(self).current_track(),
            final(self).tracks_wf(),
            ({
                let ct = old(self).current_track() as int;
                let ts = old(self).tracks_view();
                if ct >= ts.len() {
                    r == (None::<u8>, 0usize) && final(self).tracks_view() == ts
                } else {
                    let (t, b) = next_byte_spec(reset_spec(ts[ct], index));
                    r == (Some(b), t.bit_index) && final(self).tracks_view() == ts.update(ct, t)
                }
            }),
    {
        let track_index = self.state.current_track_index;
        if track_index >= self.state.tracks.len() {
            return (None, 0);
        }
        let ghost ts = self.tracks_view();
        assert(ts[track_index as int] == self.state.tracks@[track_index as int]@);
        let mut track = self.state.tracks.remove(track_index);
        track.reset(index);
        let (byte, next) = track.next_byte();
        let ghost tv = track@;
        self.state.tracks.insert(track_index, track);
        assert(self.tracks_view() =~= ts.update(track_index as int, tv));
        (Some(byte), next)
    }

    /// The WOZ 1 track at quarter track `quarter` of a 5.25" disk. This reads the map at
    /// the whole track's entry plus 25 for each quarter past it.
    pub fn get_track_data(&self, quarter: usize) -> (r: Option<&TrackData>)
        requires
            self.info_chunk.disk_type == DiskType::Disk525,
            first_tmap525_from(self.chunks@, 0) matches Some(ix) ==> ({
                let i = ((quarter / 4) % 40) * 4 + 25 * (quarter % 4);
                &&& i < 160
                &&& first_tracks_from(self.chunks@, 0) matches Some(ts) ==> ix[i] < ts.len()
            }),
        ensures
            match first_tmap525_from(self.chunks@, 0) {
                None => r is None,
                Some(ix) => match first_tracks_from(self.chunks@, 0) {
                    None => r is None,
                    Some(ts) => r matches Some(t) && t == ts[ix[((quarter / 4) % 40) * 4 + 25 * (quarter % 4)] as int],
                },
            },
    {
        match self.find_tmap525() {
            Some(tm) => {
                let index = (quarter / 4) % 40;
                let subindex = 25 * (quarter % 4);
                let track_index = tm.indexes[index * 4 + subindex] as usize;
                match self.find_tracks() {
                    Some(tc) => Some(&tc.tracks[track_index]),
                    None => None,
                }
            },
            None => None,
        }
    }
}

/// A disk as the drive reads it: the disk and where the head is on the track.
pub struct WozDiskReader {
    pub disk: WozDisk,
    pub bit_index: usize,
}

impl WozDiskReader {
    /// A reader at the start of the disk's track.
    pub fn new(disk: WozDisk) -> (r: WozDiskReader)
        ensures
            r.disk == disk,
            r.bit_index == 0,
    {
        WozDiskReader { disk, bit_index: 0 }
    }

    /// Moves the head to quarter track `quarter`.
    pub fn seek_track(&mut self, quarter: usize) -> (r: Result<(), Error>)
        ensures
            final(self).bit_index == old(self).bit_index,
            final(self).disk.info_chunk == old(self).disk.info_chunk,
            final(self).disk.chunks == old(self).disk.chunks,
            final(self).disk.tracks_view() == old(self).disk.tracks_view(),
            old(self).disk.info_chunk.disk_type == DiskType::Disk35 ==> r == Err::<(), Error>(Error::UnsupportedDiskType)
                && final(self).disk.current_track() == old(self).disk.current_track(),
            old(self).disk.info_chunk.disk_type == DiskType::Disk525 ==> match first_tmap525_from(old(self).disk.chunks@, 0) {
                None => r == Err::<(), Error>(Error::TrackNotFound) && final(self).disk.current_track() == old(self).disk.current_track(),
                Some(ix) => r is Ok && final(self).disk.current_track() == quarter_track_index(ix, quarter),
            },
    {
        self.disk.seek_track(quarter)
    }

    /// Reads the next byte of the shift register (0 under no track).
    pub fn read(&mut self) -> (r: Result<u8, Error>)
        requires
            old(self).disk.tracks_wf(),
        ensures
            final(self).disk.tracks_wf(),
            final(self).disk.info_chunk == old(self).disk.info_chunk,
            final(self).disk.chunks == old(self).disk.chunks,
            final(self).disk.current_track() == old(self).disk.current_track(),
            ({
                let ct = old(self).disk.current_track() as int;
                let ts = old(self).disk.tracks_view();
                if ct >= ts.len() {
                    r == Ok::<u8, Error>(0) && final(self).disk.tracks_view() == ts && final(self).bit_index == 0
                } else {
                    let (t, b) = next_byte_spec(reset_spec(ts[ct], old(self).bit_index));
                    r == Ok::<u8, Error>(b) && final(self).disk.tracks_view() == ts.update(ct, t)
                        && final(self).bit_index == t.bit_index
                }
            }),
    {
        let (data, next_index) = self.disk.get_byte(self.bit_index);
        self.bit_index = next_index;
        match data {
            Some(b) => Ok(b),
            None => Ok(0),
        }
    }

    /// Writes the next bit.
    pub fn write(&mut self, bit: u8) -> (r: Result<(), Error>)
        requires
            old(self).disk.tracks_wf(),
        ensures
            r is Ok,
            final(self).disk.tracks_wf(),
            final(self).disk.info_chunk == old(self).disk.info_chunk,
            final(self).disk.chunks == old(self).disk.chunks,
            final(self).disk.current_track() == old(self).disk.current_track(),
            ({
                let ct = old(self).disk.current_track() as int;
                let ts = old(self).disk.tracks_view();
                if ct >= ts.len() {
                    final(self).disk.tracks_view() == ts && final(self).bit_index == 0
                } else {
                    let t = write_bit_spec(reset_spec(ts[ct], old(self).bit_index), bit);
                    final(self).disk.tracks_view() == ts.update(ct, t) && final(self).bit_index == t.bit_index
                }
            }),
    {
        let next_index = match self.disk.write_bit(self.bit_index, bit) {
            Ok(n) => n,
            Err(e) => return Err(e),
        };
        self.bit_index = next_index;
        Ok(())
    }

    /// Moves the head back to the start of the track.
    pub fn reset(&mut self) -> (r: Result<(), Error>)
        ensures
            r is Ok,
            final(self).disk == old(self).disk,
            final(self).bit_index == 0,
    {
        self.bit_index = 0;
        Ok(())
    }
}

} // verus!

verus! {

/// What the drive sees of a disk: its tracks, the track under the head and where the head
/// is on it.
pub struct ReaderState {
    pub tracks: Seq<TrackView>,
    pub current: usize,
    pub bit_index: usize,
}

/// The state of a reader.
pub open spec fn reader_state(r: WozDiskReader) -> ReaderState {
    ReaderState { tracks: r.disk.tracks_view(), current: r.disk.current_track(), bit_index: r.bit_index }
}

/// Every track of the state can be read and written.
pub open spec fn reader_state_wf(s: ReaderState) -> bool {
    forall|i: int| 0 <= i < s.tracks.len() ==> track_wf(#[trigger] s.tracks[i])
}

/// Reading the next byte: the shift register of the track under the head after taking in
/// one more bit (0 and the start of the track under no track).
pub open spec fn reader_read_spec(s: ReaderState) -> (ReaderState, u8) {
    let ct = s.current as int;
    if ct >= s.tracks.len() {
        (ReaderState { bit_index: 0, ..s }, 0u8)
    } else {
        let (t, b) = next_byte_spec(reset_spec(s.tracks[ct], s.bit_index));
        (ReaderState { tracks: s.tracks.update(ct, t), bit_index: t.bit_index, ..s }, b)
    }
}

/// Writing the next bit.
pub open spec fn reader_write_spec(s: ReaderState, bit: u8) -> ReaderState {
    let ct = s.current as int;
    if ct >= s.tracks.len() {
        ReaderState { bit_index: 0, ..s }
    } else {
        let t = write_bit_spec(reset_spec(s.tracks[ct], s.bit_index), bit);
        ReaderState { tracks: s.tracks.update(ct, t), bit_index: t.bit_index, ..s }
    }
}

/// Reading and writing keep every track readable.
pub proof fn lemma_reader_wf(s: ReaderState, bit: u8)
    requires
        reader_state_wf(s),
    ensures
        reader_state_wf(reader_read_spec(s).0),
        reader_state_wf(reader_write_spec(s, bit)),
{
    let ct = s.current as int;
    if ct < s.tracks.len() {
        let t0 = reset_spec(s.tracks[ct], s.bit_index);
        assert(track_wf(s.tracks[ct]));
        assert(track_wf(t0));
        lemma_next_byte_wf(t0);
        lemma_write_bit_wf(t0, bit);
        let r = reader_read_spec(s).0;
        assert forall|i: int| 0 <= i < r.tracks.len() implies track_wf(#[trigger] r.tracks[i]) by {
            if i != ct {
                assert(r.tracks[i] == s.tracks[i]);
            }
        }
        let w = reader_write_spec(s, bit);
        assert forall|i: int| 0 <= i < w.tracks.len() implies track_wf(#[trigger] w.tracks[i]) by {
            if i != ct {
                assert(w.tracks[i] == s.tracks[i]);
            }
        }
    }
}

/// Reading the next byte keeps a track readable.
pub proof fn lemma_next_byte_wf(t: TrackView)
    requires
        track_wf(t),
    ensures
        track_wf(next_byte_spec(t).0),
{
}

/// Writing a bit keeps a track readable.
pub proof fn lemma_write_bit_wf(t: TrackView, bit: u8)
    requires
        track_wf(t),
    ensures
        track_wf(write_bit_spec(t, bit)),
{
}

} // verus!

verus! {

/// Reading a bit at the place where one was just written gives that bit back, unless the
/// bit is a zero that ends a run of more than three zero bits (the head then reads weak
/// flux).
pub proof fn lemma_track_read_after_write(t: TrackView, i: usize, b: u8)
    requires
        track_wf(t),
        i < t.total_bits,
        b & 1 == 1 || t.zeros < 3,
    ensures
        next_bit_spec(reset_spec(write_bit_spec(reset_spec(t, i), b), i)).1 == b & 1,
{
    let t0 = reset_spec(t, i);
    let w = write_bit_spec(t0, b);
    let ii = i as int;
    let s: u8 = (7 - ii % 8) as u8;
    let byte = t0.data[ii / 8];
    let mask = (1u8 << s) as u8;
    let nb = ((byte & !mask) | ((b & 1u8) << s)) as u8;
    assert(w.data[ii / 8] == nb);
    assert(s < 8);
    assert(((nb >> s) & 1u8) == (b & 1u8)) by (bit_vector)
        requires
            s < 8,
            mask == (1u8 << s) as u8,
            nb == ((byte & !mask) | ((b & 1u8) << s)) as u8,
    ;
    lemma_and_one(b);
    let r = reset_spec(w, i);
    assert(r.bit_index == i);
    assert(track_bit(r.data, ii) == b & 1);
}

} // verus!
