use vstd::prelude::*;

use crate::errors::Error;
use crate::utils::bits::lemma_and_one;
use crate::targets::appleii::io::disks::{encode_sector, lemma_sector_bits_len, sector_bits, SectorData};
use crate::utils::bitstream::Bitstream;

verus! {

/// The DOS 3.3 sector that each physical sector of a track holds.
pub const PHYSICAL_TO_LOGICAL: [usize; 16] = [0, 7, 0xe, 6, 0xd, 0x5, 0xc, 0x4, 0xb, 0x3, 0xa, 0x2, 0x9, 0x1, 0x8, 0xf];

/// The ProDOS sector that each physical sector of a track holds.
pub const PHYSICAL_TO_LOGICAL_PRODOS: [usize; 16] = [0, 8, 1, 9, 2, 10, 3, 11, 4, 12, 5, 13, 6, 14, 7, 15];

/// The operating system whose sector order a disk image follows.
#[derive(Debug, Copy, Clone, PartialEq, Eq, Structural)]
pub enum SystemType {
    Dos,
    ProDos,
}

/// The sector of the image that physical sector `physical` of a track holds.
pub open spec fn logical_sector(system_type: SystemType, physical: int) -> int {
    match system_type {
        SystemType::Dos => PHYSICAL_TO_LOGICAL@[physical] as int,
        SystemType::ProDos => PHYSICAL_TO_LOGICAL_PRODOS@[physical] as int,
    }
}

/// Where in the image physical sector `physical` of track `track` starts: 16 sectors of 256
/// bytes per track.
pub open spec fn dsk_offset(system_type: SystemType, track: int, physical: int) -> int {
    4096 * track + 256 * logical_sector(system_type, physical)
}

/// The size of a 35-track, 16-sector image.
pub const DSK_IMAGE_SIZE: usize = 143360;

/// A 16-sector disk image (.dsk or .po) read sector by sector in the order the sectors pass
/// under the head.
pub struct DskFile {
    sectors_per_track: usize,
    bytes_per_sector: usize,
    tracks: usize,
    system_type: SystemType,
    data: Vec<u8>,
    sector: usize,
}

impl DskFile {
    /// The bytes of the image.
    pub closed spec fn image(&self) -> Seq<u8> {
        self.data@
    }

    /// The physical sector that the next read returns.
    pub closed spec fn next_sector(&self) -> int {
        self.sector as int
    }

    /// The sector order of the image.
    pub closed spec fn order(&self) -> SystemType {
        self.system_type
    }

    /// The image has 35 tracks of 16 sectors of 256 bytes and the next sector is one of 16.
    pub closed spec fn wf(&self) -> bool {
        &&& self.sectors_per_track == 16
        &&& self.bytes_per_sector == 256
        &&& self.tracks == 35
        &&& self.sector < 16
    }

    /// A well-formed image reads one of its 16 sectors next.
    pub proof fn lemma_next_sector_range(&self)
        requires
            self.wf(),
        ensures
            0 <= self.next_sector() < 16,
    {
    }

    /// The size of the image in bytes.
    pub fn image_len(&self) -> (r: usize)
        ensures
            r == self.image().len(),
    {
        self.data.len()
    }

    /// An image of 35 tracks of 16 sectors of 256 bytes, with the given sector order.
    pub fn new_16_sector(data: Vec<u8>, system_type: SystemType) -> (d: DskFile)
        ensures
            d.wf(),
            d.image() == data@,
            d.next_sector() == 0,
            d.order() == system_type,
    {
        DskFile { data, sector: 0, sectors_per_track: 16, bytes_per_sector: 256, tracks: 35, system_type }
    }

    /// Reads the next physical sector of `track` and moves on to the sector after it (after
    /// the last, the first). Past the last track it gives a zero sector 0 and does not move.
    pub fn read(&mut self, track: usize) -> (r: Result<SectorData, Error>)
        requires
            old(self).wf(),
        ensures
            final(self).wf(),
            final(self).image() == old(self).image(),
            final(self).order() == old(self).order(),
            track >= 35 ==> (r matches Ok(s) && s.sector == 0 && s.data@ == Seq::new(256, |i: int| 0u8)
                && final(self).next_sector() == old(self).next_sector()),
            track < 35 ==> ({
                let off = dsk_offset(old(self).order(), track as int, old(self).next_sector());
                &&& off + 256 > old(self).image().len() ==> r == Err::<SectorData, Error>(Error::UnexpectedEof)
                    && final(self).next_sector() == old(self).next_sector()
                &&& off + 256 <= old(self).image().len() ==> (r matches Ok(s) && s.sector == old(self).next_sector()
                    && s.data@ == old(self).image().subrange(off, off + 256)
                    && final(self).next_sector() == (old(self).next_sector() + 1) % 16)
            }),
    {
        if track >= self.tracks {
            let data = vec![0u8; 256];
            assert(data@ =~= Seq::new(256, |i: int| 0u8));
            return Ok(SectorData { sector: 0, data });
        }
        let logical_sector = match self.system_type {
            SystemType::Dos => PHYSICAL_TO_LOGICAL[self.sector],
            SystemType::ProDos => PHYSICAL_TO_LOGICAL_PRODOS[self.sector],
        };
        assert(logical_sector < 16);
        let pos: usize = 4096 * track + logical_sector * 256;
        if pos > self.data.len() || self.data.len() - pos < self.bytes_per_sector {
            return Err(Error::UnexpectedEof);
        }
        let len = self.data.len();
        let mut buf: Vec<u8> = Vec::new();
        let mut i: usize = 0;
        while i < 256
            invariant
                i <= 256,
                len == self.data@.len(),
                pos + 256 <= self.data@.len(),
                buf@ == self.data@.subrange(pos as int, pos + i),
            decreases 256 - i,
        {
            buf.push(self.data[pos + i]);
            assert(buf@ =~= self.data@.subrange(pos as int, pos + i + 1));
            i += 1;
        }
        let sector = self.sector;
        self.sector += 1;
        if self.sector == self.sectors_per_track {
            self.sector = 0;
        }
        Ok(SectorData { sector, data: buf })
    }
}

/// The track map that a disk made from a 16-sector image gets: whole track `t` at quarter
/// track `4 t`, no other entry (0xff).
pub open spec fn dsk_track_map() -> Seq<u8> {
    Seq::new(160, |i: int| if i % 4 == 0 && i < 140 { (i / 4) as u8 } else { 0xffu8 })
}

/// The bits of the first `n` sectors of track `track` of a 16-sector image, the sectors
/// read in turn from physical sector `first`.
pub open spec fn dsk_track_bits_upto(image: Seq<u8>, order: SystemType, first: int, track: int, n: int) -> Seq<u8>
    decreases n,
{
    if n <= 0 {
        Seq::empty()
    } else {
        let off = dsk_offset(order, track, (first + n - 1) % 16);
        dsk_track_bits_upto(image, order, first, track, n - 1) + sector_bits(
            track as usize,
            (n - 1) as usize,
            image.subrange(off, off + 256),
        )
    }
}

pub proof fn lemma_dsk_track_bits_len(image: Seq<u8>, order: SystemType, first: int, track: int, n: int)
    requires
        0 <= n,
    ensures
        dsk_track_bits_upto(image, order, first, track, n).len() == 3134 * n,
    decreases n,
{
    if n > 0 {
        lemma_dsk_track_bits_len(image, order, first, track, n - 1);
        let off = dsk_offset(order, track, (first + n - 1) % 16);
        lemma_sector_bits_len(track as usize, (n - 1) as usize, image.subrange(off, off + 256));
    }
}

/// Appends the bits of `src` to `dst`.
fn append_bits(dst: &mut Bitstream, src: &Bitstream)
    requires
        old(dst).wf(),
        src.wf(),
        old(dst)@.len() + src@.len() <= usize::MAX,
    ensures
        final(dst).wf(),
        final(dst)@ == old(dst)@ + src@,
{
    let ghost before = dst@;
    let n = src.num_bits();
    let mut b: usize = 0;
    while b < n
        invariant
            b <= n,
            n == src@.len(),
            src.wf(),
            before.len() + n <= usize::MAX,
            dst.wf(),
            dst@ == before + src@.take(b as int),
        decreases n - b,
    {
        let bit = src.read_bit(b);
        proof {
            lemma_and_one(bit);
        }
        dst.write_bit(bit);
        assert(src@.take(b + 1) =~= src@.take(b as int).push(src@[b as int]));
        b += 1;
    }
    assert(src@.take(n as int) =~= src@);
}

/// Encodes track `track` of a 16-sector image: its 16 sectors, read in turn, as one bit
/// stream.
#[verifier::rlimit(60)]
pub fn encode_dsk_track(value: &mut DskFile, track: usize) -> (r: Bitstream)
    requires
        old(value).wf(),
        old(value).image().len() >= DSK_IMAGE_SIZE,
        track < 35,
    ensures
        final(value).wf(),
        final(value).image() == old(value).image(),
        final(value).order() == old(value).order(),
        final(value).next_sector() == old(value).next_sector(),
        r.wf(),
        r@ == dsk_track_bits_upto(old(value).image(), old(value).order(), old(value).next_sector(), track as int, 16),
{
    let ghost first = value.next_sector();
    let ghost image = value.image();
    let ghost order = value.order();
    proof {
        value.lemma_next_sector_range();
    }
    let mut bitstream = Bitstream::new();
    let mut sector: usize = 0;
    while sector < 16
        invariant
            sector <= 16,
            track < 35,
            value.wf(),
            value.image() == image,
            value.order() == order,
            image == old(value).image(),
            order == old(value).order(),
            first == old(value).next_sector(),
            image.len() >= DSK_IMAGE_SIZE,
            value.next_sector() == (first + sector) % 16,
            0 <= first < 16,
            bitstream.wf(),
            bitstream@ == dsk_track_bits_upto(image, order, first, track as int, sector as int),
        decreases 16 - sector,
    {
        proof {
            lemma_dsk_track_bits_len(image, order, first, track as int, sector as int);
            assert(value.next_sector() < 16);
            assert(logical_sector(value.order(), value.next_sector()) < 16);
        }
        let ghost off = dsk_offset(value.order(), track as int, value.next_sector());
        let sector_data = match value.read(track) {
            Ok(s) => s,
            Err(_) => {
                assert(false);
                return bitstream;
            },
        };
        let encoded = match encode_sector(track, sector, sector_data.data.as_slice()) {
            Ok(e) => e,
            Err(_) => {
                assert(false);
                return bitstream;
            },
        };
        proof {
            lemma_sector_bits_len(track, sector, sector_data.data@);
        }
        let ghost before = bitstream@;
        append_bits(&mut bitstream, &encoded);
        proof {
            assert(sector_data.data@ == image.subrange(off, off + 256));
            assert(bitstream@ == before + sector_bits(track, sector, image.subrange(off, off + 256)));
            assert((first + (sector + 1) - 1) % 16 == (first + sector) % 16);
        }
        sector += 1;
    }
    bitstream
}

/// The track map of a disk made from a 16-sector image.
pub fn dsk_indexes() -> (r: [u8; 160])
    ensures
        r@ == dsk_track_map(),
{
    let mut indexes = [0xffu8; 160];
    let mut t: usize = 0;
    while t < 35
        invariant
            t <= 35,
            forall|i: int| 0 <= i < 160 ==> #[trigger] indexes@[i] == (if i % 4 == 0 && i < 4 * t { (i / 4) as u8 } else { 0xffu8 }),
        decreases 35 - t,
    {
        indexes[4 * t] = t as u8;
        t += 1;
    }
    assert(indexes@ =~= dsk_track_map());
    indexes
}

} // verus!
