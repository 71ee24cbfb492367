use vstd::prelude::*;

use crate::cpu::mos6502::bus::memory::MemoryBank;
use crate::errors::Error;
use crate::targets::appleii::io::disks::woz::{
    first_tmap525_from, lemma_reader_wf, quarter_track_index, reader_read_spec, reader_state, reader_state_wf,
    reader_write_spec, DiskType, ReaderState, WozDisk, WozDiskReader,
};
use crate::utils::bits::{bit, get_bit, set_bit, with_bit};

verus! {

/// Register: motor off.
pub const REGISTER_MOTOR_OFF: usize = 0x08;
/// Register: motor on.
pub const REGISTER_MOTOR_ON: usize = 0x09;
/// Register: select drive 1.
pub const REGISTER_SELECT_DRIVE_1: usize = 0x0a;
/// Register: select drive 2.
pub const REGISTER_SELECT_DRIVE_2: usize = 0x0b;
/// Register: Q6 low (shift or read).
pub const REGISTER_Q6L: usize = 0x0c;
/// Register: Q6 high (load or sense write protect).
pub const REGISTER_Q6H: usize = 0x0d;
/// Register: Q7 low (read).
pub const REGISTER_Q7L: usize = 0x0e;
/// Register: Q7 high (write).
pub const REGISTER_Q7H: usize = 0x0f;

/// The outermost head position, in quarter tracks (track 40).
pub const PHASE_MAX: i32 = 160;

/// The drive's timing in processor cycles: how far a bit read moves the clock and how many
/// cycles must have passed for it, how long a complete byte stays valid, how long after
/// the motor stops the disk can still be read, and how long a written bit takes.
#[derive(Debug, Clone, Copy, PartialEq, Eq, Structural)]
pub struct DiskTiming {
    pub bit_step: u64,
    pub bit_threshold: u64,
    pub data_valid: u64,
    pub motor_off: u64,
    pub write_bit: u64,
}

/// Timing the drive can run with: a bit read moves the clock forward, by no more than
/// the time it needs, and a written bit takes time.
pub open spec fn timing_wf(t: DiskTiming) -> bool {
    &&& 1 <= t.bit_step <= t.bit_threshold
    &&& 1 <= t.write_bit <= 0x0fff_ffff_ffff_ffff
}

/// A disk in the drive: what the head sees, and the track map seeking uses (or why seeking
/// fails).
pub struct DriveDisk {
    pub reader: ReaderState,
    pub map: Result<Seq<u8>, Error>,
}

/// The track map that seeking on a disk uses: the first 5.25" map; a 3.5" disk is not
/// supported.
pub open spec fn seek_map(d: WozDisk) -> Result<Seq<u8>, Error> {
    match d.info_chunk.disk_type {
        DiskType::Disk35 => Err(Error::UnsupportedDiskType),
        DiskType::Disk525 => match first_tmap525_from(d.chunks@, 0) {
            Some(ix) => Ok(ix),
            None => Err(Error::TrackNotFound),
        },
    }
}

/// The state of the Disk II controller.
pub struct DiskIIView {
    pub shift_register: u8,
    pub data_register: u8,
    pub q6: bool,
    pub q7: bool,
    pub last_instant: u64,
    pub data_valid_until: u64,
    pub current_phase: Seq<bool>,
    pub absolute_phase: i32,
    pub motor_spinning: bool,
    pub motor_off_instant: u64,
    pub status: u8,
    pub disk: Option<DriveDisk>,
}

/// The controller is consistent: four phases, the head between track 0 and track 40, no
/// complete byte left in the shift register, the disk's tracks readable.
pub open spec fn drive_wf(v: DiskIIView) -> bool {
    &&& v.current_phase.len() == 4
    &&& v.shift_register < 128
    &&& 0 <= v.absolute_phase <= PHASE_MAX
    &&& v.disk matches Some(d) ==> reader_state_wf(d.reader)
}

/// How far the head moves, in quarter tracks, when phase `phase` turns on or off: half a
/// step toward a neighbouring phase that is on, else (turning on alone) by where the head
/// stands within the four phases.
pub open spec fn phase_delta(cur: Seq<bool>, abs: int, phase: int, on: bool) -> int {
    let next = if phase == 3 { 0 } else { phase + 1 };
    let prev = if phase == 0 { 3 } else { phase - 1 };
    let pos = abs % 8;
    if on && cur[next] {
        -1
    } else if !on && cur[next] {
        1
    } else if on && cur[prev] {
        1
    } else if !on && cur[prev] {
        -1
    } else if on {
        if phase == 0 {
            if pos == 2 { -2 } else if pos == 4 { 4 } else if pos == 6 { 2 } else { 0 }
        } else if phase == 1 {
            if pos == 0 { 2 } else if pos == 4 { -2 } else if pos == 6 { 4 } else { 0 }
        } else if phase == 2 {
            if pos == 2 { 2 } else if pos == 0 { 4 } else if pos == 6 { -2 } else { 0 }
        } else {
            if pos == 0 { -2 } else if pos == 4 { 2 } else if pos == 2 { 4 } else { 0 }
        }
    } else {
        0
    }
}

/// The head position, clamped to tracks 0 to 40.
pub open spec fn clamp_phase(p: int) -> i32 {
    if p >= PHASE_MAX {
        PHASE_MAX
    } else if p <= 0 {
        0
    } else {
        p as i32
    }
}

/// Turning phase `phase` on or off: the head moves, and the disk seeks to the new quarter
/// track (which fails where the disk cannot seek).
pub open spec fn update_phase_spec(v: DiskIIView, phase: int, on: bool) -> (DiskIIView, Result<(), Error>) {
    if v.current_phase[phase] == on {
        (v, Ok(()))
    } else {
        let abs = clamp_phase(v.absolute_phase + phase_delta(v.current_phase, v.absolute_phase as int, phase, on));
        let v1 = DiskIIView { current_phase: v.current_phase.update(phase, on), absolute_phase: abs, ..v };
        match v.disk {
            None => (v1, Ok(())),
            Some(d) => match d.map {
                Err(e) => (v1, Err(e)),
                Ok(ix) => (
                    DiskIIView {
                        disk: Some(DriveDisk { reader: ReaderState { current: quarter_track_index(ix, abs as usize), ..d.reader }, ..d }),
                        ..v1
                    },
                    Ok(()),
                ),
            },
        }
    }
}

/// The byte the disk gives, and the disk after it (0 without a disk).
pub open spec fn disk_read(d: Option<DriveDisk>) -> (Option<DriveDisk>, u8) {
    match d {
        None => (None, 0u8),
        Some(dd) => {
            let (r, b) = reader_read_spec(dd.reader);
            (Some(DriveDisk { reader: r, ..dd }), b)
        },
    }
}

/// The disk after a bit is written (nothing without a disk).
pub open spec fn disk_write(d: Option<DriveDisk>, bit: u8) -> Option<DriveDisk> {
    match d {
        None => None,
        Some(dd) => Some(DriveDisk { reader: reader_write_spec(dd.reader, bit), ..dd }),
    }
}

/// Reading the disk until `now`: each bit time that has passed since `before` shifts one
/// bit into the shift register; a complete byte (bit 7 set) moves to the data register and
/// stays valid a while. Gives the disk, shift register, data register, valid-until time
/// and the time read up to.
pub open spec fn read_loop(d: Option<DriveDisk>, sr: u8, data: u8, valid: u64, before: u64, now: u64, t: DiskTiming) -> (Option<DriveDisk>, u8, u8, u64, u64)
    decreases now - before,
{
    if before > now {
        (d, sr, data, valid, now)
    } else if now - before < t.bit_threshold || t.bit_step == 0 || before + t.bit_step > now {
        (d, sr, data, valid, before)
    } else {
        let b2 = (before + t.bit_step) as u64;
        let (d2, bit_byte) = disk_read(d);
        let sr2 = ((sr as int * 2) % 256 + bit_byte % 2) as u8;
        if sr2 >= 128 {
            read_loop(d2, 0, sr2, ((b2 + t.data_valid) % 0x1_0000_0000_0000_0000) as u64, b2, now, t)
        } else {
            read_loop(d2, sr2, data, valid, b2, now, t)
        }
    }
}

/// Letting the disk turn until `now` without taking its bits in.
pub open spec fn skip_loop(d: Option<DriveDisk>, before: u64, now: u64, t: DiskTiming) -> (Option<DriveDisk>, u64)
    decreases now - before,
{
    if before > now || now - before < t.bit_threshold || t.bit_step == 0 || before + t.bit_step > now {
        (d, before)
    } else {
        skip_loop(disk_read(d).0, (before + t.bit_step) as u64, now, t)
    }
}

/// In the sense-write-protect state (Q6 on, Q7 off) the disk turns on and the data
/// register reads 0.
pub open spec fn advance_spec(v: DiskIIView, now: u64, t: DiskTiming) -> DiskIIView {
    if v.q6 && !v.q7 {
        let (d, before) = skip_loop(v.disk, v.last_instant, now, t);
        DiskIIView { disk: d, data_register: 0, last_instant: before, ..v }
    } else {
        v
    }
}

/// Writing `n` zero bits.
pub open spec fn write_zeros(d: Option<DriveDisk>, n: nat) -> Option<DriveDisk>
    decreases n,
{
    if n == 0 {
        d
    } else {
        disk_write(write_zeros(d, (n - 1) as nat), 0)
    }
}

/// Writing the data register out, bit 7 first, one bit per bit time while more than one
/// bit time is left; gives the disk, the data register and the time left.
pub open spec fn write_loop(d: Option<DriveDisk>, data: u8, elapsed: u64, w: u64) -> (Option<DriveDisk>, u8, u64)
    decreases elapsed,
{
    if w == 0 || elapsed <= w {
        (d, data, elapsed)
    } else {
        write_loop(disk_write(d, data / 128), ((data as int * 2) % 256) as u8, (elapsed - w) as u64, w)
    }
}

/// Q6 going low in write mode: after more than a byte and a half bit times the missing bits
/// are written as zeros, then the data register goes out bit by bit.
pub open spec fn write_mode_spec(v: DiskIIView, now: u64, t: DiskTiming) -> DiskIIView {
    let w: int = t.write_bit as int;
    let elapsed: int = now - v.last_instant;
    let byte: int = 8 * w;
    let zeros: nat = if elapsed > byte && elapsed - byte > (3 * w) / 2 { ((elapsed - byte) / w) as nat } else { 0 };
    let d1 = write_zeros(v.disk, zeros);
    let e1 = (elapsed - zeros * w) as u64;
    let (d2, data, e2) = write_loop(d1, v.data_register, e1, t.write_bit);
    DiskIIView { disk: d2, data_register: data, last_instant: (now - e2) as u64, ..v }
}

/// Q6 going low in read mode: unless the motor has been off too long, the disk is read up
/// to `now` and the data register is read out (and cleared once it held a complete byte).
pub open spec fn read_mode_spec(v: DiskIIView, now: u64, t: DiskTiming) -> (DiskIIView, u8) {
    if !v.motor_spinning && now > v.motor_off_instant && now - v.motor_off_instant > t.motor_off {
        (v, 0)
    } else {
        let (d, sr, data, valid, before) = read_loop(v.disk, v.shift_register, v.data_register, v.data_valid_until, v.last_instant, now, t);
        let data2 = if valid < before { sr } else { data };
        (
            DiskIIView {
                disk: d,
                shift_register: sr,
                data_register: if data2 >= 128 { 0 } else { data2 },
                data_valid_until: valid,
                last_instant: before,
                ..v
            },
            data2,
        )
    }
}

/// What a read of register `address` at time `now` does, before the final turn of the disk
/// (`advance_spec`), and what it gives.
pub open spec fn register_read_spec(v: DiskIIView, address: usize, now: u64, t: DiskTiming) -> (DiskIIView, u8) {
    let phases_off = Seq::new(4, |i: int| false);
    if address == REGISTER_MOTOR_ON {
        (
            DiskIIView {
                current_phase: phases_off,
                last_instant: if !v.motor_spinning { now } else { v.last_instant },
                motor_spinning: true,
                ..v
            },
            0,
        )
    } else if address == REGISTER_MOTOR_OFF {
        (DiskIIView { current_phase: phases_off, motor_off_instant: now, motor_spinning: false, ..v }, 0)
    } else if address == REGISTER_Q7H {
        (DiskIIView { q7: true, ..v }, 0)
    } else if address == REGISTER_Q7L {
        (DiskIIView { q7: false, ..v }, if v.q6 { v.status } else { 0 })
    } else if address == REGISTER_Q6H {
        (DiskIIView { q6: true, ..v }, 0)
    } else if address == REGISTER_Q6L {
        let v1 = DiskIIView { q6: false, ..v };
        if v.q7 {
            (write_mode_spec(v1, now, t), 0)
        } else {
            read_mode_spec(v1, now, t)
        }
    } else {
        (v, 0)
    }
}

/// The status register after a write to the IWM mode register: the low five mode bits copy
/// over, and bit 6 (MZ reset) clears MZ.
pub open spec fn mode_status(status: u8, mode: u8) -> u8 {
    let s = with_bit(with_bit(with_bit(with_bit(with_bit(status, 0, bit(mode, 0)), 1, bit(mode, 1)), 2, bit(mode, 2)), 3, bit(mode, 3)), 4, bit(mode, 4));
    if bit(mode, 6) {
        with_bit(s, 6, false)
    } else {
        s
    }
}

/// What a read of register `address` at time `now` does: the controller after it and what
/// the read gives. Addresses 0-7 move the head (phase `address / 2` off or on) and give 0,
/// or the error of a disk that cannot seek; the others switch the drive, read or write the
/// disk, then let it turn in the sense-write-protect state.
pub open spec fn diskii_read_spec(v: DiskIIView, address: usize, now: u64, t: DiskTiming) -> (DiskIIView, Result<u8, Error>) {
    if address < 8 {
        let (v1, res) = update_phase_spec(v, (address / 2) as int, address % 2 == 1);
        (v1, match res {
            Ok(_) => Ok(0u8),
            Err(e) => Err(e),
        })
    } else {
        let (v1, ret) = register_read_spec(v, address, now, t);
        (advance_spec(v1, now, t), Ok(ret))
    }
}

/// What a write of `value` to register `address` at time `now` does: the value goes to the
/// data register, Q6 and Q7 switch (Q7 going high starts the write clock), and with both
/// high and the motor stopped the value sets the IWM mode; then the disk turns in the
/// sense-write-protect state.
pub open spec fn diskii_write_spec(v: DiskIIView, address: usize, value: u8, now: u64, t: DiskTiming) -> DiskIIView {
    let q6 = if address == REGISTER_Q6H { true } else if address == REGISTER_Q6L { false } else { v.q6 };
    let q7 = if address == REGISTER_Q7H { true } else if address == REGISTER_Q7L { false } else { v.q7 };
    let last = if address == REGISTER_Q7H { now } else { v.last_instant };
    let status = if q7 && q6 && !v.motor_spinning { mode_status(v.status, value) } else { v.status };
    advance_spec(DiskIIView { data_register: value, q6, q7, last_instant: last, status, ..v }, now, t)
}

/// The Disk II controller card with one drive.
pub struct DiskIIPeripheral {
    rom: MemoryBank,
    shift_register: u8,
    data_register: u8,
    q6: bool,
    q7: bool,
    last_instant: u64,
    data_valid_until: u64,
    current_phase: [bool; 4],
    absolute_phase: i32,
    motor_spinning: bool,
    motor_off_instant: u64,
    status: u8,
    disk: Option<WozDiskReader>,
}

/// What the drive sees of a reader.
pub open spec fn drive_disk_of(r: WozDiskReader) -> DriveDisk {
    DriveDisk { reader: reader_state(r), map: seek_map(r.disk) }
}

impl View for DiskIIPeripheral {
    type V = DiskIIView;

    closed spec fn view(&self) -> DiskIIView {
        DiskIIView {
            shift_register: self.shift_register,
            data_register: self.data_register,
            q6: self.q6,
            q7: self.q7,
            last_instant: self.last_instant,
            data_valid_until: self.data_valid_until,
            current_phase: self.current_phase@,
            absolute_phase: self.absolute_phase,
            motor_spinning: self.motor_spinning,
            motor_off_instant: self.motor_off_instant,
            status: self.status,
            disk: match self.disk {
                Some(r) => Some(drive_disk_of(r)),
                None => None,
            },
        }
    }
}

/// The controller after power-on or reset at time `now`, with the given disk.
pub open spec fn initial_spec(now: u64, disk: Option<DriveDisk>) -> DiskIIView {
    DiskIIView {
        shift_register: 0,
        data_register: 0,
        q6: false,
        q7: false,
        last_instant: now,
        data_valid_until: now,
        current_phase: Seq::new(4, |i: int| false),
        absolute_phase: PHASE_MAX,
        motor_spinning: false,
        motor_off_instant: now,
        status: 0,
        disk,
    }
}

impl DiskIIPeripheral {
    /// The card's ROM.
    pub closed spec fn rom_spec(&self) -> Seq<u8> {
        self.rom@
    }

    /// A controller with the given ROM and no disk, at time `now`.
    pub fn new(rom: MemoryBank, now: u64) -> (d: DiskIIPeripheral)
        ensures
            d@ == initial_spec(now, None),
            d.rom_spec() == rom@,
            drive_wf(d@),
    {
        let d = DiskIIPeripheral {
            rom,
            shift_register: 0,
            data_register: 0,
            q6: false,
            q7: false,
            last_instant: now,
            data_valid_until: now,
            current_phase: [false; 4],
            absolute_phase: PHASE_MAX,
            motor_spinning: false,
            motor_off_instant: now,
            status: 0,
            disk: None,
        };
        assert(d@.current_phase =~= Seq::new(4, |i: int| false));
        d
    }

    /// Back to the power-on state at time `now`; the disk stays, its head back at the start
    /// of the track.
    pub fn reset(&mut self, now: u64)
        requires
            drive_wf(old(self)@),
        ensures
            final(self).rom_spec() == old(self).rom_spec(),
            drive_wf(final(self)@),
            final(self)@ == initial_spec(now, match old(self)@.disk {
                Some(d) => Some(DriveDisk { reader: ReaderState { bit_index: 0, ..d.reader }, ..d }),
                None => None,
            }),
    {
        self.shift_register = 0;
        self.data_register = 0;
        self.q6 = false;
        self.q7 = false;
        self.last_instant = now;
        self.data_valid_until = now;
        self.current_phase = [false; 4];
        self.absolute_phase = PHASE_MAX;
        self.motor_spinning = false;
        self.motor_off_instant = now;
        self.status = 0;
        match &mut self.disk {
            Some(d) => {
                let _ = d.reset();
            },
            None => {},
        }
        assert(self@.current_phase =~= Seq::new(4, |i: int| false));
    }

    /// The time up to which the disk has turned.
    pub fn last_instant(&self) -> (r: u64)
        ensures
            r == self@.last_instant,
    {
        self.last_instant
    }

    /// Puts a disk in the drive.
    pub fn attach(&mut self, disk: WozDiskReader)
        ensures
            final(self).rom_spec() == old(self).rom_spec(),
            final(self)@ == (DiskIIView { disk: Some(drive_disk_of(disk)), ..old(self)@ }),
    {
        self.disk = Some(disk);
    }

    /// Takes the disk out.
    pub fn detach(&mut self)
        ensures
            final(self).rom_spec() == old(self).rom_spec(),
            final(self)@ == (DiskIIView { disk: None, ..old(self)@ }),
    {
        self.disk = None;
    }

    /// The byte the disk gives (0 without a disk).
    fn read_disk(&mut self) -> (r: u8)
        requires
            drive_wf(old(self)@),
        ensures
            drive_wf(final(self)@),
            final(self).rom_spec() == old(self).rom_spec(),
            (final(self)@.disk, r) == disk_read(old(self)@.disk),
            final(self)@ == (DiskIIView { disk: final(self)@.disk, ..old(self)@ }),
    {
        match self.disk.take() {
            Some(mut d) => {
                proof {
                    lemma_reader_wf(reader_state(d), 0);
                }
                let b = match d.read() {
                    Ok(b) => b,
                    Err(_) => 0,
                };
                self.disk = Some(d);
                b
            },
            None => 0,
        }
    }

    /// Writes a bit to the disk (nothing without a disk).
    fn write_disk(&mut self, bit: u8)
        requires
            drive_wf(old(self)@),
        ensures
            drive_wf(final(self)@),
            final(self).rom_spec() == old(self).rom_spec(),
            final(self)@ == (DiskIIView { disk: disk_write(old(self)@.disk, bit), ..old(self)@ }),
    {
        match self.disk.take() {
            Some(mut d) => {
                proof {
                    lemma_reader_wf(reader_state(d), bit);
                }
                let _ = d.write(bit);
                self.disk = Some(d);
            },
            None => {},
        }
    }

    /// Turns phase `phase` (0 to 3) on or off: the head moves and the disk seeks.
    pub fn update_phase(&mut self, phase: usize, on: bool) -> (r: Result<(), Error>)
        requires
            drive_wf(old(self)@),
            phase <= 3,
        ensures
            drive_wf(final(self)@),
            final(self).rom_spec() == old(self).rom_spec(),
            (final(self)@, r) == update_phase_spec(old(self)@, phase as int, on),
    {
        if self.current_phase[phase] == on {
            return Ok(());
        }
        let next = if phase == 3 { 0 } else { phase + 1 };
        let prev = if phase == 0 { 3 } else { phase - 1 };
        let pos = self.absolute_phase % 8;
        let change: i32 = if on && self.current_phase[next] {
            -1
        } else if !on && self.current_phase[next] {
            1
        } else if on && self.current_phase[prev] {
            1
        } else if !on && self.current_phase[prev] {
            -1
        } else if on {
            if phase == 0 {
                if pos == 2 { -2 } else if pos == 4 { 4 } else if pos == 6 { 2 } else { 0 }
            } else if phase == 1 {
                if pos == 0 { 2 } else if pos == 4 { -2 } else if pos == 6 { 4 } else { 0 }
            } else if phase == 2 {
                if pos == 2 { 2 } else if pos == 0 { 4 } else if pos == 6 { -2 } else { 0 }
            } else {
                if pos == 0 { -2 } else if pos == 4 { 2 } else if pos == 2 { 4 } else { 0 }
            }
        } else {
            0
        };
        self.current_phase[phase] = on;
        let p = self.absolute_phase + change;
        self.absolute_phase = if p >= PHASE_MAX {
            PHASE_MAX
        } else if p <= 0 {
            0
        } else {
            p
        };
        let quarter = self.absolute_phase as usize;
        let ghost delta = phase_delta(old(self)@.current_phase, old(self)@.absolute_phase as int, phase as int, on);
        assert(change == delta);
        assert(self@.current_phase =~= old(self)@.current_phase.update(phase as int, on));
        match self.disk.take() {
            Some(mut d) => {
                let ghost d0 = d;
                let r = d.seek_track(quarter);
                assert(seek_map(d.disk) == seek_map(d0.disk));
                assert(reader_state(d) == (ReaderState { current: reader_state(d).current, ..reader_state(d0) }));
                self.disk = Some(d);
                match r {
                    Ok(()) => Ok(()),
                    Err(e) => Err(e),
                }
            },
            None => Ok(()),
        }
    }

    /// In the sense-write-protect state the disk turns until `now` and the data register
    /// reads 0.
    fn advance_read_state(&mut self, now: u64, timing: DiskTiming)
        requires
            drive_wf(old(self)@),
            timing_wf(timing),
            old(self)@.last_instant <= now,
        ensures
            drive_wf(final(self)@),
            final(self).rom_spec() == old(self).rom_spec(),
            final(self)@ == advance_spec(old(self)@, now, timing),
            final(self)@.last_instant <= now,
    {
        if self.q6 && !self.q7 {
            let mut before = self.last_instant;
            while now - before >= timing.bit_threshold
                invariant
                    before <= now,
                    timing_wf(timing),
                    drive_wf(self@),
                    self.rom_spec() == old(self).rom_spec(),
                    self@ == (DiskIIView { disk: self@.disk, ..old(self)@ }),
                    skip_loop(old(self)@.disk, old(self)@.last_instant, now, timing) == skip_loop(self@.disk, before, now, timing),
                decreases now - before,
            {
                let _ = self.read_disk();
                before = before + timing.bit_step;
            }
            self.data_register = 0;
            self.last_instant = before;
        }
    }

    /// A read of register `address` at time `now`: 0-7 move the head (phase `address / 2`
    /// off or on) and give 0; the others switch the drive and, with Q6 going low, read or
    /// write the disk; then, in the sense-write-protect state, the disk turns until `now`.
    pub fn device_read(&mut self, address: usize, now: u64, timing: DiskTiming) -> (r: Result<u8, Error>)
        requires
            drive_wf(old(self)@),
            timing_wf(timing),
            old(self)@.last_instant <= now,
        ensures
            drive_wf(final(self)@),
            final(self).rom_spec() == old(self).rom_spec(),
            final(self)@.last_instant <= now,
            address < 8 ==> ({
                let (v, res) = update_phase_spec(old(self)@, (address / 2) as int, address % 2 == 1);
                &&& final(self)@ == v
                &&& res is Ok ==> r == Ok::<u8, Error>(0)
                &&& res matches Err(e) ==> r == Err::<u8, Error>(e)
            }),
            address >= 8 ==> ({
                let (v, ret) = register_read_spec(old(self)@, address, now, timing);
                &&& final(self)@ == advance_spec(v, now, timing)
                &&& r == Ok::<u8, Error>(ret)
            }),
            (final(self)@, r) == diskii_read_spec(old(self)@, address, now, timing),
    {
        if address < 8 {
            return match self.update_phase(address / 2, address % 2 == 1) {
                Ok(()) => Ok(0),
                Err(e) => Err(e),
            };
        }
        let mut ret: u8 = 0;
        if address == REGISTER_MOTOR_ON {
            self.current_phase = [false; 4];
            if !self.motor_spinning {
                self.last_instant = now;
            }
            self.motor_spinning = true;
            assert(self@.current_phase =~= Seq::new(4, |i: int| false));
        } else if address == REGISTER_MOTOR_OFF {
            self.current_phase = [false; 4];
            self.motor_off_instant = now;
            self.motor_spinning = false;
            assert(self@.current_phase =~= Seq::new(4, |i: int| false));
        } else if address == REGISTER_Q7H {
            self.q7 = true;
        } else if address == REGISTER_Q7L {
            self.q7 = false;
            if self.q6 {
                ret = self.status;
            }
        } else if address == REGISTER_Q6H {
            self.q6 = true;
        } else if address == REGISTER_Q6L {
            self.q6 = false;
            if self.q7 {
                self.write_mode(now, timing);
            } else {
                ret = self.read_mode(now, timing);
            }
        }
        self.advance_read_state(now, timing);
        Ok(ret)
    }

    /// Q6 going low in write mode.
    fn write_mode(&mut self, now: u64, timing: DiskTiming)
        requires
            drive_wf(old(self)@),
            timing_wf(timing),
            old(self)@.last_instant <= now,
        ensures
            drive_wf(final(self)@),
            final(self).rom_spec() == old(self).rom_spec(),
            final(self)@ == write_mode_spec(old(self)@, now, timing),
            final(self)@.last_instant <= now,
    {
        let w = timing.write_bit;
        let mut elapsed = now - self.last_instant;
        let byte = 8 * w;
        if elapsed > byte && elapsed - byte > (3 * w) / 2 {
            let zeros = (elapsed - byte) / w;
            proof {
                let ghost d: int = elapsed - byte;
                let ghost z: int = zeros as int;
                let ghost wi: int = w as int;
                assert(z * wi <= d) by (nonlinear_arith)
                    requires
                        z == d / wi,
                        wi >= 1,
                        d >= 0,
                ;
            }
            let mut i: u64 = 0;
            while i < zeros
                invariant
                    i <= zeros,
                    zeros * w <= elapsed,
                    timing_wf(timing),
                    w == timing.write_bit,
                    drive_wf(self@),
                    self.rom_spec() == old(self).rom_spec(),
                    self@ == (DiskIIView { disk: write_zeros(old(self)@.disk, i as nat), ..old(self)@ }),
                decreases zeros - i,
            {
                self.write_disk(0);
                i += 1;
            }
            proof {
                assert(zeros * w <= elapsed);
            }
            elapsed = elapsed - zeros * w;
        }
        let ghost d1 = self@.disk;
        let ghost e1 = elapsed;
        let mut data = self.data_register;
        while elapsed > w
            invariant
                w == timing.write_bit,
                w >= 1,
                drive_wf(self@),
                self.rom_spec() == old(self).rom_spec(),
                self@ == (DiskIIView { disk: self@.disk, ..old(self)@ }),
                elapsed <= now - old(self)@.last_instant,
                write_loop(d1, old(self)@.data_register, e1, w) == write_loop(self@.disk, data, elapsed, w),
            decreases elapsed,
        {
            let bit = data / 128;
            self.write_disk(bit);
            data = ((data as u16 * 2) % 256) as u8;
            elapsed = elapsed - w;
        }
        self.data_register = data;
        self.last_instant = now - elapsed;
    }

    /// Q6 going low in read mode; gives the data register.
    fn read_mode(&mut self, now: u64, timing: DiskTiming) -> (r: u8)
        requires
            drive_wf(old(self)@),
            timing_wf(timing),
            old(self)@.last_instant <= now,
        ensures
            drive_wf(final(self)@),
            final(self).rom_spec() == old(self).rom_spec(),
            (final(self)@, r) == read_mode_spec(old(self)@, now, timing),
            final(self)@.last_instant <= now,
    {
        if !self.motor_spinning && now > self.motor_off_instant && now - self.motor_off_instant > timing.motor_off {
            return 0;
        }
        let mut before = self.last_instant;
        let mut sr = self.shift_register;
        let mut data = self.data_register;
        let mut valid = self.data_valid_until;
        while now - before >= timing.bit_threshold
            invariant
                before <= now,
                sr < 128,
                timing_wf(timing),
                drive_wf(self@),
                self.rom_spec() == old(self).rom_spec(),
                self@ == (DiskIIView { disk: self@.disk, ..old(self)@ }),
                read_loop(old(self)@.disk, old(self)@.shift_register, old(self)@.data_register, old(self)@.data_valid_until, old(self)@.last_instant, now, timing)
                    == read_loop(self@.disk, sr, data, valid, before, now, timing),
            decreases now - before,
        {
            before = before + timing.bit_step;
            let b = self.read_disk();
            sr = (((sr as u16) * 2) % 256) as u8 + b % 2;
            if sr >= 128 {
                data = sr;
                sr = 0;
                valid = before.wrapping_add(timing.data_valid);
            }
        }
        assert(read_loop(self@.disk, sr, data, valid, before, now, timing) == (self@.disk, sr, data, valid, before));
        self.last_instant = before;
        self.shift_register = sr;
        self.data_valid_until = valid;
        if valid < before {
            data = sr;
        }
        let result = data;
        self.data_register = if result >= 128 { 0 } else { result };
        result
    }

    /// A write of `value` to register `address` at time `now`: the value goes to the data
    /// register, Q6 and Q7 switch (Q7 going high starts the write clock), and with both
    /// high and the motor stopped the value sets the IWM mode; then, in the
    /// sense-write-protect state, the disk turns until `now`.
    pub fn device_write(&mut self, address: usize, value: u8, now: u64, timing: DiskTiming) -> (r: Result<(), Error>)
        requires
            drive_wf(old(self)@),
            timing_wf(timing),
            old(self)@.last_instant <= now,
        ensures
            r is Ok,
            drive_wf(final(self)@),
            final(self).rom_spec() == old(self).rom_spec(),
            final(self)@.last_instant <= now,
            final(self)@ == diskii_write_spec(old(self)@, address, value, now, timing),
    {
        self.data_register = value;
        if address == REGISTER_Q6H {
            self.q6 = true;
        } else if address == REGISTER_Q6L {
            self.q6 = false;
        } else if address == REGISTER_Q7H {
            self.last_instant = now;
            self.q7 = true;
        } else if address == REGISTER_Q7L {
            self.q7 = false;
        }
        if self.q7 && self.q6 && !self.motor_spinning {
            let s0 = set_bit(self.status, 0, get_bit(value, 0));
            let s1 = set_bit(s0, 1, get_bit(value, 1));
            let s2 = set_bit(s1, 2, get_bit(value, 2));
            let s3 = set_bit(s2, 3, get_bit(value, 3));
            let s4 = set_bit(s3, 4, get_bit(value, 4));
            self.status = if get_bit(value, 6) { set_bit(s4, 6, false) } else { s4 };
        }
        self.advance_read_state(now, timing);
        Ok(())
    }

    /// The card has no expansion ROM.
    pub fn read_expansion_rom(&self, address: usize) -> (r: Result<Option<u8>, Error>)
        ensures
            r == Ok::<Option<u8>, Error>(None),
    {
        Ok(None)
    }

    /// Byte `address` of the slot ROM.
    pub fn read_rom(&self, address: usize) -> (r: Result<u8, Error>)
        ensures
            address < self.rom_spec().len() ==> r == Ok::<u8, Error>(self.rom_spec()[address as int]),
            address >= self.rom_spec().len() ==> r == Err::<u8, Error>(
                Error::MemoryFault { address, size: self.rom_spec().len() as usize },
            ),
    {
        self.rom.read(address)
    }
}

} // verus!

verus! {

/// The disk read loop keeps the shift register below 0x80 and stops where no bit time is
/// left before `now`.
proof fn lemma_read_loop_ends(d: Option<DriveDisk>, sr: u8, data: u8, valid: u64, before: u64, now: u64, t: DiskTiming)
    requires
        sr < 128,
        before <= now,
    ensures
        ({
            let (d2, sr2, data2, valid2, before2) = read_loop(d, sr, data, valid, before, now, t);
            &&& sr2 < 128
            &&& before2 <= now
            &&& (now - before2 < t.bit_threshold || t.bit_step == 0 || before2 + t.bit_step > now)
        }),
    decreases now - before,
{
    if !(now - before < t.bit_threshold || t.bit_step == 0 || before + t.bit_step > now) {
        let b2 = (before + t.bit_step) as u64;
        let (d2, bit_byte) = disk_read(d);
        let sr2 = ((sr as int * 2) % 256 + bit_byte % 2) as u8;
        if sr2 >= 128 {
            lemma_read_loop_ends(d2, 0, sr2, ((b2 + t.data_valid) % 0x1_0000_0000_0000_0000) as u64, b2, now, t);
        } else {
            lemma_read_loop_ends(d2, sr2, data, valid, b2, now, t);
        }
    }
}

/// A disk byte with bit 7 set is delivered by one read only: the read of the data register
/// (Q6 low, in read mode) that gives it empties the register, and a second read at the same
/// instant gives a byte with bit 7 clear.
pub proof fn lemma_complete_byte_taken(v: DiskIIView, now: u64, t: DiskTiming)
    requires
        drive_wf(v),
        !v.q7,
        v.last_instant <= now,
    ensures
        ({
            let (v1, r) = diskii_read_spec(v, REGISTER_Q6L, now, t);
            let (v2, r2) = diskii_read_spec(v1, REGISTER_Q6L, now, t);
            r matches Ok(b) && b >= 128 ==> v1.data_register == 0 && (r2 matches Ok(b2) && b2 < 128)
        }),
{
    lemma_read_loop_ends(v.disk, v.shift_register, v.data_register, v.data_valid_until, v.last_instant, now, t);
    let (v1, r) = diskii_read_spec(v, REGISTER_Q6L, now, t);
    if v1.last_instant <= now && v1.shift_register < 128 {
        lemma_read_loop_ends(v1.disk, v1.shift_register, v1.data_register, v1.data_valid_until, v1.last_instant, now, t);
    }
}

/// Energizing the next phase and then releasing the one that was on moves the head half a
/// track (two quarter tracks) inward, short of the last track; going the other way moves
/// it half a track outward, short of track 0.
pub proof fn lemma_phase_step(v: DiskIIView, p: int)
    requires
        drive_wf(v),
        0 <= p < 4,
        forall|i: int| 0 <= i < 4 ==> v.current_phase[i] == (i == p),
    ensures
        ({
            let next = if p == 3 { 0 } else { p + 1 };
            let prev = if p == 0 { 3 } else { p - 1 };
            let inward = update_phase_spec(update_phase_spec(v, next, true).0, p, false).0;
            let outward = update_phase_spec(update_phase_spec(v, prev, true).0, p, false).0;
            &&& v.absolute_phase + 2 <= PHASE_MAX ==> inward.absolute_phase == v.absolute_phase + 2
            &&& v.absolute_phase >= 2 ==> outward.absolute_phase == v.absolute_phase - 2
        }),
{
}

} // verus!
