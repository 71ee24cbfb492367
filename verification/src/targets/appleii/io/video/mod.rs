use vstd::prelude::*;

use crate::cpu::mos6502::bus::memory::MemoryBank;
use crate::targets::appleii::io::peripherals::extended_text::Extended80ColumnText;
use crate::targets::appleii::io::soft_switches::{switch_index, SoftSwitches, Switch};
use crate::targets::appleii::io::video::character_rom::{reverse8, reverse_bits, CharacterROM};
use crate::utils::bits::{bit, get_bit};

pub mod character_rom;
pub mod vbl;
pub mod video7;

verus! {

/// The width of the frame in pixels.
pub const SCREEN_WIDTH: usize = 280 * 2;
/// The height of the frame in pixels.
pub const SCREEN_HEIGHT: usize = 192 * 2;

/// A pixel colour.
#[derive(Debug, Clone, Copy, PartialEq, Eq, Structural)]
pub struct Rgb {
    pub r: u8,
    pub g: u8,
    pub b: u8,
}

/// Black.
pub open spec fn black() -> Rgb {
    Rgb { r: 0, g: 0, b: 0 }
}

/// White.
pub open spec fn white() -> Rgb {
    Rgb { r: 255, g: 255, b: 255 }
}

/// The display colour of a monochrome monitor type (none for a colour monitor).
pub open spec fn monitor_color(m: MonitorType) -> Option<Rgb> {
    match m {
        MonitorType::Color => None,
        MonitorType::Monochrome => Some(white()),
        MonitorType::Green => Some(Rgb { r: 51, g: 255, b: 51 }),
        MonitorType::Amber => Some(Rgb { r: 0xff, g: 0xb7, b: 0x00 }),
    }
}

/// The kind of monitor the machine is attached to.
#[derive(Debug, Clone, Copy, PartialEq, Eq, Structural)]
pub enum MonitorType {
    Color,
    Monochrome,
    Green,
    Amber,
}

/// A display mode that the Video-7 card selects beyond the standard ones.
#[derive(Debug, Clone, Copy, PartialEq, Eq, Structural)]
pub enum VideoMode {
    Implied,
    Video7BlackWhite,
    Video716Color140,
    Video716Color160,
    Video7Mix,
}

/// The colour of low-resolution colour `code` (0 to 15).
pub open spec fn lores_color(code: u8) -> Rgb {
    if code == 0 { black() }
    else if code == 1 { Rgb { r: 0x8a, g: 0x21, b: 0x40 } }
    else if code == 2 { Rgb { r: 0x3c, g: 0x22, b: 0xa5 } }
    else if code == 3 { Rgb { r: 0xc8, g: 0x47, b: 0xe4 } }
    else if code == 4 { Rgb { r: 0x07, g: 0x65, b: 0x3e } }
    else if code == 5 { Rgb { r: 0x7b, g: 0x7e, b: 0x80 } }
    else if code == 6 { Rgb { r: 0x30, g: 0x8f, b: 0xe3 } }
    else if code == 7 { Rgb { r: 0xb9, g: 0xa9, b: 0xfd } }
    else if code == 8 { Rgb { r: 0x3b, g: 0x51, b: 0x07 } }
    else if code == 9 { Rgb { r: 0xc7, g: 0x70, b: 0x28 } }
    else if code == 10 { Rgb { r: 0x7b, g: 0x7e, b: 0x80 } }
    else if code == 11 { Rgb { r: 0xf3, g: 0x9a, b: 0xc2 } }
    else if code == 12 { Rgb { r: 0x2f, g: 0xb8, b: 0x1f } }
    else if code == 13 { Rgb { r: 0xb9, g: 0xd0, b: 0x60 } }
    else if code == 14 { Rgb { r: 0x6e, g: 0xe1, b: 0xc0 } }
    else if code == 15 { white() }
    else { black() }
}

/// The double high-resolution colour of a four-bit pattern (read with its bits reversed).
pub open spec fn dhr_color(value: u8) -> Rgb {
    let v = reverse8(value) / 16;
    if v == 0 { black() }
    else if v == 1 { Rgb { r: 0xdd, g: 0x00, b: 0x33 } }
    else if v == 2 { Rgb { r: 0x88, g: 0x55, b: 0x00 } }
    else if v == 3 { Rgb { r: 0xff, g: 0x66, b: 0x00 } }
    else if v == 4 { Rgb { r: 0x00, g: 0x77, b: 0x22 } }
    else if v == 5 { Rgb { r: 0xaa, g: 0xaa, b: 0xaa } }
    else if v == 6 { Rgb { r: 0x00, g: 0x77, b: 0x22 } }
    else if v == 7 { Rgb { r: 0xff, g: 0xff, b: 0x00 } }
    else if v == 8 { Rgb { r: 0x00, g: 0x00, b: 0x99 } }
    else if v == 9 { Rgb { r: 0xdd, g: 0x22, b: 0xdd } }
    else if v == 10 { Rgb { r: 0x55, g: 0x55, b: 0x55 } }
    else if v == 11 { Rgb { r: 0xff, g: 0x99, b: 0x88 } }
    else if v == 12 { Rgb { r: 0x22, g: 0x22, b: 0xff } }
    else if v == 13 { Rgb { r: 0x66, g: 0xaa, b: 0xff } }
    else if v == 14 { Rgb { r: 0x44, g: 0xff, b: 0x99 } }
    else { white() }
}

/// The colour of a lit high-resolution dot: violet or green on even or odd columns, blue
/// or red with the palette bit set.
pub open spec fn hires_color(odd_column: bool, alternate: bool) -> Rgb {
    if !odd_column && !alternate {
        Rgb { r: 0xbb, g: 0x36, b: 0xff }
    } else if odd_column && !alternate {
        Rgb { r: 0x43, g: 0xc8, b: 0x00 }
    } else if !odd_column && alternate {
        Rgb { r: 0x07, g: 0xa8, b: 0xe0 }
    } else {
        Rgb { r: 0xf9, g: 0x56, b: 0x1d }
    }
}

/// Byte `a` of a memory, or 0 past its end.
pub open spec fn byte_at(mem: Seq<u8>, a: int) -> u8 {
    if 0 <= a < mem.len() { mem[a] } else { 0 }
}

/// Byte `a` of the auxiliary memory, or 0 without one.
pub open spec fn aux_byte(aux: Option<Seq<u8>>, a: int) -> u8 {
    match aux {
        Some(m) => byte_at(m, a),
        None => 0,
    }
}

/// Bit `k` of byte `b`.
pub open spec fn bit_of(b: u8, k: int) -> bool {
    bit(b, k as nat)
}

/// What the video draws from: the soft switches, main and auxiliary memory, the character
/// sets, whether flashing characters show inverted, the Video-7 mode and the monitor.
pub struct VideoInputs {
    pub switches: Seq<bool>,
    pub main: Seq<u8>,
    pub aux: Option<Seq<u8>>,
    pub primary: Seq<u8>,
    pub alternate: Seq<u8>,
    pub blink_inverted: bool,
    pub video_mode: VideoMode,
    pub monitor_type: MonitorType,
}

/// Whether soft switch `s` is on.
pub open spec fn on(v: VideoInputs, s: Switch) -> bool {
    v.switches[switch_index(s)]
}

/// Pixel `k` (0 to 6) of row `row` of character `code`: the glyph's bit `6 - k`, white where
/// set, inverted for a flashing character (codes 0x40-0x7f without ALTCHAR) in the
/// inverted half of the blink.
pub open spec fn char_pixel(v: VideoInputs, code: u8, row: int, k: int) -> Rgb {
    glyph_pixel(v.primary, v.alternate, on(v, Switch::Altchar), v.blink_inverted, code, row, k)
}

/// Pixel `k` of row `row` of character `code` from the given character sets.
pub open spec fn glyph_pixel(primary: Seq<u8>, alternate: Seq<u8>, altchar: bool, blink_inverted: bool, code: u8, row: int, k: int) -> Rgb {
    let glyph = if altchar { alternate } else { primary };
    let g = glyph[code * 8 + row];
    let flashing = !altchar && code / 64 == 1;
    let lit = bit_of(g, 6 - k);
    if lit != (flashing && blink_inverted) { white() } else { black() }
}

/// The four bits of the double high-resolution stream from bit `i` on: the low seven bits
/// of each auxiliary and then main byte of the row, low bit first.
pub open spec fn dhr_stream_bit(v: VideoInputs, row_addr: int, j: int) -> int {
    let g = j / 7;
    let byte = if g % 2 == 0 { aux_byte(v.aux, row_addr + g / 2) } else { byte_at(v.main, row_addr + g / 2) };
    if bit_of(byte, j % 7) { 1 } else { 0 }
}

/// The four-bit window at pixel `i` of a double high-resolution row.
pub open spec fn dhr_window(v: VideoInputs, row_addr: int, i: int) -> int {
    dhr_stream_bit(v, row_addr, i) + 2 * dhr_stream_bit(v, row_addr, i + 1) + 4 * dhr_stream_bit(v, row_addr, i + 2)
        + 8 * dhr_stream_bit(v, row_addr, i + 3)
}

/// A four-bit value rotated left by `w` (0 to 3).
pub open spec fn rotl4(n: int, w: int) -> int {
    (n * crate::utils::bits::pow2(w as nat) as int) % 16 + n / crate::utils::bits::pow2((4 - w) as nat) as int
}

/// Pixel `i` of a double high-resolution row: the colour of the window at `i`, rotated by
/// `i` modulo 4; the last three pixels stay black.
pub open spec fn dhr_pixel(v: VideoInputs, row_addr: int, i: int) -> Rgb {
    if i < 557 {
        dhr_color(rotl4(dhr_window(v, row_addr, i), i % 4) as u8)
    } else {
        black()
    }
}

/// Pixel `i` of a Video-7 black and white row: each auxiliary and then main byte gives
/// seven pixels, low bit first, white where set.
pub open spec fn video7_pixel(v: VideoInputs, row_addr: int, i: int) -> Rgb {
    let offset = i / 14;
    let byte = if (i % 14) < 7 { aux_byte(v.aux, row_addr + offset) } else { byte_at(v.main, row_addr + offset) };
    if bit_of(byte, i % 7) { white() } else { black() }
}

/// Dot `k` (0 to 279) of a high-resolution row: bit `k % 7` of byte `k / 7`.
pub open spec fn hires_dot(v: VideoInputs, row_addr: int, k: int) -> bool {
    0 <= k < 280 && bit_of(byte_at(v.main, row_addr + k / 7), k % 7)
}

/// A lit dot next to a lit dot before it shows white.
pub open spec fn hires_white(v: VideoInputs, row_addr: int, k: int) -> bool {
    hires_dot(v, row_addr, k) && hires_dot(v, row_addr, k - 1)
}

/// Dot `k` of a high-resolution row, two pixels wide: white where it or the next dot shows
/// white, else its colour (by column and the palette bit of its byte) where lit, else
/// black.
pub open spec fn hires_pixel(v: VideoInputs, row_addr: int, i: int) -> Rgb {
    let k = i / 2;
    if hires_white(v, row_addr, k) || hires_white(v, row_addr, k + 1) {
        white()
    } else if hires_dot(v, row_addr, k) {
        hires_color(k % 2 == 1, bit_of(byte_at(v.main, row_addr + k / 7), 7))
    } else {
        black()
    }
}

/// A lit high-resolution dot with no lit neighbour shows, on both its pixels, a colour set
/// by its column and the palette bit (bit 7) of its byte: with the bit clear violet in an
/// even column and green in an odd one, with it set blue in an even column and red in an
/// odd one.
pub proof fn lemma_hires_isolated_dot_colour(v: VideoInputs, row_addr: int, k: int, i: int)
    requires
        0 <= k < 280,
        i == 2 * k || i == 2 * k + 1,
        bit_of(byte_at(v.main, row_addr + k / 7), k % 7),
        k > 0 ==> !bit_of(byte_at(v.main, row_addr + (k - 1) / 7), (k - 1) % 7),
        k < 279 ==> !bit_of(byte_at(v.main, row_addr + (k + 1) / 7), (k + 1) % 7),
    ensures
        ({
            let palette = bit_of(byte_at(v.main, row_addr + k / 7), 7);
            hires_pixel(v, row_addr, i) == (if !palette {
                if k % 2 == 0 { Rgb { r: 0xbb, g: 0x36, b: 0xff } } else { Rgb { r: 0x43, g: 0xc8, b: 0x00 } }
            } else {
                if k % 2 == 0 { Rgb { r: 0x07, g: 0xa8, b: 0xe0 } } else { Rgb { r: 0xf9, g: 0x56, b: 0x1d } }
            })
        }),
{
    assert(i / 2 == k);
}

/// Two lit high-resolution dots side by side both show white, on both their pixels; an
/// unlit dot shows black.
pub proof fn lemma_hires_white_and_black(v: VideoInputs, row_addr: int, k: int, i: int)
    requires
        0 <= k < 280,
        i == 2 * k || i == 2 * k + 1,
    ensures
        bit_of(byte_at(v.main, row_addr + k / 7), k % 7) && k + 1 < 280 && bit_of(
            byte_at(v.main, row_addr + (k + 1) / 7),
            (k + 1) % 7,
        ) ==> hires_pixel(v, row_addr, i) == (Rgb { r: 255, g: 255, b: 255 }),
        bit_of(byte_at(v.main, row_addr + k / 7), k % 7) && k > 0 && bit_of(
            byte_at(v.main, row_addr + (k - 1) / 7),
            (k - 1) % 7,
        ) ==> hires_pixel(v, row_addr, i) == (Rgb { r: 255, g: 255, b: 255 }),
        !bit_of(byte_at(v.main, row_addr + k / 7), k % 7) ==> hires_pixel(v, row_addr, i) == (Rgb { r: 0, g: 0, b: 0 }),
{
    assert(i / 2 == k);
}

/// Pixel `px` of scan line `line` (0 to 191).
pub open spec fn line_pixel(v: VideoInputs, line: int, px: int) -> Rgb {
    let section = line / 64;
    let row = (line / 8) % 8;
    let subrow = line % 8;
    let text = on(v, Switch::TextMode);
    let hires = on(v, Switch::HiresMode);
    let lores = !hires && !text;
    let text_base: int = if on(v, Switch::PageTwo) && !on(v, Switch::Eightycol) { 0x800 } else { 0x400 };
    let hires_base: int = if on(v, Switch::PageTwo) && on(v, Switch::An3) { 0x4000 } else { 0x2000 };
    let text_row = text_base + section * 40 + row * 0x80;
    let hires_row = hires_base + section * 40 + row * 0x80;
    let mixed_text = on(v, Switch::MixMode) && section == 2 && row >= 4;
    if lores || text || mixed_text {
        let col = px / 14;
        let k = px % 14;
        let code = byte_at(v.main, text_row + col);
        if text || mixed_text {
            if on(v, Switch::Eightycol) {
                if k < 7 {
                    char_pixel(v, aux_byte(v.aux, text_row + col), subrow, k)
                } else {
                    char_pixel(v, code, subrow, k - 7)
                }
            } else {
                char_pixel(v, code, subrow, k / 2)
            }
        } else {
            lores_color(if subrow > 3 { code / 16 } else { code % 16 })
        }
    } else {
        let row_addr = hires_row + subrow * 0x400;
        if !on(v, Switch::An3) && on(v, Switch::Eightycol) {
            if v.video_mode == VideoMode::Video7BlackWhite || v.monitor_type != MonitorType::Color {
                video7_pixel(v, row_addr, px)
            } else {
                dhr_pixel(v, row_addr, px)
            }
        } else {
            hires_pixel(v, row_addr, px)
        }
    }
}

/// Pixel `px` of a scan line of text (`text`) or low-resolution graphics whose row of
/// codes starts at `text_row`.
pub open spec fn text_line_pixel(v: VideoInputs, line: int, text_row: int, text: bool, px: int) -> Rgb {
    let col = px / 14;
    let k = px % 14;
    let subrow = line % 8;
    let code = byte_at(v.main, text_row + col);
    if text {
        if on(v, Switch::Eightycol) {
            if k < 7 {
                char_pixel(v, aux_byte(v.aux, text_row + col), subrow, k)
            } else {
                char_pixel(v, code, subrow, k - 7)
            }
        } else {
            char_pixel(v, code, subrow, k / 2)
        }
    } else {
        lores_color(if subrow > 3 { code / 16 } else { code % 16 })
    }
}

/// Pixel `i` of the frame: scan line `i / 1120`, shown twice.
pub open spec fn frame_pixel(v: VideoInputs, i: int) -> Rgb {
    line_pixel(v, i / 1120, i % 560)
}

/// The frame: 192 scan lines of 560 pixels, each line shown twice.
pub open spec fn frame_spec(v: VideoInputs) -> Seq<Rgb> {
    Seq::new(560 * 384, |i: int| frame_pixel(v, i))
}

/// The frame as a monitor shows it: on a monochrome monitor every pixel that is not black
/// takes the monitor's colour.
pub open spec fn monitor_frame(frame: Seq<Rgb>, m: MonitorType) -> Seq<Rgb> {
    Seq::new(frame.len(), |i: int| match monitor_color(m) {
        Some(c) => if frame[i] != black() { c } else { frame[i] },
        None => frame[i],
    })
}

/// The byte at `a` of main memory, or 0 past its end.
fn main_byte(main: &MemoryBank, a: usize) -> (r: u8)
    ensures
        r == byte_at(main@, a as int),
{
    match main.read(a) {
        Ok(b) => b,
        Err(_) => 0,
    }
}

/// The byte at `a` of auxiliary memory, or 0 past its end or without the card.
fn aux_byte_of(aux: Option<&Extended80ColumnText>, a: usize) -> (r: u8)
    requires
        aux matches Some(t) ==> t.wf(),
    ensures
        r == aux_byte(aux_view(aux), a as int),
{
    match aux {
        Some(t) => {
            proof {
                t.lemma_memory_len();
            }
            match t.read(a) {
                Ok(b) => b,
                Err(_) => 0,
            }
        },
        None => 0,
    }
}

/// The auxiliary memory of the card, if there is one.
pub open spec fn aux_view(aux: Option<&Extended80ColumnText>) -> Option<Seq<u8>> {
    match aux {
        Some(t) => Some(t.memory_spec()),
        None => None,
    }
}

/// The video output: the character generator, the Video-7 mode, the monitor, the last frame
/// drawn and the blink phase of flashing characters.
pub struct Video {
    pub character_rom: CharacterROM,
    pub video_mode: VideoMode,
    pub monitor_type: MonitorType,
    pub frame: Vec<Rgb>,
    pub blink_inverted: bool,
}

impl Video {
    /// The Video-7 mode.
    pub open spec fn video_mode_spec(&self) -> VideoMode {
        self.video_mode
    }

    /// The monitor.
    pub open spec fn monitor_type_spec(&self) -> MonitorType {
        self.monitor_type
    }

    /// The last frame drawn.
    pub open spec fn frame_view(&self) -> Seq<Rgb> {
        self.frame@
    }

    /// Whether flashing characters show inverted.
    pub open spec fn blink_spec(&self) -> bool {
        self.blink_inverted
    }

    /// What the video draws from, given the switches and memories.
    pub open spec fn inputs(&self, switches: Seq<bool>, main: Seq<u8>, aux: Option<Seq<u8>>) -> VideoInputs {
        VideoInputs {
            switches,
            main,
            aux,
            primary: self.character_rom.data_primary@,
            alternate: self.character_rom.data_alternate@,
            blink_inverted: self.blink_spec(),
            video_mode: self.video_mode_spec(),
            monitor_type: self.monitor_type_spec(),
        }
    }

    /// The character sets hold all 256 characters.
    pub open spec fn wf(&self) -> bool {
        &&& self.character_rom.data_primary@.len() >= 2048
        &&& self.character_rom.data_alternate@.len() >= 2048
    }

    /// A colour monitor, no Video-7 mode, a black frame.
    pub fn new(character_rom: CharacterROM) -> (v: Video)
        ensures
            v.character_rom == character_rom,
            v.video_mode_spec() == VideoMode::Implied,
            v.monitor_type_spec() == MonitorType::Color,
            v.frame_view() == Seq::new(215040, |i: int| black()),
            !v.blink_spec(),
    {
        let mut frame: Vec<Rgb> = Vec::new();
        let mut i: usize = 0;
        while i < 215040
            invariant
                i <= 215040,
                frame@ == Seq::new(i as nat, |k: int| black()),
            decreases 215040 - i,
        {
            frame.push(Rgb { r: 0, g: 0, b: 0 });
            assert(frame@ =~= Seq::new((i + 1) as nat, |k: int| black()));
            i += 1;
        }
        Video { character_rom, video_mode: VideoMode::Implied, monitor_type: MonitorType::Color, frame, blink_inverted: false }
    }

    /// Nothing to reset.
    pub fn reset(&self) {
    }

    /// Selects the monitor.
    pub fn set_monitor_type(&mut self, monitor: MonitorType)
        ensures
            final(self).monitor_type_spec() == monitor,
            final(self).video_mode_spec() == old(self).video_mode_spec(),
            final(self).frame_view() == old(self).frame_view(),
            final(self).blink_spec() == old(self).blink_spec(),
            final(self).character_rom == old(self).character_rom,
    {
        self.monitor_type = monitor;
    }

    /// The monitor.
    pub fn get_monitor_type(&self) -> (r: MonitorType)
        ensures
            r == self.monitor_type_spec(),
    {
        self.monitor_type
    }

    /// Selects the Video-7 mode.
    pub fn set_video_mode(&mut self, mode: VideoMode)
        ensures
            final(self).video_mode_spec() == mode,
            final(self).monitor_type_spec() == old(self).monitor_type_spec(),
            final(self).frame_view() == old(self).frame_view(),
            final(self).blink_spec() == old(self).blink_spec(),
            final(self).character_rom == old(self).character_rom,
    {
        self.video_mode = mode;
    }

    /// The Video-7 mode.
    pub fn get_video_mode(&self) -> (r: VideoMode)
        ensures
            r == self.video_mode_spec(),
    {
        self.video_mode
    }

    /// Flips the blink phase of flashing characters (the host does it four times a second).
    pub fn toggle_blink(&mut self)
        ensures
            final(self).blink_spec() == !old(self).blink_spec(),
            final(self).video_mode_spec() == old(self).video_mode_spec(),
            final(self).monitor_type_spec() == old(self).monitor_type_spec(),
            final(self).frame_view() == old(self).frame_view(),
            final(self).character_rom == old(self).character_rom,
    {
        self.blink_inverted = !self.blink_inverted;
    }

    /// The last frame drawn.
    pub fn frame(&self) -> (r: &[Rgb])
        ensures
            r@ == self.frame_view(),
    {
        self.frame.as_slice()
    }

    /// The colour of low-resolution colour `code`.
    pub fn get_color(code: u8) -> (r: Rgb)
        ensures
            r == lores_color(code),
    {
        if code == 0 { Rgb { r: 0, g: 0, b: 0 } }
        else if code == 1 { Rgb { r: 0x8a, g: 0x21, b: 0x40 } }
        else if code == 2 { Rgb { r: 0x3c, g: 0x22, b: 0xa5 } }
        else if code == 3 { Rgb { r: 0xc8, g: 0x47, b: 0xe4 } }
        else if code == 4 { Rgb { r: 0x07, g: 0x65, b: 0x3e } }
        else if code == 5 { Rgb { r: 0x7b, g: 0x7e, b: 0x80 } }
        else if code == 6 { Rgb { r: 0x30, g: 0x8f, b: 0xe3 } }
        else if code == 7 { Rgb { r: 0xb9, g: 0xa9, b: 0xfd } }
        else if code == 8 { Rgb { r: 0x3b, g: 0x51, b: 0x07 } }
        else if code == 9 { Rgb { r: 0xc7, g: 0x70, b: 0x28 } }
        else if code == 10 { Rgb { r: 0x7b, g: 0x7e, b: 0x80 } }
        else if code == 11 { Rgb { r: 0xf3, g: 0x9a, b: 0xc2 } }
        else if code == 12 { Rgb { r: 0x2f, g: 0xb8, b: 0x1f } }
        else if code == 13 { Rgb { r: 0xb9, g: 0xd0, b: 0x60 } }
        else if code == 14 { Rgb { r: 0x6e, g: 0xe1, b: 0xc0 } }
        else if code == 15 { Rgb { r: 255, g: 255, b: 255 } }
        else { Rgb { r: 0, g: 0, b: 0 } }
    }

    /// The double high-resolution colour of a four-bit pattern.
    pub fn get_double_hires_color(value: u8) -> (r: Rgb)
        ensures
            r == dhr_color(value),
    {
        let v = reverse_bits(value) / 16;
        if v == 0 { Rgb { r: 0, g: 0, b: 0 } }
        else if v == 1 { Rgb { r: 0xdd, g: 0x00, b: 0x33 } }
        else if v == 2 { Rgb { r: 0x88, g: 0x55, b: 0x00 } }
        else if v == 3 { Rgb { r: 0xff, g: 0x66, b: 0x00 } }
        else if v == 4 { Rgb { r: 0x00, g: 0x77, b: 0x22 } }
        else if v == 5 { Rgb { r: 0xaa, g: 0xaa, b: 0xaa } }
        else if v == 6 { Rgb { r: 0x00, g: 0x77, b: 0x22 } }
        else if v == 7 { Rgb { r: 0xff, g: 0xff, b: 0x00 } }
        else if v == 8 { Rgb { r: 0x00, g: 0x00, b: 0x99 } }
        else if v == 9 { Rgb { r: 0xdd, g: 0x22, b: 0xdd } }
        else if v == 10 { Rgb { r: 0x55, g: 0x55, b: 0x55 } }
        else if v == 11 { Rgb { r: 0xff, g: 0x99, b: 0x88 } }
        else if v == 12 { Rgb { r: 0x22, g: 0x22, b: 0xff } }
        else if v == 13 { Rgb { r: 0x66, g: 0xaa, b: 0xff } }
        else if v == 14 { Rgb { r: 0x44, g: 0xff, b: 0x99 } }
        else { Rgb { r: 255, g: 255, b: 255 } }
    }

    /// The seven pixels of row `row` of character `code`.
    pub fn get_text_character_row(&self, code: u8, blink_state_inverted: bool, row: usize, altchar: bool) -> (r: Vec<Rgb>)
        requires
            self.wf(),
            row < 8,
        ensures
            r@ == Seq::new(7, |k: int| glyph_pixel(self.character_rom.data_primary@, self.character_rom.data_alternate@, altchar, blink_state_inverted, code, row as int, k)),
    {
        let flashing = !altchar && code / 64 == 1;
        let character = self.character_rom.get_character(code, altchar);
        let g = character[row];
        let mut out: Vec<Rgb> = Vec::new();
        let mut k: usize = 0;
        while k < 7
            invariant
                k <= 7,
                row < 8,
                self.wf(),
                g == (if altchar { self.character_rom.data_alternate@ } else { self.character_rom.data_primary@ })[code * 8 + row],
                flashing == (!altchar && code / 64 == 1),
                out@ == Seq::new(k as nat, |j: int| glyph_pixel(self.character_rom.data_primary@, self.character_rom.data_alternate@, altchar, blink_state_inverted, code, row as int, j)),
            decreases 7 - k,
        {
            let lit = get_bit(g, (6 - k) as u32);
            let px = if lit != (flashing && blink_state_inverted) { Rgb { r: 255, g: 255, b: 255 } } else { Rgb { r: 0, g: 0, b: 0 } };
            out.push(px);
            assert(out@ =~= Seq::new((k + 1) as nat, |j: int| glyph_pixel(self.character_rom.data_primary@, self.character_rom.data_alternate@, altchar, blink_state_inverted, code, row as int, j)));
            k += 1;
        }
        out
    }
}

/// 2 to the power `w` (0 to 4).
fn pow2_small(w: u32) -> (r: u32)
    requires
        w <= 4,
    ensures
        r == crate::utils::bits::pow2(w as nat),
        1 <= r <= 16,
{
    proof {
        reveal_with_fuel(crate::utils::bits::pow2, 5);
    }
    if w == 0 { 1 } else if w == 1 { 2 } else if w == 2 { 4 } else if w == 3 { 8 } else { 16 }
}

impl Video {
    /// Bit `j` of the double high-resolution stream of the row at `row_addr`.
    fn dhr_bit(main: &MemoryBank, aux: Option<&Extended80ColumnText>, row_addr: usize, j: usize, Ghost(v): Ghost<VideoInputs>) -> (r: u32)
        requires
            aux matches Some(t) ==> t.wf(),
            v.main == main@,
            v.aux == aux_view(aux),
            row_addr < 0x10000,
            j < 600,
        ensures
            r == dhr_stream_bit(v, row_addr as int, j as int),
            r <= 1,
    {
        let g = j / 7;
        let byte = if g % 2 == 0 { aux_byte_of(aux, row_addr + g / 2) } else { main_byte(main, row_addr + g / 2) };
        if get_bit(byte, (j % 7) as u32) { 1 } else { 0 }
    }

    /// A double high-resolution row: 557 pixels from a sliding four-bit window over the
    /// auxiliary and main bytes, then three black ones.
    fn fill_double_hires_row(main: &MemoryBank, aux: Option<&Extended80ColumnText>, row_addr: usize, Ghost(v): Ghost<VideoInputs>) -> (r: Vec<Rgb>)
        requires
            aux matches Some(t) ==> t.wf(),
            v.main == main@,
            v.aux == aux_view(aux),
            row_addr < 0x10000,
        ensures
            r@ == Seq::new(560, |i: int| dhr_pixel(v, row_addr as int, i)),
    {
        let mut out: Vec<Rgb> = Vec::new();
        let mut i: usize = 0;
        while i < 560
            invariant
                i <= 560,
                aux matches Some(t) ==> t.wf(),
                v.main == main@,
                v.aux == aux_view(aux),
                row_addr < 0x10000,
                out@ == Seq::new(i as nat, |k: int| dhr_pixel(v, row_addr as int, k)),
            decreases 560 - i,
        {
            let px = if i < 557 {
                let n = Self::dhr_bit(main, aux, row_addr, i, Ghost(v)) + 2 * Self::dhr_bit(main, aux, row_addr, i + 1, Ghost(v))
                    + 4 * Self::dhr_bit(main, aux, row_addr, i + 2, Ghost(v)) + 8 * Self::dhr_bit(main, aux, row_addr, i + 3, Ghost(v));
                let w = (i % 4) as u32;
                let p1 = pow2_small(w);
                let p2 = pow2_small(4 - w);
                assert(n <= 15);
                assert(n * p1 <= 240) by (nonlinear_arith)
                    requires
                        n <= 15,
                        p1 <= 16,
                ;
                let value = (n * p1) % 16 + n / p2;
                assert(value < 32) by (nonlinear_arith)
                    requires
                        n < 16,
                        value == (n * p1) % 16 + n / p2,
                        p2 >= 1,
                ;
                Self::get_double_hires_color(value as u8)
            } else {
                Rgb { r: 0, g: 0, b: 0 }
            };
            out.push(px);
            assert(out@ =~= Seq::new((i + 1) as nat, |k: int| dhr_pixel(v, row_addr as int, k)));
            i += 1;
        }
        out
    }

    /// A Video-7 black and white row: seven pixels from each auxiliary and then main byte,
    /// low bit first.
    fn fill_video7_black_white_row(main: &MemoryBank, aux: Option<&Extended80ColumnText>, row_addr: usize, Ghost(v): Ghost<VideoInputs>) -> (r: Vec<Rgb>)
        requires
            aux matches Some(t) ==> t.wf(),
            v.main == main@,
            v.aux == aux_view(aux),
            row_addr < 0x10000,
        ensures
            r@ == Seq::new(560, |i: int| video7_pixel(v, row_addr as int, i)),
    {
        let mut out: Vec<Rgb> = Vec::new();
        let mut i: usize = 0;
        while i < 560
            invariant
                i <= 560,
                aux matches Some(t) ==> t.wf(),
                v.main == main@,
                v.aux == aux_view(aux),
                row_addr < 0x10000,
                out@ == Seq::new(i as nat, |k: int| video7_pixel(v, row_addr as int, k)),
            decreases 560 - i,
        {
            let offset = i / 14;
            let byte = if i % 14 < 7 { aux_byte_of(aux, row_addr + offset) } else { main_byte(main, row_addr + offset) };
            let px = if get_bit(byte, (i % 7) as u32) { Rgb { r: 255, g: 255, b: 255 } } else { Rgb { r: 0, g: 0, b: 0 } };
            out.push(px);
            assert(out@ =~= Seq::new((i + 1) as nat, |k: int| video7_pixel(v, row_addr as int, k)));
            i += 1;
        }
        out
    }

    /// Dot `k` of the high-resolution row at `row_addr`, and the palette bit of its byte.
    fn hires_dot_exec(main: &MemoryBank, row_addr: usize, k: usize, Ghost(v): Ghost<VideoInputs>) -> (r: bool)
        requires
            v.main == main@,
            row_addr < 0x10000,
            k < 0x10000,
        ensures
            r == hires_dot(v, row_addr as int, k as int),
    {
        if k >= 280 {
            return false;
        }
        get_bit(main_byte(main, row_addr + k / 7), (k % 7) as u32)
    }

    /// A high-resolution row: 280 dots, two pixels each, white where two lit dots meet,
    /// else coloured by column and palette bit where lit.
    fn fill_hires_row(main: &MemoryBank, row_addr: usize, Ghost(v): Ghost<VideoInputs>) -> (r: Vec<Rgb>)
        requires
            v.main == main@,
            row_addr < 0x10000,
        ensures
            r@ == Seq::new(560, |i: int| hires_pixel(v, row_addr as int, i)),
    {
        let mut out: Vec<Rgb> = Vec::new();
        let mut k: usize = 0;
        while k < 280
            invariant
                k <= 280,
                v.main == main@,
                row_addr < 0x10000,
                out@ == Seq::new(2 * k as nat, |i: int| hires_pixel(v, row_addr as int, i)),
            decreases 280 - k,
        {
            let dot = Self::hires_dot_exec(main, row_addr, k, Ghost(v));
            let prev = if k == 0 { false } else { Self::hires_dot_exec(main, row_addr, k - 1, Ghost(v)) };
            let next = Self::hires_dot_exec(main, row_addr, k + 1, Ghost(v));
            let white = (dot && prev) || (next && dot);
            let px = if white {
                Rgb { r: 255, g: 255, b: 255 }
            } else if dot {
                let alternate = get_bit(main_byte(main, row_addr + k / 7), 7);
                let odd = k % 2 == 1;
                if !odd && !alternate {
                    Rgb { r: 0xbb, g: 0x36, b: 0xff }
                } else if odd && !alternate {
                    Rgb { r: 0x43, g: 0xc8, b: 0x00 }
                } else if !odd && alternate {
                    Rgb { r: 0x07, g: 0xa8, b: 0xe0 }
                } else {
                    Rgb { r: 0xf9, g: 0x56, b: 0x1d }
                }
            } else {
                Rgb { r: 0, g: 0, b: 0 }
            };
            proof {
                assert(k == 0 ==> !hires_dot(v, row_addr as int, k - 1));
            }
            out.push(px);
            out.push(px);
            assert(out@ =~= Seq::new(2 * (k + 1) as nat, |i: int| hires_pixel(v, row_addr as int, i)));
            k += 1;
        }
        out
    }
}

impl Video {
    /// A scan line of text or low-resolution graphics.
    fn text_line(&self, switches: &SoftSwitches, main: &MemoryBank, aux: Option<&Extended80ColumnText>, line: usize, text_row: usize, text: bool, Ghost(v): Ghost<VideoInputs>) -> (r: Vec<Rgb>)
        requires
            self.wf(),
            aux matches Some(t) ==> t.wf(),
            v == self.inputs(switches@, main@, aux_view(aux)),
            line < 192,
            text_row < 0x10000,
        ensures
            r@ == Seq::new(560, |px: int| text_line_pixel(v, line as int, text_row as int, text, px)),
    {
        let subrow = line % 8;
        let altchar = switches.get(Switch::Altchar);
        let eightycol = switches.get(Switch::Eightycol);
        let mut out: Vec<Rgb> = Vec::new();
        let mut y: usize = 0;
        while y < 40
            invariant
                y <= 40,
                self.wf(),
                aux matches Some(t) ==> t.wf(),
                v == self.inputs(switches@, main@, aux_view(aux)),
                text_row < 0x10000,
                subrow == line % 8,
                altchar == on(v, Switch::Altchar),
                eightycol == on(v, Switch::Eightycol),
                out@ == Seq::new(14 * y as nat, |q: int| text_line_pixel(v, line as int, text_row as int, text, q)),
            decreases 40 - y,
        {
            let code = main_byte(main, text_row + y);
            if text {
                let main_row = self.get_text_character_row(code, self.blink_inverted, subrow, altchar);
                if eightycol {
                    let code2 = aux_byte_of(aux, text_row + y);
                    let aux_row = self.get_text_character_row(code2, self.blink_inverted, subrow, altchar);
                    let mut k: usize = 0;
                    while k < 14
                        invariant
                            k <= 14,
                            y < 40,
                            subrow == line % 8,
                            main_row@.len() == 7,
                            aux_row@.len() == 7,
                            out@ == Seq::new((14 * y + k) as nat, |q: int| text_line_pixel(v, line as int, text_row as int, text, q)),
                            forall|j: int| 0 <= j < 7 ==> main_row@[j] == char_pixel(v, code, subrow as int, j),
                            forall|j: int| 0 <= j < 7 ==> aux_row@[j] == char_pixel(v, code2, subrow as int, j),
                            code == byte_at(v.main, text_row + y),
                            code2 == aux_byte(v.aux, text_row + y),
                            text,
                            eightycol == on(v, Switch::Eightycol),
                            eightycol,
                        decreases 14 - k,
                    {
                        let px = if k < 7 { aux_row[k] } else { main_row[k - 7] };
                        out.push(px);
                        assert((14 * y + k) / 14 == y && (14 * y + k) % 14 == k) by (nonlinear_arith)
                            requires
                                k < 14,
                        ;
                        assert(text_line_pixel(v, line as int, text_row as int, text, (14 * y + k) as int) == px);
                    assert(out@ =~= Seq::new((14 * y + k + 1) as nat, |q: int| text_line_pixel(v, line as int, text_row as int, text, q)));
                        k += 1;
                    }
                } else {
                    let mut k: usize = 0;
                    while k < 14
                        invariant
                            k <= 14,
                            y < 40,
                            subrow == line % 8,
                            main_row@.len() == 7,
                            out@ == Seq::new((14 * y + k) as nat, |q: int| text_line_pixel(v, line as int, text_row as int, text, q)),
                            forall|j: int| 0 <= j < 7 ==> main_row@[j] == char_pixel(v, code, subrow as int, j),
                            code == byte_at(v.main, text_row + y),
                            text,
                            eightycol == on(v, Switch::Eightycol),
                            !eightycol,
                        decreases 14 - k,
                    {
                        let px = main_row[k / 2];
                        out.push(px);
                        assert((14 * y + k) / 14 == y && (14 * y + k) % 14 == k) by (nonlinear_arith)
                            requires
                                k < 14,
                        ;
                        assert(text_line_pixel(v, line as int, text_row as int, text, (14 * y + k) as int) == px);
                    assert(out@ =~= Seq::new((14 * y + k + 1) as nat, |q: int| text_line_pixel(v, line as int, text_row as int, text, q)));
                        k += 1;
                    }
                }
            } else {
                let color = if subrow > 3 { Self::get_color(code / 16) } else { Self::get_color(code % 16) };
                let mut k: usize = 0;
                while k < 14
                    invariant
                        k <= 14,
                        y < 40,
                        subrow == line % 8,
                        out@ == Seq::new((14 * y + k) as nat, |q: int| text_line_pixel(v, line as int, text_row as int, text, q)),
                        code == byte_at(v.main, text_row + y),
                        color == lores_color(if subrow > 3 { code / 16 } else { code % 16 }),
                        !text,
                    decreases 14 - k,
                {
                    out.push(color);
                    assert((14 * y + k) / 14 == y && (14 * y + k) % 14 == k) by (nonlinear_arith)
                        requires
                            k < 14,
                    ;
                    assert(text_line_pixel(v, line as int, text_row as int, text, (14 * y + k) as int) == color);
                    assert(out@ =~= Seq::new((14 * y + k + 1) as nat, |q: int| text_line_pixel(v, line as int, text_row as int, text, q)));
                    k += 1;
                }
            }
            y += 1;
        }
        out
    }

    /// Scan line `line` (0 to 191).
    fn draw_line(&self, switches: &SoftSwitches, main: &MemoryBank, aux: Option<&Extended80ColumnText>, line: usize, Ghost(v): Ghost<VideoInputs>) -> (r: Vec<Rgb>)
        requires
            self.wf(),
            aux matches Some(t) ==> t.wf(),
            v == self.inputs(switches@, main@, aux_view(aux)),
            line < 192,
        ensures
            r@ == Seq::new(560, |px: int| line_pixel(v, line as int, px)),
    {
        let section = line / 64;
        let row = (line / 8) % 8;
        let subrow = line % 8;
        let text = switches.get(Switch::TextMode);
        let hires = switches.get(Switch::HiresMode);
        let lores = !hires && !text;
        let page_two = switches.get(Switch::PageTwo);
        let eightycol = switches.get(Switch::Eightycol);
        let an3 = switches.get(Switch::An3);
        let text_base: usize = if page_two && !eightycol { 0x800 } else { 0x400 };
        let hires_base: usize = if page_two && an3 { 0x4000 } else { 0x2000 };
        let text_row = text_base + section * 40 + row * 0x80;
        let hires_row = hires_base + section * 40 + row * 0x80;
        let mixed_text = switches.get(Switch::MixMode) && section == 2 && row >= 4;
        let r = if lores || text || mixed_text {
            self.text_line(switches, main, aux, line, text_row, text || mixed_text, Ghost(v))
        } else {
            let row_addr = hires_row + subrow * 0x400;
            if !an3 && eightycol {
                if self.video_mode == VideoMode::Video7BlackWhite || !(self.monitor_type == MonitorType::Color) {
                    Self::fill_video7_black_white_row(main, aux, row_addr, Ghost(v))
                } else {
                    Self::fill_double_hires_row(main, aux, row_addr, Ghost(v))
                }
            } else {
                Self::fill_hires_row(main, row_addr, Ghost(v))
            }
        };
        assert(r@ =~= Seq::new(560, |px: int| line_pixel(v, line as int, px)));
        r
    }

    /// Draws a frame from the soft switches and memory: 192 scan lines of 560 pixels, each
    /// shown twice.
    pub fn draw_frame(&self, switches: &SoftSwitches, main: &MemoryBank, aux: Option<&Extended80ColumnText>) -> (r: Vec<Rgb>)
        requires
            self.wf(),
            aux matches Some(t) ==> t.wf(),
        ensures
            r@ == frame_spec(self.inputs(switches@, main@, aux_view(aux))),
    {
        let ghost v = self.inputs(switches@, main@, aux_view(aux));
        let mut out: Vec<Rgb> = Vec::new();
        let mut line: usize = 0;
        while line < 192
            invariant
                line <= 192,
                self.wf(),
                aux matches Some(t) ==> t.wf(),
                v == self.inputs(switches@, main@, aux_view(aux)),
                out@ == Seq::new(1120 * line as nat, |q: int| frame_pixel(v, q)),
            decreases 192 - line,
        {
            let pixels = self.draw_line(switches, main, aux, line, Ghost(v));
            let mut copy: usize = 0;
            while copy < 2
                invariant
                    copy <= 2,
                    line < 192,
                    pixels@ == Seq::new(560, |px: int| line_pixel(v, line as int, px)),
                    out@ == Seq::new((1120 * line + 560 * copy) as nat, |q: int| frame_pixel(v, q)),
                decreases 2 - copy,
            {
                let mut px: usize = 0;
                while px < 560
                    invariant
                        px <= 560,
                        copy < 2,
                        line < 192,
                        pixels@ == Seq::new(560, |q: int| line_pixel(v, line as int, q)),
                        out@ == Seq::new((1120 * line + 560 * copy + px) as nat, |q: int| frame_pixel(v, q)),
                    decreases 560 - px,
                {
                    out.push(pixels[px]);
                    assert((1120 * line + 560 * copy + px) / 1120 == line && (1120 * line + 560 * copy + px) % 560 == px) by (nonlinear_arith)
                        requires
                            px < 560,
                            copy < 2,
                    ;
                    assert(frame_pixel(v, (1120 * line + 560 * copy + px) as int) == pixels@[px as int]);
                    assert(out@ =~= Seq::new((1120 * line + 560 * copy + px + 1) as nat, |q: int| frame_pixel(v, q)));
                    px += 1;
                }
                copy += 1;
            }
            line += 1;
        }
        out
    }

    /// Draws a frame and keeps it, as the monitor shows it.
    pub fn update_frame(&mut self, switches: &SoftSwitches, main: &MemoryBank, aux: Option<&Extended80ColumnText>)
        requires
            old(self).wf(),
            aux matches Some(t) ==> t.wf(),
        ensures
            final(self).frame_view() == monitor_frame(frame_spec(old(self).inputs(switches@, main@, aux_view(aux))), old(self).monitor_type),
            final(self).video_mode == old(self).video_mode,
            final(self).monitor_type == old(self).monitor_type,
            final(self).blink_inverted == old(self).blink_inverted,
            final(self).character_rom == old(self).character_rom,
    {
        let frame = self.draw_frame(switches, main, aux);
        let ghost fv = frame@;
        let color: Option<Rgb> = match self.monitor_type {
            MonitorType::Color => None,
            MonitorType::Monochrome => Some(Rgb { r: 255, g: 255, b: 255 }),
            MonitorType::Green => Some(Rgb { r: 51, g: 255, b: 51 }),
            MonitorType::Amber => Some(Rgb { r: 0xff, g: 0xb7, b: 0x00 }),
        };
        let mut out: Vec<Rgb> = Vec::new();
        let mut i: usize = 0;
        while i < frame.len()
            invariant
                i <= fv.len(),
                fv == frame@,
                color == monitor_color(self.monitor_type),
                out@ == monitor_frame(fv, self.monitor_type).take(i as int),
            decreases fv.len() - i,
        {
            let p = frame[i];
            let q = match color {
                Some(c) => if !(p.r == 0 && p.g == 0 && p.b == 0) { c } else { p },
                None => p,
            };
            out.push(q);
            assert(out@ =~= monitor_frame(fv, self.monitor_type).take(i + 1));
            i += 1;
        }
        assert(monitor_frame(fv, self.monitor_type).take(i as int) =~= monitor_frame(fv, self.monitor_type));
        self.frame = out;
    }
}

} // verus!
