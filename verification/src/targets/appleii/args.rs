use vstd::prelude::*;

verus! {

/// ROM images for an Apple II, each replacing the built-in one where given.
#[derive(Debug, Clone, PartialEq, Eq)]
pub struct AppleIIArgs {
    pub rom_f8: Option<String>,
    pub rom_e0: Option<String>,
    pub rom_e8: Option<String>,
    pub rom_f0: Option<String>,
    pub rom_d0: Option<String>,
    pub rom_d8: Option<String>,
}

/// ROM images for an Apple IIe.
#[derive(Debug, Clone, PartialEq, Eq)]
pub struct AppleIIEArgs {
    pub rom_c0: Option<String>,
    pub rom_e0: Option<String>,
}

/// ROM images for an enhanced Apple IIe.
#[derive(Debug, Clone, PartialEq, Eq)]
pub struct AppleIIEEnhancedArgs {
    pub rom_c0: Option<String>,
    pub rom_e0: Option<String>,
}

/// ROM images for an Apple IIc.
#[derive(Debug, Clone, PartialEq, Eq)]
pub struct AppleIICArgs {
    pub rom_c0: Option<String>,
}

/// The machine to emulate, with its ROM images.
#[derive(Debug, Clone, PartialEq, Eq)]
pub enum Variant {
    AppleII(AppleIIArgs),
    AppleIIE(AppleIIEArgs),
    AppleIIEEnhanced(AppleIIEEnhancedArgs),
    AppleIIC(AppleIICArgs),
}

/// How to run an Apple II: the machine, a disk to start from, and the host serial port for
/// the serial card.
#[derive(Debug, Clone, PartialEq, Eq)]
pub struct RunArgs {
    pub variant: Variant,
    pub program_rom: Option<String>,
    pub serial_port: Option<String>,
    pub serial_force_zero_baud: Option<bool>,
}

impl AppleIIArgs {
    /// No ROM images given.
    pub fn default_args() -> (a: AppleIIArgs)
        ensures
            a.rom_f8 is None && a.rom_e0 is None && a.rom_e8 is None && a.rom_f0 is None && a.rom_d0 is None
                && a.rom_d8 is None,
    {
        AppleIIArgs { rom_f8: None, rom_e0: None, rom_e8: None, rom_f0: None, rom_d0: None, rom_d8: None }
    }
}

impl Variant {
    /// An Apple II with its built-in ROMs.
    pub fn default_variant() -> (v: Variant)
        ensures
            v matches Variant::AppleII(a) && a.rom_f8 is None && a.rom_e0 is None && a.rom_e8 is None && a.rom_f0 is None
                && a.rom_d0 is None && a.rom_d8 is None,
    {
        Variant::AppleII(AppleIIArgs::default_args())
    }
}

impl RunArgs {
    /// An Apple II with its built-in ROMs, no disk, no serial port.
    pub fn default_args() -> (r: RunArgs)
        ensures
            r.variant matches Variant::AppleII(a) && a.rom_f8 is None && a.rom_e0 is None && a.rom_e8 is None
                && a.rom_f0 is None && a.rom_d0 is None && a.rom_d8 is None,
            r.program_rom is None,
            r.serial_port is None,
            r.serial_force_zero_baud is None,
    {
        RunArgs { variant: Variant::default_variant(), program_rom: None, serial_port: None, serial_force_zero_baud: None }
    }
}

} // verus!
