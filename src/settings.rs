//! The controller settings word: a set of capability flags.
use vstd::prelude::*;

verus! {

/// The bits of the settings word that this engine recognises.
pub const KNOWN_SETTINGS: u32 = 0x0003_FFFF;

/// One capability or state flag of a controller.
#[derive(Clone, Copy, Debug, PartialEq, Eq, Structural)]
pub enum Setting {
    Powered,
    Connectable,
    FastConnectable,
    Discoverable,
    Bondable,
    LinkSecurity,
    SecureSimplePairing,
    BrEdr,
    HighSpeed,
    LowEnergy,
    Advertising,
    SecureConnections,
    DebugKeys,
    Privacy,
    Configuration,
    StaticAddress,
    PhyConfiguration,
    WidebandSpeech,
}

/// The position of a flag in the settings word.
pub open spec fn setting_bit(s: Setting) -> u32 {
    match s {
        Setting::Powered => 0,
        Setting::Connectable => 1,
        Setting::FastConnectable => 2,
        Setting::Discoverable => 3,
        Setting::Bondable => 4,
        Setting::LinkSecurity => 5,
        Setting::SecureSimplePairing => 6,
        Setting::BrEdr => 7,
        Setting::HighSpeed => 8,
        Setting::LowEnergy => 9,
        Setting::Advertising => 10,
        Setting::SecureConnections => 11,
        Setting::DebugKeys => 12,
        Setting::Privacy => 13,
        Setting::Configuration => 14,
        Setting::StaticAddress => 15,
        Setting::PhyConfiguration => 16,
        Setting::WidebandSpeech => 17,
    }
}

/// The single-bit mask of a flag.
pub open spec fn setting_mask(s: Setting) -> u32 {
    1u32 << setting_bit(s)
}

impl Setting {
    /// This flag's position in the settings word.
    pub fn bit(&self) -> (r: u32)
        ensures
            r == setting_bit(*self),
            r < 18,
    {
        match self {
            Setting::Powered => 0,
            Setting::Connectable => 1,
            Setting::FastConnectable => 2,
            Setting::Discoverable => 3,
            Setting::Bondable => 4,
            Setting::LinkSecurity => 5,
            Setting::SecureSimplePairing => 6,
            Setting::BrEdr => 7,
            Setting::HighSpeed => 8,
            Setting::LowEnergy => 9,
            Setting::Advertising => 10,
            Setting::SecureConnections => 11,
            Setting::DebugKeys => 12,
            Setting::Privacy => 13,
            Setting::Configuration => 14,
            Setting::StaticAddress => 15,
            Setting::PhyConfiguration => 16,
            Setting::WidebandSpeech => 17,
        }
    }

    /// This flag's single-bit mask.
    pub fn mask(&self) -> (r: u32)
        ensures
            r == setting_mask(*self),
    {
        let b = self.bit();
        1u32 << b
    }
}

/// A set of recognised settings flags; its view is the settings word.
#[derive(Clone, Copy, Debug, PartialEq, Eq, Structural)]
pub struct ControllerSettings {
    bits: u32,
}

impl View for ControllerSettings {
    type V = u32;

    closed spec fn view(&self) -> u32 {
        self.bits
    }
}

/// Bits outside the recognised ones are clear.
pub open spec fn only_known(bits: u32) -> bool {
    bits & !KNOWN_SETTINGS == 0
}

proof fn lemma_known_bit(b: u32, k: u32)
    by (bit_vector)
    requires
        k < 18,
    ensures
        (b & 0x0003_FFFFu32) & (1u32 << k) == b & (1u32 << k),
        (1u32 << k) & !0x0003_FFFFu32 == 0,
{
}

proof fn lemma_known_closed(a: u32, b: u32)
    by (bit_vector)
    ensures
        (a & 0x0003_FFFFu32) & !0x0003_FFFFu32 == 0,
        (a & !0x0003_FFFFu32 == 0 && b & !0x0003_FFFFu32 == 0) ==> (a | b) & !0x0003_FFFFu32
            == 0,
{
}

/// Truncating a word keeps exactly the recognised flags that were set in it and
/// never leaves an unrecognised bit behind.
pub proof fn lemma_truncate_keeps_known_flags(b: u32)
    ensures
        only_known(b & KNOWN_SETTINGS),
        forall|s: Setting| #[trigger]
            ((b & KNOWN_SETTINGS) & setting_mask(s)) == b & setting_mask(s),
{
    lemma_known_closed(b, 0);
    assert forall|s: Setting| #[trigger]
        ((b & KNOWN_SETTINGS) & setting_mask(s)) == b & setting_mask(s) by {
        lemma_known_bit(b, setting_bit(s));
    }
}

impl ControllerSettings {
    /// No unrecognised bit is set.
    pub open spec fn wf(&self) -> bool {
        only_known(self@)
    }

    /// The empty set of flags.
    pub fn empty() -> (r: ControllerSettings)
        ensures
            r@ == 0,
            r.wf(),
    {
        assert(0u32 & !0x0003_FFFFu32 == 0) by (bit_vector);
        ControllerSettings { bits: 0 }
    }

    /// Keeps the recognised flags of `bits` and drops every other bit.
    pub fn from_bits_truncate(bits: u32) -> (r: ControllerSettings)
        ensures
            r@ == bits & KNOWN_SETTINGS,
            r.wf(),
    {
        proof {
            lemma_known_closed(bits, 0);
        }
        ControllerSettings { bits: bits & KNOWN_SETTINGS }
    }

    /// The settings word.
    pub fn bits(&self) -> (r: u32)
        ensures
            r == self@,
    {
        self.bits
    }

    /// Whether the flag `s` is set.
    pub fn contains(&self, s: Setting) -> (r: bool)
        ensures
            r == (self@ & setting_mask(s) != 0),
    {
        self.bits & s.mask() != 0
    }

    /// The flags of both sets.
    pub fn union(&self, other: &ControllerSettings) -> (r: ControllerSettings)
        requires
            self.wf(),
            other.wf(),
        ensures
            r@ == self@ | other@,
            r.wf(),
    {
        proof {
            lemma_known_closed(self.bits, other.bits);
        }
        ControllerSettings { bits: self.bits | other.bits }
    }

    /// This set with one more flag.
    pub fn with(&self, s: Setting) -> (r: ControllerSettings)
        requires
            self.wf(),
        ensures
            r@ == self@ | setting_mask(s),
            r.wf(),
    {
        let m = s.mask();
        proof {
            lemma_known_bit(0, setting_bit(s));
            lemma_known_closed(self.bits, m);
        }
        ControllerSettings { bits: self.bits | m }
    }
}

} // verus!
