use vstd::prelude::*;

verus! {

/// How the serial engine is to be set up when the wrapper is initialised.
///
/// Durations are held in whole milliseconds, the resolution at which the
/// device takes them.
#[derive(Debug, Clone, Copy, PartialEq, Eq)]
pub struct MpsseSettings {
    /// Reset the device before it is configured.
    pub reset: bool,
    /// USB in-transfer size in bytes.
    pub in_transfer_size: u32,
    /// Read timeout in milliseconds.
    pub read_timeout_ms: u64,
    /// Write timeout in milliseconds.
    pub write_timeout_ms: u64,
    /// Latency timer in milliseconds.
    pub latency_timer_ms: u64,
    /// Direction mask of the lower GPIO byte: a set bit makes the pin an
    /// output. Initialisation never takes this from the caller; it replaces it
    /// by the direction bits that the device state holds.
    pub mask: u8,
    /// Clock frequency in hertz. Initialisation needs it to be present.
    pub clock_frequency: Option<u32>,
}

/// The settings that initialisation uses when none are given: reset the
/// device, 4 KiB transfers, 1 s read and write timeouts, a 16 ms latency timer
/// and a 100 kHz clock.
pub open spec fn default_settings() -> MpsseSettings {
    MpsseSettings {
        reset: true,
        in_transfer_size: 4096,
        read_timeout_ms: 1000,
        write_timeout_ms: 1000,
        latency_timer_ms: 16,
        mask: 0x00,
        clock_frequency: Some(100_000u32),
    }
}

/// Whatever direction mask the wrapper holds, the configuration that
/// initialisation with the defaults hands to the device resets the device and
/// asks for 4096-byte transfers, read and write timeouts of 1000 ms, a latency
/// timer of 16 ms and a clock of 100 kHz.
pub proof fn lemma_default_configuration(mask: u8)
    ensures
        default_settings().with_mask(mask) == (MpsseSettings {
            reset: true,
            in_transfer_size: 4096,
            read_timeout_ms: 1000,
            write_timeout_ms: 1000,
            latency_timer_ms: 16,
            mask,
            clock_frequency: Some(100_000u32),
        }),
{
}

impl MpsseSettings {
    /// These settings with the direction mask replaced by `mask`.
    pub open spec fn with_mask(self, mask: u8) -> MpsseSettings {
        MpsseSettings { mask, ..self }
    }

    /// The default settings.
    pub fn defaults() -> (settings: MpsseSettings)
        ensures
            settings == default_settings(),
    {
        MpsseSettings {
            reset: true,
            in_transfer_size: 4096,
            read_timeout_ms: 1000,
            write_timeout_ms: 1000,
            latency_timer_ms: 16,
            mask: 0x00,
            clock_frequency: Some(100_000),
        }
    }

    /// Whether a clock frequency is given, as initialisation requires.
    pub fn has_clock(&self) -> (present: bool)
        ensures
            present == self.clock_frequency is Some,
    {
        self.clock_frequency.is_some()
    }

    /// A copy of these settings whose direction mask is `mask`.
    pub fn masked(&self, mask: u8) -> (settings: MpsseSettings)
        ensures
            settings == self.with_mask(mask),
    {
        MpsseSettings {
            reset: self.reset,
            in_transfer_size: self.in_transfer_size,
            read_timeout_ms: self.read_timeout_ms,
            write_timeout_ms: self.write_timeout_ms,
            latency_timer_ms: self.latency_timer_ms,
            mask,
            clock_frequency: self.clock_frequency,
        }
    }
}

} // verus!
