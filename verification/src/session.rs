//! Device session, device profile and device: the server's mutable,
//! negotiated view of a device's radio behavior, and the immutable
//! per-device-type configuration that seeds its boot values.

use vstd::prelude::*;

use crate::error::Error;

verus! {

/// Protocol default for the RX1 delay when no ABP block applies.
pub const DEFAULT_RX1_DELAY: u32 = 1;

/// Protocol default for the RX1 data-rate offset when no ABP block applies.
pub const DEFAULT_RX1_DR_OFFSET: u32 = 0;

/// Protocol default for the RX2 data rate when no ABP block applies.
pub const DEFAULT_RX2_DR: u32 = 0;

/// Stands in for the regional default RX2 frequency when no ABP block
/// applies; the surrounding regional layer substitutes its region's value.
pub const DEFAULT_RX2_FREQUENCY: u32 = 0;

/// Default ping-slot data rate when the profile has no class-B block.
pub const DEFAULT_PING_SLOT_DR: u32 = 0;

/// Default ping-slot frequency when the profile has no class-B block.
pub const DEFAULT_PING_SLOT_FREQ: u32 = 0;

/// Default ping-slot count when the profile has no class-B block:
/// a device without class-B configuration opens no ping slots.
pub const DEFAULT_PING_SLOT_NB: u32 = 0;

/// Default number of transmissions per uplink after a reset.
pub const DEFAULT_NB_TRANS: u32 = 1;

/// Definition of one dynamically added uplink channel.
#[derive(Clone, Copy, Debug, PartialEq, Eq, Structural)]
pub struct Channel {
    pub frequency: u32,
    pub min_dr: u8,
    pub max_dr: u8,
}

impl Default for Channel {
    fn default() -> (r: Self)
        ensures
            r == (Channel { frequency: 0, min_dr: 0, max_dr: 0 }),
    {
        Channel { frequency: 0, min_dr: 0, max_dr: 0 }
    }
}

/// ABP boot parameters of a device profile, used only when the device
/// is ABP-activated.
#[derive(Clone, Copy, Debug, PartialEq, Eq, Structural)]
pub struct AbpParams {
    pub rx1_delay: u8,
    pub rx1_dr_offset: u8,
    pub rx2_dr: u8,
    pub rx2_freq: u32,
}

/// Class-B boot parameters of a device profile.
#[derive(Clone, Copy, Debug, PartialEq, Eq, Structural)]
pub struct ClassBParams {
    pub ping_slot_dr: u8,
    pub ping_slot_freq: u32,
    pub ping_slot_periodicity: u8,
    pub timeout: u8,
}

/// Read-only per-device-type configuration describing boot and default
/// parameters. The ABP and class-B blocks may be absent; session fields
/// they would set then fall back to protocol defaults.
#[derive(Clone, Debug)]
pub struct DeviceProfile {
    /// Activation mode: true for OTAA, false for ABP.
    pub supports_otaa: bool,
    pub abp_params: Option<AbpParams>,
    pub class_b_params: Option<ClassBParams>,
}

impl DeviceProfile {
    /// The profile is configured for ABP activation.
    pub open spec fn is_abp(self) -> bool {
        !self.supports_otaa
    }

    /// The profile's class-B block, if present, is within protocol
    /// range: the ping-slot periodicity lies in 0..=7.
    pub open spec fn valid(self) -> bool {
        self.class_b_params matches Some(cb) ==> cb.ping_slot_periodicity <= 7
    }
}

impl Default for DeviceProfile {
    fn default() -> (r: Self)
        ensures
            r == (DeviceProfile { supports_otaa: false, abp_params: None, class_b_params: None }),
    {
        DeviceProfile { supports_otaa: false, abp_params: None, class_b_params: None }
    }
}

/// Mutable state representing the server's current negotiated view of
/// the device's radio behavior. Every field has a protocol-defined
/// valid range; a full reset derives every field from the device
/// profile (see [`DeviceProfile::reset_session_to_boot_params`]).
#[derive(Clone, Debug)]
pub struct DeviceSession {
    pub tx_power_index: u32,
    pub min_supported_tx_power_index: u32,
    pub max_supported_tx_power_index: u32,
    /// Current/negotiated data rate.
    pub dr: u32,
    pub rx1_delay: u32,
    pub rx1_dr_offset: u32,
    pub rx2_dr: u32,
    pub rx2_frequency: u32,
    /// Number of transmissions per uplink.
    pub nb_trans: u32,
    /// Indices of the enabled uplink channels.
    pub enabled_uplink_channel_indices: Vec<u32>,
    /// Mapping of extra (dynamically added) uplink channel index to
    /// channel definition, kept as an association list in wire order.
    pub extra_uplink_channels: Vec<(u32, Channel)>,
    pub class_b_ping_slot_dr: u32,
    pub class_b_ping_slot_freq: u32,
    /// Ping-slot count derived from the class-B periodicity.
    pub class_b_ping_slot_nb: u32,
}

/// Mathematical model of a device session: the session's fields with
/// the vectors abstracted to sequences.
#[verifier::ext_equal]
pub struct SessionView {
    pub tx_power_index: u32,
    pub min_supported_tx_power_index: u32,
    pub max_supported_tx_power_index: u32,
    pub dr: u32,
    pub rx1_delay: u32,
    pub rx1_dr_offset: u32,
    pub rx2_dr: u32,
    pub rx2_frequency: u32,
    pub nb_trans: u32,
    pub enabled_uplink_channel_indices: Seq<u32>,
    pub extra_uplink_channels: Seq<(u32, Channel)>,
    pub class_b_ping_slot_dr: u32,
    pub class_b_ping_slot_freq: u32,
    pub class_b_ping_slot_nb: u32,
}

impl View for DeviceSession {
    type V = SessionView;

    open spec fn view(&self) -> SessionView {
        SessionView {
            tx_power_index: self.tx_power_index,
            min_supported_tx_power_index: self.min_supported_tx_power_index,
            max_supported_tx_power_index: self.max_supported_tx_power_index,
            dr: self.dr,
            rx1_delay: self.rx1_delay,
            rx1_dr_offset: self.rx1_dr_offset,
            rx2_dr: self.rx2_dr,
            rx2_frequency: self.rx2_frequency,
            nb_trans: self.nb_trans,
            enabled_uplink_channel_indices: self.enabled_uplink_channel_indices@,
            extra_uplink_channels: self.extra_uplink_channels@,
            class_b_ping_slot_dr: self.class_b_ping_slot_dr,
            class_b_ping_slot_freq: self.class_b_ping_slot_freq,
            class_b_ping_slot_nb: self.class_b_ping_slot_nb,
        }
    }
}

/// The all-default session: every scalar zero, no channels enabled,
/// no extra channels.
pub open spec fn spec_default_session() -> SessionView {
    SessionView {
        tx_power_index: 0,
        min_supported_tx_power_index: 0,
        max_supported_tx_power_index: 0,
        dr: 0,
        rx1_delay: 0,
        rx1_dr_offset: 0,
        rx2_dr: 0,
        rx2_frequency: 0,
        nb_trans: 0,
        enabled_uplink_channel_indices: Seq::empty(),
        extra_uplink_channels: Seq::empty(),
        class_b_ping_slot_dr: 0,
        class_b_ping_slot_freq: 0,
        class_b_ping_slot_nb: 0,
    }
}

impl Default for DeviceSession {
    fn default() -> (r: Self)
        ensures
            r@ == spec_default_session(),
    {
        let r = DeviceSession {
            tx_power_index: 0,
            min_supported_tx_power_index: 0,
            max_supported_tx_power_index: 0,
            dr: 0,
            rx1_delay: 0,
            rx1_dr_offset: 0,
            rx2_dr: 0,
            rx2_frequency: 0,
            nb_trans: 0,
            enabled_uplink_channel_indices: Vec::new(),
            extra_uplink_channels: Vec::new(),
            class_b_ping_slot_dr: 0,
            class_b_ping_slot_freq: 0,
            class_b_ping_slot_nb: 0,
        };
        proof {
            assert(r@ =~= spec_default_session());
        }
        r
    }
}

fn eq_vec_u32(a: &Vec<u32>, b: &Vec<u32>) -> (r: bool)
    ensures
        r == (a@ == b@),
{
    if a.len() != b.len() {
        return false;
    }
    let n = a.len();
    let mut i: usize = 0;
    while i < n
        invariant
            i <= n,
            n == a@.len(),
            n == b@.len(),
            forall|j: int| 0 <= j < i ==> a@[j] == b@[j],
        decreases n - i,
    {
        if a[i] != b[i] {
            return false;
        }
        i += 1;
    }
    proof {
        assert(a@ =~= b@);
    }
    true
}

fn eq_vec_channels(a: &Vec<(u32, Channel)>, b: &Vec<(u32, Channel)>) -> (r: bool)
    ensures
        r == (a@ == b@),
{
    if a.len() != b.len() {
        return false;
    }
    let n = a.len();
    let mut i: usize = 0;
    while i < n
        invariant
            i <= n,
            n == a@.len(),
            n == b@.len(),
            forall|j: int| 0 <= j < i ==> a@[j] == b@[j],
        decreases n - i,
    {
        if a[i].0 != b[i].0 || a[i].1 != b[i].1 {
            return false;
        }
        i += 1;
    }
    proof {
        assert(a@ =~= b@);
    }
    true
}

impl PartialEq for DeviceSession {
    fn eq(&self, other: &DeviceSession) -> (r: bool) {
        let r = self.tx_power_index == other.tx_power_index
            && self.min_supported_tx_power_index == other.min_supported_tx_power_index
            && self.max_supported_tx_power_index == other.max_supported_tx_power_index
            && self.dr == other.dr
            && self.rx1_delay == other.rx1_delay
            && self.rx1_dr_offset == other.rx1_dr_offset
            && self.rx2_dr == other.rx2_dr
            && self.rx2_frequency == other.rx2_frequency
            && self.nb_trans == other.nb_trans
            && self.class_b_ping_slot_dr == other.class_b_ping_slot_dr
            && self.class_b_ping_slot_freq == other.class_b_ping_slot_freq
            && self.class_b_ping_slot_nb == other.class_b_ping_slot_nb
            && eq_vec_u32(
            &self.enabled_uplink_channel_indices,
            &other.enabled_uplink_channel_indices,
        )
            && eq_vec_channels(&self.extra_uplink_channels, &other.extra_uplink_channels);
        proof {
            if r {
                assert(self@ =~= other@);
            }
        }
        r
    }
}

impl vstd::std_specs::cmp::PartialEqSpecImpl for DeviceSession {
    open spec fn obeys_eq_spec() -> bool {
        true
    }

    open spec fn eq_spec(&self, other: &DeviceSession) -> bool {
        self@ == other@
    }
}

/// The ping-slot count mandated by the protocol for a class-B
/// periodicity in 0..=7: two to the power of seven minus the
/// periodicity, so a higher periodicity gives fewer ping slots.
pub open spec fn spec_ping_slot_nb(periodicity: u8) -> u32
    recommends
        periodicity <= 7,
{
    1u32 << ((7 - periodicity) as u32)
}

/// The session state a full reset derives from a device profile:
/// RX parameters from the ABP block when the profile is ABP-activated
/// and carries one, otherwise protocol defaults; power, data rate and
/// channels cleared to their zero/default state; one transmission per
/// uplink; ping-slot fields from the class-B block when present,
/// otherwise protocol defaults.
pub open spec fn spec_boot_session(dp: DeviceProfile) -> SessionView {
    SessionView {
        tx_power_index: 0,
        min_supported_tx_power_index: 0,
        max_supported_tx_power_index: 0,
        dr: 0,
        rx1_delay: if dp.is_abp() && dp.abp_params is Some {
            dp.abp_params->Some_0.rx1_delay as u32
        } else {
            DEFAULT_RX1_DELAY
        },
        rx1_dr_offset: if dp.is_abp() && dp.abp_params is Some {
            dp.abp_params->Some_0.rx1_dr_offset as u32
        } else {
            DEFAULT_RX1_DR_OFFSET
        },
        rx2_dr: if dp.is_abp() && dp.abp_params is Some {
            dp.abp_params->Some_0.rx2_dr as u32
        } else {
            DEFAULT_RX2_DR
        },
        rx2_frequency: if dp.is_abp() && dp.abp_params is Some {
            dp.abp_params->Some_0.rx2_freq
        } else {
            DEFAULT_RX2_FREQUENCY
        },
        nb_trans: DEFAULT_NB_TRANS,
        enabled_uplink_channel_indices: Seq::empty(),
        extra_uplink_channels: Seq::empty(),
        class_b_ping_slot_dr: if dp.class_b_params is Some {
            dp.class_b_params->Some_0.ping_slot_dr as u32
        } else {
            DEFAULT_PING_SLOT_DR
        },
        class_b_ping_slot_freq: if dp.class_b_params is Some {
            dp.class_b_params->Some_0.ping_slot_freq
        } else {
            DEFAULT_PING_SLOT_FREQ
        },
        class_b_ping_slot_nb: if dp.class_b_params is Some {
            spec_ping_slot_nb(dp.class_b_params->Some_0.ping_slot_periodicity)
        } else {
            DEFAULT_PING_SLOT_NB
        },
    }
}

impl DeviceProfile {
    /// Reset every session field to the boot parameters this profile
    /// derives: the full, atomic reset that the Reset exchange mandates.
    pub fn reset_session_to_boot_params(&self, ds: &mut DeviceSession)
        requires
            self.valid(),
        ensures
            final(ds)@ == spec_boot_session(*self),
    {
        ds.tx_power_index = 0;
        ds.min_supported_tx_power_index = 0;
        ds.max_supported_tx_power_index = 0;
        ds.dr = 0;
        ds.nb_trans = DEFAULT_NB_TRANS;
        ds.enabled_uplink_channel_indices = Vec::new();
        ds.extra_uplink_channels = Vec::new();
        match &self.abp_params {
            Some(abp) if !self.supports_otaa => {
                ds.rx1_delay = abp.rx1_delay as u32;
                ds.rx1_dr_offset = abp.rx1_dr_offset as u32;
                ds.rx2_dr = abp.rx2_dr as u32;
                ds.rx2_frequency = abp.rx2_freq;
            },
            _ => {
                ds.rx1_delay = DEFAULT_RX1_DELAY;
                ds.rx1_dr_offset = DEFAULT_RX1_DR_OFFSET;
                ds.rx2_dr = DEFAULT_RX2_DR;
                ds.rx2_frequency = DEFAULT_RX2_FREQUENCY;
            },
        }
        match &self.class_b_params {
            Some(cb) => {
                ds.class_b_ping_slot_dr = cb.ping_slot_dr as u32;
                ds.class_b_ping_slot_freq = cb.ping_slot_freq;
                let shift: u32 = (7 - cb.ping_slot_periodicity) as u32;
                ds.class_b_ping_slot_nb = 1u32 << shift;
            },
            None => {
                ds.class_b_ping_slot_dr = DEFAULT_PING_SLOT_DR;
                ds.class_b_ping_slot_freq = DEFAULT_PING_SLOT_FREQ;
                ds.class_b_ping_slot_nb = DEFAULT_PING_SLOT_NB;
            },
        }
        proof {
            assert(ds@ =~= spec_boot_session(*self));
        }
    }
}

/// A device, identified by its EUI, owning zero-or-one device session.
/// The engine never creates or destroys a device or a session; it only
/// obtains access to the session through the accessors.
#[derive(Clone, Debug)]
pub struct Device {
    /// Globally unique device identifier (EUI-64, as its 64-bit value).
    pub dev_eui: u64,
    /// The device's session, present once the device has been activated.
    pub device_session: Option<DeviceSession>,
}

/// Mathematical model of a device: its identifier and, when activated,
/// the model of its session.
#[verifier::ext_equal]
pub struct DeviceView {
    pub dev_eui: u64,
    pub device_session: Option<SessionView>,
}

impl View for Device {
    type V = DeviceView;

    open spec fn view(&self) -> DeviceView {
        DeviceView {
            dev_eui: self.dev_eui,
            device_session: match self.device_session {
                Some(ds) => Some(ds@),
                None => None,
            },
        }
    }
}

impl Default for Device {
    fn default() -> (r: Self)
        ensures
            r@ == (DeviceView { dev_eui: 0, device_session: None }),
    {
        Device { dev_eui: 0, device_session: None }
    }
}

impl Device {
    /// Read access to the device's session; fails when the device has
    /// not been activated (no session present).
    pub fn get_device_session(&self) -> (r: Result<&DeviceSession, Error>)
        ensures
            self.device_session matches Some(s) ==> (r matches Ok(ds) && *ds == s),
            self.device_session is None ==> r == Err::<&DeviceSession, Error>(
                Error::MissingSession,
            ),
    {
        match &self.device_session {
            Some(ds) => Ok(ds),
            None => Err(Error::MissingSession),
        }
    }

    /// Mutable access to the device's session; fails when the device
    /// has not been activated (no session present), leaving the device
    /// untouched.
    pub fn get_device_session_mut(&mut self) -> (r: Result<&mut DeviceSession, Error>)
        ensures
            old(self).device_session is None ==> (r matches Err(e) && e == Error::MissingSession
                && *final(self) == *old(self)),
            old(self).device_session matches Some(s) ==> (r matches Ok(ds) && *ds == s
                && final(self).dev_eui == old(self).dev_eui
                && final(self).device_session == Some(*final(ds))),
    {
        match &mut self.device_session {
            Some(ds) => Ok(ds),
            None => Err(Error::MissingSession),
        }
    }
}

} // verus!
