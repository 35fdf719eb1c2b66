//! The Reset handler: processes a `ResetInd` command (the device
//! announces the LoRaWAN version it operates at and requests a session
//! reset to boot defaults) and produces a `ResetConf` acknowledging the
//! negotiated version.

use vstd::prelude::*;

use crate::commands::{MACCommand, MACCommandSet, ResetConfPayload};
use crate::error::Error;
use crate::session::{spec_boot_session, Device, DeviceProfile, DeviceView};
use crate::version::{min_version, spec_min_version, Version};

verus! {

/// The protocol version this server speaks. Negotiation never answers
/// a version above it.
pub const SERV_LORAWAN_VERSION: Version = Version::LoRaWAN1_1;

/// The command set a successful Reset exchange answers: exactly one
/// `ResetConf` carrying the minimum of the server's version and the
/// device-declared version.
pub open spec fn spec_reset_response(dev_lorawan_version: Version) -> Seq<MACCommand> {
    seq![
        MACCommand::ResetConf(
            ResetConfPayload {
                serv_lorawan_version: spec_min_version(SERV_LORAWAN_VERSION, dev_lorawan_version),
            },
        ),
    ]
}

/// Process a `ResetInd`: validate the inbound command set, reset the
/// device session to the boot parameters the profile derives, and
/// answer a `ResetConf` with the negotiated version.
///
/// Validation happens before any mutation, so a failure leaves the
/// session exactly as it was.
pub fn handle(dev: &mut Device, dp: &DeviceProfile, block: &MACCommandSet) -> (r: Result<
    Option<MACCommandSet>,
    Error,
>)
    requires
        dp.valid(),
    ensures
        old(dev).device_session is None ==> r == Err::<Option<MACCommandSet>, Error>(
            Error::MissingSession,
        ),
        old(dev).device_session is Some && block@.len() == 0 ==> r == Err::<
            Option<MACCommandSet>,
            Error,
        >(Error::MalformedInput),
        old(dev).device_session is Some && block@.len() > 0 && !(block@[0] is ResetInd) ==> r
            == Err::<Option<MACCommandSet>, Error>(Error::MalformedInput),
        r is Ok <==> (old(dev).device_session is Some && block@.len() > 0 && block@[0]
            is ResetInd),
        r is Err ==> final(dev)@ == old(dev)@,
        r matches Ok(resp) ==> ({
            &&& block@[0] matches MACCommand::ResetInd(pl)
            &&& resp matches Some(out) && out@ == spec_reset_response(pl.dev_lorawan_version)
            &&& final(dev)@ == (DeviceView {
                dev_eui: old(dev).dev_eui,
                device_session: Some(spec_boot_session(*dp)),
            })
        }),
{
    let ds = match dev.get_device_session_mut() {
        Ok(ds) => ds,
        Err(e) => {
            return Err(e);
        },
    };
    let first = match block.first() {
        Some(c) => c,
        None => {
            return Err(Error::MalformedInput);
        },
    };
    let pl = match first {
        MACCommand::ResetInd(pl) => pl,
        _ => {
            return Err(Error::MalformedInput);
        },
    };
    let dev_lorawan_version = pl.dev_lorawan_version;

    dp.reset_session_to_boot_params(ds);

    let serv_lorawan_version = min_version(SERV_LORAWAN_VERSION, dev_lorawan_version);
    let mut response: Vec<MACCommand> = Vec::new();
    response.push(MACCommand::ResetConf(ResetConfPayload { serv_lorawan_version }));
    proof {
        assert(response@ =~= spec_reset_response(dev_lorawan_version));
    }
    Ok(Some(MACCommandSet::new(response)))
}

} // verus!
