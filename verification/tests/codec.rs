use lorawan_mac::commands::{MACCommand, MACCommandSet, ResetConfPayload, ResetIndPayload};
use lorawan_mac::error::Error;
use lorawan_mac::version::{min_version, Version};

fn reset_ind(v: Version) -> MACCommand {
    MACCommand::ResetInd(ResetIndPayload {
        dev_lorawan_version: v,
    })
}

fn reset_conf(v: Version) -> MACCommand {
    MACCommand::ResetConf(ResetConfPayload {
        serv_lorawan_version: v,
    })
}

#[test]
fn encode_reset_ind() {
    assert_eq!(reset_ind(Version::LoRaWAN1_1).encode(), vec![0x01, 0x01]);
    assert_eq!(reset_ind(Version::LoRaWAN1_0).encode(), vec![0x01, 0x00]);
}

#[test]
fn encode_reset_conf() {
    assert_eq!(reset_conf(Version::LoRaWAN1_1).encode(), vec![0x01, 0x01]);
    assert_eq!(reset_conf(Version::LoRaWAN1_0).encode(), vec![0x01, 0x00]);
}

#[test]
fn decode_reset_ind() {
    assert_eq!(
        MACCommand::decode(&vec![0x01, 0x01], true),
        Ok(reset_ind(Version::LoRaWAN1_1))
    );
    assert_eq!(
        MACCommand::decode(&vec![0x01, 0x00], true),
        Ok(reset_ind(Version::LoRaWAN1_0))
    );
}

#[test]
fn decode_reset_conf() {
    assert_eq!(
        MACCommand::decode(&vec![0x01, 0x01], false),
        Ok(reset_conf(Version::LoRaWAN1_1))
    );
}

#[test]
fn decode_rejects_empty() {
    assert_eq!(
        MACCommand::decode(&Vec::new(), true),
        Err(Error::MalformedInput)
    );
}

#[test]
fn decode_rejects_unknown_opcode() {
    assert_eq!(
        MACCommand::decode(&vec![0x7f, 0x01], true),
        Err(Error::UnsupportedCommand)
    );
}

#[test]
fn decode_rejects_truncated_payload() {
    assert_eq!(
        MACCommand::decode(&vec![0x01], true),
        Err(Error::MalformedInput)
    );
}

#[test]
fn decode_rejects_unknown_version_byte() {
    assert_eq!(
        MACCommand::decode(&vec![0x01, 0x09], true),
        Err(Error::MalformedInput)
    );
}

#[test]
fn command_round_trips() {
    for (cmd, uplink) in [
        (reset_ind(Version::LoRaWAN1_0), true),
        (reset_ind(Version::LoRaWAN1_1), true),
        (reset_conf(Version::LoRaWAN1_0), false),
        (reset_conf(Version::LoRaWAN1_1), false),
    ] {
        let bytes = cmd.encode();
        assert_eq!(MACCommand::decode(&bytes, uplink), Ok(cmd));
        let decoded = MACCommand::decode(&bytes, uplink).unwrap();
        assert_eq!(decoded.encode(), bytes);
    }
}

#[test]
fn set_encode_concatenates_in_order() {
    let set = MACCommandSet::new(vec![
        reset_ind(Version::LoRaWAN1_1),
        reset_ind(Version::LoRaWAN1_0),
    ]);
    assert_eq!(set.encode(), vec![0x01, 0x01, 0x01, 0x00]);
}

#[test]
fn set_decode_greedy() {
    let set = MACCommandSet::decode(&vec![0x01, 0x01, 0x01, 0x00], true).unwrap();
    assert_eq!(
        set,
        MACCommandSet::new(vec![
            reset_ind(Version::LoRaWAN1_1),
            reset_ind(Version::LoRaWAN1_0),
        ])
    );
}

#[test]
fn set_decode_empty_region_is_empty_set() {
    let set = MACCommandSet::decode(&Vec::new(), true).unwrap();
    assert_eq!(set, MACCommandSet::new(Vec::new()));
}

#[test]
fn set_round_trips() {
    let set = MACCommandSet::new(vec![
        reset_conf(Version::LoRaWAN1_0),
        reset_conf(Version::LoRaWAN1_1),
    ]);
    let bytes = set.encode();
    let decoded = MACCommandSet::decode(&bytes, false).unwrap();
    assert_eq!(decoded, set);
    assert_eq!(decoded.encode(), bytes);
}

#[test]
fn set_decode_reports_unknown_opcode() {
    assert_eq!(
        MACCommandSet::decode(&vec![0x01, 0x01, 0x2a, 0x00], true),
        Err(Error::UnsupportedCommand)
    );
}

#[test]
fn set_decode_reports_truncation() {
    assert_eq!(
        MACCommandSet::decode(&vec![0x01, 0x01, 0x01], true),
        Err(Error::MalformedInput)
    );
}

#[test]
fn set_accessors() {
    let mut set = MACCommandSet::new(Vec::new());
    assert_eq!(set.len(), 0);
    assert!(set.first().is_none());
    set.push(reset_ind(Version::LoRaWAN1_1));
    set.push(reset_conf(Version::LoRaWAN1_0));
    assert_eq!(set.len(), 2);
    assert_eq!(set.first(), Some(&reset_ind(Version::LoRaWAN1_1)));
    assert_eq!(set.get(1), &reset_conf(Version::LoRaWAN1_0));
}

#[test]
fn version_ordinals() {
    assert_eq!(Version::LoRaWAN1_0.to_u8(), 0);
    assert_eq!(Version::LoRaWAN1_1.to_u8(), 1);
    assert_eq!(Version::from_u8(0), Some(Version::LoRaWAN1_0));
    assert_eq!(Version::from_u8(1), Some(Version::LoRaWAN1_1));
    assert_eq!(Version::from_u8(2), None);
}

#[test]
fn version_negotiation_is_minimum() {
    assert_eq!(
        min_version(Version::LoRaWAN1_1, Version::LoRaWAN1_0),
        Version::LoRaWAN1_0
    );
    assert_eq!(
        min_version(Version::LoRaWAN1_0, Version::LoRaWAN1_1),
        Version::LoRaWAN1_0
    );
    assert_eq!(
        min_version(Version::LoRaWAN1_1, Version::LoRaWAN1_1),
        Version::LoRaWAN1_1
    );
}

#[test]
fn error_descriptions() {
    assert_eq!(Error::MalformedInput.describe(), "malformed input");
    assert_eq!(Error::MissingSession.describe(), "missing device session");
    assert_eq!(Error::UnsupportedCommand.describe(), "unsupported command");
}
