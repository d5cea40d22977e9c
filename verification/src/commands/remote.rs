//! Switching the controller's radio channel.

use vstd::prelude::*;

use crate::errors::DecodeError;
use crate::meta::V5ControllerChannel;
use crate::wire::{spec_ext_packet, EXTENDED_COMMAND};

use super::extended::{encode_extended_packet, spec_decode_extended, Extended};
use super::Command;

verus! {

/// The extended command id that switches the controller channel.
pub const SWITCH_CHANNEL_COMMAND: u8 = 0x10;

/// Switches the controller's channel.  The field is the channel to switch
/// to.
#[derive(Copy, Clone)]
pub struct SwitchChannel(pub V5ControllerChannel);

/// What a switch-channel response decodes to: nothing, once the envelope
/// and command id check out.
pub open spec fn spec_switch_channel_response(command_id: u8, data: Seq<u8>) -> Result<
    (),
    DecodeError,
> {
    match spec_decode_extended(command_id, data, true) {
        Err(e) => Err(e),
        Ok((cmd, _payload)) => if cmd != SWITCH_CHANNEL_COMMAND {
            Err(DecodeError::ExpectedCommand(SWITCH_CHANNEL_COMMAND, cmd))
        } else {
            Ok(())
        },
    }
}

impl Command for SwitchChannel {
    type Response = ();

    fn encode_request(self) -> (r: Result<(u8, Vec<u8>), DecodeError>)
        ensures
            r matches Ok(p) && p.0 == EXTENDED_COMMAND && p.1@ == spec_ext_packet(
                SWITCH_CHANNEL_COMMAND,
                seq![self.0.spec_u8()],
            ),
    {
        let mut payload: Vec<u8> = Vec::new();
        payload.push(self.0.to_u8());
        assert(payload@ =~= seq![self.0.spec_u8()]);
        match encode_extended_packet(SWITCH_CHANNEL_COMMAND, payload.as_slice()) {
            Ok(v) => Ok((EXTENDED_COMMAND, v)),
            Err(e) => Err(e),
        }
    }

    fn decode_response(command_id: u8, data: Vec<u8>) -> (r: Result<(), DecodeError>)
        ensures
            match r {
                Ok(u) => spec_switch_channel_response(command_id, data@) == Ok::<
                    (),
                    DecodeError,
                >(u),
                Err(e) => spec_switch_channel_response(command_id, data@) == Err::<(), _>(e),
            },
    {
        let resp = match Extended::decode_extended(
            command_id,
            data,
            crate::checks::VexExtPacketChecks::all(),
        ) {
            Ok(resp) => resp,
            Err(e) => {
                return Err(e);
            },
        };
        if resp.0 != SWITCH_CHANNEL_COMMAND {
            return Err(DecodeError::ExpectedCommand(SWITCH_CHANNEL_COMMAND, resp.0));
        }
        Ok(())
    }
}

} // verus!
