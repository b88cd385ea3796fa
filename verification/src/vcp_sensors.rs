//! Commands and errors of the voltage/current/power sensor service, which
//! reads the three channels of an INA3221.

use vstd::prelude::*;

verus! {

/// Index of a sensor channel.
pub type ChannelNum = u8;

/// Channels of the sensor.
pub const CHANNELS: usize = 3;

/// A command to the sensor service.
#[derive(Debug, Clone, Copy, PartialEq, Eq, Structural)]
pub enum VcpCommand {
    EnableChannel(ChannelNum),
    DisableChannel(ChannelNum),
}

/// Why a sensor operation failed.
#[derive(Debug, Clone, Copy, PartialEq, Eq)]
pub enum VcpError {
    I2cError(&'static str),
    InvalidChannel,
    SensorReadError,
}

/// What handling a command did.
#[derive(Debug, Clone, Copy, PartialEq, Eq, Structural)]
pub enum CommandOutcome {
    Enabled(ChannelNum),
    Disabled(ChannelNum),
    InvalidChannel(ChannelNum),
}

impl VcpError {
    /// A description of the error.
    pub fn error_description(&self) -> (r: Option<&'static str>)
        ensures
            match self {
                VcpError::I2cError(msg) => r == Some(*msg),
                VcpError::InvalidChannel => r matches Some(s) && s@ == "Invalid channel number"@,
                VcpError::SensorReadError => r matches Some(s) && s@ == "Sensor read error"@,
            },
    {
        match self {
            VcpError::I2cError(msg) => Some(*msg),
            VcpError::InvalidChannel => Some("Invalid channel number"),
            VcpError::SensorReadError => Some("Sensor read error"),
        }
    }
}

/// The text of the error event sent for `error`.
pub fn error_event_text(error: &VcpError) -> (r: &'static str)
    ensures
        match error {
            VcpError::I2cError(msg) => r == *msg,
            VcpError::InvalidChannel => r@ == "Invalid channel number"@,
            VcpError::SensorReadError => r@ == "Sensor read error"@,
        },
{
    match error.error_description() {
        Some(text) => text,
        None => "Unknown error",
    }
}

/// The enabled channels after `command`: a valid channel is enabled or
/// disabled, an invalid one changes nothing.
pub open spec fn channels_after(channels: Seq<bool>, command: VcpCommand) -> Seq<bool> {
    match command {
        VcpCommand::EnableChannel(c) => if (c as int) < CHANNELS {
            channels.update(c as int, true)
        } else {
            channels
        },
        VcpCommand::DisableChannel(c) => if (c as int) < CHANNELS {
            channels.update(c as int, false)
        } else {
            channels
        },
    }
}

/// What handling `command` reports.
pub open spec fn outcome_of(command: VcpCommand) -> CommandOutcome {
    match command {
        VcpCommand::EnableChannel(c) => if (c as int) < CHANNELS {
            CommandOutcome::Enabled(c)
        } else {
            CommandOutcome::InvalidChannel(c)
        },
        VcpCommand::DisableChannel(c) => if (c as int) < CHANNELS {
            CommandOutcome::Disabled(c)
        } else {
            CommandOutcome::InvalidChannel(c)
        },
    }
}

/// Applies a command to the enabled channels: a valid channel is enabled
/// or disabled, an invalid one is reported and changes nothing.
pub fn handle_command(enabled_channels: &mut [bool; 3], command: VcpCommand) -> (r: CommandOutcome)
    ensures
        r == outcome_of(command),
        final(enabled_channels)@ == channels_after(old(enabled_channels)@, command),
{
    match command {
        VcpCommand::EnableChannel(channel) => {
            if (channel as usize) < CHANNELS {
                enabled_channels[channel as usize] = true;
                CommandOutcome::Enabled(channel)
            } else {
                CommandOutcome::InvalidChannel(channel)
            }
        },
        VcpCommand::DisableChannel(channel) => {
            if (channel as usize) < CHANNELS {
                enabled_channels[channel as usize] = false;
                CommandOutcome::Disabled(channel)
            } else {
                CommandOutcome::InvalidChannel(channel)
            }
        },
    }
}

/// The channels to read in a cycle: the enabled ones, in order.
pub fn channels_to_read(enabled_channels: &[bool; 3]) -> (r: Vec<ChannelNum>)
    ensures
        r@ == Seq::new(3, |i: int| i as u8).filter(|c: u8| enabled_channels@[c as int]),
{
    let mut channels: Vec<ChannelNum> = Vec::new();
    let mut ch: u8 = 0;
    let ghost all = Seq::new(3, |i: int| i as u8);
    let ghost pred = |c: u8| enabled_channels@[c as int];
    while ch < 3
        invariant
            ch <= 3,
            all == Seq::new(3, |i: int| i as u8),
            pred == (|c: u8| enabled_channels@[c as int]),
            channels@ == all.take(ch as int).filter(pred),
        decreases 3 - ch,
    {
        proof {
            reveal_with_fuel(Seq::<u8>::filter, 1);
            assert(all.take(ch + 1).drop_last() =~= all.take(ch as int));
            assert(all.take(ch + 1).last() == ch);
        }
        if enabled_channels[ch as usize] {
            channels.push(ch);
        }
        ch += 1;
    }
    assert(all.take(3) =~= all);
    channels
}

/// Every channel of the sensor, channel 0 included, can be enabled and
/// disabled: the command sets that channel alone and reports it; only a
/// channel number past the last channel is reported invalid and changes
/// nothing.
pub proof fn lemma_commands_on_channels(channels: Seq<bool>, c: ChannelNum)
    requires
        channels.len() == CHANNELS,
    ensures
        (c as int) < CHANNELS ==> {
            let on = channels_after(channels, VcpCommand::EnableChannel(c));
            let off = channels_after(channels, VcpCommand::DisableChannel(c));
            &&& outcome_of(VcpCommand::EnableChannel(c)) == CommandOutcome::Enabled(c)
            &&& outcome_of(VcpCommand::DisableChannel(c)) == CommandOutcome::Disabled(c)
            &&& on.len() == CHANNELS && off.len() == CHANNELS
            &&& on[c as int] && !off[c as int]
            &&& forall|j: int| 0 <= j < CHANNELS && j != c ==> on[j] == channels[j] && off[j]
                == channels[j]
        },
        (c as int) >= CHANNELS ==> {
            &&& outcome_of(VcpCommand::EnableChannel(c)) == CommandOutcome::InvalidChannel(c)
            &&& outcome_of(VcpCommand::DisableChannel(c)) == CommandOutcome::InvalidChannel(c)
            &&& channels_after(channels, VcpCommand::EnableChannel(c)) == channels
            &&& channels_after(channels, VcpCommand::DisableChannel(c)) == channels
        },
{
}

/// Disabling a channel right after enabling it leaves it disabled and the
/// other channels as they were.
pub proof fn lemma_enable_then_disable(channels: Seq<bool>, c: ChannelNum)
    requires
        channels.len() == CHANNELS,
    ensures
        channels_after(
            channels_after(channels, VcpCommand::EnableChannel(c)),
            VcpCommand::DisableChannel(c),
        ) == channels_after(channels, VcpCommand::DisableChannel(c)),
{
    if (c as int) < CHANNELS {
        assert(channels.update(c as int, true).update(c as int, false) =~= channels.update(
            c as int,
            false,
        ));
    }
}

/// An event of the sensor service: a reading of a channel, or the text of
/// an error.
#[derive(Debug, Clone, Copy, PartialEq)]
pub enum VcpSensorsEvents<R> {
    Reading(R),
    Error(&'static str),
}

/// The text sent for `error`: its description.
pub open spec fn error_text(error: VcpError) -> Seq<char> {
    match error {
        VcpError::I2cError(msg) => msg@,
        VcpError::InvalidChannel => "Invalid channel number"@,
        VcpError::SensorReadError => "Sensor read error"@,
    }
}

/// Whether `event` is the event sent for the outcome of reading a channel:
/// the reading itself, or the text of the error.
pub open spec fn is_event_of<R>(event: VcpSensorsEvents<R>, result: Result<R, VcpError>) -> bool {
    match result {
        Ok(reading) => event == VcpSensorsEvents::<R>::Reading(reading),
        Err(e) => event matches VcpSensorsEvents::Error(t) && t@ == error_text(e),
    }
}

/// The enabled channels, in order.
pub open spec fn enabled_channels(enabled: Seq<bool>) -> Seq<ChannelNum> {
    Seq::new(3, |i: int| i as u8).filter(|c: u8| enabled[c as int])
}

/// The events of one cycle of the service, given the outcomes of reading
/// the enabled channels in order (see [`channels_to_read`]): one event per
/// enabled channel, in order, each with its channel; disabled channels are
/// not read and give no event.
pub fn cycle_events<R>(enabled_channels_now: &[bool; 3], results: Vec<Result<R, VcpError>>) -> (r: Vec<
    (ChannelNum, VcpSensorsEvents<R>),
>)
    requires
        results@.len() == enabled_channels(enabled_channels_now@).len(),
    ensures
        r@.len() == results@.len(),
        forall|i: int|
            0 <= i < r@.len() ==> (#[trigger] r@[i]).0 == enabled_channels(enabled_channels_now@)[i]
                && is_event_of(r@[i].1, results@[i]),
{
    let channels = channels_to_read(enabled_channels_now);
    let ghost all = results@;
    let mut results = results;
    let mut events: Vec<(ChannelNum, VcpSensorsEvents<R>)> = Vec::new();
    let mut k: usize = 0;
    while results.len() > 0
        invariant
            channels@ == enabled_channels(enabled_channels_now@),
            all.len() == channels@.len(),
            k <= all.len(),
            results@ == all.skip(k as int),
            events@.len() == k,
            forall|i: int|
                0 <= i < k ==> (#[trigger] events@[i]).0 == channels@[i] && is_event_of(
                    events@[i].1,
                    all[i],
                ),
        decreases results@.len(),
    {
        let ghost before = results@;
        let result = results.remove(0);
        assert(before[0] == all[k as int]);
        assert(results@ =~= all.skip(k + 1));
        let event = match result {
            Ok(reading) => VcpSensorsEvents::Reading(reading),
            Err(e) => VcpSensorsEvents::Error(error_event_text(&e)),
        };
        events.push((channels[k], event));
        k += 1;
    }
    events
}

} // verus!
