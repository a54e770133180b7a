//! Command dispatch.
//!
//! One dispatcher instance owns the credential store and is the single entry
//! point for inbound commands. Indicator, actuation and restart requests are
//! returned as [`DriverAction`]s for the host environment to perform; the
//! dispatcher itself never touches the telemetry store, so no command can
//! disturb device state beyond the credential record it names.
//!
//! Every failure is recoverable: the dispatcher returns a [`CommandError`]
//! and is ready for the next request, with the credential store exactly as
//! it was unless the command completed.

use vstd::prelude::*;

use crate::api::Command;
use crate::api::CommandError;
use crate::api::CommandModel;
use crate::api::WifiCredentials;
use crate::api::DUTY_FULL_PERMILLE;
use crate::credentials::erase_model;
use crate::credentials::set_model;
use crate::credentials::CredentialStore;
use crate::credentials::StoreModel;
use crate::wire::decode_command;
use crate::wire::spec_decode;

verus! {

/// Work a completed command asks of the host environment's drivers.
#[derive(Clone, Copy, Debug, PartialEq, Eq, Structural)]
pub enum DriverAction {
    /// Restart the whole device; must be the last observable action.
    Restart,
    /// Drive the indicator with these channel intensities.
    SetColor { r: u8, g: u8, b: u8 },
    /// Set the actuation PWM duty cycle, in per-mille of the period.
    SetDutyCycle { duty_permille: u16 },
}

/// Routes each command to the subsystem that owns it.
pub struct CommandDispatcher {
    credentials: CredentialStore,
}

impl View for CommandDispatcher {
    type V = StoreModel;

    closed spec fn view(&self) -> StoreModel {
        self.credentials@
    }
}

/// What `dispatch` returns and how it transforms the credential store, for
/// each command. An out-of-range duty cycle is rejected, never clamped.
pub open spec fn spec_dispatch(m: StoreModel, cmd: CommandModel) -> (
    StoreModel,
    Result<Option<DriverAction>, CommandError>,
) {
    match cmd {
        CommandModel::Reset => (m, Ok(Some(DriverAction::Restart))),
        CommandModel::SetWifi { ssid, password } => {
            let (m2, sr) = set_model(m, ssid, password);
            match sr {
                Ok(_) => (m2, Ok(None)),
                Err(e) => (m2, Err(CommandError::Storage(e))),
            }
        },
        CommandModel::ResetNvs => {
            let (m2, sr) = erase_model(m);
            match sr {
                Ok(_) => (m2, Ok(None)),
                Err(e) => (m2, Err(CommandError::Storage(e))),
            }
        },
        CommandModel::SetLedColor { r, g, b } => (
            m,
            Ok(Some(DriverAction::SetColor { r: r as u8, g: g as u8, b: b as u8 })),
        ),
        CommandModel::SetPwmDutyCycle { duty_permille } => if duty_permille
            <= DUTY_FULL_PERMILLE as int {
            (m, Ok(Some(DriverAction::SetDutyCycle { duty_permille: duty_permille as u16 })))
        } else {
            (m, Err(CommandError::DutyCycleOutOfRange))
        },
    }
}

impl CommandDispatcher {
    /// Takes ownership of the credential store; from here on all credential
    /// changes go through commands.
    pub fn new(credentials: CredentialStore) -> (d: Self)
        ensures
            d@ == credentials@,
    {
        CommandDispatcher { credentials }
    }

    /// The stored credential pair, as [`CredentialStore::get`] reports it.
    pub fn stored_credentials(&self) -> (r: Option<WifiCredentials>)
        ensures
            match crate::credentials::get_model(self@) {
                Some(pair) => r matches Some(c) && c.ssid@ == pair.0 && c.password@ == pair.1,
                None => r is None,
            },
    {
        self.credentials.get()
    }

    /// Consumes one command: credential commands are applied to the store,
    /// driver commands are returned for the host to perform. On any error the
    /// credential store keeps its previous record.
    pub fn dispatch(&mut self, cmd: Command) -> (res: Result<Option<DriverAction>, CommandError>)
        ensures
            (final(self)@, res) == spec_dispatch(old(self)@, cmd@),
            res is Err ==> final(self)@ == old(self)@,
    {
        match cmd {
            Command::Reset => Ok(Some(DriverAction::Restart)),
            Command::SetWifi { ssid, password } => {
                let credential = WifiCredentials { ssid, password };
                match self.credentials.set(&credential) {
                    Ok(_) => Ok(None),
                    Err(e) => Err(CommandError::Storage(e)),
                }
            },
            Command::ResetNvs => {
                match self.credentials.erase() {
                    Ok(_) => Ok(None),
                    Err(e) => Err(CommandError::Storage(e)),
                }
            },
            Command::SetLedColor { r, g, b } => Ok(Some(DriverAction::SetColor { r, g, b })),
            Command::SetPwmDutyCycle { duty_permille } => {
                if duty_permille <= DUTY_FULL_PERMILLE as u32 {
                    Ok(Some(DriverAction::SetDutyCycle { duty_permille: duty_permille as u16 }))
                } else {
                    Err(CommandError::DutyCycleOutOfRange)
                }
            },
        }
    }

    /// Decodes one wire payload and dispatches the command it carries. A
    /// payload the grammar rejects yields its decode error, and both the
    /// credential store and the device state are left untouched: the
    /// dispatcher holds no reference to the telemetry store at all, and the
    /// credential record changes only when a well-formed credential command
    /// completes.
    pub fn handle_payload(&mut self, payload: &str) -> (res: Result<
        Option<DriverAction>,
        CommandError,
    >)
        ensures
            match spec_decode(payload@) {
                Ok(cm) => (final(self)@, res) == spec_dispatch(old(self)@, cm),
                Err(e) => res == Err::<Option<DriverAction>, CommandError>(e) && final(self)@
                    == old(self)@,
            },
            res is Err ==> final(self)@ == old(self)@,
    {
        match decode_command(payload) {
            Ok(cmd) => self.dispatch(cmd),
            Err(e) => Err(e),
        }
    }
}

} // verus!
