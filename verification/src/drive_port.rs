//! Which Drive content port the canvas service runs against, decided from the
//! memory-drive flag and the facade URL, and the port used when Drive is not
//! configured.

use vstd::prelude::*;
use crate::domain::{
    is_internal_error, CanvasProductError, CreateDrivePageContentCommand, DrivePageContentSnapshot, DriveVersionPage,
    ListDrivePageContentVersionsCommand, ReadDrivePageContentCommand,
    RestoreDrivePageContentVersionCommand, UpdateDrivePageContentCommand,
};
use crate::text::{
    ascii_lower_spec, is_blank, is_blank_spec, law_trim_commutes_with_ascii_lower,
    law_trim_idempotent, to_ascii_lowercase, trim, trim_spec,
};

verus! {

/// The settings that select a Drive content port.
pub struct DrivePortSelectionInput {
    pub use_memory_drive: Option<bool>,
    pub facade_url: Option<String>,
}

/// The Drive content port to run against.
#[derive(Debug, Clone, PartialEq, Eq)]
pub enum DrivePortSelection {
    Memory,
    Facade { facade_url: String },
    Unconfigured,
}

/// A Drive port selection, with the facade URL as characters.
pub enum DrivePortChoice {
    Memory,
    Facade(Seq<char>),
    Unconfigured,
}

impl View for DrivePortSelection {
    type V = DrivePortChoice;

    open spec fn view(&self) -> DrivePortChoice {
        match self {
            DrivePortSelection::Memory => DrivePortChoice::Memory,
            DrivePortSelection::Facade { facade_url } => DrivePortChoice::Facade(facade_url@),
            DrivePortSelection::Unconfigured => DrivePortChoice::Unconfigured,
        }
    }
}

/// The characters of an optional string.
pub open spec fn opt_chars(value: Option<String>) -> Option<Seq<char>> {
    match value {
        Some(s) => Some(s@),
        None => None,
    }
}

/// The memory drive is used unless it is explicitly disabled; a disabled memory
/// drive selects the facade at the trimmed URL when that URL is not blank, and
/// leaves Drive unconfigured otherwise.
pub open spec fn drive_port_choice(
    use_memory_drive: Option<bool>,
    facade_url: Option<Seq<char>>,
) -> DrivePortChoice {
    if use_memory_drive == Some(false) {
        match facade_url {
            Some(url) => if !is_blank_spec(Some(trim_spec(url))) {
                DrivePortChoice::Facade(trim_spec(url))
            } else {
                DrivePortChoice::Unconfigured
            },
            None => DrivePortChoice::Unconfigured,
        }
    } else {
        DrivePortChoice::Memory
    }
}

/// A flag value is truthy when, trimmed and lowercased, it reads `1`, `true`,
/// `yes` or `on`.
pub open spec fn truthy_spec(value: Seq<char>) -> bool {
    let t = ascii_lower_spec(trim_spec(value));
    t == "1"@ || t == "true"@ || t == "yes"@ || t == "on"@
}

/// Selects the Drive content port for the given settings.
pub fn select_drive_port(input: DrivePortSelectionInput) -> (selection: DrivePortSelection)
    ensures
        selection@ == drive_port_choice(input.use_memory_drive, opt_chars(input.facade_url)),
{
    match input.use_memory_drive {
        Some(false) => match input.facade_url {
            Some(url) => {
                let trimmed = trim(url.as_str());
                if !is_blank(Some(trimmed.as_str())) {
                    DrivePortSelection::Facade { facade_url: trimmed }
                } else {
                    DrivePortSelection::Unconfigured
                }
            },
            None => DrivePortSelection::Unconfigured,
        },
        _ => DrivePortSelection::Memory,
    }
}

/// Whether a flag value reads as true.
pub fn parse_truthy(value: &str) -> (b: bool)
    ensures
        b == truthy_spec(value@),
{
    let trimmed = trim(value);
    let lowered = to_ascii_lowercase(trimmed.as_str());
    lowered == String::from_str("1") || lowered == String::from_str("true") || lowered
        == String::from_str("yes") || lowered == String::from_str("on")
}

/// Selects the Drive content port from the raw memory-drive flag and facade URL
/// settings: a present flag counts as enabled when it is truthy.
pub fn select_drive_port_from_settings(
    memory_flag: Option<String>,
    facade_url: Option<String>,
) -> (selection: DrivePortSelection)
    ensures
        selection@ == drive_port_choice(
            match memory_flag {
                Some(v) => Some(truthy_spec(v@)),
                None => None,
            },
            opt_chars(facade_url),
        ),
{
    let use_memory_drive = match memory_flag {
        Some(v) => Some(parse_truthy(v.as_str())),
        None => None,
    };
    select_drive_port(DrivePortSelectionInput { use_memory_drive, facade_url })
}

/// Law: whether a flag reads as true does not depend on surrounding whitespace
/// or on ASCII case.
pub proof fn law_truthy_ignores_whitespace_and_case(value: Seq<char>)
    ensures
        truthy_spec(trim_spec(value)) == truthy_spec(value),
        truthy_spec(ascii_lower_spec(value)) == truthy_spec(value),
{
    law_trim_idempotent(value);
    law_trim_commutes_with_ascii_lower(value);
    law_trim_commutes_with_ascii_lower(trim_spec(value));
}

/// Law: a selected facade URL is already trimmed and not empty, and a facade is
/// selected only when the memory drive is explicitly disabled.
pub proof fn law_selected_facade_url_is_trimmed(
    use_memory_drive: Option<bool>,
    facade_url: Option<Seq<char>>,
)
    ensures
        drive_port_choice(use_memory_drive, facade_url) matches DrivePortChoice::Facade(url) ==> {
            &&& trim_spec(url) == url
            &&& url.len() > 0
            &&& use_memory_drive == Some(false)
        },
{
    if let Some(u) = facade_url {
        law_trim_idempotent(u);
    }
}

/// What the unconfigured port answers to a page create.
pub const DRIVE_NOT_CONFIGURED_HINT: &'static str = "Drive integration is not configured; set SDKWORK_DRIVE_FACADE_URL, leave SDKWORK_CANVAS_USE_MEMORY_DRIVE unset for local memory Drive, or set SDKWORK_CANVAS_USE_MEMORY_DRIVE=1";

/// What the unconfigured port answers to every other request.
pub const DRIVE_NOT_CONFIGURED: &'static str = "Drive integration is not configured";

/// The Drive content port used when Drive is not configured: every request fails.
#[derive(Clone, Default)]
pub struct DevDrivePageContentPort;

impl DevDrivePageContentPort {
    pub fn create_page_content(&self, command: CreateDrivePageContentCommand) -> (res: Result<
        DrivePageContentSnapshot,
        CanvasProductError,
    >)
        ensures
            res matches Err(e) && is_internal_error(e, DRIVE_NOT_CONFIGURED_HINT@),
    {
        Err(CanvasProductError::Internal(String::from_str(DRIVE_NOT_CONFIGURED_HINT)))
    }

    pub fn read_page_content(&self, command: ReadDrivePageContentCommand) -> (res: Result<
        DrivePageContentSnapshot,
        CanvasProductError,
    >)
        ensures
            res matches Err(e) && is_internal_error(e, DRIVE_NOT_CONFIGURED@),
    {
        Err(CanvasProductError::Internal(String::from_str(DRIVE_NOT_CONFIGURED)))
    }

    pub fn update_page_content(&self, command: UpdateDrivePageContentCommand) -> (res: Result<
        DrivePageContentSnapshot,
        CanvasProductError,
    >)
        ensures
            res matches Err(e) && is_internal_error(e, DRIVE_NOT_CONFIGURED@),
    {
        Err(CanvasProductError::Internal(String::from_str(DRIVE_NOT_CONFIGURED)))
    }

    pub fn list_page_content_versions(
        &self,
        command: ListDrivePageContentVersionsCommand,
    ) -> (res: Result<DriveVersionPage, CanvasProductError>)
        ensures
            res matches Err(e) && is_internal_error(e, DRIVE_NOT_CONFIGURED@),
    {
        Err(CanvasProductError::Internal(String::from_str(DRIVE_NOT_CONFIGURED)))
    }

    pub fn restore_page_content_version(
        &self,
        command: RestoreDrivePageContentVersionCommand,
    ) -> (res: Result<DrivePageContentSnapshot, CanvasProductError>)
        ensures
            res matches Err(e) && is_internal_error(e, DRIVE_NOT_CONFIGURED@),
    {
        Err(CanvasProductError::Internal(String::from_str(DRIVE_NOT_CONFIGURED)))
    }
}

} // verus!
