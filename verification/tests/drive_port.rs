use canvas_assembly::domain::{
    CanvasProductError, CreateDrivePageContentCommand, JsonValue, ListDrivePageContentVersionsCommand,
    ReadDrivePageContentCommand, RestoreDrivePageContentVersionCommand, UpdateDrivePageContentCommand,
};
use canvas_assembly::drive_port::{
    parse_truthy, select_drive_port, select_drive_port_from_settings, DevDrivePageContentPort,
    DrivePortSelection, DrivePortSelectionInput, DRIVE_NOT_CONFIGURED, DRIVE_NOT_CONFIGURED_HINT,
};

#[test]
fn defaults_to_memory_drive_for_local_development() {
    assert_eq!(
        select_drive_port(DrivePortSelectionInput {
            use_memory_drive: None,
            facade_url: None,
        }),
        DrivePortSelection::Memory
    );
}

#[test]
fn explicit_memory_flag_still_uses_memory_drive() {
    assert_eq!(
        select_drive_port(DrivePortSelectionInput {
            use_memory_drive: Some(true),
            facade_url: Some("https://drive.example.com".to_string()),
        }),
        DrivePortSelection::Memory
    );
}

#[test]
fn disabled_memory_without_facade_url_is_unconfigured() {
    assert_eq!(
        select_drive_port(DrivePortSelectionInput {
            use_memory_drive: Some(false),
            facade_url: None,
        }),
        DrivePortSelection::Unconfigured
    );
}

#[test]
fn disabled_memory_with_facade_url_selects_drive_sdk_facade() {
    assert_eq!(
        select_drive_port(DrivePortSelectionInput {
            use_memory_drive: Some(false),
            facade_url: Some(" https://drive.example.com ".to_string()),
        }),
        DrivePortSelection::Facade {
            facade_url: "https://drive.example.com".to_string(),
        }
    );
}

#[test]
fn disabled_memory_with_blank_facade_url_is_unconfigured() {
    assert_eq!(
        select_drive_port(DrivePortSelectionInput {
            use_memory_drive: Some(false),
            facade_url: Some(" \t\u{3000} ".to_string()),
        }),
        DrivePortSelection::Unconfigured
    );
}

#[test]
fn truthy_flag_values_are_trimmed_and_case_insensitive() {
    for value in ["1", "true", "yes", "on", " TRUE ", "Yes\n", "\tOn"] {
        assert!(parse_truthy(value), "{value:?} should read as true");
    }
    for value in ["0", "false", "no", "off", "", "  ", "truthy", "o n"] {
        assert!(!parse_truthy(value), "{value:?} should read as false");
    }
}

#[test]
fn truthy_reading_ignores_surrounding_whitespace_and_case() {
    for value in ["ON", " yes ", "False", "1 ", "maybe"] {
        assert_eq!(parse_truthy(value), parse_truthy(value.trim()));
        assert_eq!(parse_truthy(value), parse_truthy(&value.to_ascii_lowercase()));
    }
}

#[test]
fn settings_select_port_from_raw_flag_and_url() {
    assert_eq!(
        select_drive_port_from_settings(None, Some("https://drive.example.com".to_string())),
        DrivePortSelection::Memory
    );
    assert_eq!(
        select_drive_port_from_settings(Some("yes".to_string()), None),
        DrivePortSelection::Memory
    );
    assert_eq!(
        select_drive_port_from_settings(Some(" 0 ".to_string()), None),
        DrivePortSelection::Unconfigured
    );
    assert_eq!(
        select_drive_port_from_settings(
            Some("false".to_string()),
            Some("  https://drive.example.com/api ".to_string())
        ),
        DrivePortSelection::Facade {
            facade_url: "https://drive.example.com/api".to_string(),
        }
    );
}

#[test]
fn selected_facade_url_is_already_trimmed() {
    let selection = select_drive_port(DrivePortSelectionInput {
        use_memory_drive: Some(false),
        facade_url: Some("\u{a0}https://drive.example.com\r\n".to_string()),
    });
    match selection {
        DrivePortSelection::Facade { facade_url } => {
            assert_eq!(facade_url, facade_url.trim());
            assert!(!facade_url.is_empty());
        }
        other => panic!("expected a facade, got {other:?}"),
    }
}

fn internal_message(result: Result<impl std::fmt::Debug, CanvasProductError>) -> String {
    match result {
        Err(CanvasProductError::Internal(message)) => message,
        other => panic!("expected an internal error, got {other:?}"),
    }
}

#[test]
fn unconfigured_port_rejects_every_request() {
    let port = DevDrivePageContentPort::default();
    let create = port.create_page_content(CreateDrivePageContentCommand {
        tenant_id: "100001".to_string(),
        organization_id: "0".to_string(),
        operator_id: "30".to_string(),
        page_id: "page-001".to_string(),
        title: "Roadmap".to_string(),
        drive_space_id: "drive-space-001".to_string(),
        folder_drive_node_id: None,
        content_type: "application/vnd.sdkwork.canvas.page+json".to_string(),
        content_schema_version: "canvas/v1".to_string(),
        content: JsonValue::Null,
    });
    assert_eq!(internal_message(create), DRIVE_NOT_CONFIGURED_HINT);
    assert!(DRIVE_NOT_CONFIGURED_HINT.contains("SDKWORK_DRIVE_FACADE_URL"));

    let read = port.read_page_content(ReadDrivePageContentCommand {
        tenant_id: "100001".to_string(),
        drive_space_id: "drive-space-001".to_string(),
        drive_node_id: "drive-node-page-001".to_string(),
        current_drive_version_id: "drive-version-page-001-v1".to_string(),
    });
    assert_eq!(internal_message(read), "Drive integration is not configured");

    let update = port.update_page_content(UpdateDrivePageContentCommand {
        tenant_id: "100001".to_string(),
        operator_id: "30".to_string(),
        page_id: "page-001".to_string(),
        drive_space_id: "drive-space-001".to_string(),
        drive_node_id: "drive-node-page-001".to_string(),
        expected_drive_version_id: None,
        content_type: "application/json".to_string(),
        content_schema_version: "canvas/v1".to_string(),
        content: JsonValue::Null,
    });
    assert_eq!(internal_message(update), DRIVE_NOT_CONFIGURED);

    let list = port.list_page_content_versions(ListDrivePageContentVersionsCommand {
        tenant_id: "100001".to_string(),
        drive_node_id: "drive-node-page-001".to_string(),
        page: 1,
        page_size: 20,
    });
    assert_eq!(internal_message(list), DRIVE_NOT_CONFIGURED);

    let restore = port.restore_page_content_version(RestoreDrivePageContentVersionCommand {
        tenant_id: "100001".to_string(),
        drive_space_id: "drive-space-001".to_string(),
        drive_node_id: "drive-node-page-001".to_string(),
        drive_version_id: "drive-version-page-001-v1".to_string(),
        expected_current_drive_version_id: None,
    });
    assert_eq!(internal_message(restore), DRIVE_NOT_CONFIGURED);
}
