use micropayment_channels::controllers::{Controllers, Platform};
use micropayment_channels::errors::ContractError;
use micropayment_channels::middleware::{
    check_permissions, is_authenticated, validate_network_setting, validate_request, User,
    ValidationError,
};
use micropayment_channels::platforms::{NetworkManager, UnixNetworkManager, WindowsNetworkManager};
use micropayment_channels::routes::route_request;
use micropayment_channels::services::{
    connect_to_remote_hub, disconnect_from_remote_hub, start_nmap_scan, NetworkError,
};
use micropayment_channels::settings::{validate_setting, NetworkSetting, NetworkSettingsManager};

fn setting(name: &str, value: &str) -> NetworkSetting {
    NetworkSetting {
        setting_name: name.to_string(),
        value: value.to_string(),
        description: None,
    }
}

#[test]
fn mod_test_create_network_setting() {
    let mut controller = Controllers::new();
    let setting = NetworkSetting {
        setting_name: "TestSetting".to_string(),
        value: "TestValue".to_string(),
        description: None,
    };
    assert_eq!(controller.create_network_setting(setting.clone()), Ok(()));
    let fetched_setting = controller.get_network_setting_by_id("TestSetting").unwrap();
    assert_eq!(fetched_setting.setting_name, "TestSetting");
}

#[test]
fn test_validate_network_setting() {
    let valid_setting = NetworkSetting {
        setting_name: "ValidName".to_string(),
        value: "ValidValue".to_string(),
        description: None,
    };
    let invalid_setting_name = NetworkSetting {
        setting_name: "".to_string(),
        value: "ValidValue".to_string(),
        description: None,
    };
    let invalid_value = NetworkSetting {
        setting_name: "ValidName".to_string(),
        value: "".to_string(),
        description: None,
    };
    let invalid_both = NetworkSetting {
        setting_name: "".to_string(),
        value: "".to_string(),
        description: None,
    };

    assert!(validate_network_setting(&valid_setting).is_ok());

    match validate_network_setting(&invalid_setting_name) {
        Ok(_) => panic!("Expected validation error but got Ok"),
        Err(errors) => {
            assert!(errors.messages.contains(&"Setting name is required".to_string()));
        }
    }

    match validate_network_setting(&invalid_value) {
        Ok(_) => panic!("Expected validation error but got Ok"),
        Err(errors) => {
            assert!(errors.messages.contains(&"Value is required".to_string()));
        }
    }

    match validate_network_setting(&invalid_both) {
        Ok(_) => panic!("Expected validation error but got Ok"),
        Err(errors) => {
            assert!(errors.messages.contains(&"Setting name is required".to_string()));
            assert!(errors.messages.contains(&"Value is required".to_string()));
        }
    }
}

#[test]
fn mod_test_is_authenticated() {
    let user = Some(User {
        is_authenticated: true,
        permissions: vec![],
    });
    assert!(is_authenticated(&user).is_ok());

    let user = Some(User {
        is_authenticated: false,
        permissions: vec![],
    });
    assert!(is_authenticated(&user).is_err());

    assert!(is_authenticated(&None).is_err());
}

#[test]
fn mod_test_check_permissions() {
    let user = Some(User {
        is_authenticated: true,
        permissions: vec!["admin".to_string()],
    });
    assert!(check_permissions(&user, "admin").is_ok());
    assert!(check_permissions(&user, "user").is_err());

    let user = Some(User {
        is_authenticated: true,
        permissions: vec![],
    });
    assert!(check_permissions(&user, "admin").is_err());

    assert!(check_permissions(&None, "admin").is_err());
}

#[test]
fn test_route_request() {
    assert_eq!(route_request("collect", Some("sample data".to_string())), "Data collected successfully");
    assert_eq!(route_request("results", None), "Analytics results");

    assert_eq!(route_request("network_settings_get_all", None), "Fetched all network settings successfully");
    assert_eq!(route_request("network_settings_get_by_id", Some("1".to_string())), "Fetched network setting successfully");
    assert_eq!(route_request("network_settings_create", Some("{\"settingName\":\"example\",\"value\":\"value\"}".to_string())), "Network setting created successfully");
    assert_eq!(route_request("network_settings_update", Some("{\"id\":\"1\",\"settingName\":\"example\",\"value\":\"new_value\"}".to_string())), "Network setting updated successfully");
    assert_eq!(route_request("network_settings_delete", Some("1".to_string())), "Network setting deleted successfully");
}

#[test]
fn test_start_nmap_scan() {
    let response = start_nmap_scan("network_1").unwrap();
    assert_eq!(response.get("status").unwrap(), "success");

    let response = start_nmap_scan("").err().unwrap();
    assert_eq!(response.to_string(), "InvalidTarget");

    let response = start_nmap_scan("invalid_target").err().unwrap();
    assert_eq!(response.to_string(), "ScanFailed");
}

#[test]
fn test_connect_to_remote_hub() {
    assert!(connect_to_remote_hub("valid_hub_address").is_ok());
    assert!(connect_to_remote_hub("").is_err());
    assert!(connect_to_remote_hub("invalid_hub_address").is_err());
}

#[test]
fn test_disconnect_from_remote_hub() {
    assert!(disconnect_from_remote_hub("valid_hub_address").is_ok());
    assert!(disconnect_from_remote_hub("").is_err());
    assert!(disconnect_from_remote_hub("invalid_hub_address").is_err());
}

#[test]
fn tests_test_create_network_setting() {
    let mut controller = Controllers::new();
    let setting = NetworkSetting {
        setting_name: "TestSetting".to_string(),
        value: "TestValue".to_string(),
        description: None,
    };
    assert_eq!(controller.create_network_setting(setting.clone()), Ok(()));
    let fetched_setting = controller.get_network_setting_by_id("TestSetting").unwrap();
    assert_eq!(fetched_setting.setting_name, "TestSetting");
}

#[test]
fn test_get_all_network_settings() {
    let mut controller = Controllers::new();
    let setting1 = NetworkSetting {
        setting_name: "Setting1".to_string(),
        value: "Value1".to_string(),
        description: None,
    };
    let setting2 = NetworkSetting {
        setting_name: "Setting2".to_string(),
        value: "Value2".to_string(),
        description: None,
    };
    controller.create_network_setting(setting1.clone()).unwrap();
    controller.create_network_setting(setting2.clone()).unwrap();
    let settings = controller.get_all_network_settings();
    assert_eq!(settings.len(), 2);
}

#[test]
fn test_update_network_setting() {
    let mut controller = Controllers::new();
    let setting = NetworkSetting {
        setting_name: "TestSetting".to_string(),
        value: "TestValue".to_string(),
        description: None,
    };
    controller.create_network_setting(setting.clone()).unwrap();
    let updated_setting = NetworkSetting {
        setting_name: "TestSetting".to_string(),
        value: "UpdatedValue".to_string(),
        description: None,
    };
    assert_eq!(controller.update_network_setting("TestSetting", updated_setting.clone()), Ok(()));
    let fetched_setting = controller.get_network_setting_by_id("TestSetting").unwrap();
    assert_eq!(fetched_setting.value, "UpdatedValue");
}

#[test]
fn test_delete_network_setting() {
    let mut controller = Controllers::new();
    let setting = NetworkSetting {
        setting_name: "TestSetting".to_string(),
        value: "TestValue".to_string(),
        description: None,
    };
    controller.create_network_setting(setting.clone()).unwrap();
    assert_eq!(controller.delete_network_setting("TestSetting"), Ok(()));
    assert!(controller.get_network_setting_by_id("TestSetting").is_none());
}

#[test]
fn test_network_manager_unix() {
    let controller = Controllers::for_platform(Platform::Unix);
    assert_eq!(controller.network_manager(), "Handling network connections for Unix");
}

#[test]
fn test_network_manager_windows() {
    let controller = Controllers::for_platform(Platform::Windows);
    assert_eq!(controller.network_manager(), "Handling network connections for Windows");
}

#[test]
fn test_validate_request() {
    let valid_setting = NetworkSetting {
        setting_name: "ValidName".to_string(),
        value: "ValidValue".to_string(),
        description: None,
    };
    let invalid_setting = NetworkSetting {
        setting_name: "".to_string(),
        value: "".to_string(),
        description: None,
    };
    assert!(validate_request(&valid_setting).is_ok());
    assert!(validate_request(&invalid_setting).is_err());
}

#[test]
fn tests_test_is_authenticated() {
    let user = Some(User {
        is_authenticated: true,
        permissions: vec![],
    });
    assert!(is_authenticated(&user).is_ok());

    let user = Some(User {
        is_authenticated: false,
        permissions: vec![],
    });
    assert!(is_authenticated(&user).is_err());

    assert!(is_authenticated(&None).is_err());
}

#[test]
fn tests_test_check_permissions() {
    let user = Some(User {
        is_authenticated: true,
        permissions: vec!["admin".to_string()],
    });
    assert!(check_permissions(&user, "admin").is_ok());
    assert!(check_permissions(&user, "user").is_err());

    let user = Some(User {
        is_authenticated: true,
        permissions: vec![],
    });
    assert!(check_permissions(&user, "admin").is_err());

    assert!(check_permissions(&None, "admin").is_err());
}

#[test]
fn validation_error_messages_in_order() {
    let mut e = ValidationError::new();
    assert!(e.is_empty());
    e.add_message("a".to_string());
    e.add_message("b".to_string());
    assert!(!e.is_empty());
    assert_eq!(e.messages, vec!["a".to_string(), "b".to_string()]);
    match validate_network_setting(&setting("", "")) {
        Err(errors) => assert_eq!(
            errors.messages,
            vec!["Setting name is required".to_string(), "Value is required".to_string()]
        ),
        Ok(_) => panic!("empty setting accepted"),
    }
}

#[test]
fn validate_setting_reports_name_before_value() {
    assert_eq!(validate_setting(&setting("n", "v")), Ok(()));
    assert_eq!(validate_setting(&setting("", "")), Err("Setting name is required".to_string()));
    assert_eq!(validate_setting(&setting("n", "")), Err("Value is required".to_string()));
}

#[test]
fn settings_manager_rejects_missing_and_invalid() {
    let mut m = NetworkSettingsManager::new();
    assert_eq!(m.create_network_setting(setting("", "v")), Err("Setting name is required".to_string()));
    assert!(m.get_all_settings().is_empty());
    assert_eq!(m.update_network_setting("x", setting("x", "v")), Err("Setting not found".to_string()));
    assert_eq!(m.delete_network_setting("x"), Err("Setting not found".to_string()));
    m.create_network_setting(setting("x", "v")).unwrap();
    assert_eq!(m.update_network_setting("x", setting("x", "")), Err("Value is required".to_string()));
    assert_eq!(m.get_setting_by_id("x").unwrap().value, "v");
    // Same name again replaces the stored value.
    m.create_network_setting(setting("x", "w")).unwrap();
    assert_eq!(m.get_all_settings().len(), 1);
    assert_eq!(m.get_setting_by_id("x").unwrap().value, "w");
    // An update may store under an identifier other than the setting's name.
    m.update_network_setting("x", setting("y", "z")).unwrap();
    assert_eq!(m.get_setting_by_id("x").unwrap().setting_name, "y");
    assert!(m.get_setting_by_id("y").is_none());
    assert_eq!(m.delete_network_setting("x"), Ok(()));
    assert!(m.get_setting_by_id("x").is_none());
}

#[test]
fn route_request_edge_cases() {
    assert_eq!(route_request("", None), "Invalid request");
    assert_eq!(route_request("collect", None), "No data provided");
    assert_eq!(route_request("network_settings_get_by_id", None), "No ID provided");
    assert_eq!(route_request("network_settings_create", None), "No data provided");
    assert_eq!(route_request("network_settings_update", None), "No data provided");
    assert_eq!(route_request("network_settings_delete", None), "No ID provided");
    assert_eq!(route_request("reboot", None), "Unknown request");
}

#[test]
fn scan_report_fields() {
    let report = start_nmap_scan("home-network").unwrap();
    assert_eq!(report.get("status").unwrap(), "success");
    assert_eq!(report.get("output").unwrap(), "Scan results for home-network");
    assert!(report.get("other").is_none());
    assert_eq!(NetworkError::ConnectionFailed.to_string(), "ConnectionFailed");
    assert_eq!(connect_to_remote_hub("x"), Err(NetworkError::ConnectionFailed));
    assert_eq!(disconnect_from_remote_hub("x"), Err(NetworkError::DisconnectionFailed));
}

#[test]
fn platform_commands() {
    assert_eq!(UnixNetworkManager::get_all_network_settings(), Ok("nmcli device show".to_string()));
    assert_eq!(UnixNetworkManager::get_network_setting_by_id("eth0"), Ok("nmcli device show eth0".to_string()));
    assert_eq!(UnixNetworkManager::create_network_setting("wifi", "home"), Ok("nmcli con add type wifi home".to_string()));
    assert_eq!(UnixNetworkManager::update_network_setting("c1", "ipv4.method", "auto"), Ok("nmcli con mod c1 ipv4.method auto".to_string()));
    assert_eq!(UnixNetworkManager::delete_network_setting("c1"), Ok("nmcli con delete c1".to_string()));
    assert_eq!(WindowsNetworkManager::get_all_network_settings(), Ok("netsh interface show interface".to_string()));
    assert_eq!(WindowsNetworkManager::get_network_setting_by_id("3"), Ok("netsh interface ipv4 show address 3".to_string()));
    assert_eq!(WindowsNetworkManager::create_network_setting("a", "b"), Err("Function not implemented for Windows".to_string()));
    assert_eq!(WindowsNetworkManager::update_network_setting("3", "static", "10.0.0.2"), Ok("netsh interface ipv4 set address 3 static 10.0.0.2".to_string()));
    assert_eq!(WindowsNetworkManager::delete_network_setting("3"), Ok("netsh interface delete interface 3".to_string()));
}

#[test]
fn contract_error_text() {
    assert_eq!(ContractError::NotFound("x".to_string()).to_string(), "Not Found: x");
    assert_eq!(ContractError::Unauthorized("y".to_string()).to_string(), "Unauthorized: y");
    assert_eq!(ContractError::InvalidInput("z".to_string()).to_string(), "Invalid Input: z");
}
