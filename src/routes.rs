use vstd::prelude::*;

use crate::services;
use crate::text::str_eq;

verus! {

/// The reply to `request`, given whether data came with it.
pub open spec fn route_reply(request: Seq<char>, has_data: bool) -> Seq<char> {
    if request.len() == 0 {
        "Invalid request"@
    } else if request == "collect"@ {
        if has_data {
            "Data collected successfully"@
        } else {
            "No data provided"@
        }
    } else if request == "results"@ {
        "Analytics results"@
    } else if request == "network_settings_get_all"@ {
        "Fetched all network settings successfully"@
    } else if request == "network_settings_get_by_id"@ {
        if has_data {
            "Fetched network setting successfully"@
        } else {
            "No ID provided"@
        }
    } else if request == "network_settings_create"@ {
        if has_data {
            "Network setting created successfully"@
        } else {
            "No data provided"@
        }
    } else if request == "network_settings_update"@ {
        if has_data {
            "Network setting updated successfully"@
        } else {
            "No data provided"@
        }
    } else if request == "network_settings_delete"@ {
        if has_data {
            "Network setting deleted successfully"@
        } else {
            "No ID provided"@
        }
    } else {
        "Unknown request"@
    }
}

/// Dispatches a named request to its service and returns the reply.
pub fn route_request(request: &str, data: Option<String>) -> (r: String)
    ensures
        r@ == route_reply(request@, data is Some),
{
    if request.is_empty() {
        return "Invalid request".to_string();
    }
    if str_eq(request, "collect") {
        match data {
            Some(d) => services::collect_data(d.as_str()),
            None => "No data provided".to_string(),
        }
    } else if str_eq(request, "results") {
        match services::get_analytics() {
            Ok(s) => s,
            Err(_) => "Error fetching analytics".to_string(),
        }
    } else if str_eq(request, "network_settings_get_all") {
        match services::get_all_settings() {
            Ok(s) => s,
            Err(_) => "Failed to fetch network settings".to_string(),
        }
    } else if str_eq(request, "network_settings_get_by_id") {
        match data {
            Some(id) => match services::get_setting_by_id(id.as_str()) {
                Ok(s) => s,
                Err(_) => "Failed to fetch network setting".to_string(),
            },
            None => "No ID provided".to_string(),
        }
    } else if str_eq(request, "network_settings_create") {
        match data {
            Some(json) => match services::create_new_setting(json.as_str()) {
                Ok(s) => s,
                Err(_) => "Failed to create network setting".to_string(),
            },
            None => "No data provided".to_string(),
        }
    } else if str_eq(request, "network_settings_update") {
        match data {
            Some(json) => match services::update_setting(json.as_str()) {
                Ok(s) => s,
                Err(_) => "Failed to update network setting".to_string(),
            },
            None => "No data provided".to_string(),
        }
    } else if str_eq(request, "network_settings_delete") {
        match data {
            Some(id) => match services::delete_setting(id.as_str()) {
                Ok(_) => "Network setting deleted successfully".to_string(),
                Err(_) => "Failed to delete network setting".to_string(),
            },
            None => "No ID provided".to_string(),
        }
    } else {
        "Unknown request".to_string()
    }
}

} // verus!
