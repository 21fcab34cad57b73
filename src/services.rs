use vstd::prelude::*;

use crate::text::{occurs_in, str_contains, str_eq};
use vstd::string::StringExecFns;

verus! {

#[derive(Debug, Clone, Copy, PartialEq, Eq, Structural)]
pub enum NetworkError {
    ScanFailed,
    ConnectionFailed,
    DisconnectionFailed,
    InvalidTarget,
}

impl NetworkError {
    /// The variant's name.
    pub open spec fn name(&self) -> Seq<char> {
        match self {
            NetworkError::ScanFailed => "ScanFailed"@,
            NetworkError::ConnectionFailed => "ConnectionFailed"@,
            NetworkError::DisconnectionFailed => "DisconnectionFailed"@,
            NetworkError::InvalidTarget => "InvalidTarget"@,
        }
    }

    pub fn to_string(&self) -> (r: String)
        ensures
            r@ == self.name(),
    {
        match self {
            NetworkError::ScanFailed => "ScanFailed".to_string(),
            NetworkError::ConnectionFailed => "ConnectionFailed".to_string(),
            NetworkError::DisconnectionFailed => "DisconnectionFailed".to_string(),
            NetworkError::InvalidTarget => "InvalidTarget".to_string(),
        }
    }
}

/// The fields reported by a scan.
#[derive(Debug, Clone)]
pub struct ScanReport {
    pub status: String,
    pub output: String,
}

impl ScanReport {
    /// The field named `key` (`status` or `output`).
    pub fn get(&self, key: &str) -> (r: Option<String>)
        ensures
            key@ == "status"@ ==> r == Some(self.status),
            key@ == "output"@ ==> r == Some(self.output),
            key@ != "status"@ && key@ != "output"@ ==> r is None,
    {
        proof {
            reveal_strlit("status");
            reveal_strlit("output");
            assert("status"@[0] != "output"@[0]);
        }
        if str_eq(key, "status") {
            Some(self.status.clone())
        } else if str_eq(key, "output") {
            Some(self.output.clone())
        } else {
            None
        }
    }
}

/// Starts a scan of `target`: an empty target is invalid, and only targets
/// naming a network can be scanned.
pub fn start_nmap_scan(target: &str) -> (r: Result<ScanReport, NetworkError>)
    ensures
        target@.len() == 0 ==> r == Err::<ScanReport, NetworkError>(NetworkError::InvalidTarget),
        target@.len() > 0 && !occurs_in("network"@, target@) ==> r == Err::<ScanReport, NetworkError>(
            NetworkError::ScanFailed,
        ),
        target@.len() > 0 && occurs_in("network"@, target@) ==> (r matches Ok(rep)
            && rep.status@ == "success"@ && rep.output@ == "Scan results for "@ + target@),
{
    if target.is_empty() {
        return Err(NetworkError::InvalidTarget);
    }
    if str_contains(target, "network") {
        let output = "Scan results for ".to_string().concat(target);
        Ok(ScanReport { status: "success".to_string(), output })
    } else {
        Err(NetworkError::ScanFailed)
    }
}

/// Connects to the hub at `hub_address`; only the known hub answers.
pub fn connect_to_remote_hub(hub_address: &str) -> (r: Result<(), NetworkError>)
    ensures
        r is Ok <==> hub_address@ == "valid_hub_address"@,
        r matches Err(e) ==> e == NetworkError::ConnectionFailed,
{
    if hub_address.is_empty() {
        proof {
            reveal_strlit("valid_hub_address");
        }
        return Err(NetworkError::ConnectionFailed);
    }
    if str_eq(hub_address, "valid_hub_address") {
        Ok(())
    } else {
        Err(NetworkError::ConnectionFailed)
    }
}

/// Disconnects from the hub at `hub_address`; only the known hub answers.
pub fn disconnect_from_remote_hub(hub_address: &str) -> (r: Result<(), NetworkError>)
    ensures
        r is Ok <==> hub_address@ == "valid_hub_address"@,
        r matches Err(e) ==> e == NetworkError::DisconnectionFailed,
{
    if hub_address.is_empty() {
        proof {
            reveal_strlit("valid_hub_address");
        }
        return Err(NetworkError::DisconnectionFailed);
    }
    if str_eq(hub_address, "valid_hub_address") {
        Ok(())
    } else {
        Err(NetworkError::DisconnectionFailed)
    }
}

/// Accepts a batch of analytics data.
pub fn collect_data(data: &str) -> (r: String)
    ensures
        r@ == "Data collected successfully"@,
{
    "Data collected successfully".to_string()
}

pub fn get_analytics() -> (r: Result<String, ()>)
    ensures
        r matches Ok(s) && s@ == "Analytics results"@,
{
    Ok("Analytics results".to_string())
}

pub fn get_all_settings() -> (r: Result<String, ()>)
    ensures
        r matches Ok(s) && s@ == "Fetched all network settings successfully"@,
{
    Ok("Fetched all network settings successfully".to_string())
}

pub fn get_setting_by_id(id: &str) -> (r: Result<String, ()>)
    ensures
        r matches Ok(s) && s@ == "Fetched network setting successfully"@,
{
    Ok("Fetched network setting successfully".to_string())
}

pub fn create_new_setting(setting_json: &str) -> (r: Result<String, ()>)
    ensures
        r matches Ok(s) && s@ == "Network setting created successfully"@,
{
    Ok("Network setting created successfully".to_string())
}

pub fn update_setting(setting_json: &str) -> (r: Result<String, ()>)
    ensures
        r matches Ok(s) && s@ == "Network setting updated successfully"@,
{
    Ok("Network setting updated successfully".to_string())
}

pub fn delete_setting(id: &str) -> (r: Result<(), ()>)
    ensures
        r is Ok,
{
    Ok(())
}

} // verus!
