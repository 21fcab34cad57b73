use vstd::prelude::*;

use vstd::string::StringExecFns;

verus! {

/// Network management on a host: each operation yields the shell command
/// that performs it, or the reason it is not available.
pub trait NetworkManager {
    fn get_all_network_settings() -> Result<String, String>;

    fn get_network_setting_by_id(id: &str) -> Result<String, String>;

    fn create_network_setting(setting_name: &str, value: &str) -> Result<String, String>;

    fn update_network_setting(id: &str, prop: &str, value: &str) -> Result<String, String>;

    fn delete_network_setting(id: &str) -> Result<String, String>;
}

/// `prefix`, then each word preceded by a space.
fn command(prefix: &str, words: &Vec<&str>) -> (r: String)
    ensures
        r@ == joined(prefix@, words@.map_values(|w: &str| w@)),
{
    let mut out = prefix.to_string();
    let mut i: usize = 0;
    while i < words.len()
        invariant
            i <= words@.len(),
            out@ == joined(prefix@, words@.subrange(0, i as int).map_values(|w: &str| w@)),
        decreases words@.len() - i,
    {
        out.append(" ");
        out.append(words[i]);
        proof {
            reveal_strlit(" ");
            let s = words@.subrange(0, i + 1).map_values(|w: &str| w@);
            assert(s.drop_last() =~= words@.subrange(0, i as int).map_values(|w: &str| w@));
        }
        i = i + 1;
    }
    assert(words@.subrange(0, i as int) =~= words@);
    out
}

/// `prefix` followed by each of `words`, separated by single spaces.
pub open spec fn joined(prefix: Seq<char>, words: Seq<Seq<char>>) -> Seq<char>
    decreases words.len(),
{
    if words.len() == 0 {
        prefix
    } else {
        joined(prefix, words.drop_last()) + seq![' '] + words.last()
    }
}

/// Drives NetworkManager's `nmcli`.
pub struct UnixNetworkManager;

impl NetworkManager for UnixNetworkManager {
    fn get_all_network_settings() -> (r: Result<String, String>)
        ensures
            r matches Ok(c) && c@ == "nmcli device show"@,
    {
        Ok("nmcli device show".to_string())
    }

    fn get_network_setting_by_id(id: &str) -> (r: Result<String, String>)
        ensures
            r matches Ok(c) && c@ == joined("nmcli device show"@, seq![id@]),
    {
        let words = vec![id];
        assert(words@.map_values(|w: &str| w@) =~= seq![id@]);
        Ok(command("nmcli device show", &words))
    }

    fn create_network_setting(setting_name: &str, value: &str) -> (r: Result<String, String>)
        ensures
            r matches Ok(c) && c@ == joined("nmcli con add type"@, seq![setting_name@, value@]),
    {
        let words = vec![setting_name, value];
        assert(words@.map_values(|w: &str| w@) =~= seq![setting_name@, value@]);
        Ok(command("nmcli con add type", &words))
    }

    fn update_network_setting(id: &str, prop: &str, value: &str) -> (r: Result<String, String>)
        ensures
            r matches Ok(c) && c@ == joined("nmcli con mod"@, seq![id@, prop@, value@]),
    {
        let words = vec![id, prop, value];
        assert(words@.map_values(|w: &str| w@) =~= seq![id@, prop@, value@]);
        Ok(command("nmcli con mod", &words))
    }

    fn delete_network_setting(id: &str) -> (r: Result<String, String>)
        ensures
            r matches Ok(c) && c@ == joined("nmcli con delete"@, seq![id@]),
    {
        let words = vec![id];
        assert(words@.map_values(|w: &str| w@) =~= seq![id@]);
        Ok(command("nmcli con delete", &words))
    }
}

/// Drives Windows' `netsh`.
pub struct WindowsNetworkManager;

impl NetworkManager for WindowsNetworkManager {
    fn get_all_network_settings() -> (r: Result<String, String>)
        ensures
            r matches Ok(c) && c@ == "netsh interface show interface"@,
    {
        Ok("netsh interface show interface".to_string())
    }

    fn get_network_setting_by_id(id: &str) -> (r: Result<String, String>)
        ensures
            r matches Ok(c) && c@ == joined("netsh interface ipv4 show address"@, seq![id@]),
    {
        let words = vec![id];
        assert(words@.map_values(|w: &str| w@) =~= seq![id@]);
        Ok(command("netsh interface ipv4 show address", &words))
    }

    fn create_network_setting(setting_name: &str, value: &str) -> (r: Result<String, String>)
        ensures
            r matches Err(m) && m@ == "Function not implemented for Windows"@,
    {
        Err("Function not implemented for Windows".to_string())
    }

    fn update_network_setting(id: &str, prop: &str, value: &str) -> (r: Result<String, String>)
        ensures
            r matches Ok(c) && c@ == joined("netsh interface ipv4 set address"@, seq![id@, prop@, value@]),
    {
        let words = vec![id, prop, value];
        assert(words@.map_values(|w: &str| w@) =~= seq![id@, prop@, value@]);
        Ok(command("netsh interface ipv4 set address", &words))
    }

    fn delete_network_setting(id: &str) -> (r: Result<String, String>)
        ensures
            r matches Ok(c) && c@ == joined("netsh interface delete interface"@, seq![id@]),
    {
        let words = vec![id];
        assert(words@.map_values(|w: &str| w@) =~= seq![id@]);
        Ok(command("netsh interface delete interface", &words))
    }
}

} // verus!
