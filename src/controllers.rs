use vstd::prelude::*;

use crate::settings::{holds, setting_problem, NetworkSetting, NetworkSettingsManager};

verus! {

/// The host family whose network tools are driven.
#[derive(Debug, Clone, Copy, PartialEq, Eq, Structural)]
pub enum Platform {
    Unix,
    Windows,
}

pub open spec fn manager_description(platform: Platform) -> Seq<char> {
    match platform {
        Platform::Unix => "Handling network connections for Unix"@,
        Platform::Windows => "Handling network connections for Windows"@,
    }
}

/// Describes the network manager used on `platform`.
pub fn get_network_manager(platform: Platform) -> (r: String)
    ensures
        r@ == manager_description(platform),
{
    match platform {
        Platform::Unix => "Handling network connections for Unix".to_string(),
        Platform::Windows => "Handling network connections for Windows".to_string(),
    }
}

/// Entry point of the network service: the platform's manager and the
/// settings store.
pub struct Controllers {
    network_manager: String,
    settings_manager: NetworkSettingsManager,
}

impl Controllers {
    /// The stored settings by identifier.
    pub closed spec fn settings(&self) -> Map<Seq<char>, NetworkSetting> {
        self.settings_manager@
    }

    /// The description of the platform's network manager.
    pub closed spec fn manager(&self) -> Seq<char> {
        self.network_manager@
    }

    pub fn network_manager(&self) -> (r: String)
        ensures
            r@ == self.manager(),
    {
        self.network_manager.clone()
    }

    pub closed spec fn wf(&self) -> bool {
        self.settings_manager.wf()
    }

    /// Controllers for a Unix host.
    pub fn new() -> (r: Controllers)
        ensures
            r.wf(),
            r.manager() == manager_description(Platform::Unix),
            r.settings() == Map::<Seq<char>, NetworkSetting>::empty(),
    {
        Controllers::for_platform(Platform::Unix)
    }

    /// Controllers for a host of `platform`.
    pub fn for_platform(platform: Platform) -> (r: Controllers)
        ensures
            r.wf(),
            r.manager() == manager_description(platform),
            r.settings() == Map::<Seq<char>, NetworkSetting>::empty(),
    {
        Controllers { network_manager: get_network_manager(platform), settings_manager: NetworkSettingsManager::new() }
    }

    pub fn get_all_network_settings(&self) -> (r: Vec<NetworkSetting>)
        requires
            self.wf(),
        ensures
            r@.len() == self.settings().dom().len(),
            forall|i: int| 0 <= i < r@.len() ==> holds(self.settings(), #[trigger] r@[i]),
            forall|k: Seq<char>| #[trigger] self.settings().contains_key(k) ==> exists|i: int|
                0 <= i < r@.len() && r@[i] == self.settings()[k],
    {
        self.settings_manager.get_all_settings()
    }

    pub fn get_network_setting_by_id(&self, id: &str) -> (r: Option<NetworkSetting>)
        requires
            self.wf(),
        ensures
            r == (if self.settings().contains_key(id@) {
                Some(self.settings()[id@])
            } else {
                None::<NetworkSetting>
            }),
    {
        self.settings_manager.get_setting_by_id(id)
    }

    pub fn create_network_setting(&mut self, setting: NetworkSetting) -> (r: Result<(), String>)
        requires
            old(self).wf(),
        ensures
            final(self).wf(),
            final(self).manager() == old(self).manager(),
            setting_problem(setting) is None <==> r is Ok,
            r matches Err(m) ==> setting_problem(setting) == Some(m@) && final(self).settings() == old(
                self,
            ).settings(),
            r is Ok ==> final(self).settings() == old(self).settings().insert(setting.setting_name@, setting),
    {
        self.settings_manager.create_network_setting(setting)
    }

    pub fn update_network_setting(&mut self, id: &str, setting: NetworkSetting) -> (r: Result<(), String>)
        requires
            old(self).wf(),
        ensures
            final(self).wf(),
            final(self).manager() == old(self).manager(),
            r is Ok <==> old(self).settings().contains_key(id@) && setting_problem(setting) is None,
            !old(self).settings().contains_key(id@) ==> (r matches Err(m) && m@ == "Setting not found"@),
            old(self).settings().contains_key(id@) ==> (r matches Err(m) ==> setting_problem(setting)
                == Some(m@)),
            r is Err ==> final(self).settings() == old(self).settings(),
            r is Ok ==> final(self).settings() == old(self).settings().insert(id@, setting),
    {
        self.settings_manager.update_network_setting(id, setting)
    }

    pub fn delete_network_setting(&mut self, id: &str) -> (r: Result<(), String>)
        requires
            old(self).wf(),
        ensures
            final(self).wf(),
            final(self).manager() == old(self).manager(),
            r is Ok <==> old(self).settings().contains_key(id@),
            r matches Err(m) ==> m@ == "Setting not found"@ && final(self).settings() == old(self).settings(),
            r is Ok ==> final(self).settings() == old(self).settings().remove(id@),
    {
        self.settings_manager.delete_network_setting(id)
    }
}

} // verus!
