use vstd::prelude::*;

use crate::text::str_eq;

verus! {

/// A named network setting.
#[derive(Debug, Clone)]
pub struct NetworkSetting {
    pub setting_name: String,
    pub value: String,
    pub description: Option<String>,
}

impl NetworkSetting {
    /// A copy of this setting.
    pub fn snapshot(&self) -> (r: NetworkSetting)
        ensures
            r == *self,
    {
        NetworkSetting {
            setting_name: self.setting_name.clone(),
            value: self.value.clone(),
            description: match &self.description {
                Some(d) => Some(d.clone()),
                None => None,
            },
        }
    }
}

/// Why a setting is rejected, if it is: the name is checked before the value.
pub open spec fn setting_problem(s: NetworkSetting) -> Option<Seq<char>> {
    if s.setting_name@.len() == 0 {
        Some("Setting name is required"@)
    } else if s.value@.len() == 0 {
        Some("Value is required"@)
    } else {
        None
    }
}

/// Accepts a setting with a non-empty name and a non-empty value.
pub fn validate_setting(setting: &NetworkSetting) -> (r: Result<(), String>)
    ensures
        setting_problem(*setting) is None <==> r is Ok,
        r matches Err(m) ==> setting_problem(*setting) == Some(m@),
{
    if setting.setting_name.as_str().is_empty() {
        return Err("Setting name is required".to_string());
    }
    if setting.value.as_str().is_empty() {
        return Err("Value is required".to_string());
    }
    Ok(())
}

/// Whether some identifier of `m` holds `v`.
pub open spec fn holds(m: Map<Seq<char>, NetworkSetting>, v: NetworkSetting) -> bool {
    exists|k: Seq<char>| #[trigger] m.contains_key(k) && m[k] == v
}

/// Network settings stored by identifier.
pub struct NetworkSettingsManager {
    entries: Vec<(String, NetworkSetting)>,
}

impl NetworkSettingsManager {
    spec fn keys(&self) -> Seq<Seq<char>> {
        self.entries@.map_values(|e: (String, NetworkSetting)| e.0@)
    }

    spec fn index_of(&self, id: Seq<char>) -> int {
        choose|i: int| 0 <= i < self.keys().len() && self.keys()[i] == id
    }

    /// The settings by identifier.
    pub closed spec fn view(&self) -> Map<Seq<char>, NetworkSetting> {
        Map::new(
            |id: Seq<char>| self.keys().contains(id),
            |id: Seq<char>| self.entries@[self.index_of(id)].1,
        )
    }

    /// Identifiers are unique.
    pub closed spec fn wf(&self) -> bool {
        forall|i: int, j: int|
            0 <= i < j < self.entries@.len() ==> self.entries@[i].0@ != self.entries@[j].0@
    }

    proof fn lemma_view_at(&self, i: int)
        requires
            self.wf(),
            0 <= i < self.entries@.len(),
        ensures
            self.index_of(self.entries@[i].0@) == i,
            self@.contains_key(self.entries@[i].0@),
            self@[self.entries@[i].0@] == self.entries@[i].1,
    {
        let id = self.entries@[i].0@;
        assert(self.keys()[i] == id);
        assert(self.keys().contains(id));
        let j = self.index_of(id);
        if j != i {
            if i < j {
                assert(self.entries@[i].0@ != self.entries@[j].0@);
            } else {
                assert(self.entries@[j].0@ != self.entries@[i].0@);
            }
        }
    }

    proof fn lemma_view_domain(&self, id: Seq<char>)
        requires
            self.wf(),
        ensures
            self@.contains_key(id) <==> exists|i: int| 0 <= i < self.entries@.len() && self.entries@[i].0@ == id,
    {
        if self@.contains_key(id) {
            let i = self.index_of(id);
            assert(self.entries@[i].0@ == id);
        }
        if exists|i: int| 0 <= i < self.entries@.len() && self.entries@[i].0@ == id {
            let i = choose|i: int| 0 <= i < self.entries@.len() && self.entries@[i].0@ == id;
            self.lemma_view_at(i);
        }
    }

    pub fn new() -> (r: NetworkSettingsManager)
        ensures
            r.wf(),
            r@ == Map::<Seq<char>, NetworkSetting>::empty(),
    {
        let r = NetworkSettingsManager { entries: Vec::new() };
        assert(r@ =~= Map::<Seq<char>, NetworkSetting>::empty());
        r
    }

    fn find(&self, id: &str) -> (r: Option<usize>)
        requires
            self.wf(),
        ensures
            r is None <==> !self@.contains_key(id@),
            r matches Some(i) ==> i < self.entries@.len() && self.entries@[i as int].0@ == id@
                && self@[id@] == self.entries@[i as int].1,
    {
        let mut i: usize = 0;
        while i < self.entries.len()
            invariant
                self.wf(),
                i <= self.entries@.len(),
                forall|j: int| 0 <= j < i ==> self.entries@[j].0@ != id@,
            decreases self.entries@.len() - i,
        {
            if str_eq(self.entries[i].0.as_str(), id) {
                proof {
                    self.lemma_view_at(i as int);
                }
                return Some(i);
            }
            i = i + 1;
        }
        proof {
            self.lemma_view_domain(id@);
        }
        None
    }

    /// Every stored setting, each once, in the order of first creation.
    pub fn get_all_settings(&self) -> (r: Vec<NetworkSetting>)
        requires
            self.wf(),
        ensures
            r@.len() == self@.dom().len(),
            forall|i: int| 0 <= i < r@.len() ==> holds(self@, #[trigger] r@[i]),
            forall|k: Seq<char>| #[trigger] self@.contains_key(k) ==> exists|i: int| 0 <= i < r@.len() && r@[i] == self@[k],
    {
        let mut out: Vec<NetworkSetting> = Vec::new();
        let mut i: usize = 0;
        while i < self.entries.len()
            invariant
                self.wf(),
                i <= self.entries@.len(),
                out@.len() == i,
                forall|j: int| 0 <= j < i ==> out@[j] == self.entries@[j].1,
            decreases self.entries@.len() - i,
        {
            out.push(self.entries[i].1.snapshot());
            i = i + 1;
        }
        proof {
            assert forall|j: int| 0 <= j < out@.len() implies holds(self@, #[trigger] out@[j]) by {
                self.lemma_view_at(j);
            }
            assert forall|k: Seq<char>| #[trigger] self@.contains_key(k) implies exists|j: int| 0 <= j < out@.len() && out@[j] == self@[k] by {
                assert(self.keys().contains(k));
                let j = self.index_of(k);
                assert(self.keys()[j] == k);
                self.lemma_view_at(j);
                assert(out@[j] == self@[k]);
            }
            self.lemma_dom_len();
        }
        out
    }

    proof fn lemma_dom_len(&self)
        requires
            self.wf(),
        ensures
            self@.dom().len() == self.entries@.len(),
    {
        assert forall|i: int, j: int|
            0 <= i < self.keys().len() && 0 <= j < self.keys().len() && i != j implies self.keys()[i]
            != self.keys()[j] by {
            if i < j {
                assert(self.entries@[i].0@ != self.entries@[j].0@);
            } else {
                assert(self.entries@[j].0@ != self.entries@[i].0@);
            }
        }
        assert(self@.dom() =~= self.keys().to_set());
        self.keys().unique_seq_to_set();
    }

    /// The setting stored under `id`.
    pub fn get_setting_by_id(&self, id: &str) -> (r: Option<NetworkSetting>)
        requires
            self.wf(),
        ensures
            r == (if self@.contains_key(id@) {
                Some(self@[id@])
            } else {
                None::<NetworkSetting>
            }),
    {
        match self.find(id) {
            Some(i) => Some(self.entries[i].1.snapshot()),
            None => None,
        }
    }

    /// Stores `value` under `id`, replacing what was there.
    fn put(&mut self, id: String, value: NetworkSetting)
        requires
            old(self).wf(),
        ensures
            final(self).wf(),
            final(self)@ == old(self)@.insert(id@, value),
    {
        let ghost key = id@;
        match self.find(id.as_str()) {
            Some(i) => {
                self.entries.set(i, (id, value));
                proof {
                    let o = *old(self);
                    assert(self.keys() =~= o.keys());
                    assert forall|a: int, b: int| 0 <= a < b < self.entries@.len() implies self.entries@[a].0@
                        != self.entries@[b].0@ by {
                        assert(self.keys()[a] == o.keys()[a]);
                        assert(self.keys()[b] == o.keys()[b]);
                    }
                    assert forall|k: Seq<char>| #[trigger] self@.contains_key(k) implies self@[k]
                        == o@.insert(key, value)[k] by {
                        let j = self.index_of(k);
                        self.lemma_view_at(j);
                        o.lemma_view_at(j);
                    }
                    o.lemma_view_at(i as int);
                    assert(self@.dom() =~= o@.dom());
                    assert(self@ =~= o@.insert(key, value));
                }
            },
            None => {
                self.entries.push((id, value));
                proof {
                    let o = *old(self);
                    let n = o.entries@.len() as int;
                    assert forall|j: int| 0 <= j < n implies o.entries@[j].0@ != key by {
                        o.lemma_view_at(j);
                    }
                    assert forall|a: int, b: int| 0 <= a < b < self.entries@.len() implies self.entries@[a].0@
                        != self.entries@[b].0@ by {
                        if b < n {
                            assert(o.entries@[a].0@ != o.entries@[b].0@);
                        }
                    }
                    assert forall|k: Seq<char>| #[trigger] self@.contains_key(k) implies o@.insert(key, value).contains_key(k)
                        && self@[k] == o@.insert(key, value)[k] by {
                        let j = self.index_of(k);
                        self.lemma_view_at(j);
                        if j < n {
                            assert(self.entries@[j] == o.entries@[j]);
                            o.lemma_view_at(j);
                        }
                    }
                    assert forall|k: Seq<char>| #[trigger] o@.insert(key, value).contains_key(k)
                        implies self@.contains_key(k) by {
                        if k != key {
                            let j = o.index_of(k);
                            o.lemma_view_at(j);
                            assert(self.entries@[j] == o.entries@[j]);
                            self.lemma_view_domain(k);
                        } else {
                            self.lemma_view_at(n);
                        }
                    }
                    assert(self@ =~= o@.insert(key, value));
                }
            },
        }
    }

    /// Validates `setting` and stores it under its name.
    pub fn create_network_setting(&mut self, setting: NetworkSetting) -> (r: Result<(), String>)
        requires
            old(self).wf(),
        ensures
            final(self).wf(),
            setting_problem(setting) is None <==> r is Ok,
            r matches Err(m) ==> setting_problem(setting) == Some(m@) && final(self)@ == old(self)@,
            r is Ok ==> final(self)@ == old(self)@.insert(setting.setting_name@, setting),
    {
        validate_setting(&setting)?;
        let id = setting.setting_name.clone();
        self.put(id, setting);
        Ok(())
    }

    /// Replaces the setting stored under `id` by a valid `new_setting`.
    pub fn update_network_setting(&mut self, id: &str, new_setting: NetworkSetting) -> (r: Result<
        (),
        String,
    >)
        requires
            old(self).wf(),
        ensures
            final(self).wf(),
            r is Ok <==> old(self)@.contains_key(id@) && setting_problem(new_setting) is None,
            !old(self)@.contains_key(id@) ==> (r matches Err(m) && m@ == "Setting not found"@),
            old(self)@.contains_key(id@) ==> (r matches Err(m) ==> setting_problem(new_setting) == Some(m@)),
            r is Err ==> final(self)@ == old(self)@,
            r is Ok ==> final(self)@ == old(self)@.insert(id@, new_setting),
    {
        if self.find(id).is_some() {
            validate_setting(&new_setting)?;
            self.put(id.to_string(), new_setting);
            Ok(())
        } else {
            Err("Setting not found".to_string())
        }
    }

    /// Removes the setting stored under `id`.
    pub fn delete_network_setting(&mut self, id: &str) -> (r: Result<(), String>)
        requires
            old(self).wf(),
        ensures
            final(self).wf(),
            r is Ok <==> old(self)@.contains_key(id@),
            r matches Err(m) ==> m@ == "Setting not found"@ && final(self)@ == old(self)@,
            r is Ok ==> final(self)@ == old(self)@.remove(id@),
    {
        match self.find(id) {
            Some(i) => {
                self.entries.remove(i);
                proof {
                    let o = *old(self);
                    let ii = i as int;
                    assert forall|a: int, b: int| 0 <= a < b < self.entries@.len() implies self.entries@[a].0@
                        != self.entries@[b].0@ by {
                        let oa = if a < ii { a } else { a + 1 };
                        let ob = if b < ii { b } else { b + 1 };
                        assert(self.entries@[a] == o.entries@[oa]);
                        assert(self.entries@[b] == o.entries@[ob]);
                        assert(o.entries@[oa].0@ != o.entries@[ob].0@);
                    }
                    assert forall|k: Seq<char>| #[trigger] self@.contains_key(k) implies o@.remove(id@).contains_key(k)
                        && self@[k] == o@.remove(id@)[k] by {
                        let j = self.index_of(k);
                        self.lemma_view_at(j);
                        let oj = if j < ii { j } else { j + 1 };
                        assert(self.entries@[j] == o.entries@[oj]);
                        o.lemma_view_at(oj);
                        o.lemma_view_at(ii);
                    }
                    assert forall|k: Seq<char>| #[trigger] o@.remove(id@).contains_key(k) implies self@.contains_key(k) by {
                        let oj = o.index_of(k);
                        o.lemma_view_at(oj);
                        o.lemma_view_at(ii);
                        let j = if oj < ii { oj } else { oj - 1 };
                        assert(self.entries@[j] == o.entries@[oj]);
                        self.lemma_view_at(j);
                    }
                    assert(self@ =~= o@.remove(id@));
                }
                Ok(())
            },
            None => Err("Setting not found".to_string()),
        }
    }
}

} // verus!
