//! The static data index: design records loaded once and only read afterwards.

use vstd::prelude::*;

verus! {

/// Where a map entrance leads.
#[derive(Clone, Copy, Debug, PartialEq, Eq)]
pub struct EntranceConfig {
    pub id: u32,
    pub plane_id: u32,
    pub floor_id: u32,
}

/// The first record with the given identifier, searching from the front.
pub open spec fn find_entrance(configs: Seq<EntranceConfig>, id: u32) -> Option<EntranceConfig>
    decreases configs.len(),
{
    if configs.len() == 0 {
        None
    } else if configs.first().id == id {
        Some(configs.first())
    } else {
        find_entrance(configs.drop_first(), id)
    }
}

/// The table of entrance records shared by all sessions.
#[derive(Clone, Debug, PartialEq, Eq)]
pub struct StaticDataIndex {
    pub map_entrance_configs: Vec<EntranceConfig>,
}

impl View for StaticDataIndex {
    type V = Seq<EntranceConfig>;

    open spec fn view(&self) -> Seq<EntranceConfig> {
        self.map_entrance_configs@
    }
}

impl StaticDataIndex {
    /// Wraps the loaded records, keeping their order.
    pub fn new(map_entrance_configs: Vec<EntranceConfig>) -> (index: StaticDataIndex)
        ensures
            index@ == map_entrance_configs@,
    {
        StaticDataIndex { map_entrance_configs }
    }

    /// Looks an entrance up by identifier. The index is only read.
    pub fn find_entrance_config(&self, id: u32) -> (r: Option<EntranceConfig>)
        ensures
            r == find_entrance(self@, id),
    {
        let mut i: usize = 0;
        assert(self@.skip(0) =~= self@);
        while i < self.map_entrance_configs.len()
            invariant
                i <= self.map_entrance_configs.len(),
                find_entrance(self@, id) == find_entrance(self@.skip(i as int), id),
            decreases self.map_entrance_configs.len() - i,
        {
            let c = self.map_entrance_configs[i];
            if c.id == id {
                return Some(c);
            }
            assert(self@.skip(i as int).drop_first() =~= self@.skip(i as int + 1));
            i += 1;
        }
        None
    }
}

/// What a lookup finds: a record of the table that carries the identifier
/// asked for, with no such record before it; and nothing exactly when no record
/// carries the identifier.
pub proof fn lemma_find_entrance(configs: Seq<EntranceConfig>, id: u32)
    ensures
        find_entrance(configs, id) is None <==> forall|i: int|
            0 <= i < configs.len() ==> (#[trigger] configs[i]).id != id,
        find_entrance(configs, id) matches Some(c) ==> c.id == id && exists|i: int|
            0 <= i < configs.len() && #[trigger] configs[i] == c && forall|j: int|
                0 <= j < i ==> (#[trigger] configs[j]).id != id,
    decreases configs.len(),
{
    if configs.len() == 0 {
    } else if configs.first().id == id {
        assert(configs[0] == configs.first());
    } else {
        let rest = configs.drop_first();
        lemma_find_entrance(rest, id);
        assert forall|i: int| 0 <= i < rest.len() implies rest[i] == configs[i + 1] by {}
        if find_entrance(rest, id) is None {
            assert forall|i: int| 0 <= i < configs.len() implies (#[trigger] configs[i]).id
                != id by {
                if i > 0 {
                    assert(rest[i - 1].id != id);
                }
            }
        } else {
            let c = find_entrance(rest, id).unwrap();
            let k = choose|i: int|
                0 <= i < rest.len() && #[trigger] rest[i] == c && forall|j: int|
                    0 <= j < i ==> (#[trigger] rest[j]).id != id;
            assert(configs[k + 1] == c);
            assert forall|j: int| 0 <= j < k + 1 implies (#[trigger] configs[j]).id != id by {
                if j > 0 {
                    assert(rest[j - 1].id != id);
                }
            }
        }
    }
}

} // verus!
