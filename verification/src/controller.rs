//! The topology store and event dispatcher core.
//!
//! The controller owns the registry of known devices and the
//! coordinator-to-members mapping, applies topology updates, and decides how
//! to react to events.  Everything here is plain data: the embedding
//! application performs the network work the returned effects ask for and
//! reports outcomes back.

use vstd::prelude::*;

verus! {

use crate::Error;
use crate::speaker::SpeakerInfo;
use crate::subscriber::Subscriber;
use crate::types::{AVStatus, Event, ReducedTopology, ServiceKind, Topology};
use crate::utils::{eq_ignore_ascii_case, str_ieq};

/// Work the dispatcher asks of the embedding application in reaction to an
/// event.  The application performs it (each step involves the network)
/// and reports outcomes back through the controller's methods.
#[derive(Clone, Debug)]
pub enum Effect {
    /// Attempt a transport subscription for this newly registered device
    /// (best-effort) and record the outcome with
    /// [`Controller::set_transport_subscription`].
    SubscribeTransport(SpeakerInfo),
    /// Open a fresh topology subscription against this device.
    ResubscribeTopology(SpeakerInfo),
    /// No device is registered: run discovery from scratch, apply the
    /// discovered topology, and only then subscribe for topology updates
    /// again.
    Rediscover,
    /// Try to re-resolve this dropped record's device from its descriptor,
    /// then call [`Controller::reinstate_record`] with the outcome.
    ResolveSpeaker(SpeakerData),
}

/// One registered device: its descriptor, the latest transport status it
/// reported, and its transport subscription, where one is active.  At most
/// one subscription exists per record.
#[derive(Clone, Debug)]
pub struct SpeakerData {
    /// The device's descriptor.
    pub info: SpeakerInfo,
    /// Cached latest transport status, as a field-to-value map.
    pub transport_data: AVStatus,
    /// The transport subscription owned by this record, if any.
    pub transport_subscription: Option<Subscriber>,
}

/// The member descriptors of group `g` of a topology payload.
pub open spec fn group_members(t: Seq<(String, Vec<SpeakerInfo>)>, g: int) -> Seq<SpeakerInfo> {
    t[g].1@
}

/// Whether `(g, m)` names a member of the topology payload.
pub open spec fn topo_valid_index(t: Seq<(String, Vec<SpeakerInfo>)>, g: int, m: int) -> bool {
    0 <= g < t.len() && 0 <= m < group_members(t, g).len()
}

/// Whether some member of the payload carries uuid `u` (up to ASCII case).
pub open spec fn topo_has_uuid(t: Seq<(String, Vec<SpeakerInfo>)>, u: Seq<char>) -> bool {
    exists|g: int, m: int| topo_valid_index(t, g, m) && str_ieq(group_members(t, g)[m].uuid@, u)
}

/// Whether group `g` of the payload lists its own coordinator among its
/// members.
pub open spec fn group_has_coordinator(t: Seq<(String, Vec<SpeakerInfo>)>, g: int) -> bool {
    exists|m: int|
        0 <= m < group_members(t, g).len() && str_ieq(
            (#[trigger] group_members(t, g)[m]).uuid@,
            t[g].0@,
        )
}

/// Whether the first `n` groups of the payload each list their own
/// coordinator among their members.
pub open spec fn coordinated_upto(t: Seq<(String, Vec<SpeakerInfo>)>, n: int) -> bool {
    forall|g: int| 0 <= g < n ==> #[trigger] group_has_coordinator(t, g)
}

/// Whether each group's coordinator is listed among its own members: a
/// device is always reachable as a member of the group it coordinates.
pub open spec fn topology_coordinated(t: Seq<(String, Vec<SpeakerInfo>)>) -> bool {
    coordinated_upto(t, t.len() as int)
}

/// Whether stored group `g` of a reduced mapping names its own coordinator
/// among its member uuids.
pub open spec fn stored_group_has_coordinator(red: Seq<(String, Vec<String>)>, g: int) -> bool {
    exists|m: int| 0 <= m < red[g].1@.len() && str_ieq((#[trigger] red[g].1@[m])@, red[g].0@)
}

/// The registry of devices and the current group mapping.
#[derive(Clone, Debug)]
pub struct Controller {
    /// One record per registered device.
    pub speakerdata: Vec<SpeakerData>,
    /// The current coordinator-to-members mapping, uuids only.
    pub topology: ReducedTopology,
}

/// Whether some record of `v` carries uuid `u` (up to ASCII case).
pub open spec fn reg_vec_has_uuid(v: Seq<SpeakerData>, u: Seq<char>) -> bool {
    exists|i: int| 0 <= i < v.len() && str_ieq((#[trigger] v[i]).info.uuid@, u)
}

/// Whether `sd` is literally one of the records of `v`.
pub open spec fn record_in(v: Seq<SpeakerData>, sd: SpeakerData) -> bool {
    exists|i: int| 0 <= i < v.len() && #[trigger] v[i] == sd
}

/// Whether `info` is one of the member descriptors of the payload.
pub open spec fn info_in_topology(t: Seq<(String, Vec<SpeakerInfo>)>, info: SpeakerInfo) -> bool {
    exists|g: int, m: int| topo_valid_index(t, g, m) && #[trigger] group_members(t, g)[m] == info
}

/// Whether some descriptor of `infos` carries uuid `u` (up to ASCII case).
pub open spec fn uuid_listed(infos: Seq<SpeakerInfo>, u: Seq<char>) -> bool {
    exists|k: int| 0 <= k < infos.len() && str_ieq((#[trigger] infos[k]).uuid@, u)
}

/// Whether `info` is literally one of the descriptors of `infos`.
pub open spec fn info_listed(infos: Seq<SpeakerInfo>, info: SpeakerInfo) -> bool {
    exists|k: int| 0 <= k < infos.len() && #[trigger] infos[k] == info
}

impl Controller {
    /// The registry as a sequence of records.
    pub open spec fn reg(self) -> Seq<SpeakerData> {
        self.speakerdata@
    }

    /// Whether a record with uuid `u` (up to ASCII case) is registered.
    pub open spec fn reg_has_uuid(self, u: Seq<char>) -> bool {
        reg_vec_has_uuid(self.reg(), u)
    }

    /// Whether a record with display name `n` (up to ASCII case) is
    /// registered.
    pub open spec fn reg_has_name(self, n: Seq<char>) -> bool {
        exists|i: int| 0 <= i < self.reg().len() && str_ieq(self.reg()[i].info.name@, n)
    }

    /// Whether `i` is the first registry index whose record carries uuid
    /// `u`.
    pub open spec fn is_first_uuid_match(self, u: Seq<char>, i: int) -> bool {
        &&& 0 <= i < self.reg().len()
        &&& str_ieq(self.reg()[i].info.uuid@, u)
        &&& forall|j: int| 0 <= j < i ==> !str_ieq(#[trigger] self.reg()[j].info.uuid@, u)
    }

    /// Whether `i` is the first registry index whose record carries display
    /// name `n`.
    pub open spec fn is_first_name_match(self, n: Seq<char>, i: int) -> bool {
        &&& 0 <= i < self.reg().len()
        &&& str_ieq(self.reg()[i].info.name@, n)
        &&& forall|j: int| 0 <= j < i ==> !str_ieq(#[trigger] self.reg()[j].info.name@, n)
    }

    /// The registry index of the record with uuid `u`, where one exists.
    pub open spec fn index_for_uuid(self, u: Seq<char>) -> int {
        choose|i: int| 0 <= i < self.reg().len() && str_ieq(self.reg()[i].info.uuid@, u)
    }

    /// The record with uuid `u`, where one exists.
    pub open spec fn record_for_uuid(self, u: Seq<char>) -> SpeakerData {
        self.reg()[self.index_for_uuid(u)]
    }

    /// No two records share a uuid, even up to ASCII case.
    pub open spec fn uuids_unique(self) -> bool {
        forall|i: int, j: int|
            0 <= i < j < self.reg().len() ==> !str_ieq(
                #[trigger] self.reg()[i].info.uuid@,
                #[trigger] self.reg()[j].info.uuid@,
            )
    }

    /// Each stored group's coordinator is among that group's members.
    pub open spec fn coordinators_in_groups(self) -> bool {
        forall|g: int|
            0 <= g < self.topology@.len() ==> #[trigger] stored_group_has_coordinator(
                self.topology@,
                g,
            )
    }

    /// Well-formedness: uuids are unique and coordinators are members of
    /// their own groups.  The stored mapping is additionally a projection
    /// of the registry right after a topology update (see
    /// [`Self::projected`]); dropping a failed record suspends that until
    /// the next update reconciles it.
    pub open spec fn wf(self) -> bool {
        self.uuids_unique() && self.coordinators_in_groups()
    }

    /// Every uuid named by the stored mapping has a record.
    pub open spec fn projected(self) -> bool {
        forall|g: int, m: int|
            0 <= g < self.topology@.len() && 0 <= m < self.topology@[g].1@.len()
                ==> self.reg_has_uuid(#[trigger] self.topology@[g].1@[m]@)
    }

    /// A controller with no devices and no groups.
    pub fn new() -> (r: Controller)
        ensures
            r.wf(),
            r.projected(),
            r.reg().len() == 0,
            r.topology@.len() == 0,
    {
        Controller { speakerdata: Vec::new(), topology: Vec::new() }
    }

    /// The registered records.
    pub fn speakers(&self) -> (r: &Vec<SpeakerData>)
        ensures
            *r == self.speakerdata,
    {
        &self.speakerdata
    }

    /// The stored coordinator-to-members mapping.
    pub fn topology(&self) -> (r: &ReducedTopology)
        ensures
            *r == self.topology,
    {
        &self.topology
    }

    /// First registry index carrying uuid `uuid`, if any.
    pub fn find_index_by_uuid(&self, uuid: &str) -> (r: Option<usize>)
        ensures
            r matches Some(i) ==> self.is_first_uuid_match(uuid@, i as int),
            r is None ==> !self.reg_has_uuid(uuid@),
    {
        let mut i: usize = 0;
        while i < self.speakerdata.len()
            invariant
                i <= self.reg().len(),
                forall|j: int| 0 <= j < i ==> !str_ieq(#[trigger] self.reg()[j].info.uuid@, uuid@),
            decreases self.reg().len() - i,
        {
            if eq_ignore_ascii_case(self.speakerdata[i].info.uuid.as_str(), uuid) {
                return Some(i);
            }
            i += 1;
        }
        None
    }

    /// Applies an accepted topology payload: drops every record whose uuid
    /// the payload no longer lists, updates the descriptor of every record
    /// it still lists (keeping the record's cached status and subscription),
    /// creates a fresh record for every uuid seen for the first time, and
    /// replaces the stored group mapping with the payload's reduction.
    /// Returns the descriptors of the newly created records, one per new
    /// uuid; the caller attempts a transport subscription for each
    /// (best-effort) and records the outcome.
    #[verifier::rlimit(50)]
    pub fn apply_topology(&mut self, t: &Topology) -> (created: Vec<SpeakerInfo>)
        requires
            old(self).wf(),
            topology_coordinated(t@),
        ensures
            final(self).wf(),
            final(self).projected(),
            forall|u: Seq<char>| final(self).reg_has_uuid(u) == topo_has_uuid(t@, u),
            forall|i: int|
                0 <= i < final(self).reg().len() ==> record_provenance(
                    *old(self),
                    t@,
                    #[trigger] final(self).reg()[i],
                ),
            reduction_of(final(self).topology@, t@),
            forall|k: int|
                0 <= k < created@.len() ==> created_new(*old(self), t@, #[trigger] created@[k]),
            forall|u: Seq<char>|
                topo_has_uuid(t@, u) && !old(self).reg_has_uuid(u) ==> uuid_listed(created@, u),
            forall|k1: int, k2: int|
                0 <= k1 < k2 < created@.len() ==> !str_ieq(
                    (#[trigger] created@[k1]).uuid@,
                    (#[trigger] created@[k2]).uuid@,
                ),
    {
        let ghost old_c = *self;
        let infos = flatten_members(t);
        let mut remaining: Vec<SpeakerData> = Vec::new();
        core::mem::swap(&mut remaining, &mut self.speakerdata);
        let mut new_reg: Vec<SpeakerData> = Vec::new();
        let mut created: Vec<SpeakerInfo> = Vec::new();
        let mut k: usize = 0;
        while k < infos.len()
            invariant
                k <= infos@.len(),
                old_c.uuids_unique(),
                forall|k0: int|
                    0 <= k0 < infos@.len() ==> info_in_topology(t@, #[trigger] infos@[k0]),
                // remaining holds untouched old records, still unique
                forall|i: int|
                    0 <= i < remaining@.len() ==> record_in(old_c.reg(), #[trigger] remaining@[i]),
                forall|i: int, j: int|
                    0 <= i < j < remaining@.len() ==> !str_ieq(
                        (#[trigger] remaining@[i]).info.uuid@,
                        (#[trigger] remaining@[j]).info.uuid@,
                    ),
                // every old uuid is still in remaining or already carried over
                forall|u: Seq<char>|
                    #[trigger] old_c.reg_has_uuid(u) ==> reg_vec_has_uuid(remaining@, u)
                        || reg_vec_has_uuid(new_reg@, u),
                // the registry being built: unique, with full provenance
                forall|i: int, j: int|
                    0 <= i < j < new_reg@.len() ==> !str_ieq(
                        (#[trigger] new_reg@[i]).info.uuid@,
                        (#[trigger] new_reg@[j]).info.uuid@,
                    ),
                forall|j: int|
                    0 <= j < new_reg@.len() ==> record_provenance(
                        old_c,
                        t@,
                        #[trigger] new_reg@[j],
                    ),
                // every processed descriptor has a record
                forall|k0: int|
                    0 <= k0 < k ==> reg_vec_has_uuid(new_reg@, (#[trigger] infos@[k0]).uuid@),
                // created: new uuids only, covering all of them, no double
                forall|c0: int|
                    0 <= c0 < created@.len() ==> created_new(old_c, t@, #[trigger] created@[c0]),
                forall|k0: int|
                    0 <= k0 < k && !old_c.reg_has_uuid((#[trigger] infos@[k0]).uuid@)
                        ==> uuid_listed(created@, infos@[k0].uuid@),
                forall|c0: int|
                    0 <= c0 < created@.len() ==> reg_vec_has_uuid(
                        new_reg@,
                        (#[trigger] created@[c0]).uuid@,
                    ),
                forall|k1: int, k2: int|
                    0 <= k1 < k2 < created@.len() ==> !str_ieq(
                        (#[trigger] created@[k1]).uuid@,
                        (#[trigger] created@[k2]).uuid@,
                    ),
                forall|j: int|
                    0 <= j < new_reg@.len() && !old_c.reg_has_uuid(
                        (#[trigger] new_reg@[j]).info.uuid@,
                    ) ==> uuid_listed(created@, new_reg@[j].info.uuid@),
            decreases infos@.len() - k,
        {
            let info = infos[k].duplicate();
            proof {
                assert(info == infos@[k as int]);
                assert(info_in_topology(t@, info));
            }
            match find_record_index(&new_reg, info.uuid.as_str()) {
                Some(j) => {
                    // A later occurrence of an already carried-over uuid:
                    // its descriptor wins.
                    let ghost pre = new_reg@;
                    let mut rec = new_reg.remove(j);
                    let ghost old_rec = rec;
                    rec.info = info;
                    new_reg.insert(j, rec);
                    proof {
                        assert(new_reg@ =~= pre.update(j as int, rec));
                        assert(str_ieq(rec.info.uuid@, old_rec.info.uuid@));
                        // provenance carries over: the record is keyed by a
                        // case-equal uuid
                        assert forall|j0: int|
                            0 <= j0 < new_reg@.len() implies record_provenance(
                            old_c,
                            t@,
                            #[trigger] new_reg@[j0],
                        ) by {
                            if j0 == j as int {
                                assert(record_provenance(old_c, t@, old_rec));
                                if old_c.reg_has_uuid(rec.info.uuid@) {
                                    let i1 = old_c.index_for_uuid(old_rec.info.uuid@);
                                    assert(old_c.reg_has_uuid(old_rec.info.uuid@));
                                    assert(0 <= i1 < old_c.reg().len() && str_ieq(
                                        old_c.reg()[i1].info.uuid@,
                                        old_rec.info.uuid@,
                                    ));
                                    lemma_record_for(old_c, i1, rec.info.uuid@);
                                }
                            } else {
                                assert(new_reg@[j0] == pre[j0]);
                            }
                        }
                        assert forall|u: Seq<char>|
                            #[trigger] old_c.reg_has_uuid(u) implies reg_vec_has_uuid(
                            remaining@,
                            u,
                        ) || reg_vec_has_uuid(new_reg@, u) by {
                            if reg_vec_has_uuid(pre, u) {
                                let w = choose|w: int|
                                    0 <= w < pre.len() && str_ieq((#[trigger] pre[w]).info.uuid@, u);
                                assert(str_ieq(new_reg@[w].info.uuid@, u));
                            }
                        }
                        assert forall|k0: int| 0 <= k0 < k + 1 implies reg_vec_has_uuid(
                            new_reg@,
                            (#[trigger] infos@[k0]).uuid@,
                        ) by {
                            if k0 == k as int {
                                assert(str_ieq(new_reg@[j as int].info.uuid@, infos@[k0].uuid@));
                            } else {
                                let w = choose|w: int|
                                    0 <= w < pre.len() && str_ieq(
                                        (#[trigger] pre[w]).info.uuid@,
                                        infos@[k0].uuid@,
                                    );
                                assert(str_ieq(new_reg@[w].info.uuid@, infos@[k0].uuid@));
                            }
                        }
                        assert forall|c0: int| 0 <= c0 < created@.len() implies reg_vec_has_uuid(
                            new_reg@,
                            (#[trigger] created@[c0]).uuid@,
                        ) by {
                            let w = choose|w: int|
                                0 <= w < pre.len() && str_ieq(
                                    (#[trigger] pre[w]).info.uuid@,
                                    created@[c0].uuid@,
                                );
                            assert(str_ieq(new_reg@[w].info.uuid@, created@[c0].uuid@));
                        }
                        assert forall|j0: int|
                            0 <= j0 < new_reg@.len() && !old_c.reg_has_uuid(
                                (#[trigger] new_reg@[j0]).info.uuid@,
                            ) implies uuid_listed(created@, new_reg@[j0].info.uuid@) by {
                            if j0 == j as int {
                                if old_c.reg_has_uuid(old_rec.info.uuid@) {
                                    let w2 = choose|w2: int|
                                        0 <= w2 < old_c.reg().len() && str_ieq(
                                            (#[trigger] old_c.reg()[w2]).info.uuid@,
                                            old_rec.info.uuid@,
                                        );
                                    assert(str_ieq(old_c.reg()[w2].info.uuid@, rec.info.uuid@));
                                }
                                assert(!old_c.reg_has_uuid(old_rec.info.uuid@));
                                assert(uuid_listed(created@, old_rec.info.uuid@));
                                let w = choose|w: int|
                                    0 <= w < created@.len() && str_ieq(
                                        (#[trigger] created@[w]).uuid@,
                                        old_rec.info.uuid@,
                                    );
                                assert(str_ieq(created@[w].uuid@, rec.info.uuid@));
                            } else {
                                assert(new_reg@[j0] == pre[j0]);
                            }
                        }
                        assert forall|k0: int|
                            0 <= k0 < k + 1 && !old_c.reg_has_uuid(
                                (#[trigger] infos@[k0]).uuid@,
                            ) implies uuid_listed(created@, infos@[k0].uuid@) by {
                            if k0 == k as int {
                                assert(new_reg@[j as int].info.uuid@ == infos@[k0].uuid@);
                                assert(uuid_listed(created@, new_reg@[j as int].info.uuid@));
                            }
                        }
                    }
                },
                None => {
                    match find_record_index(&remaining, info.uuid.as_str()) {
                        Some(i) => {
                            // A device that was already registered: keep its
                            // cached status and subscription, refresh its
                            // descriptor.
                            let ghost pre_rem = remaining@;
                            let ghost pre = new_reg@;
                            let rec = remaining.remove(i);
                            proof {
                                assert(remaining@ == pre_rem.remove(i as int));
                                assert(record_in(old_c.reg(), rec));
                            }
                            let carried = SpeakerData {
                                info,
                                transport_data: rec.transport_data,
                                transport_subscription: rec.transport_subscription,
                            };
                            new_reg.push(carried);
                            proof {
                                assert(new_reg@ == pre.push(carried));
                                assert(new_reg@[pre.len() as int] == carried);
                                // the moved record is the old record for this uuid
                                let i0 = choose|i0: int|
                                    0 <= i0 < old_c.reg().len() && #[trigger] old_c.reg()[i0]
                                        == rec;
                                assert(str_ieq(old_c.reg()[i0].info.uuid@, carried.info.uuid@));
                                lemma_record_for(old_c, i0, carried.info.uuid@);
                                assert(record_provenance(old_c, t@, carried));
                                // remaining: still old records, still unique
                                assert forall|i2: int|
                                    0 <= i2 < remaining@.len() implies record_in(
                                    old_c.reg(),
                                    #[trigger] remaining@[i2],
                                ) by {
                                    if i2 < i as int {
                                        assert(remaining@[i2] == pre_rem[i2]);
                                    } else {
                                        assert(remaining@[i2] == pre_rem[i2 + 1]);
                                    }
                                }
                                assert forall|i2: int, j2: int|
                                    0 <= i2 < j2 < remaining@.len() implies !str_ieq(
                                    (#[trigger] remaining@[i2]).info.uuid@,
                                    (#[trigger] remaining@[j2]).info.uuid@,
                                ) by {
                                    let a: int = if i2 < i as int {
                                        i2
                                    } else {
                                        i2 + 1
                                    };
                                    let b: int = if j2 < i as int {
                                        j2
                                    } else {
                                        j2 + 1
                                    };
                                    assert(remaining@[i2] == pre_rem[a]);
                                    assert(remaining@[j2] == pre_rem[b]);
                                }
                                // coverage: the removed uuid moved into new_reg
                                assert forall|u: Seq<char>|
                                    #[trigger] old_c.reg_has_uuid(u) implies reg_vec_has_uuid(
                                    remaining@,
                                    u,
                                ) || reg_vec_has_uuid(new_reg@, u) by {
                                    if reg_vec_has_uuid(pre_rem, u) {
                                        let w = choose|w: int|
                                            0 <= w < pre_rem.len() && str_ieq(
                                                (#[trigger] pre_rem[w]).info.uuid@,
                                                u,
                                            );
                                        if w == i as int {
                                            assert(str_ieq(
                                                new_reg@[pre.len() as int].info.uuid@,
                                                u,
                                            ));
                                        } else {
                                            let w2: int = if w < i as int {
                                                w
                                            } else {
                                                w - 1
                                            };
                                            assert(remaining@[w2] == pre_rem[w]);
                                            assert(str_ieq(remaining@[w2].info.uuid@, u));
                                        }
                                    } else if reg_vec_has_uuid(pre, u) {
                                        let w = choose|w: int|
                                            0 <= w < pre.len() && str_ieq(
                                                (#[trigger] pre[w]).info.uuid@,
                                                u,
                                            );
                                        assert(str_ieq(new_reg@[w].info.uuid@, u));
                                    }
                                }
                                assert forall|k0: int| 0 <= k0 < k + 1 implies reg_vec_has_uuid(
                                    new_reg@,
                                    (#[trigger] infos@[k0]).uuid@,
                                ) by {
                                    if k0 == k as int {
                                        assert(str_ieq(
                                            new_reg@[pre.len() as int].info.uuid@,
                                            infos@[k0].uuid@,
                                        ));
                                    } else {
                                        let w = choose|w: int|
                                            0 <= w < pre.len() && str_ieq(
                                                (#[trigger] pre[w]).info.uuid@,
                                                infos@[k0].uuid@,
                                            );
                                        assert(str_ieq(new_reg@[w].info.uuid@, infos@[k0].uuid@));
                                    }
                                }
                                assert forall|c0: int|
                                    0 <= c0 < created@.len() implies reg_vec_has_uuid(
                                    new_reg@,
                                    (#[trigger] created@[c0]).uuid@,
                                ) by {
                                    let w = choose|w: int|
                                        0 <= w < pre.len() && str_ieq(
                                            (#[trigger] pre[w]).info.uuid@,
                                            created@[c0].uuid@,
                                        );
                                    assert(str_ieq(new_reg@[w].info.uuid@, created@[c0].uuid@));
                                }
                                assert forall|j0: int|
                                    0 <= j0 < new_reg@.len() && !old_c.reg_has_uuid(
                                        (#[trigger] new_reg@[j0]).info.uuid@,
                                    ) implies uuid_listed(created@, new_reg@[j0].info.uuid@) by {
                                    if j0 == pre.len() as int {
                                        assert(old_c.reg_has_uuid(carried.info.uuid@));
                                    } else {
                                        assert(new_reg@[j0] == pre[j0]);
                                    }
                                }
                                assert forall|k0: int|
                                    0 <= k0 < k + 1 && !old_c.reg_has_uuid(
                                        (#[trigger] infos@[k0]).uuid@,
                                    ) implies uuid_listed(created@, infos@[k0].uuid@) by {
                                    if k0 == k as int {
                                        assert(old_c.reg_has_uuid(infos@[k0].uuid@));
                                    }
                                }
                            }
                        },
                        None => {
                            // A uuid seen for the first time: a fresh record
                            // without status or subscription.
                            let ghost pre = new_reg@;
                            let ghost pre_created = created@;
                            proof {
                                // not in remaining and not carried over, so new
                                if old_c.reg_has_uuid(info.uuid@) {
                                    assert(reg_vec_has_uuid(remaining@, info.uuid@)
                                        || reg_vec_has_uuid(new_reg@, info.uuid@));
                                }
                                assert(!old_c.reg_has_uuid(info.uuid@));
                            }
                            created.push(info.duplicate());
                            let fresh = SpeakerData {
                                info,
                                transport_data: Vec::new(),
                                transport_subscription: None,
                            };
                            new_reg.push(fresh);
                            proof {
                                assert(new_reg@ == pre.push(fresh));
                                assert(created@ == pre_created.push(fresh.info));
                                assert(record_provenance(old_c, t@, fresh));
                                assert(created_new(old_c, t@, fresh.info));
                                assert forall|u: Seq<char>|
                                    #[trigger] old_c.reg_has_uuid(u) implies reg_vec_has_uuid(
                                    remaining@,
                                    u,
                                ) || reg_vec_has_uuid(new_reg@, u) by {
                                    if reg_vec_has_uuid(pre, u) {
                                        let w = choose|w: int|
                                            0 <= w < pre.len() && str_ieq(
                                                (#[trigger] pre[w]).info.uuid@,
                                                u,
                                            );
                                        assert(str_ieq(new_reg@[w].info.uuid@, u));
                                    }
                                }
                                assert forall|k0: int| 0 <= k0 < k + 1 implies reg_vec_has_uuid(
                                    new_reg@,
                                    (#[trigger] infos@[k0]).uuid@,
                                ) by {
                                    if k0 == k as int {
                                        assert(str_ieq(
                                            new_reg@[pre.len() as int].info.uuid@,
                                            infos@[k0].uuid@,
                                        ));
                                    } else {
                                        let w = choose|w: int|
                                            0 <= w < pre.len() && str_ieq(
                                                (#[trigger] pre[w]).info.uuid@,
                                                infos@[k0].uuid@,
                                            );
                                        assert(str_ieq(new_reg@[w].info.uuid@, infos@[k0].uuid@));
                                    }
                                }
                                assert forall|k0: int|
                                    0 <= k0 < k + 1 && !old_c.reg_has_uuid(
                                        (#[trigger] infos@[k0]).uuid@,
                                    ) implies uuid_listed(created@, infos@[k0].uuid@) by {
                                    if k0 == k as int {
                                        assert(str_ieq(
                                            created@[pre_created.len() as int].uuid@,
                                            infos@[k0].uuid@,
                                        ));
                                    } else {
                                        let w = choose|w: int|
                                            0 <= w < pre_created.len() && str_ieq(
                                                (#[trigger] pre_created[w]).uuid@,
                                                infos@[k0].uuid@,
                                            );
                                        assert(str_ieq(created@[w].uuid@, infos@[k0].uuid@));
                                    }
                                }
                                assert forall|c0: int|
                                    0 <= c0 < created@.len() implies reg_vec_has_uuid(
                                    new_reg@,
                                    (#[trigger] created@[c0]).uuid@,
                                ) by {
                                    if c0 == pre_created.len() as int {
                                        assert(str_ieq(
                                            new_reg@[pre.len() as int].info.uuid@,
                                            created@[c0].uuid@,
                                        ));
                                    } else {
                                        let w = choose|w: int|
                                            0 <= w < pre.len() && str_ieq(
                                                (#[trigger] pre[w]).info.uuid@,
                                                created@[c0].uuid@,
                                            );
                                        assert(str_ieq(new_reg@[w].info.uuid@, created@[c0].uuid@));
                                    }
                                }
                                assert forall|j0: int|
                                    0 <= j0 < new_reg@.len() && !old_c.reg_has_uuid(
                                        (#[trigger] new_reg@[j0]).info.uuid@,
                                    ) implies uuid_listed(created@, new_reg@[j0].info.uuid@) by {
                                    if j0 == pre.len() as int {
                                        assert(str_ieq(
                                            created@[pre_created.len() as int].uuid@,
                                            fresh.info.uuid@,
                                        ));
                                    } else {
                                        assert(new_reg@[j0] == pre[j0]);
                                        if !old_c.reg_has_uuid(pre[j0].info.uuid@) {
                                            let w = choose|w: int|
                                                0 <= w < pre_created.len() && str_ieq(
                                                    (#[trigger] pre_created[w]).uuid@,
                                                    pre[j0].info.uuid@,
                                                );
                                            assert(str_ieq(created@[w].uuid@, pre[j0].info.uuid@));
                                        }
                                    }
                                }
                                assert forall|k1: int, k2: int|
                                    0 <= k1 < k2 < created@.len() implies !str_ieq(
                                    (#[trigger] created@[k1]).uuid@,
                                    (#[trigger] created@[k2]).uuid@,
                                ) by {
                                    if k2 == pre_created.len() as int {
                                        if str_ieq(created@[k1].uuid@, created@[k2].uuid@) {
                                            let w = choose|w: int|
                                                0 <= w < pre.len() && str_ieq(
                                                    (#[trigger] pre[w]).info.uuid@,
                                                    pre_created[k1].uuid@,
                                                );
                                            assert(str_ieq(pre[w].info.uuid@, info.uuid@));
                                            assert(reg_vec_has_uuid(pre, info.uuid@));
                                        }
                                    }
                                }
                            }
                        },
                    }
                },
            }
            k += 1;
        }
        self.speakerdata = new_reg;
        self.topology = reduce_topology(t);
        proof {
            let fin = *self;
            // exactness, forward: every registered uuid stands in the payload
            assert forall|u: Seq<char>| fin.reg_has_uuid(u) implies topo_has_uuid(t@, u) by {
                let i = choose|i: int|
                    0 <= i < fin.reg().len() && str_ieq((#[trigger] fin.reg()[i]).info.uuid@, u);
                assert(record_provenance(old_c, t@, fin.reg()[i]));
                let sd = fin.reg()[i];
                let (g, m) = choose|g: int, m: int|
                    topo_valid_index(t@, g, m) && #[trigger] group_members(t@, g)[m] == sd.info;
                assert(str_ieq(group_members(t@, g)[m].uuid@, u));
            }
            // exactness, backward: every payload uuid is registered
            assert forall|u: Seq<char>| topo_has_uuid(t@, u) implies fin.reg_has_uuid(u) by {
                let (g, m) = choose|g: int, m: int|
                    topo_valid_index(t@, g, m) && str_ieq(
                        (#[trigger] group_members(t@, g)[m]).uuid@,
                        u,
                    );
                assert(info_listed(infos@, group_members(t@, g)[m]));
                let k0 = choose|k0: int|
                    0 <= k0 < infos@.len() && #[trigger] infos@[k0] == group_members(t@, g)[m];
                assert(reg_vec_has_uuid(fin.reg(), infos@[k0].uuid@));
                let w = choose|w: int|
                    0 <= w < fin.reg().len() && str_ieq(
                        (#[trigger] fin.reg()[w]).info.uuid@,
                        infos@[k0].uuid@,
                    );
                assert(str_ieq(fin.reg()[w].info.uuid@, u));
            }
            // the stored mapping projects into the registry
            assert forall|g: int, m: int|
                0 <= g < fin.topology@.len() && 0 <= m < fin.topology@[g].1@.len() implies
                fin.reg_has_uuid(#[trigger] fin.topology@[g].1@[m]@) by {
                assert(topo_valid_index(t@, g, m));
                assert(fin.topology@[g].1@[m]@ == group_members(t@, g)[m].uuid@);
                assert(str_ieq(group_members(t@, g)[m].uuid@, fin.topology@[g].1@[m]@));
                assert(topo_has_uuid(t@, fin.topology@[g].1@[m]@));
            }
            // each stored group keeps its coordinator among its members
            assert forall|g: int| 0 <= g < fin.topology@.len() implies
                #[trigger] stored_group_has_coordinator(fin.topology@, g) by {
                assert(group_has_coordinator(t@, g));
                let m = choose|m: int|
                    0 <= m < group_members(t@, g).len() && str_ieq(
                        (#[trigger] group_members(t@, g)[m]).uuid@,
                        t@[g].0@,
                    );
                assert(fin.topology@[g].1@[m]@ == group_members(t@, g)[m].uuid@);
                assert(fin.topology@[g].0@ == t@[g].0@);
                assert(str_ieq(fin.topology@[g].1@[m]@, fin.topology@[g].0@));
            }
        }
        created
    }

    /// Stores the latest transport status a registered device reported.  A
    /// report for an unknown uuid is discarded.
    pub fn update_avtransport_data(&mut self, uuid: &str, data: AVStatus)
        requires
            old(self).wf(),
        ensures
            final(self).wf(),
            final(self).topology == old(self).topology,
            old(self).reg_has_uuid(uuid@) ==> final(self).speakerdata@ == old(
                self,
            ).speakerdata@.update(
                old(self).index_for_uuid(uuid@),
                (SpeakerData {
                    info: old(self).record_for_uuid(uuid@).info,
                    transport_data: data,
                    transport_subscription: old(self).record_for_uuid(uuid@).transport_subscription,
                }),
            ),
            !old(self).reg_has_uuid(uuid@) ==> final(self).speakerdata == old(self).speakerdata,
    {
        let ghost old_c = *self;
        match self.find_index_by_uuid(uuid) {
            Some(i) => {
                proof {
                    lemma_record_for(old_c, i as int, uuid@);
                }
                let mut rec = self.speakerdata.remove(i);
                rec.transport_data = data;
                let ghost new_rec = rec;
                self.speakerdata.insert(i, rec);
                proof {
                    assert(self.speakerdata@ =~= old_c.speakerdata@.update(i as int, new_rec));
                    assert forall|a: int, b: int|
                        0 <= a < b < self.reg().len() implies !str_ieq(
                        (#[trigger] self.reg()[a]).info.uuid@,
                        (#[trigger] self.reg()[b]).info.uuid@,
                    ) by {
                        assert(self.reg()[a].info == old_c.reg()[a].info);
                        assert(self.reg()[b].info == old_c.reg()[b].info);
                    }
                }
            },
            None => (),
        }
    }

    /// Stores (or clears) the transport subscription of a registered
    /// device.  A uuid that is not registered changes nothing.
    pub fn set_transport_subscription(&mut self, uuid: &str, sub: Option<Subscriber>)
        requires
            old(self).wf(),
        ensures
            final(self).wf(),
            final(self).topology == old(self).topology,
            old(self).reg_has_uuid(uuid@) ==> final(self).speakerdata@ == old(
                self,
            ).speakerdata@.update(
                old(self).index_for_uuid(uuid@),
                (SpeakerData {
                    info: old(self).record_for_uuid(uuid@).info,
                    transport_data: old(self).record_for_uuid(uuid@).transport_data,
                    transport_subscription: sub,
                }),
            ),
            !old(self).reg_has_uuid(uuid@) ==> final(self).speakerdata == old(self).speakerdata,
    {
        let ghost old_c = *self;
        match self.find_index_by_uuid(uuid) {
            Some(i) => {
                proof {
                    lemma_record_for(old_c, i as int, uuid@);
                }
                let mut rec = self.speakerdata.remove(i);
                rec.transport_subscription = sub;
                let ghost new_rec = rec;
                self.speakerdata.insert(i, rec);
                proof {
                    assert(self.speakerdata@ =~= old_c.speakerdata@.update(i as int, new_rec));
                    assert forall|a: int, b: int|
                        0 <= a < b < self.reg().len() implies !str_ieq(
                        (#[trigger] self.reg()[a]).info.uuid@,
                        (#[trigger] self.reg()[b]).info.uuid@,
                    ) by {
                        assert(self.reg()[a].info == old_c.reg()[a].info);
                        assert(self.reg()[b].info == old_c.reg()[b].info);
                    }
                }
            },
            None => (),
        }
    }

    /// Removes and returns the record of the device with uuid `uuid`, if it
    /// is registered.  The stored mapping is left alone; the next accepted
    /// topology update reconciles it.
    pub fn pop_speakerdata_by_uuid(&mut self, uuid: &str) -> (r: Option<SpeakerData>)
        requires
            old(self).wf(),
        ensures
            final(self).wf(),
            final(self).topology == old(self).topology,
            r is Some <==> old(self).reg_has_uuid(uuid@),
            r matches Some(sd) ==> sd == old(self).record_for_uuid(uuid@),
            r is Some ==> final(self).speakerdata@ == old(self).speakerdata@.remove(
                old(self).index_for_uuid(uuid@),
            ),
            r is None ==> final(self).speakerdata == old(self).speakerdata,
            !final(self).reg_has_uuid(uuid@),
    {
        let ghost old_c = *self;
        match self.find_index_by_uuid(uuid) {
            Some(i) => {
                proof {
                    lemma_record_for(old_c, i as int, uuid@);
                }
                let rec = self.speakerdata.remove(i);
                proof {
                    let pre = old_c.speakerdata@;
                    assert forall|a: int, b: int|
                        0 <= a < b < self.reg().len() implies !str_ieq(
                        (#[trigger] self.reg()[a]).info.uuid@,
                        (#[trigger] self.reg()[b]).info.uuid@,
                    ) by {
                        let a0: int = if a < i as int {
                            a
                        } else {
                            a + 1
                        };
                        let b0: int = if b < i as int {
                            b
                        } else {
                            b + 1
                        };
                        assert(self.reg()[a] == pre[a0]);
                        assert(self.reg()[b] == pre[b0]);
                    }
                    assert forall|a: int|
                        0 <= a < self.reg().len() implies !str_ieq(
                        (#[trigger] self.reg()[a]).info.uuid@,
                        uuid@,
                    ) by {
                        let a0: int = if a < i as int {
                            a
                        } else {
                            a + 1
                        };
                        assert(self.reg()[a] == pre[a0]);
                        if str_ieq(pre[a0].info.uuid@, uuid@) {
                            assert(str_ieq(pre[a0].info.uuid@, pre[i as int].info.uuid@));
                        }
                    }
                }
                Some(rec)
            },
            None => None,
        }
    }

    /// Puts a dropped record back, after an attempt to re-resolve the
    /// device from its last known descriptor.  With a fresh descriptor the
    /// record is rebuilt around it, keeping the cached status, and carries
    /// whatever subscription the caller obtained (best-effort); without one
    /// the record stays dropped, for a later topology update to reconcile.
    pub fn reinstate_record(
        &mut self,
        record: SpeakerData,
        resolved: Option<SpeakerInfo>,
        sub: Option<Subscriber>,
    )
        requires
            old(self).wf(),
            !old(self).reg_has_uuid(record.info.uuid@),
            resolved matches Some(info) ==> str_ieq(info.uuid@, record.info.uuid@),
        ensures
            final(self).wf(),
            final(self).topology == old(self).topology,
            resolved is None ==> final(self).speakerdata == old(self).speakerdata,
            resolved matches Some(info) ==> final(self).speakerdata@ == old(
                self,
            ).speakerdata@.push(
                (SpeakerData {
                    info: info,
                    transport_data: record.transport_data,
                    transport_subscription: sub,
                }),
            ),
            resolved matches Some(info) ==> final(self).reg_has_uuid(record.info.uuid@),
    {
        let ghost old_c = *self;
        match resolved {
            Some(info) => {
                let rebuilt = SpeakerData {
                    info,
                    transport_data: record.transport_data,
                    transport_subscription: sub,
                };
                let ghost new_rec = rebuilt;
                self.speakerdata.push(rebuilt);
                proof {
                    assert(self.speakerdata@ == old_c.speakerdata@.push(new_rec));
                    assert(str_ieq(
                        self.reg()[self.reg().len() - 1].info.uuid@,
                        record.info.uuid@,
                    ));
                    assert forall|a: int, b: int|
                        0 <= a < b < self.reg().len() implies !str_ieq(
                        (#[trigger] self.reg()[a]).info.uuid@,
                        (#[trigger] self.reg()[b]).info.uuid@,
                    ) by {
                        if b == self.reg().len() - 1 {
                            assert(self.reg()[a] == old_c.reg()[a]);
                            if str_ieq(self.reg()[a].info.uuid@, new_rec.info.uuid@) {
                                assert(str_ieq(old_c.reg()[a].info.uuid@, record.info.uuid@));
                                assert(old_c.reg_has_uuid(record.info.uuid@));
                            }
                        } else {
                            assert(self.reg()[a] == old_c.reg()[a]);
                            assert(self.reg()[b] == old_c.reg()[b]);
                        }
                    }
                }
            },
            None => (),
        }
    }

    /// Whether `ci` is the registry index of the coordinator responsible
    /// for zone `n`: the first record named `n` belongs to some stored
    /// group, and `ci` is that group's coordinator's record.
    pub open spec fn resolves_coordinator(self, n: Seq<char>, ci: int) -> bool {
        exists|i: int, g: int|
            #[trigger] self.is_first_name_match(n, i) && #[trigger] is_first_group_with(
                self.topology@,
                self.reg()[i].info.uuid@,
                g,
            ) && self.is_first_uuid_match(self.topology@[g].0@, ci)
    }

    /// Whether zone `n` resolves to a registered coordinator.
    pub open spec fn can_resolve(self, n: Seq<char>) -> bool {
        exists|ci: int| #[trigger] self.resolves_coordinator(n, ci)
    }

    /// First stored group one of whose members carries uuid `uuid`, if
    /// any.
    pub fn find_group_for_uuid(&self, uuid: &str) -> (r: Option<usize>)
        ensures
            r matches Some(g) ==> is_first_group_with(self.topology@, uuid@, g as int),
            r is None ==> forall|g: int|
                0 <= g < self.topology@.len() ==> !(#[trigger] group_contains_uuid(
                    self.topology@,
                    g,
                    uuid@,
                )),
    {
        let mut g: usize = 0;
        while g < self.topology.len()
            invariant
                g <= self.topology@.len(),
                forall|g0: int|
                    0 <= g0 < g ==> !(#[trigger] group_contains_uuid(self.topology@, g0, uuid@)),
            decreases self.topology@.len() - g,
        {
            match find_uuid_in_list(&self.topology[g].1, uuid) {
                Some(m) => {
                    proof {
                        assert(str_ieq(self.topology@[g as int].1@[m as int]@, uuid@));
                        assert(group_contains_uuid(self.topology@, g as int, uuid@));
                    }
                    return Some(g);
                },
                None => {
                    proof {
                        assert forall|m: int|
                            !(0 <= m < self.topology@[g as int].1@.len() && str_ieq(
                                (#[trigger] self.topology@[g as int].1@[m])@,
                                uuid@,
                            )) by {}
                        assert(!group_contains_uuid(self.topology@, g as int, uuid@));
                    }
                },
            }
            g += 1;
        }
        None
    }

    /// The record whose display name is `name`, if one is registered.
    pub fn get_speaker_with_name(&self, name: &str) -> (r: Option<&SpeakerData>)
        ensures
            r matches Some(sd) ==> exists|i: int|
                #[trigger] self.is_first_name_match(name@, i) && *sd == self.reg()[i],
            r is None ==> !self.reg_has_name(name@),
    {
        match self.find_index_by_name(name) {
            Some(i) => Some(&self.speakerdata[i]),
            None => None,
        }
    }

    /// The record carrying uuid `uuid`, if one is registered.
    pub fn get_speaker_by_uuid(&self, uuid: &str) -> (r: Option<&SpeakerData>)
        ensures
            r matches Some(sd) ==> exists|i: int|
                #[trigger] self.is_first_uuid_match(uuid@, i) && *sd == self.reg()[i],
            r is None ==> !self.reg_has_uuid(uuid@),
    {
        match self.find_index_by_uuid(uuid) {
            Some(i) => Some(&self.speakerdata[i]),
            None => None,
        }
    }

    /// Whether `ci` is the registry index of the coordinator of the group
    /// device `u` belongs to.
    pub open spec fn resolves_coordinator_for_uuid(self, u: Seq<char>, ci: int) -> bool {
        exists|g: int|
            #[trigger] is_first_group_with(self.topology@, u, g) && self.is_first_uuid_match(
                self.topology@[g].0@,
                ci,
            )
    }

    /// The record of the coordinator of the group device `speaker_uuid`
    /// belongs to, where the group and its coordinator are known.
    pub fn get_coordinator_for_uuid(&self, speaker_uuid: &str) -> (r: Option<&SpeakerData>)
        ensures
            r matches Some(sd) ==> exists|ci: int|
                #[trigger] self.resolves_coordinator_for_uuid(speaker_uuid@, ci) && *sd
                    == self.reg()[ci],
            r is None ==> forall|ci: int|
                !(#[trigger] self.resolves_coordinator_for_uuid(speaker_uuid@, ci)),
    {
        let g = match self.find_group_for_uuid(speaker_uuid) {
            Some(g) => g,
            None => {
                proof {
                    assert forall|ci: int| !(#[trigger] self.resolves_coordinator_for_uuid(
                        speaker_uuid@,
                        ci,
                    )) by {
                        if self.resolves_coordinator_for_uuid(speaker_uuid@, ci) {
                            let g0 = choose|g0: int|
                                #[trigger] is_first_group_with(self.topology@, speaker_uuid@, g0)
                                    && self.is_first_uuid_match(self.topology@[g0].0@, ci);
                            assert(group_contains_uuid(self.topology@, g0, speaker_uuid@));
                        }
                    }
                }
                return None;
            },
        };
        let ci = match self.find_index_by_uuid(self.topology[g].0.as_str()) {
            Some(ci) => ci,
            None => {
                proof {
                    assert forall|ci0: int| !(#[trigger] self.resolves_coordinator_for_uuid(
                        speaker_uuid@,
                        ci0,
                    )) by {
                        if self.resolves_coordinator_for_uuid(speaker_uuid@, ci0) {
                            let g0 = choose|g0: int|
                                #[trigger] is_first_group_with(self.topology@, speaker_uuid@, g0)
                                    && self.is_first_uuid_match(self.topology@[g0].0@, ci0);
                            assert(g0 == g as int);
                            assert(self.reg_has_uuid(self.topology@[g as int].0@));
                        }
                    }
                }
                return None;
            },
        };
        proof {
            assert(self.resolves_coordinator_for_uuid(speaker_uuid@, ci as int));
        }
        Some(&self.speakerdata[ci])
    }

    /// Resolves a zone name to the record of the group coordinator
    /// responsible for it: the record named `name` (matched without regard
    /// to ASCII case) is looked up in the stored groups, and its group's
    /// coordinator's record is returned; nothing where any link of that
    /// chain is missing.
    pub fn get_coordinator_for_name(&self, name: &str) -> (r: Option<&SpeakerData>)
        ensures
            r matches Some(sd) ==> exists|ci: int|
                #[trigger] self.resolves_coordinator(name@, ci) && *sd == self.reg()[ci],
            r is None ==> !self.can_resolve(name@),
    {
        let i = match self.find_index_by_name(name) {
            Some(i) => i,
            None => {
                proof {
                    assert forall|ci: int| !(#[trigger] self.resolves_coordinator(
                        name@,
                        ci,
                    )) by {
                        if self.resolves_coordinator(name@, ci) {
                            let (i0, g0) = choose|i0: int, g0: int|
                                #[trigger] self.is_first_name_match(name@, i0)
                                    && #[trigger] is_first_group_with(
                                    self.topology@,
                                    self.reg()[i0].info.uuid@,
                                    g0,
                                ) && self.is_first_uuid_match(self.topology@[g0].0@, ci);
                            assert(self.reg_has_name(name@));
                        }
                    }
                }
                return None;
            },
        };
        let g = match self.find_group_for_uuid(self.speakerdata[i].info.uuid.as_str()) {
            Some(g) => g,
            None => {
                proof {
                    assert forall|ci: int| !(#[trigger] self.resolves_coordinator(
                        name@,
                        ci,
                    )) by {
                        if self.resolves_coordinator(name@, ci) {
                            let (i0, g0) = choose|i0: int, g0: int|
                                #[trigger] self.is_first_name_match(name@, i0)
                                    && #[trigger] is_first_group_with(
                                    self.topology@,
                                    self.reg()[i0].info.uuid@,
                                    g0,
                                ) && self.is_first_uuid_match(self.topology@[g0].0@, ci);
                            assert(i0 == i as int);
                            assert(group_contains_uuid(
                                self.topology@,
                                g0,
                                self.reg()[i as int].info.uuid@,
                            ));
                        }
                    }
                }
                return None;
            },
        };
        let ci = match self.find_index_by_uuid(self.topology[g].0.as_str()) {
            Some(ci) => ci,
            None => {
                proof {
                    assert forall|ci0: int| !(#[trigger] self.resolves_coordinator(
                        name@,
                        ci0,
                    )) by {
                        if self.resolves_coordinator(name@, ci0) {
                            let (i0, g0) = choose|i0: int, g0: int|
                                #[trigger] self.is_first_name_match(name@, i0)
                                    && #[trigger] is_first_group_with(
                                    self.topology@,
                                    self.reg()[i0].info.uuid@,
                                    g0,
                                ) && self.is_first_uuid_match(self.topology@[g0].0@, ci0);
                            assert(i0 == i as int);
                            assert(g0 == g as int);
                            assert(self.reg_has_uuid(self.topology@[g as int].0@));
                        }
                    }
                }
                return None;
            },
        };
        proof {
            assert(self.resolves_coordinator(name@, ci as int));
        }
        Some(&self.speakerdata[ci])
    }

    /// Reacts to one dispatcher event, changing the registry and returning
    /// the work the application owes: an accepted topology update asks for
    /// a transport subscription per new device; a topology-subscription
    /// failure asks for a resubscription against the registered device
    /// `pick` selects (the selection-policy seam), or for a full
    /// rediscovery when nothing is registered; a transport-subscription
    /// failure drops the tagged record and asks for its re-resolution.
    /// A malformed event (a payload whose group lacks its own coordinator,
    /// or a transport event without a uuid) changes nothing and is
    /// reported as a protocol error.
    pub fn handle_event(&mut self, event: Event, pick: usize) -> (r: Result<Vec<Effect>, Error>)
        requires
            old(self).wf(),
        ensures
            final(self).wf(),
            r matches Err(e) ==> e == Error::ProtocolError && final(self).speakerdata == old(
                self,
            ).speakerdata && final(self).topology == old(self).topology,
            event matches Event::TopologyUpdate(t) ==> (r is Err <==> !topology_coordinated(t@)),
            event matches Event::TopologyUpdate(t) ==> (r matches Ok(effs) ==> {
                &&& final(self).projected()
                &&& forall|u: Seq<char>| final(self).reg_has_uuid(u) == topo_has_uuid(t@, u)
                &&& forall|i: int|
                    0 <= i < final(self).reg().len() ==> record_provenance(
                        *old(self),
                        t@,
                        #[trigger] final(self).reg()[i],
                    )
                &&& reduction_of(final(self).topology@, t@)
                &&& forall|k: int|
                    0 <= k < effs@.len() ==> is_subscribe_effect(
                        *old(self),
                        t@,
                        #[trigger] effs@[k],
                    )
                &&& forall|u: Seq<char>|
                    topo_has_uuid(t@, u) && !old(self).reg_has_uuid(u) ==> effects_list_subscribe(
                        effs@,
                        u,
                    )
            }),
            event matches Event::TransportUpdate(tag, data) ==> {
                &&& (r is Err <==> tag is None)
                &&& (tag matches Some(u) ==> {
                    &&& (old(self).reg_has_uuid(u@) ==> final(self).speakerdata@ == old(
                        self,
                    ).speakerdata@.update(
                        old(self).index_for_uuid(u@),
                        (SpeakerData {
                            info: old(self).record_for_uuid(u@).info,
                            transport_data: data,
                            transport_subscription: old(self).record_for_uuid(
                                u@,
                            ).transport_subscription,
                        }),
                    ))
                    &&& (!old(self).reg_has_uuid(u@) ==> final(self).speakerdata == old(
                        self,
                    ).speakerdata)
                    &&& final(self).topology == old(self).topology
                })
                &&& (r matches Ok(effs) ==> effs@.len() == 0)
            },
            event matches Event::SubscriptionFailure(tag, svc) ==> (svc
                == ServiceKind::ZoneGroupTopology ==> {
                &&& r is Ok
                &&& final(self).speakerdata == old(self).speakerdata
                &&& final(self).topology == old(self).topology
                &&& (r matches Ok(effs) ==> {
                    &&& (old(self).reg().len() == 0 ==> effs@ =~= seq![Effect::Rediscover])
                    &&& (old(self).reg().len() > 0 ==> effs@.len() == 1 && effs@[0]
                        == Effect::ResubscribeTopology(
                        old(self).reg()[pick as int % old(self).reg().len() as int].info,
                    ))
                })
            }),
            event matches Event::SubscriptionFailure(tag, svc) ==> (svc == ServiceKind::AVTransport
                ==> {
                &&& (r is Err <==> tag is None)
                &&& (tag matches Some(u) ==> {
                    &&& final(self).topology == old(self).topology
                    &&& (old(self).reg_has_uuid(u@) ==> {
                        &&& final(self).speakerdata@ == old(self).speakerdata@.remove(
                            old(self).index_for_uuid(u@),
                        )
                        &&& !final(self).reg_has_uuid(u@)
                        &&& (r matches Ok(effs) ==> effs@ =~= seq![
                            Effect::ResolveSpeaker(old(self).record_for_uuid(u@)),
                        ])
                    })
                    &&& (!old(self).reg_has_uuid(u@) ==> final(self).speakerdata == old(
                        self,
                    ).speakerdata && (r matches Ok(effs) ==> effs@.len() == 0))
                })
            }),
    {
        let ghost old_c = *self;
        match event {
            Event::TopologyUpdate(t) => {
                if !topology_admissible(&t) {
                    return Err(Error::ProtocolError);
                }
                let created = self.apply_topology(&t);
                let mut effects: Vec<Effect> = Vec::new();
                let mut idx: usize = 0;
                while idx < created.len()
                    invariant
                        idx <= created@.len(),
                        effects@.len() == idx,
                        forall|k: int|
                            0 <= k < idx ==> (#[trigger] effects@[k]) == Effect::SubscribeTransport(
                                created@[k],
                            ),
                    decreases created@.len() - idx,
                {
                    effects.push(Effect::SubscribeTransport(created[idx].duplicate()));
                    idx += 1;
                }
                proof {
                    assert forall|u: Seq<char>|
                        topo_has_uuid(t@, u) && !old_c.reg_has_uuid(u) implies
                        effects_list_subscribe(effects@, u) by {
                        assert(uuid_listed(created@, u));
                        let k = choose|k: int|
                            0 <= k < created@.len() && str_ieq((#[trigger] created@[k]).uuid@, u);
                        assert(effects@[k] == Effect::SubscribeTransport(created@[k]));
                    }
                }
                Ok(effects)
            },
            Event::TransportUpdate(tag, data) => {
                match tag {
                    Some(u) => {
                        self.update_avtransport_data(u.as_str(), data);
                        Ok(Vec::new())
                    },
                    None => Err(Error::ProtocolError),
                }
            },
            Event::SubscriptionFailure(tag, svc) => {
                match svc {
                    ServiceKind::ZoneGroupTopology => {
                        let mut effects: Vec<Effect> = Vec::new();
                        if self.speakerdata.len() == 0 {
                            effects.push(Effect::Rediscover);
                        } else {
                            let i = pick % self.speakerdata.len();
                            effects.push(
                                Effect::ResubscribeTopology(self.speakerdata[i].info.duplicate()),
                            );
                        }
                        Ok(effects)
                    },
                    ServiceKind::AVTransport => {
                        match tag {
                            Some(u) => {
                                match self.pop_speakerdata_by_uuid(u.as_str()) {
                                    Some(rec) => {
                                        let mut effects: Vec<Effect> = Vec::new();
                                        effects.push(Effect::ResolveSpeaker(rec));
                                        Ok(effects)
                                    },
                                    None => Ok(Vec::new()),
                                }
                            },
                            None => Err(Error::ProtocolError),
                        }
                    },
                }
            },
        }
    }

    /// First registry index whose record's display name is `name`, if any.
    pub fn find_index_by_name(&self, name: &str) -> (r: Option<usize>)
        ensures
            r matches Some(i) ==> self.is_first_name_match(name@, i as int),
            r is None ==> !self.reg_has_name(name@),
    {
        let mut i: usize = 0;
        while i < self.speakerdata.len()
            invariant
                i <= self.reg().len(),
                forall|j: int| 0 <= j < i ==> !str_ieq(#[trigger] self.reg()[j].info.name@, name@),
            decreases self.reg().len() - i,
        {
            if eq_ignore_ascii_case(self.speakerdata[i].info.name.as_str(), name) {
                return Some(i);
            }
            i += 1;
        }
        None
    }
}

/// Where a record of the registry after a topology update comes from: its
/// descriptor stands in the payload; a device that was already registered
/// keeps its cached status and its subscription; a new device starts with
/// neither.
pub open spec fn record_provenance(
    old_c: Controller,
    t: Seq<(String, Vec<SpeakerInfo>)>,
    sd: SpeakerData,
) -> bool {
    &&& info_in_topology(t, sd.info)
    &&& (old_c.reg_has_uuid(sd.info.uuid@) ==> sd.transport_data == old_c.record_for_uuid(
        sd.info.uuid@,
    ).transport_data && sd.transport_subscription == old_c.record_for_uuid(
        sd.info.uuid@,
    ).transport_subscription)
    &&& (!old_c.reg_has_uuid(sd.info.uuid@) ==> sd.transport_data@.len() == 0
        && sd.transport_subscription is None)
}

/// A descriptor of a device that a topology update registered for the
/// first time.
pub open spec fn created_new(
    old_c: Controller,
    t: Seq<(String, Vec<SpeakerInfo>)>,
    info: SpeakerInfo,
) -> bool {
    info_in_topology(t, info) && !old_c.reg_has_uuid(info.uuid@)
}

/// Whether `red` is the uuid-level reduction of the payload: one entry per
/// group, the coordinator's uuid first, then the members' uuids in order.
pub open spec fn reduction_of(
    red: Seq<(String, Vec<String>)>,
    t: Seq<(String, Vec<SpeakerInfo>)>,
) -> bool {
    &&& red.len() == t.len()
    &&& forall|g: int| 0 <= g < t.len() ==> (#[trigger] red[g].0)@ == t[g].0@
    &&& forall|g: int| 0 <= g < t.len() ==> (#[trigger] red[g].1)@.len() == group_members(
        t,
        g,
    ).len()
    &&& forall|g: int, m: int|
        topo_valid_index(t, g, m) ==> (#[trigger] red[g].1@[m])@ == group_members(t, g)[m].uuid@
}

/// A transport-subscription request for a device this update registered.
pub open spec fn is_subscribe_effect(
    old_c: Controller,
    t: Seq<(String, Vec<SpeakerInfo>)>,
    e: Effect,
) -> bool {
    e matches Effect::SubscribeTransport(info) && created_new(old_c, t, info)
}

/// Whether the effects ask for a transport subscription for uuid `u`.
pub open spec fn effects_list_subscribe(effects: Seq<Effect>, u: Seq<char>) -> bool {
    exists|k: int|
        0 <= k < effects.len() && ((#[trigger] effects[k]) matches Effect::SubscribeTransport(info)
            && str_ieq(info.uuid@, u))
}

/// Whether member `m` of stored group `g` carries uuid `u`.
pub open spec fn group_contains_uuid(
    red: Seq<(String, Vec<String>)>,
    g: int,
    u: Seq<char>,
) -> bool {
    exists|m: int| 0 <= m < red[g].1@.len() && str_ieq((#[trigger] red[g].1@[m])@, u)
}

/// Whether `g` is the first stored group one of whose members carries uuid
/// `u`.
pub open spec fn is_first_group_with(red: Seq<(String, Vec<String>)>, u: Seq<char>, g: int) -> bool {
    &&& 0 <= g < red.len()
    &&& group_contains_uuid(red, g, u)
    &&& forall|g0: int| 0 <= g0 < g ==> !(#[trigger] group_contains_uuid(red, g0, u))
}

/// With unique uuids, any record of `v` carrying uuid `u` is the record
/// `record_for_uuid` denotes.
proof fn lemma_record_for(c: Controller, i: int, u: Seq<char>)
    requires
        c.uuids_unique(),
        0 <= i < c.reg().len(),
        str_ieq(c.reg()[i].info.uuid@, u),
    ensures
        c.reg_has_uuid(u),
        c.index_for_uuid(u) == i,
        c.record_for_uuid(u) == c.reg()[i],
{
    assert(reg_vec_has_uuid(c.reg(), u));
    let j = c.index_for_uuid(u);
    assert(0 <= j < c.reg().len() && str_ieq(c.reg()[j].info.uuid@, u));
    if i != j {
        assert(str_ieq(c.reg()[i].info.uuid@, c.reg()[j].info.uuid@));
    }
}

/// Any index of `v` whose record carries uuid `uuid`, if one exists.
pub fn find_record_index(v: &Vec<SpeakerData>, uuid: &str) -> (r: Option<usize>)
    ensures
        r matches Some(i) ==> 0 <= i < v@.len() && str_ieq(v@[i as int].info.uuid@, uuid@),
        r is None ==> !reg_vec_has_uuid(v@, uuid@),
{
    let mut i: usize = 0;
    while i < v.len()
        invariant
            i <= v@.len(),
            forall|j: int| 0 <= j < i ==> !str_ieq((#[trigger] v@[j]).info.uuid@, uuid@),
        decreases v@.len() - i,
    {
        if eq_ignore_ascii_case(v[i].info.uuid.as_str(), uuid) {
            return Some(i);
        }
        i += 1;
    }
    None
}

/// The uuid-level reduction of a payload: coordinator uuid and member
/// uuids of each group.
pub fn reduce_topology(t: &Topology) -> (red: ReducedTopology)
    ensures
        reduction_of(red@, t@),
{
    let mut red: ReducedTopology = Vec::new();
    let mut g: usize = 0;
    while g < t.len()
        invariant
            g <= t@.len(),
            red@.len() == g,
            forall|g0: int| 0 <= g0 < g ==> (#[trigger] red@[g0].0)@ == t@[g0].0@,
            forall|g0: int|
                0 <= g0 < g ==> (#[trigger] red@[g0].1)@.len() == group_members(t@, g0).len(),
            forall|g0: int, m: int|
                topo_valid_index(t@, g0, m) && g0 < g ==> (#[trigger] red@[g0].1@[m])@
                    == group_members(t@, g0)[m].uuid@,
        decreases t@.len() - g,
    {
        let members = &t[g].1;
        let mut uuids: Vec<String> = Vec::new();
        let mut m: usize = 0;
        while m < members.len()
            invariant
                g < t@.len(),
                members == &t@[g as int].1,
                m <= members@.len(),
                uuids@.len() == m,
                forall|m0: int| 0 <= m0 < m ==> (#[trigger] uuids@[m0])@ == members@[m0].uuid@,
            decreases members@.len() - m,
        {
            uuids.push(members[m].uuid.clone());
            m += 1;
        }
        red.push((t[g].0.clone(), uuids));
        g += 1;
    }
    red
}

/// The member descriptors of a payload, flattened in group order.
pub fn flatten_members(t: &Topology) -> (infos: Vec<SpeakerInfo>)
    ensures
        forall|k: int| 0 <= k < infos@.len() ==> info_in_topology(t@, #[trigger] infos@[k]),
        forall|g: int, m: int|
            topo_valid_index(t@, g, m) ==> info_listed(infos@, #[trigger] group_members(t@, g)[m]),
{
    let mut infos: Vec<SpeakerInfo> = Vec::new();
    let mut g: usize = 0;
    while g < t.len()
        invariant
            g <= t@.len(),
            forall|k: int| 0 <= k < infos@.len() ==> info_in_topology(t@, #[trigger] infos@[k]),
            forall|g0: int, m: int|
                topo_valid_index(t@, g0, m) && g0 < g ==> info_listed(
                    infos@,
                    #[trigger] group_members(t@, g0)[m],
                ),
        decreases t@.len() - g,
    {
        let members = &t[g].1;
        let mut m: usize = 0;
        while m < members.len()
            invariant
                g < t@.len(),
                members == &t@[g as int].1,
                m <= members@.len(),
                forall|k: int| 0 <= k < infos@.len() ==> info_in_topology(t@, #[trigger] infos@[k]),
                forall|g0: int, m0: int|
                    topo_valid_index(t@, g0, m0) && g0 < g ==> info_listed(
                        infos@,
                        #[trigger] group_members(t@, g0)[m0],
                    ),
                forall|m0: int|
                    0 <= m0 < m ==> info_listed(infos@, #[trigger] group_members(t@, g as int)[m0]),
            decreases members@.len() - m,
        {
            let info = members[m].duplicate();
            proof {
                assert(info == group_members(t@, g as int)[m as int]);
                assert(topo_valid_index(t@, g as int, m as int));
            }
            let ghost pre = infos@;
            infos.push(info);
            proof {
                assert(infos@ == pre.push(info));
                assert(infos@[pre.len() as int] == info);
                assert(info_listed(infos@, group_members(t@, g as int)[m as int]));
                assert forall|g0: int, m0: int|
                    topo_valid_index(t@, g0, m0) && info_listed(
                        pre,
                        group_members(t@, g0)[m0],
                    ) implies info_listed(infos@, #[trigger] group_members(t@, g0)[m0]) by {
                    let k = choose|k: int|
                        0 <= k < pre.len() && #[trigger] pre[k] == group_members(t@, g0)[m0];
                    assert(infos@[k] == group_members(t@, g0)[m0]);
                }
            }
            m += 1;
        }
        g += 1;
    }
    infos
}

/// First index of `v` carrying uuid `uuid`, if any.
pub fn find_uuid_in_list(v: &Vec<String>, uuid: &str) -> (r: Option<usize>)
    ensures
        r matches Some(m) ==> 0 <= m < v@.len() && str_ieq(v@[m as int]@, uuid@),
        r is None ==> forall|m: int| 0 <= m < v@.len() ==> !str_ieq((#[trigger] v@[m])@, uuid@),
{
    let mut m: usize = 0;
    while m < v.len()
        invariant
            m <= v@.len(),
            forall|m0: int| 0 <= m0 < m ==> !str_ieq((#[trigger] v@[m0])@, uuid@),
        decreases v@.len() - m,
    {
        if eq_ignore_ascii_case(v[m].as_str(), uuid) {
            return Some(m);
        }
        m += 1;
    }
    None
}

/// First index of a member of `members` carrying uuid `uuid`, if any.
pub fn find_member_by_uuid(members: &Vec<SpeakerInfo>, uuid: &str) -> (r: Option<usize>)
    ensures
        r matches Some(m) ==> 0 <= m < members@.len() && str_ieq(
            members@[m as int].uuid@,
            uuid@,
        ),
        r is None ==> forall|m: int|
            0 <= m < members@.len() ==> !str_ieq((#[trigger] members@[m]).uuid@, uuid@),
{
    let mut m: usize = 0;
    while m < members.len()
        invariant
            m <= members@.len(),
            forall|m0: int| 0 <= m0 < m ==> !str_ieq((#[trigger] members@[m0]).uuid@, uuid@),
        decreases members@.len() - m,
    {
        if eq_ignore_ascii_case(members[m].uuid(), uuid) {
            return Some(m);
        }
        m += 1;
    }
    None
}

/// Whether each group's coordinator of the payload is among its own
/// members.
pub fn topology_admissible(t: &Topology) -> (r: bool)
    ensures
        r == topology_coordinated(t@),
{
    let mut g: usize = 0;
    while g < t.len()
        invariant
            g <= t@.len(),
            coordinated_upto(t@, g as int),
        decreases t@.len() - g,
    {
        let members = &t[g].1;
        match find_member_by_uuid(members, t[g].0.as_str()) {
            Some(m) => {
                proof {
                    assert(members@[m as int] == group_members(t@, g as int)[m as int]);
                    assert(group_has_coordinator(t@, g as int));
                }
            },
            None => {
                proof {
                    assert forall|m: int|
                        !(0 <= m < group_members(t@, g as int).len() && str_ieq(
                            (#[trigger] group_members(t@, g as int)[m]).uuid@,
                            t@[g as int].0@,
                        )) by {
                        if 0 <= m < group_members(t@, g as int).len() {
                            assert(members@[m] == group_members(t@, g as int)[m]);
                        }
                    }
                    assert(!group_has_coordinator(t@, g as int));
                    assert(!topology_coordinated(t@));
                }
                return false;
            },
        }
        g += 1;
    }
    true
}

} // verus!
