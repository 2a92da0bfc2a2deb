//! The signal dispatcher: the single-threaded state machine that applies each
//! worker signal to the registry and the presentation model, and says which
//! commands, activation events and external actions follow from it.

use vstd::prelude::*;
use crate::device::{DeviceKind, DeviceRecord, Discovery};
use crate::errors::{flatten_error_chain, flattened};
use crate::protocol::{ActivateEvent, Emit, Signal, ViewState};
use crate::registry::{Registry, MAX_ALLOCS};
use crate::slots::{entity_id, key_value};

verus! {

/// The dispatcher's whole state: the registry it owns, whether the current
/// scan cycle has found a device yet, the coarse view state, the dismissible
/// error banner, and whether the terminal `Stop` signal has been seen.
pub struct Dispatcher {
    pub registry: Registry,
    pub devices_found: bool,
    pub state: ViewState,
    pub banner: Option<String>,
    pub stopped: bool,
}

/// What one applied signal produced: the effects to perform in order, the
/// entity allocated for a newly discovered device, and whether the dispatcher
/// still consumes signals.
pub struct StepOutcome {
    pub emits: Vec<Emit>,
    pub new_entity: Option<slotmap::DefaultKey>,
    pub keep_going: bool,
}

/// The record a discovery signal gives rise to. A standalone device shows its
/// upgrade control exactly when the worker reported an upgrade; whole-system
/// firmware is upgradeable exactly when its current version is not the
/// latest; a group unit starts hidden, its upgrade decision being the
/// group's.
pub open spec fn built_record(d: Discovery) -> DeviceRecord {
    match d.kind {
        DeviceKind::Standalone { upgradeable, needs_reboot } => (DeviceRecord {
            info: d.info,
            label: d.info.current,
            revealed: upgradeable,
            showing_progress: false,
            upgradeable: upgradeable,
            is_system: needs_reboot,
            grouped: false,
        }),
        DeviceKind::System => (DeviceRecord {
            info: d.info,
            label: d.info.current,
            revealed: d.info.current@ != d.info.latest@,
            showing_progress: false,
            upgradeable: d.info.current@ != d.info.latest@,
            is_system: true,
            grouped: false,
        }),
        DeviceKind::GroupUnit { .. } => (DeviceRecord {
            info: d.info,
            label: d.info.current,
            revealed: false,
            showing_progress: false,
            upgradeable: false,
            is_system: false,
            grouped: false,
        }),
    }
}

/// The record table after an update broadcast to the first `i` group
/// members: each has the new status text and its control withdrawn.
pub open spec fn broadcast_prefix(
    t: Map<u64, DeviceRecord>,
    ids: Seq<u64>,
    msg: String,
    i: int,
) -> Map<u64, DeviceRecord>
    decreases i,
{
    if i <= 0 {
        t
    } else {
        let prev = broadcast_prefix(t, ids, msg, i - 1);
        prev.insert(
            ids[i - 1],
            (DeviceRecord { label: msg, revealed: false, ..prev[ids[i - 1]] }),
        )
    }
}

/// The registry holds the same devices, list, group and allocation count.
pub open spec fn same_registry_shape(pre: Registry, post: Registry) -> bool {
    &&& post.live() == pre.live()
    &&& post.order == pre.order
    &&& post.group_members == pre.group_members
    &&& post.group_upgradeable == pre.group_upgradeable
    &&& post.group_digest == pre.group_digest
    &&& post.allocs == pre.allocs
}

/// The dispatcher's view-level state is untouched: same coarse state, same
/// scan progress, same banner, not newly stopped.
pub open spec fn same_view(pre: Dispatcher, post: Dispatcher) -> bool {
    &&& post.devices_found == pre.devices_found
    &&& post.state == pre.state
    &&& post.banner == pre.banner
    &&& post.stopped == pre.stopped
}

impl Dispatcher {
    /// Well-formed: the registry is.
    pub open spec fn wf(self) -> bool {
        self.registry.wf()
    }

    /// A fresh dispatcher: empty registry, nothing found, idle, no banner,
    /// consuming signals.
    pub fn new() -> (r: Dispatcher)
        ensures
            r.wf(),
            r.registry.is_empty(),
            r.registry.allocs == 0,
            !r.devices_found,
            r.state is Idle,
            r.banner is None,
            !r.stopped,
    {
        Dispatcher {
            registry: Registry::new(),
            devices_found: false,
            state: ViewState::Idle,
            banner: None,
            stopped: false,
        }
    }

    /// Applies one worker signal. After `Stop` the dispatcher is terminal:
    /// every further signal leaves it untouched and produces nothing. A
    /// signal naming an entity the registry does not hold is a no-op, never a
    /// fault, and keeps the coarse state.
    pub fn apply_signal(&mut self, s: Signal) -> (out: StepOutcome)
        requires
            old(self).wf(),
            old(self).registry.allocs < MAX_ALLOCS,
        ensures
            final(self).wf(),
            out.keep_going == !final(self).stopped,
            old(self).stopped ==> *final(self) == *old(self) && out.emits@ == Seq::<Emit>::empty()
                && out.new_entity is None,
            !old(self).stopped ==> match s {
                Signal::Scanning => {
                    &&& final(self).registry.is_empty()
                    &&& final(self).registry.allocs == old(self).registry.allocs
                    &&& !final(self).devices_found
                    &&& final(self).state is Scanning
                    &&& final(self).banner == old(self).banner
                    &&& !final(self).stopped
                    &&& out.emits@ == seq![(Emit::Act { event: ActivateEvent::Clear })]
                    &&& out.new_entity is None
                },
                Signal::ScanningComplete => {
                    &&& final(self).registry == old(self).registry
                    &&& final(self).devices_found == old(self).devices_found
                    &&& final(self).state == (if old(self).devices_found {
                        old(self).state
                    } else {
                        ViewState::Idle
                    })
                    &&& final(self).banner == old(self).banner
                    &&& !final(self).stopped
                    &&& out.emits@ == Seq::<Emit>::empty()
                    &&& out.new_entity is None
                },
                Signal::DeviceFound { discovery: d } => out.new_entity matches Some(k) && {
                    let id = entity_id(k);
                    let rec = built_record(d);
                    &&& !old(self).registry.live().contains(id)
                    &&& final(self).registry.live() == old(self).registry.live().insert(id)
                    &&& final(self).registry.order@ == old(self).registry.order@.push(k)
                    &&& final(self).registry.allocs == old(self).registry.allocs + 1
                    &&& final(self).devices_found
                    &&& final(self).state is Populated
                    &&& final(self).banner == old(self).banner
                    &&& !final(self).stopped
                    &&& out.emits@ == Seq::<Emit>::empty()
                    &&& match d.kind {
                        DeviceKind::GroupUnit { digest } => {
                            let base = old(self).registry.table().insert(
                                id,
                                (DeviceRecord { grouped: true, ..rec }),
                            );
                            let gids = old(self).registry.group_ids().push(id);
                            let upg = old(self).registry.group_upgradeable || d.info.current@
                                != d.info.latest@;
                            &&& final(self).registry.group_ids() == gids
                            &&& final(self).registry.group_upgradeable == upg
                            &&& final(self).registry.group_digest == (if digest is Some {
                                digest
                            } else {
                                old(self).registry.group_digest
                            })
                            &&& final(self).registry.table() == (if upg {
                                base.insert(
                                    gids[0],
                                    (DeviceRecord { revealed: true, ..base[gids[0]] }),
                                )
                            } else {
                                base
                            })
                        },
                        _ => {
                            &&& final(self).registry.table() == old(self).registry.table().insert(
                                id,
                                rec,
                            )
                            &&& final(self).registry.group_members == old(
                                self,
                            ).registry.group_members
                            &&& final(self).registry.group_upgradeable == old(
                                self,
                            ).registry.group_upgradeable
                            &&& final(self).registry.group_digest == old(
                                self,
                            ).registry.group_digest
                        },
                    }
                },
                Signal::DeviceUpdated { entity, message } => {
                    let id = entity_id(entity);
                    let live = old(self).registry.live().contains(id);
                    &&& same_view(*old(self), *final(self))
                    &&& out.new_entity is None
                    &&& !live ==> *final(self) == *old(self) && out.emits@ == Seq::<
                        Emit,
                    >::empty()
                    &&& live && old(self).registry.table()[id].grouped ==> {
                        let gids = old(self).registry.group_ids();
                        &&& same_registry_shape(old(self).registry, final(self).registry)
                        &&& final(self).registry.table() == broadcast_prefix(
                            old(self).registry.table(),
                            gids,
                            message,
                            gids.len() as int,
                        )
                        &&& out.emits@.len() == gids.len()
                        &&& forall|j: int|
                            0 <= j < gids.len() ==> out.emits@[j] == (Emit::Act {
                                event: ActivateEvent::Deactivate { token: gids[j] },
                            })
                    }
                    &&& live && !old(self).registry.table()[id].grouped ==> {
                        let rec = old(self).registry.table()[id];
                        &&& same_registry_shape(old(self).registry, final(self).registry)
                        &&& final(self).registry.table() == old(self).registry.table().insert(
                            id,
                            (DeviceRecord {
                                label: message,
                                revealed: false,
                                upgradeable: false,
                                ..rec
                            }),
                        )
                        &&& out.emits@ == (if rec.is_system {
                            seq![
                                (Emit::Act { event: ActivateEvent::Deactivate { token: id } }),
                                Emit::Reboot,
                            ]
                        } else {
                            seq![(Emit::Act { event: ActivateEvent::Deactivate { token: id } })]
                        })
                    }
                },
                Signal::Error { entity, chain } => {
                    &&& final(self).banner matches Some(b) && b@ == flattened(
                        chain@.map_values(|c: String| c@),
                    )
                    &&& final(self).devices_found == old(self).devices_found
                    &&& final(self).state == old(self).state
                    &&& !final(self).stopped
                    &&& same_registry_shape(old(self).registry, final(self).registry)
                    &&& out.emits@ == Seq::<Emit>::empty()
                    &&& out.new_entity is None
                    &&& match entity {
                        Some(e) => {
                            let id = entity_id(e);
                            if old(self).registry.live().contains(id) {
                                final(self).registry.table() == old(self).registry.table().insert(
                                    id,
                                    (DeviceRecord {
                                        showing_progress: false,
                                        ..old(self).registry.table()[id]
                                    }),
                                )
                            } else {
                                final(self).registry.table() == old(self).registry.table()
                            }
                        },
                        None => final(self).registry.table() == old(self).registry.table(),
                    }
                },
                Signal::SystemUpdateScheduled => {
                    &&& *final(self) == *old(self)
                    &&& out.emits@ == seq![Emit::Reboot]
                    &&& out.new_entity is None
                },
                Signal::Stop => {
                    &&& final(self).registry == old(self).registry
                    &&& final(self).devices_found == old(self).devices_found
                    &&& final(self).state == old(self).state
                    &&& final(self).banner == old(self).banner
                    &&& final(self).stopped
                    &&& out.emits@ == Seq::<Emit>::empty()
                    &&& out.new_entity is None
                },
            },
    {
        if self.stopped {
            return StepOutcome { emits: Vec::new(), new_entity: None, keep_going: false };
        }
        match s {
            Signal::Scanning => {
                self.registry.clear();
                self.devices_found = false;
                self.state = ViewState::Scanning;
                let mut emits: Vec<Emit> = Vec::new();
                emits.push(Emit::Act { event: ActivateEvent::Clear });
                proof {
                    assert(emits@ =~= seq![(Emit::Act { event: ActivateEvent::Clear })]);
                }
                StepOutcome { emits, new_entity: None, keep_going: true }
            },
            Signal::ScanningComplete => {
                if !self.devices_found {
                    self.state = ViewState::Idle;
                }
                StepOutcome { emits: Vec::new(), new_entity: None, keep_going: true }
            },
            Signal::DeviceFound { discovery } => {
                let k = self.found(discovery);
                StepOutcome { emits: Vec::new(), new_entity: Some(k), keep_going: true }
            },
            Signal::DeviceUpdated { entity, message } => {
                let emits = self.updated(entity, message);
                StepOutcome { emits, new_entity: None, keep_going: true }
            },
            Signal::Error { entity, chain } => {
                self.banner = Some(flatten_error_chain(&chain));
                match entity {
                    Some(e) => {
                        let upd = match self.registry.get(e) {
                            Some(r) => Some(
                                DeviceRecord { showing_progress: false, ..r.duplicate() },
                            ),
                            None => None,
                        };
                        match upd {
                            Some(u) => {
                                self.registry.set(e, u);
                            },
                            None => {},
                        }
                    },
                    None => {},
                }
                StepOutcome { emits: Vec::new(), new_entity: None, keep_going: true }
            },
            Signal::SystemUpdateScheduled => {
                let mut emits: Vec<Emit> = Vec::new();
                emits.push(Emit::Reboot);
                proof {
                    assert(emits@ =~= seq![Emit::Reboot]);
                }
                StepOutcome { emits, new_entity: None, keep_going: true }
            },
            Signal::Stop => {
                self.stopped = true;
                StepOutcome { emits: Vec::new(), new_entity: None, keep_going: false }
            },
        }
    }

    /// Registers one discovered device: allocates its entity, stores its
    /// record, enters the `Populated` state, and for a group unit folds its
    /// report into the group's shared flag and digest and reveals the group's
    /// first member if the group became upgradeable.
    fn found(&mut self, d: Discovery) -> (k: slotmap::DefaultKey)
        requires
            old(self).wf(),
            old(self).registry.allocs < MAX_ALLOCS,
            !old(self).stopped,
        ensures
            final(self).wf(),
            !old(self).registry.live().contains(entity_id(k)),
            final(self).registry.live() == old(self).registry.live().insert(entity_id(k)),
            final(self).registry.order@ == old(self).registry.order@.push(k),
            final(self).registry.allocs == old(self).registry.allocs + 1,
            final(self).devices_found,
            final(self).state is Populated,
            final(self).banner == old(self).banner,
            !final(self).stopped,
            match d.kind {
                DeviceKind::GroupUnit { digest } => {
                    let id = entity_id(k);
                    let base = old(self).registry.table().insert(
                        id,
                        (DeviceRecord { grouped: true, ..built_record(d) }),
                    );
                    let gids = old(self).registry.group_ids().push(id);
                    let upg = old(self).registry.group_upgradeable || d.info.current@
                        != d.info.latest@;
                    &&& final(self).registry.group_ids() == gids
                    &&& final(self).registry.group_upgradeable == upg
                    &&& final(self).registry.group_digest == (if digest is Some {
                        digest
                    } else {
                        old(self).registry.group_digest
                    })
                    &&& final(self).registry.table() == (if upg {
                        base.insert(gids[0], (DeviceRecord { revealed: true, ..base[gids[0]] }))
                    } else {
                        base
                    })
                },
                _ => {
                    &&& final(self).registry.table() == old(self).registry.table().insert(
                        entity_id(k),
                        built_record(d),
                    )
                    &&& final(self).registry.group_members == old(self).registry.group_members
                    &&& final(self).registry.group_upgradeable == old(
                        self,
                    ).registry.group_upgradeable
                    &&& final(self).registry.group_digest == old(self).registry.group_digest
                },
            },
    {
        let ghost d0 = d;
        self.devices_found = true;
        self.state = ViewState::Populated;
        let Discovery { info, kind } = d;
        match kind {
            DeviceKind::Standalone { upgradeable, needs_reboot } => {
                let label = info.current.clone();
                let rec = DeviceRecord {
                    info,
                    label,
                    revealed: upgradeable,
                    showing_progress: false,
                    upgradeable,
                    is_system: needs_reboot,
                    grouped: false,
                };
                proof {
                    assert(rec == built_record(d0));
                }
                self.registry.insert(rec)
            },
            DeviceKind::System => {
                let upg = !info.current.eq(&info.latest);
                let label = info.current.clone();
                let rec = DeviceRecord {
                    info,
                    label,
                    revealed: upg,
                    showing_progress: false,
                    upgradeable: upg,
                    is_system: true,
                    grouped: false,
                };
                proof {
                    assert(rec == built_record(d0));
                }
                self.registry.insert(rec)
            },
            DeviceKind::GroupUnit { digest } => {
                let differs = !info.current.eq(&info.latest);
                let label = info.current.clone();
                let rec = DeviceRecord {
                    info,
                    label,
                    revealed: false,
                    showing_progress: false,
                    upgradeable: false,
                    is_system: false,
                    grouped: false,
                };
                proof {
                    assert(rec == built_record(d0));
                }
                let k = self.registry.insert(rec);
                let ghost after_insert = self.registry;
                if differs {
                    self.registry.group_upgradeable = true;
                }
                match digest {
                    Some(dg) => {
                        self.registry.group_digest = Some(dg);
                    },
                    None => {},
                }
                self.registry.insert_into_group(k);
                proof {
                    let id = entity_id(k);
                    assert(!after_insert.group_ids().contains(id)) by {
                        if after_insert.group_ids().contains(id) {
                            let i = choose|i: int|
                                0 <= i < after_insert.group_ids().len()
                                    && after_insert.group_ids()[i] == id;
                            assert(old(self).registry.group_ids()[i] == id);
                            assert(old(self).registry.live().contains(id));
                        }
                    };
                    assert(self.registry.group_ids() =~= old(self).registry.group_ids().push(id));
                    assert(self.registry.table() =~= old(self).registry.table().insert(
                        id,
                        (DeviceRecord { grouped: true, ..built_record(d0) }),
                    ));
                }
                if self.registry.group_upgradeable {
                    let first = self.registry.group_members[0].clone();
                    proof {
                        assert(self.registry.group_ids()[0] == entity_id(first));
                        assert(self.registry.live().contains(entity_id(first)));
                    }
                    let upd = match self.registry.get(first) {
                        Some(r1) => DeviceRecord { revealed: true, ..r1.duplicate() },
                        None => unreached(),
                    };
                    self.registry.set(first, upd);
                }
                k
            },
        }
    }

    /// Applies a `DeviceUpdated` signal: for a group member the new status
    /// and the withdrawal of the control are broadcast to every member and
    /// each member's token is deactivated; for a standalone device only its
    /// own record changes, its token is deactivated, and if it is
    /// whole-system firmware the reboot action follows; for a stale entity
    /// nothing happens.
    fn updated(&mut self, entity: slotmap::DefaultKey, message: String) -> (emits: Vec<Emit>)
        requires
            old(self).wf(),
        ensures
            final(self).wf(),
            same_view(*old(self), *final(self)),
            !old(self).registry.live().contains(entity_id(entity)) ==> *final(self) == *old(self)
                && emits@ == Seq::<Emit>::empty(),
            old(self).registry.live().contains(entity_id(entity)) && old(
                self,
            ).registry.table()[entity_id(entity)].grouped ==> {
                let gids = old(self).registry.group_ids();
                &&& same_registry_shape(old(self).registry, final(self).registry)
                &&& final(self).registry.table() == broadcast_prefix(
                    old(self).registry.table(),
                    gids,
                    message,
                    gids.len() as int,
                )
                &&& emits@.len() == gids.len()
                &&& forall|j: int|
                    0 <= j < gids.len() ==> emits@[j] == (Emit::Act {
                        event: ActivateEvent::Deactivate { token: gids[j] },
                    })
            },
            old(self).registry.live().contains(entity_id(entity)) && !old(
                self,
            ).registry.table()[entity_id(entity)].grouped ==> {
                let id = entity_id(entity);
                let rec = old(self).registry.table()[id];
                &&& same_registry_shape(old(self).registry, final(self).registry)
                &&& final(self).registry.table() == old(self).registry.table().insert(
                    id,
                    (DeviceRecord { label: message, revealed: false, upgradeable: false, ..rec }),
                )
                &&& emits@ == (if rec.is_system {
                    seq![
                        (Emit::Act { event: ActivateEvent::Deactivate { token: id } }),
                        Emit::Reboot,
                    ]
                } else {
                    seq![(Emit::Act { event: ActivateEvent::Deactivate { token: id } })]
                })
            },
    {
        let looked = match self.registry.get(entity) {
            Some(r) => Some((r.grouped, r.is_system)),
            None => None,
        };
        match looked {
            None => Vec::new(),
            Some((true, _)) => {
                let ghost t0 = self.registry.table();
                let ghost gids = self.registry.group_ids();
                let mut emits: Vec<Emit> = Vec::new();
                let mut i: usize = 0;
                let n = self.registry.group_members.len();
                while i < n
                    invariant
                        self.wf(),
                        old(self).wf(),
                        0 <= i <= n,
                        n == gids.len(),
                        t0 == old(self).registry.table(),
                        gids == old(self).registry.group_ids(),
                        same_registry_shape(old(self).registry, self.registry),
                        same_view(*old(self), *self),
                        self.registry.table() == broadcast_prefix(t0, gids, message, i as int),
                        emits@.len() == i,
                        forall|j: int|
                            0 <= j < i ==> emits@[j] == (Emit::Act {
                                event: ActivateEvent::Deactivate { token: gids[j] },
                            }),
                    decreases n - i,
                {
                    let m = self.registry.group_members[i].clone();
                    proof {
                        assert(gids[i as int] == entity_id(m));
                        assert(self.registry.live().contains(entity_id(m)));
                    }
                    let upd = match self.registry.get(m) {
                        Some(r1) => DeviceRecord {
                            label: message.clone(),
                            revealed: false,
                            ..r1.duplicate()
                        },
                        None => unreached(),
                    };
                    self.registry.set(m, upd);
                    emits.push(Emit::Act { event: ActivateEvent::Deactivate { token: key_value(m) } });
                    i = i + 1;
                }
                emits
            },
            Some((false, is_sys)) => {
                let upd = match self.registry.get(entity) {
                    Some(r) => DeviceRecord {
                        label: message.clone(),
                        revealed: false,
                        upgradeable: false,
                        ..r.duplicate()
                    },
                    None => unreached(),
                };
                self.registry.set(entity, upd);
                let mut emits: Vec<Emit> = Vec::new();
                emits.push(
                    Emit::Act { event: ActivateEvent::Deactivate { token: key_value(entity) } },
                );
                if is_sys {
                    emits.push(Emit::Reboot);
                    proof {
                        assert(emits@ =~= seq![
                            (Emit::Act {
                                event: ActivateEvent::Deactivate { token: entity_id(entity) },
                            }),
                            Emit::Reboot,
                        ]);
                    }
                } else {
                    proof {
                        assert(emits@ =~= seq![
                            (Emit::Act {
                                event: ActivateEvent::Deactivate { token: entity_id(entity) },
                            }),
                        ]);
                    }
                }
                emits
            },
        }
    }
}

} // verus!
