//! The confirmation workflow: the synchronous modal gate between deciding to
//! update a device and emitting the update command.

use vstd::prelude::*;
use crate::device::DeviceRecord;
use crate::dispatcher::Dispatcher;
use crate::protocol::{ActivateEvent, Command, Emit, ModalResponse, UpdatePayload};
use crate::slots::{entity_id, key_value};

verus! {

/// Whether the modal must be shown before accepting. Re-confirmation is
/// skipped only on the upgrade-button path of a device whose update does not
/// require a reboot; every other path asks.
pub fn confirmation_shows_modal(upgrade_button: bool, needs_reboot: bool) -> (r: bool)
    ensures
        r == (!upgrade_button || needs_reboot),
{
    !upgrade_button || needs_reboot
}

impl Dispatcher {
    /// The update payload a confirmation for this device would carry: for a
    /// group member, the group's shared digest and the device's latest
    /// version — `None` while the group has no digest yet; for any other
    /// live device, its latest release version; `None` for a stale entity.
    pub fn update_payload_for(&self, e: slotmap::DefaultKey) -> (r: Option<UpdatePayload>)
        requires
            self.wf(),
        ensures
            !self.registry.live().contains(entity_id(e)) ==> r is None,
            self.registry.live().contains(entity_id(e)) ==> {
                let rec = self.registry.table()[entity_id(e)];
                if rec.grouped {
                    match self.registry.group_digest {
                        Some(dg) => r matches Some(p) && p == (UpdatePayload::GroupDigest {
                            digest: dg,
                            version: rec.info.latest,
                        }),
                        None => r is None,
                    }
                } else {
                    r matches Some(p) && p == (UpdatePayload::Release {
                        version: rec.info.latest,
                    })
                }
            },
    {
        match self.registry.get(e) {
            None => None,
            Some(rec) => {
                if rec.grouped {
                    match &self.registry.group_digest {
                        Some(dg) => Some(
                            UpdatePayload::GroupDigest {
                                digest: dg.clone(),
                                version: rec.info.latest.clone(),
                            },
                        ),
                        None => None,
                    }
                } else {
                    Some(UpdatePayload::Release { version: rec.info.latest.clone() })
                }
            },
        }
    }

    /// Resolves one confirmation. On `Accept` exactly one `RequestUpdate`
    /// command and, for a live device, exactly one `Activate` event are
    /// emitted, in that order, and the live device's control swaps to its
    /// progress indicator; if the record was invalidated meanwhile only the
    /// command goes out. On `Cancel` nothing happens at all.
    pub fn resolve_confirmation(
        &mut self,
        e: slotmap::DefaultKey,
        payload: UpdatePayload,
        response: ModalResponse,
    ) -> (emits: Vec<Emit>)
        requires
            old(self).wf(),
        ensures
            final(self).wf(),
            response is Cancel ==> *final(self) == *old(self) && emits@ == Seq::<Emit>::empty(),
            response is Accept ==> {
                let id = entity_id(e);
                let cmd = (Emit::Cmd {
                    command: (Command::RequestUpdate { entity: e, payload: payload }),
                });
                &&& same_but_table(*old(self), *final(self))
                &&& if old(self).registry.live().contains(id) {
                    &&& final(self).registry.table() == old(self).registry.table().insert(
                        id,
                        (DeviceRecord {
                            showing_progress: true,
                            ..old(self).registry.table()[id]
                        }),
                    )
                    &&& emits@ == seq![
                        cmd,
                        (Emit::Act { event: ActivateEvent::Activate { token: id } }),
                    ]
                } else {
                    &&& final(self).registry.table() == old(self).registry.table()
                    &&& emits@ == seq![cmd]
                }
            },
    {
        match response {
            ModalResponse::Cancel => Vec::new(),
            ModalResponse::Accept => {
                let mut emits: Vec<Emit> = Vec::new();
                emits.push(
                    Emit::Cmd { command: Command::RequestUpdate { entity: e.clone(), payload } },
                );
                let upd = match self.registry.get(e) {
                    Some(r) => Some(DeviceRecord { showing_progress: true, ..r.duplicate() }),
                    None => None,
                };
                match upd {
                    Some(u) => {
                        self.registry.set(e, u);
                        emits.push(
                            Emit::Act { event: ActivateEvent::Activate { token: key_value(e) } },
                        );
                        proof {
                            assert(emits@ =~= seq![
                                (Emit::Cmd {
                                    command: (Command::RequestUpdate {
                                        entity: e,
                                        payload: payload,
                                    }),
                                }),
                                (Emit::Act {
                                    event: ActivateEvent::Activate { token: entity_id(e) },
                                }),
                            ]);
                        }
                    },
                    None => {
                        proof {
                            assert(emits@ =~= seq![
                                (Emit::Cmd {
                                    command: (Command::RequestUpdate {
                                        entity: e,
                                        payload: payload,
                                    }),
                                }),
                            ]);
                        }
                    },
                }
                emits
            },
        }
    }
}

/// Everything of the dispatcher but the record table is untouched.
pub open spec fn same_but_table(pre: Dispatcher, post: Dispatcher) -> bool {
    &&& post.registry.live() == pre.registry.live()
    &&& post.registry.order == pre.registry.order
    &&& post.registry.group_members == pre.registry.group_members
    &&& post.registry.group_upgradeable == pre.registry.group_upgradeable
    &&& post.registry.group_digest == pre.registry.group_digest
    &&& post.registry.allocs == pre.registry.allocs
    &&& post.devices_found == pre.devices_found
    &&& post.state == pre.state
    &&& post.banner == pre.banner
    &&& post.stopped == pre.stopped
}

} // verus!
