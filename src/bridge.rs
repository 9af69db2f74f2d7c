use vstd::prelude::*;
use crate::engine::EngineAction;
use crate::messages::Msg;
use crate::panel::{handle_spec, GraphView, PanelError, PanelModel};

verus! {

/// What became of a message sent through the bridge.
#[derive(Clone, Debug, PartialEq, Eq)]
pub enum Delivery {
    /// No live panel is registered under the id: the message was dropped.
    Dropped,
    /// The panel handled the message and asks for these engine actions.
    Handled(Vec<EngineAction>),
    /// The panel could not carry out the message and is unchanged.
    Failed(PanelError),
}

/// Why a panel could not be registered.
#[derive(Clone, Copy, Debug, PartialEq, Eq, Structural)]
pub enum BridgeError {
    /// A live panel is already registered under the id.
    DuplicateRegistration,
    /// The id belonged to a panel that has been destroyed; ids are not reused.
    RetiredInstance,
    /// The id has not been handed out yet.
    UnknownInstance,
}

/// Routes messages from long-lived engine callbacks to whichever panel is
/// registered under an instance id, if it is still alive.
///
/// Instance ids are handed out in order, one slot each. A destroyed panel's
/// slot is emptied and never filled again, so a late callback for it finds no
/// owner.
pub struct GraphViewEventLink {
    slots: Vec<Option<GraphView>>,
}

pub open spec fn slot_model(s: Option<GraphView>) -> Option<PanelModel> {
    match s {
        Some(p) => Some(p@),
        None => None,
    }
}

/// Whether a live panel is registered under `id`.
pub open spec fn is_live(slots: Seq<Option<PanelModel>>, id: u64) -> bool {
    id < slots.len() && slots[id as int] is Some
}

/// Registering a panel whose instance id is `id`.
pub open spec fn register_spec(slots: Seq<Option<PanelModel>>, panel: PanelModel) -> Result<
    Seq<Option<PanelModel>>,
    BridgeError,
> {
    if panel.instance == slots.len() {
        Ok(slots.push(Some(panel)))
    } else if panel.instance < slots.len() {
        if slots[panel.instance as int] is Some {
            Err(BridgeError::DuplicateRegistration)
        } else {
            Err(BridgeError::RetiredInstance)
        }
    } else {
        Err(BridgeError::UnknownInstance)
    }
}

/// Unregistering `id`: its slot is emptied if it held a live panel.
pub open spec fn unregister_spec(slots: Seq<Option<PanelModel>>, id: u64) -> Seq<Option<PanelModel>> {
    if is_live(slots, id) {
        slots.update(id as int, None)
    } else {
        slots
    }
}

/// The bridge after `msg` is sent to `id`: only a live panel that handled the
/// message changes.
pub open spec fn send_spec(slots: Seq<Option<PanelModel>>, id: u64, msg: Msg) -> Seq<Option<PanelModel>> {
    if is_live(slots, id) {
        match handle_spec(slots[id as int]->Some_0, msg) {
            Ok((m, _)) => slots.update(id as int, Some(m)),
            Err(_) => slots,
        }
    } else {
        slots
    }
}

impl View for GraphViewEventLink {
    type V = Seq<Option<PanelModel>>;

    closed spec fn view(&self) -> Seq<Option<PanelModel>> {
        self.slots@.map_values(|s: Option<GraphView>| slot_model(s))
    }
}

impl GraphViewEventLink {
    /// Each live panel is well formed and sits in the slot of its own id.
    pub closed spec fn wf(&self) -> bool {
        forall|i: int|
            0 <= i < self.slots@.len() ==> match #[trigger] self.slots@[i] {
                Some(p) => p.wf() && p@.instance == i,
                None => true,
            }
    }

    pub fn new() -> (r: GraphViewEventLink)
        ensures
            r.wf(),
            r@ == Seq::<Option<PanelModel>>::empty(),
    {
        let r = GraphViewEventLink { slots: Vec::new() };
        proof {
            assert(r@ =~= Seq::<Option<PanelModel>>::empty());
        }
        r
    }

    /// The id the next panel to be registered must carry.
    pub fn next_instance(&self) -> (r: u64)
        ensures
            r == self@.len(),
    {
        self.slots.len() as u64
    }

    /// Whether a live panel is registered under `id`.
    pub fn is_live(&self, id: u64) -> (r: bool)
        ensures
            r == is_live(self@, id),
    {
        id < self.slots.len() as u64 && self.slots[id as usize].is_some()
    }

    /// Registers `panel` under its own instance id, which must be the next one.
    pub fn register(&mut self, panel: GraphView) -> (r: Result<(), BridgeError>)
        requires
            old(self).wf(),
            panel.wf(),
        ensures
            final(self).wf(),
            match register_spec(old(self)@, panel@) {
                Ok(s) => r is Ok && final(self)@ == s,
                Err(e) => r == Err::<(), BridgeError>(e) && final(self)@ == old(self)@,
            },
    {
        let id = panel.instance();
        let n = self.slots.len() as u64;
        if id == n {
            self.slots.push(Some(panel));
            proof {
                assert(self@ =~= old(self)@.push(Some(panel@)));
            }
            Ok(())
        } else if id < n {
            if self.slots[id as usize].is_some() {
                Err(BridgeError::DuplicateRegistration)
            } else {
                Err(BridgeError::RetiredInstance)
            }
        } else {
            Err(BridgeError::UnknownInstance)
        }
    }

    /// Takes the panel registered under `id` out of the bridge; later messages
    /// for `id` are dropped.
    pub fn unregister(&mut self, id: u64) -> (r: Option<GraphView>)
        requires
            old(self).wf(),
        ensures
            final(self).wf(),
            final(self)@ == unregister_spec(old(self)@, id),
            slot_model(r) == (if is_live(old(self)@, id) { old(self)@[id as int] } else { None }),
            r matches Some(p) ==> p.wf(),
    {
        if !self.is_live(id) {
            return None;
        }
        proof {
            assert(self@.len() == self.slots@.len());
            assert(self@[id as int] == slot_model(self.slots@[id as int]));
            assert(self.slots@[id as int] is Some);
        }
        let n = self.slots.len();
        assert(id < n);
        let i = id as usize;
        let slot = self.slots.remove(i);
        self.slots.insert(i, None);
        proof {
            assert(self@ =~= old(self)@.update(id as int, None));
        }
        slot
    }

    /// Delivers `msg` to the panel registered under `id`, or drops it if there
    /// is none.
    pub fn send(&mut self, id: u64, msg: Msg) -> (r: Delivery)
        requires
            old(self).wf(),
        ensures
            final(self).wf(),
            final(self)@ == send_spec(old(self)@, id, msg),
            !is_live(old(self)@, id) ==> r == Delivery::Dropped,
            is_live(old(self)@, id) ==> match handle_spec(old(self)@[id as int]->Some_0, msg) {
                Ok((_, a)) => r matches Delivery::Handled(acts) && acts@ == a,
                Err(e) => r == Delivery::Failed(e),
            },
    {
        if !self.is_live(id) {
            return Delivery::Dropped;
        }
        proof {
            assert(self@.len() == self.slots@.len());
            assert(self@[id as int] == slot_model(self.slots@[id as int]));
            assert(self.slots@[id as int] is Some);
        }
        let n = self.slots.len();
        assert(id < n);
        let i = id as usize;
        let slot = self.slots.remove(i);
        let mut panel = match slot {
            Some(p) => p,
            None => {
                proof {
                    assert(old(self).slots@[i as int] is Some);
                }
                return Delivery::Dropped;
            },
        };
        proof {
            assert(old(self).slots@[i as int] matches Some(p) && p.wf());
        }
        let result = panel.handle_message(msg);
        self.slots.insert(i, Some(panel));
        match result {
            Ok(actions) => {
                proof {
                    assert(self@ =~= old(self)@.update(id as int, Some(panel@)));
                }
                Delivery::Handled(actions)
            },
            Err(e) => {
                proof {
                    assert(self@ =~= old(self)@);
                }
                Delivery::Failed(e)
            },
        }
    }

    /// The panel registered under `id`, if it is live.
    pub fn panel(&self, id: u64) -> (r: Option<&GraphView>)
        ensures
            match r {
                Some(p) => is_live(self@, id) && self@[id as int] == Some(p@),
                None => !is_live(self@, id),
            },
    {
        if self.is_live(id) {
            proof {
                assert(self@.len() == self.slots@.len());
            assert(self@[id as int] == slot_model(self.slots@[id as int]));
            assert(self.slots@[id as int] is Some);
            }
            let n = self.slots.len();
            assert(id < n);
            self.slots[id as usize].as_ref()
        } else {
            None
        }
    }
}

} // verus!
