use vstd::prelude::*;
use crate::bridge::{
    is_live, register_spec, send_spec, unregister_spec, Delivery, GraphViewEventLink,
};
use crate::bus::{
    publish_target, subscribe_spec, unsubscribe_spec, BusModel, CommandBus,
};
use crate::engine::EngineAction;
use crate::messages::{GraphSettingsMessage, Msg};
use crate::panel::{handle_spec, initial_actions, initial_model, GraphView, PanelModel};

verus! {

pub struct HostModel {
    pub bus: BusModel,
    pub panels: Seq<Option<PanelModel>>,
}

/// The panels of a page together with the command bus between them and the
/// settings controls.
pub struct GraphHost {
    bus: CommandBus,
    link: GraphViewEventLink,
}

impl View for GraphHost {
    type V = HostModel;

    closed spec fn view(&self) -> HostModel {
        HostModel { bus: self.bus@, panels: self.link@ }
    }
}

/// Publishing `cmd`: it reaches the subscribed panel, if any, as a settings
/// message.
pub open spec fn publish_spec(h: HostModel, cmd: GraphSettingsMessage) -> HostModel {
    match publish_target(h.bus) {
        Some(id) => HostModel { panels: send_spec(h.panels, id, Msg::SettingMessage(cmd)), ..h },
        None => h,
    }
}

impl GraphHost {
    pub closed spec fn wf(&self) -> bool {
        self.link.wf()
    }

    pub fn new() -> (r: GraphHost)
        ensures
            r.wf(),
            r@ == (HostModel {
                bus: BusModel { current: None, next_token: 0 },
                panels: Seq::empty(),
            }),
    {
        GraphHost { bus: CommandBus::new(), link: GraphViewEventLink::new() }
    }

    /// Creates a panel under the next instance id, subscribes it to the bus and
    /// registers it with the bridge. Returns its id and the engine actions that
    /// seed its graph; `None` (nothing changed) once the bus has no token left.
    pub fn open_panel(&mut self) -> (r: Option<(u64, Vec<EngineAction>)>)
        requires
            old(self).wf(),
        ensures
            final(self).wf(),
            match subscribe_spec(old(self)@.bus, old(self)@.panels.len() as u64) {
                Some((b, token)) => r matches Some((id, acts)) && id == old(self)@.panels.len()
                    && acts@ == initial_actions() && final(self)@ == (HostModel {
                    bus: b,
                    panels: old(self)@.panels.push(Some(initial_model(id, token))),
                }),
                None => r is None && final(self)@ == old(self)@,
            },
    {
        let id = self.link.next_instance();
        let token = match self.bus.subscribe(id) {
            Some(t) => t,
            None => {
                return None;
            },
        };
        let (panel, actions) = GraphView::create(id, token);
        let _registered = self.link.register(panel);
        proof {
            assert(register_spec(old(self)@.panels, initial_model(id, token)) is Ok);
        }
        Some((id, actions))
    }

    /// Destroys the panel registered under `id`: it leaves the bridge and, if
    /// it is still the consumer, the bus. Returns whether it was live.
    pub fn close_panel(&mut self, id: u64) -> (r: bool)
        requires
            old(self).wf(),
        ensures
            final(self).wf(),
            r == is_live(old(self)@.panels, id),
            final(self)@.panels == unregister_spec(old(self)@.panels, id),
            final(self)@.bus == (if r {
                unsubscribe_spec(old(self)@.bus, old(self)@.panels[id as int]->Some_0.token)
            } else {
                old(self)@.bus
            }),
    {
        match self.link.unregister(id) {
            Some(panel) => {
                self.bus.unsubscribe(panel.token());
                true
            },
            None => false,
        }
    }

    /// Publishes a settings command to the subscribed panel, if any.
    pub fn publish(&mut self, cmd: GraphSettingsMessage) -> (r: Delivery)
        requires
            old(self).wf(),
        ensures
            final(self).wf(),
            final(self)@ == publish_spec(old(self)@, cmd),
            match publish_target(old(self)@.bus) {
                None => r == Delivery::Dropped,
                Some(id) => if is_live(old(self)@.panels, id) {
                    match handle_spec(old(self)@.panels[id as int]->Some_0, Msg::SettingMessage(cmd)) {
                        Ok((_, a)) => r matches Delivery::Handled(acts) && acts@ == a,
                        Err(e) => r == Delivery::Failed(e),
                    }
                } else {
                    r == Delivery::Dropped
                },
            },
    {
        match self.bus.publish(cmd) {
            Some(id) => self.link.send(id, Msg::SettingMessage(cmd)),
            None => Delivery::Dropped,
        }
    }

    /// Delivers an engine interaction event for the panel registered under
    /// `id`; dropped if that panel is gone.
    pub fn notify(&mut self, id: u64, msg: Msg) -> (r: Delivery)
        requires
            old(self).wf(),
        ensures
            final(self).wf(),
            final(self)@ == (HostModel { panels: send_spec(old(self)@.panels, id, msg), ..old(self)@ }),
            !is_live(old(self)@.panels, id) ==> r == Delivery::Dropped,
            is_live(old(self)@.panels, id) ==> match handle_spec(old(self)@.panels[id as int]->Some_0, msg) {
                Ok((_, a)) => r matches Delivery::Handled(acts) && acts@ == a,
                Err(e) => r == Delivery::Failed(e),
            },
    {
        self.link.send(id, msg)
    }

    /// The panel registered under `id`, if it is live.
    pub fn panel(&self, id: u64) -> (r: Option<&GraphView>)
        ensures
            match r {
                Some(p) => is_live(self@.panels, id) && self@.panels[id as int] == Some(p@),
                None => !is_live(self@.panels, id),
            },
    {
        self.link.panel(id)
    }

    /// The panel instance that a command published now would reach.
    pub fn subscriber(&self) -> (r: Option<u64>)
        ensures
            r == publish_target(self@.bus),
    {
        self.bus.publish(GraphSettingsMessage::Relayout)
    }
}

} // verus!
