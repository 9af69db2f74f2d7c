use vstd::prelude::*;
use crate::messages::GraphSettingsMessage;

verus! {

/// The current consumer of the bus: the panel instance it delivers to, and the
/// token that ends the subscription.
#[derive(Clone, Copy, Debug, PartialEq, Eq, Structural)]
pub struct Subscription {
    pub token: u64,
    pub subscriber: u64,
}

pub struct BusModel {
    pub current: Option<Subscription>,
    /// Tokens below this one have been handed out.
    pub next_token: u64,
}

/// A channel carrying settings commands from any number of producers to the
/// one current consumer.
///
/// A later subscription replaces the earlier one; publishing with no consumer
/// drops the command.
pub struct CommandBus {
    current: Option<Subscription>,
    next_token: u64,
}

/// Subscribing `subscriber`: it becomes the current consumer under a fresh
/// token. `None` once every token has been handed out.
pub open spec fn subscribe_spec(b: BusModel, subscriber: u64) -> Option<(BusModel, u64)> {
    if b.next_token == u64::MAX {
        None
    } else {
        Some((
            BusModel {
                current: Some(Subscription { token: b.next_token, subscriber }),
                next_token: (b.next_token + 1) as u64,
            },
            b.next_token,
        ))
    }
}

/// Unsubscribing `token`: the consumer leaves if it holds that token.
pub open spec fn unsubscribe_spec(b: BusModel, token: u64) -> BusModel {
    match b.current {
        Some(s) => if s.token == token {
            BusModel { current: None, ..b }
        } else {
            b
        },
        None => b,
    }
}

/// The panel instance a command published now reaches, if any.
pub open spec fn publish_target(b: BusModel) -> Option<u64> {
    match b.current {
        Some(s) => Some(s.subscriber),
        None => None,
    }
}

impl View for CommandBus {
    type V = BusModel;

    closed spec fn view(&self) -> BusModel {
        BusModel { current: self.current, next_token: self.next_token }
    }
}

impl CommandBus {
    pub fn new() -> (r: CommandBus)
        ensures
            r@ == (BusModel { current: None, next_token: 0 }),
    {
        CommandBus { current: None, next_token: 0 }
    }

    /// Makes `subscriber` the current consumer and returns its token.
    pub fn subscribe(&mut self, subscriber: u64) -> (r: Option<u64>)
        ensures
            match subscribe_spec(old(self)@, subscriber) {
                Some((b, t)) => r == Some(t) && final(self)@ == b,
                None => r is None && final(self)@ == old(self)@,
            },
    {
        if self.next_token == u64::MAX {
            return None;
        }
        let token = self.next_token;
        self.current = Some(Subscription { token, subscriber });
        self.next_token = self.next_token + 1;
        Some(token)
    }

    /// Ends the subscription holding `token`; returns whether there was one.
    pub fn unsubscribe(&mut self, token: u64) -> (r: bool)
        ensures
            final(self)@ == unsubscribe_spec(old(self)@, token),
            r == (old(self)@.current matches Some(s) && s.token == token),
    {
        match self.current {
            Some(s) => {
                if s.token == token {
                    self.current = None;
                    true
                } else {
                    false
                }
            },
            None => false,
        }
    }

    /// The panel instance that `cmd` is delivered to, or `None` when no panel
    /// is subscribed and the command is dropped.
    pub fn publish(&self, cmd: GraphSettingsMessage) -> (r: Option<u64>)
        ensures
            r == publish_target(self@),
    {
        match self.current {
            Some(s) => Some(s.subscriber),
            None => None,
        }
    }

    pub fn current(&self) -> (r: Option<Subscription>)
        ensures
            r == self@.current,
    {
        self.current
    }
}

} // verus!
