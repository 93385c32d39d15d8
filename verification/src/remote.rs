//! The decisions of the remote control: a node through which a user interface follows
//! the events of the core and controls its execution.

use vstd::prelude::*;

use crate::event::Event;
use crate::message::{Control, Message, Payload};

verus! {

/// What the remote control does with a message that the core delivered to it.
pub enum RemoteAction {
    /// nothing
    Nothing,
    /// send this message to the core
    SendToCore(Message),
    /// hand this event to the user interface
    Forward(Event),
}

/// The state of the remote control: its own name and the core's, once the core has told
/// them with the `init` message.
pub struct RemoteControl {
    own_name: Option<String>,
    core_name: Option<String>,
}

impl RemoteControl {
    /// The own name, once known.
    pub closed spec fn spec_own_name(self) -> Option<Seq<char>> {
        match self.own_name {
            Some(n) => Some(n@),
            None => None,
        }
    }

    /// The core's name, once known.
    pub closed spec fn spec_core_name(self) -> Option<Seq<char>> {
        match self.core_name {
            Some(n) => Some(n@),
            None => None,
        }
    }

    /// A remote control that has not been initialised.
    pub fn new() -> (r: Self)
        ensures
            r.spec_own_name() is None,
            r.spec_core_name() is None,
    {
        Self { own_name: None, core_name: None }
    }

    /// Handles a message from the core: the `init` message tells the names, and is
    /// answered with a subscription to the events; a published event is handed on to the
    /// user interface; anything else is ignored.
    pub fn on_delivery(&mut self, message: Message) -> (a: RemoteAction)
        ensures
            match message.body.payload {
                Payload::Init { name, core_name, .. } => {
                    &&& final(self).spec_own_name() == Some(name@)
                    &&& final(self).spec_core_name() == Some(core_name@)
                    &&& a matches RemoteAction::SendToCore(m)
                    &&& m.src@ == name@
                    &&& m.dest@ == core_name@
                    &&& m.body.payload is SubscribeEvents
                },
                Payload::PublishEvent(e) => *final(self) == *old(self) && a == RemoteAction::Forward(e),
                _ => *final(self) == *old(self) && a is Nothing,
            },
    {
        match message.body.payload {
            Payload::Init { name, core_name, .. } => {
                let m = Message::new(name.as_str(), core_name.as_str(), Payload::SubscribeEvents);
                self.own_name = Some(name);
                self.core_name = Some(core_name);
                RemoteAction::SendToCore(m)
            },
            Payload::PublishEvent(e) => RemoteAction::Forward(e),
            _ => RemoteAction::Nothing,
        }
    }

    /// The message that carries `control` to the core, once the names are known.
    pub fn to_core(&self, control: Control) -> (m: Option<Message>)
        ensures
            m is Some <==> self.spec_own_name() is Some && self.spec_core_name() is Some,
            m matches Some(m) ==> Some(m.src@) == self.spec_own_name() && Some(m.dest@) == self.spec_core_name()
                && m.body.payload == Payload::Control(control),
    {
        match (&self.own_name, &self.core_name) {
            (Some(own), Some(core)) => Some(Message::new(own.as_str(), core.as_str(), Payload::Control(control))),
            _ => None,
        }
    }
}

} // verus!
