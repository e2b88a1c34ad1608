//! The listener supervisor: what is done with each accepted connection, and
//! when a listener stops accepting.
//!
//! A listener belongs to one generation: one bound socket under one
//! configuration snapshot. It filters clients by address before anything is
//! read from them, and it stops accepting when its own generation is retired.
//! Connections that were dispatched before are not touched by that.

use crate::access::{
    nets_of, parse_lists, parsed_lists, permits, permitted, IpAddress, Network,
};
use crate::config::Config;
use crate::text::{i32_to_decimal, signed_decimal};
use vstd::prelude::*;
use vstd::string::*;

verus! {

/// What reaches a listener.
#[derive(Clone, Copy, Debug, PartialEq, Eq, Structural)]
pub enum ListenerEvent {
    /// A connection from `peer` was accepted.
    Accepted { peer: IpAddress },
    /// The listener of `generation` is told to stop.
    Stop { generation: u64 },
}

/// What a listener does about it.
#[derive(Clone, Copy, Debug, PartialEq, Eq, Structural)]
pub enum ListenerAction {
    /// Hand the connection to a task of its own and go on accepting.
    Dispatch,
    /// Close the connection without writing to it and go on accepting.
    Close,
    /// Leave the accept loop.
    Exit,
    /// Nothing: the event was meant for another generation.
    Ignore,
}

/// The listener of one generation.
pub struct Listener {
    generation: u64,
    accepting: bool,
    allow: Option<Vec<Option<Network>>>,
    block: Option<Vec<Option<Network>>>,
}

impl Listener {
    /// The generation that this listener serves.
    pub closed spec fn generation(&self) -> u64 {
        self.generation
    }

    /// Whether the listener still accepts connections.
    pub closed spec fn accepting(&self) -> bool {
        self.accepting
    }

    /// The networks of the allow-list, as far as its entries name one.
    pub closed spec fn allow(&self) -> Option<Seq<Option<Network>>> {
        nets_of(self.allow)
    }

    /// The networks of the block-list, as far as its entries name one.
    pub closed spec fn block(&self) -> Option<Seq<Option<Network>>> {
        nets_of(self.block)
    }

    /// What the listener does about `event`. A client is dispatched exactly
    /// if the access filter admits its address; a stop for this generation
    /// ends the loop, a stop for another one is ignored. A listener that has
    /// stopped dispatches nothing.
    pub open spec fn decision(&self, event: ListenerEvent) -> ListenerAction {
        match event {
            ListenerEvent::Accepted { peer } => if self.accepting() && permitted(
                peer,
                self.allow(),
                self.block(),
            ) {
                ListenerAction::Dispatch
            } else {
                ListenerAction::Close
            },
            ListenerEvent::Stop { generation } => if generation == self.generation() {
                ListenerAction::Exit
            } else {
                ListenerAction::Ignore
            },
        }
    }

    /// The listener of `generation` under `config`, accepting.
    pub fn new(generation: u64, config: &Config) -> (listener: Listener)
        ensures
            listener.generation() == generation,
            listener.accepting(),
            listener.allow() == parsed_lists(config.allowlist),
            listener.block() == parsed_lists(config.blocklist),
    {
        Listener {
            generation,
            accepting: true,
            allow: parse_lists(&config.allowlist),
            block: parse_lists(&config.blocklist),
        }
    }

    /// Whether the listener still accepts connections.
    pub fn is_accepting(&self) -> (b: bool)
        ensures
            b == self.accepting(),
    {
        self.accepting
    }

    /// Takes one event and says what to do. Only a stop for this generation
    /// changes the listener: from then on it accepts nothing.
    pub fn on_event(&mut self, event: ListenerEvent) -> (action: ListenerAction)
        ensures
            action == old(self).decision(event),
            final(self).generation() == old(self).generation(),
            final(self).allow() == old(self).allow(),
            final(self).block() == old(self).block(),
            final(self).accepting() == (old(self).accepting() && action != ListenerAction::Exit),
    {
        match event {
            ListenerEvent::Accepted { peer } => {
                if self.accepting && permits(&peer, &self.allow, &self.block) {
                    ListenerAction::Dispatch
                } else {
                    ListenerAction::Close
                }
            },
            ListenerEvent::Stop { generation } => {
                if generation == self.generation {
                    self.accepting = false;
                    ListenerAction::Exit
                } else {
                    ListenerAction::Ignore
                }
            },
        }
    }
}

/// Once a listener has stopped, no client is dispatched, whoever it is.
pub proof fn lemma_retired_listener_dispatches_nothing(listener: Listener, peer: IpAddress)
    requires
        !listener.accepting(),
    ensures
        listener.decision(ListenerEvent::Accepted { peer }) == ListenerAction::Close,
{
}

/// How loud the record of a finished request is.
#[derive(Clone, Copy, Debug, PartialEq, Eq, Structural)]
pub enum LogLevel {
    Info,
    Warn,
    Error,
}

/// The level for a status: 200 is information, 400 and above an error,
/// anything else a warning.
pub open spec fn level_of(status_code: int) -> LogLevel {
    if status_code == 200 {
        LogLevel::Info
    } else if status_code >= 400 {
        LogLevel::Error
    } else {
        LogLevel::Warn
    }
}

/// The level at which a finished request is recorded.
pub fn log_level(status_code: i32) -> (level: LogLevel)
    ensures
        level == level_of(status_code as int),
{
    if status_code == 200 {
        LogLevel::Info
    } else if status_code >= 400 {
        LogLevel::Error
    } else {
        LogLevel::Warn
    }
}

/// The record of a finished request: the request line in quotes, the status,
/// a dash, and the client.
pub open spec fn record_of(line: Seq<char>, status_code: int, peer: Seq<char>) -> Seq<char> {
    "\""@ + line + "\" "@ + signed_decimal(status_code) + " - "@ + peer
}

/// Writes the record of a finished request.
pub fn log_record(line: &str, status_code: i32, peer: &str) -> (record: String)
    ensures
        record@ == record_of(line@, status_code as int, peer@),
{
    let mut record = "\"".to_owned();
    record.append(line);
    record.append("\" ");
    let status = i32_to_decimal(status_code);
    record.append(status.as_str());
    record.append(" - ");
    record.append(peer);
    record
}

} // verus!
