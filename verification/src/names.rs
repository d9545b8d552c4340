//! Names, versions and sequence numbers.
use vstd::prelude::*;
use vstd::std_specs::convert::FromSpecImpl;

use crate::text::{decimal, decimal_text};

verus! {

/// The identifier of a session.
#[derive(Debug, PartialEq, Eq, PartialOrd, Ord, Hash)]
pub struct SessionId(String);

impl View for SessionId {
    type V = Seq<char>;

    closed spec fn view(&self) -> Seq<char> {
        self.0@
    }
}

impl Clone for SessionId {
    fn clone(&self) -> (copy: Self)
        ensures
            copy@ == self@,
    {
        SessionId(self.0.clone())
    }
}

impl SessionId {
    pub fn from_string<S: Into<String>>(value: S) -> (name: Self)
        ensures
            exists|text: String|
                #[trigger] call_ensures(<S as Into<String>>::into, (value,), text)
                    && name@ == text@,
    {
        SessionId(value.into())
    }

    pub fn as_str(&self) -> (text: &str)
        ensures
            text@ == self@,
    {
        self.0.as_str()
    }

    /// The name as it is shown in messages.
    pub fn to_string(&self) -> (text: String)
        ensures
            text@ == self@,
    {
        self.0.clone()
    }
}

// What `from` returns is said by its own contract.
impl FromSpecImpl<String> for SessionId {
    closed spec fn obeys_from_spec() -> bool {
        false
    }

    closed spec fn from_spec(value: String) -> Self {
        SessionId(value)
    }
}

impl From<String> for SessionId {
    fn from(value: String) -> (name: Self)
        ensures
            name@ == value@,
    {
        Self::from_string(value)
    }
}

// What `from` returns is said by its own contract.
impl FromSpecImpl<&str> for SessionId {
    closed spec fn obeys_from_spec() -> bool {
        false
    }

    closed spec fn from_spec(value: &str) -> Self {
        arbitrary()
    }
}

impl From<&str> for SessionId {
    fn from(value: &str) -> (name: Self)
        ensures
            name@ == value@,
    {
        Self::from_string(value)
    }
}

impl AsRef<str> for SessionId {
    fn as_ref(&self) -> (text: &str)
        ensures
            text@ == self@,
    {
        self.as_str()
    }
}

/// The name of an agent.
#[derive(Debug, PartialEq, Eq, PartialOrd, Ord, Hash)]
pub struct AgentName(String);

impl View for AgentName {
    type V = Seq<char>;

    closed spec fn view(&self) -> Seq<char> {
        self.0@
    }
}

impl Clone for AgentName {
    fn clone(&self) -> (copy: Self)
        ensures
            copy@ == self@,
    {
        AgentName(self.0.clone())
    }
}

impl AgentName {
    pub fn from_string<S: Into<String>>(value: S) -> (name: Self)
        ensures
            exists|text: String|
                #[trigger] call_ensures(<S as Into<String>>::into, (value,), text)
                    && name@ == text@,
    {
        AgentName(value.into())
    }

    pub fn as_str(&self) -> (text: &str)
        ensures
            text@ == self@,
    {
        self.0.as_str()
    }

    /// The name as it is shown in messages.
    pub fn to_string(&self) -> (text: String)
        ensures
            text@ == self@,
    {
        self.0.clone()
    }
}

// What `from` returns is said by its own contract.
impl FromSpecImpl<String> for AgentName {
    closed spec fn obeys_from_spec() -> bool {
        false
    }

    closed spec fn from_spec(value: String) -> Self {
        AgentName(value)
    }
}

impl From<String> for AgentName {
    fn from(value: String) -> (name: Self)
        ensures
            name@ == value@,
    {
        Self::from_string(value)
    }
}

// What `from` returns is said by its own contract.
impl FromSpecImpl<&str> for AgentName {
    closed spec fn obeys_from_spec() -> bool {
        false
    }

    closed spec fn from_spec(value: &str) -> Self {
        arbitrary()
    }
}

impl From<&str> for AgentName {
    fn from(value: &str) -> (name: Self)
        ensures
            name@ == value@,
    {
        Self::from_string(value)
    }
}

impl AsRef<str> for AgentName {
    fn as_ref(&self) -> (text: &str)
        ensures
            text@ == self@,
    {
        self.as_str()
    }
}

/// The kind of an event.
#[derive(Debug, PartialEq, Eq, PartialOrd, Ord, Hash)]
pub struct EventKind(String);

impl View for EventKind {
    type V = Seq<char>;

    closed spec fn view(&self) -> Seq<char> {
        self.0@
    }
}

impl Clone for EventKind {
    fn clone(&self) -> (copy: Self)
        ensures
            copy@ == self@,
    {
        EventKind(self.0.clone())
    }
}

impl EventKind {
    pub fn from_string<S: Into<String>>(value: S) -> (name: Self)
        ensures
            exists|text: String|
                #[trigger] call_ensures(<S as Into<String>>::into, (value,), text)
                    && name@ == text@,
    {
        EventKind(value.into())
    }

    pub fn as_str(&self) -> (text: &str)
        ensures
            text@ == self@,
    {
        self.0.as_str()
    }

    /// The name as it is shown in messages.
    pub fn to_string(&self) -> (text: String)
        ensures
            text@ == self@,
    {
        self.0.clone()
    }
}

// What `from` returns is said by its own contract.
impl FromSpecImpl<String> for EventKind {
    closed spec fn obeys_from_spec() -> bool {
        false
    }

    closed spec fn from_spec(value: String) -> Self {
        EventKind(value)
    }
}

impl From<String> for EventKind {
    fn from(value: String) -> (name: Self)
        ensures
            name@ == value@,
    {
        Self::from_string(value)
    }
}

// What `from` returns is said by its own contract.
impl FromSpecImpl<&str> for EventKind {
    closed spec fn obeys_from_spec() -> bool {
        false
    }

    closed spec fn from_spec(value: &str) -> Self {
        arbitrary()
    }
}

impl From<&str> for EventKind {
    fn from(value: &str) -> (name: Self)
        ensures
            name@ == value@,
    {
        Self::from_string(value)
    }
}

impl AsRef<str> for EventKind {
    fn as_ref(&self) -> (text: &str)
        ensures
            text@ == self@,
    {
        self.as_str()
    }
}

/// The last event sequence durably appended to a session.
#[derive(Debug, Clone, Copy, PartialEq, Eq, PartialOrd, Ord, Hash, Structural)]
pub struct SessionVersion(pub u64);

impl SessionVersion {
    /// The version of a session without events.
    pub fn initial() -> (version: Self)
        ensures
            version == SessionVersion(0),
    {
        SessionVersion(0)
    }

    /// The version as it is shown in messages.
    pub fn to_string(&self) -> (text: String)
        ensures
            text@ == decimal(self.0 as nat),
    {
        decimal_text(self.0)
    }
}

impl Default for SessionVersion {
    fn default() -> (version: Self)
        ensures
            version == SessionVersion(0),
    {
        SessionVersion::initial()
    }
}

/// A one-based sequence number within a session.
#[derive(Debug, Clone, Copy, PartialEq, Eq, PartialOrd, Ord, Hash, Structural)]
pub struct EventSequence(pub u64);

impl EventSequence {
    /// The sequence number as it is shown in messages.
    pub fn to_string(&self) -> (text: String)
        ensures
            text@ == decimal(self.0 as nat),
    {
        decimal_text(self.0)
    }
}

} // verus!
