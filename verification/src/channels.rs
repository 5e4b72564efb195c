//! Channels, their kinds, presence members, and the list of channels.
use vstd::prelude::*;

use crate::error::{channel_error, PusherError, PusherResult};
use crate::text::{has_prefix, starts_with};
use crate::text_map::TextMap;

verus! {

/// The four kinds of Pusher channel.
#[derive(Debug, Clone, Copy, PartialEq, Eq, Structural)]
pub enum ChannelType {
    Public,
    Private,
    Presence,
    PrivateEncrypted,
}

/// The kind of channel that a name denotes, read from its prefix:
/// `private-encrypted-`, then `private-`, then `presence-`; anything else is public.
pub open spec fn channel_type_of(name: Seq<char>) -> ChannelType {
    if has_prefix(name, "private-encrypted-"@) {
        ChannelType::PrivateEncrypted
    } else if has_prefix(name, "private-"@) {
        ChannelType::Private
    } else if has_prefix(name, "presence-"@) {
        ChannelType::Presence
    } else {
        ChannelType::Public
    }
}

/// The kind of channel that `name` denotes.
pub fn classify_channel(name: &str) -> (t: ChannelType)
    ensures
        t == channel_type_of(name@),
{
    proof {
        reveal_strlit("private-encrypted-");
        reveal_strlit("private-");
        reveal_strlit("presence-");
    }
    if starts_with(name, "private-encrypted-") {
        ChannelType::PrivateEncrypted
    } else if starts_with(name, "private-") {
        ChannelType::Private
    } else if starts_with(name, "presence-") {
        ChannelType::Presence
    } else {
        ChannelType::Public
    }
}

/// The members that a new channel called `name` starts with: none for a
/// presence channel, and no member map for any other kind.
pub open spec fn fresh_members(name: Seq<char>) -> Option<Map<Seq<char>, serde_json::Value>> {
    if channel_type_of(name) == ChannelType::Presence {
        Some(Map::empty())
    } else {
        None
    }
}

/// `c` is a channel as `Channel::new(name)` makes it: called `name`, of the
/// kind its name gives, unsubscribed, and with the members of a new channel.
pub open spec fn is_fresh_channel(c: Channel, name: Seq<char>) -> bool {
    &&& c.name_view() == name
    &&& c.kind() == channel_type_of(name)
    &&& !c.subscribed_view()
    &&& c.members_view() == fresh_members(name)
}

/// A channel: its name, its kind, whether it is subscribed, and, for a
/// presence channel, its members keyed by user id.
#[derive(Debug)]
pub struct Channel {
    name: String,
    channel_type: ChannelType,
    subscribed: bool,
    members: Option<TextMap<serde_json::Value>>,
}

impl Channel {
    /// The kind always agrees with the name, and exactly presence channels
    /// keep a member map.
    #[verifier::type_invariant]
    closed spec fn well_formed(self) -> bool {
        &&& self.channel_type == channel_type_of(self.name@)
        &&& (self.members is Some <==> self.channel_type == ChannelType::Presence)
        &&& (self.members matches Some(m) ==> m.wf())
    }

    /// The channel's name.
    pub closed spec fn name_view(&self) -> Seq<char> {
        self.name@
    }

    /// The channel's kind.
    pub closed spec fn kind(&self) -> ChannelType {
        self.channel_type
    }

    /// Whether the channel is marked subscribed.
    pub closed spec fn subscribed_view(&self) -> bool {
        self.subscribed
    }

    /// The members of a presence channel, by user id; `None` for other kinds.
    pub closed spec fn members_view(&self) -> Option<Map<Seq<char>, serde_json::Value>> {
        match self.members {
            Some(m) => Some(m@),
            None => None,
        }
    }

    /// Creates an unsubscribed channel whose kind follows from its name;
    /// a presence channel starts with no members.
    pub fn new(name: &str) -> (c: Self)
        ensures
            is_fresh_channel(c, name@),
    {
        let channel_type = classify_channel(name);
        let members = if channel_type == ChannelType::Presence {
            Some(TextMap::new())
        } else {
            None
        };
        Channel { name: String::from_str(name), channel_type, subscribed: false, members }
    }

    /// The channel's name.
    pub fn name(&self) -> (s: &str)
        ensures
            s@ == self.name_view(),
    {
        self.name.as_str()
    }

    /// The channel's kind.
    pub fn channel_type(&self) -> (t: &ChannelType)
        ensures
            *t == self.kind(),
    {
        &self.channel_type
    }

    /// Whether the channel is marked subscribed.
    pub fn is_subscribed(&self) -> (b: bool)
        ensures
            b == self.subscribed_view(),
    {
        self.subscribed
    }

    /// Marks the channel subscribed or not; nothing else changes.
    pub fn set_subscribed(&mut self, subscribed: bool)
        ensures
            final(self).subscribed_view() == subscribed,
            final(self).name_view() == old(self).name_view(),
            final(self).kind() == old(self).kind(),
            final(self).members_view() == old(self).members_view(),
    {
        proof {
            use_type_invariant(&*self);
        }
        self.subscribed = subscribed;
    }

    /// The member map of a presence channel; `None` for other kinds.
    pub fn members(&self) -> (r: Option<&TextMap<serde_json::Value>>)
        ensures
            match r {
                Some(m) => m.wf() && self.members_view() == Some(m@),
                None => self.members_view() is None,
            },
    {
        proof {
            use_type_invariant(self);
        }
        match &self.members {
            Some(m) => Some(m),
            None => None,
        }
    }

    /// Adds or replaces a member of a presence channel; any other kind of
    /// channel refuses with `ChannelError("Not a presence channel")`.
    pub fn add_member(&mut self, id: String, info: serde_json::Value) -> (r: PusherResult<()>)
        ensures
            final(self).name_view() == old(self).name_view(),
            final(self).kind() == old(self).kind(),
            final(self).subscribed_view() == old(self).subscribed_view(),
            old(self).kind() == ChannelType::Presence ==> r is Ok && final(self).members_view()
                == Some(old(self).members_view()->Some_0.insert(id@, info)),
            old(self).kind() != ChannelType::Presence ==> (r matches Err(e) && e is ChannelError
                && e.detail() == "Not a presence channel"@) && final(self).members_view()
                == old(self).members_view(),
    {
        proof {
            use_type_invariant(&*self);
            reveal_strlit("Not a presence channel");
        }
        if self.members.is_some() {
            let mut slot = Some(TextMap::new());
            std::mem::swap(&mut slot, &mut self.members);
            let mut m = slot.unwrap();
            m.insert(id, info);
            self.members = Some(m);
            Ok(())
        } else {
            Err(channel_error("Not a presence channel"))
        }
    }

    /// Removes a member of a presence channel (nothing happens when the id is
    /// absent); any other kind of channel refuses with
    /// `ChannelError("Not a presence channel")`.
    pub fn remove_member(&mut self, id: &str) -> (r: PusherResult<()>)
        ensures
            final(self).name_view() == old(self).name_view(),
            final(self).kind() == old(self).kind(),
            final(self).subscribed_view() == old(self).subscribed_view(),
            old(self).kind() == ChannelType::Presence ==> r is Ok && final(self).members_view()
                == Some(old(self).members_view()->Some_0.remove(id@)),
            old(self).kind() != ChannelType::Presence ==> (r matches Err(e) && e is ChannelError
                && e.detail() == "Not a presence channel"@) && final(self).members_view()
                == old(self).members_view(),
    {
        proof {
            use_type_invariant(&*self);
            reveal_strlit("Not a presence channel");
        }
        if self.members.is_some() {
            let mut slot = Some(TextMap::new());
            std::mem::swap(&mut slot, &mut self.members);
            let mut m = slot.unwrap();
            m.remove(id);
            self.members = Some(m);
            Ok(())
        } else {
            Err(channel_error("Not a presence channel"))
        }
    }

    /// Removes every member of a presence channel; other channels are unchanged.
    pub fn clear_members(&mut self)
        ensures
            final(self).name_view() == old(self).name_view(),
            final(self).kind() == old(self).kind(),
            final(self).subscribed_view() == old(self).subscribed_view(),
            final(self).members_view() == (if old(self).kind() == ChannelType::Presence {
                Some(Map::<Seq<char>, serde_json::Value>::empty())
            } else {
                None
            }),
    {
        proof {
            use_type_invariant(&*self);
        }
        if self.members.is_some() {
            self.members = Some(TextMap::new());
        }
    }

    /// Number of members; zero for a channel that is not a presence channel.
    pub fn member_count(&self) -> (n: usize)
        ensures
            n == (match self.members_view() {
                Some(m) => m.len(),
                None => 0,
            }),
    {
        proof {
            use_type_invariant(self);
        }
        match &self.members {
            Some(m) => m.len(),
            None => 0,
        }
    }
}

/// The channels that a client tracks, keyed by name.
pub struct ChannelList {
    channels: TextMap<Channel>,
}

impl View for ChannelList {
    type V = Map<Seq<char>, Channel>;

    closed spec fn view(&self) -> Map<Seq<char>, Channel> {
        self.channels@
    }
}

impl ChannelList {
    /// Well-formedness of the underlying map.
    pub closed spec fn wf(&self) -> bool {
        self.channels.wf()
    }

    /// The names in storage order.
    pub closed spec fn names(&self) -> Seq<Seq<char>> {
        self.channels.key_seq()
    }

    /// Creates an empty list.
    pub fn new() -> (l: Self)
        ensures
            l.wf(),
            l@ == Map::<Seq<char>, Channel>::empty(),
            l@.dom().finite(),
    {
        ChannelList { channels: TextMap::new() }
    }

    /// Adds `channel` under its own name, replacing any channel of that name;
    /// the list grows by one exactly when the name is new.
    pub fn add(&mut self, channel: Channel)
        requires
            old(self).wf(),
        ensures
            final(self).wf(),
            final(self)@ == old(self)@.insert(channel.name_view(), channel),
            final(self)@.dom().finite(),
            final(self)@.len() == if old(self)@.contains_key(channel.name_view()) {
                old(self)@.len()
            } else {
                old(self)@.len() + 1
            },
    {
        proof {
            self.channels.lemma_entries();
        }
        let name = String::from_str(channel.name());
        self.channels.insert(name, channel);
        proof {
            self.channels.lemma_entries();
        }
    }

    /// The number of channels.
    pub fn len(&self) -> (n: usize)
        requires
            self.wf(),
        ensures
            self@.dom().finite(),
            n == self@.len(),
    {
        self.channels.len()
    }

    /// Removes the channel called `channel_name`, returning it.
    pub fn remove(&mut self, channel_name: &str) -> (r: Option<Channel>)
        requires
            old(self).wf(),
        ensures
            final(self).wf(),
            final(self)@ == old(self)@.remove(channel_name@),
            final(self)@.dom().finite(),
            match r {
                Some(c) => old(self)@.contains_key(channel_name@) && c == old(self)@[channel_name@],
                None => !old(self)@.contains_key(channel_name@),
            },
    {
        let r = self.channels.remove(channel_name);
        proof {
            self.channels.lemma_entries();
        }
        r
    }

    /// The channel called `channel_name`, if any.
    pub fn get(&self, channel_name: &str) -> (r: Option<&Channel>)
        requires
            self.wf(),
        ensures
            match r {
                Some(c) => self@.contains_key(channel_name@) && *c == self@[channel_name@],
                None => !self@.contains_key(channel_name@),
            },
    {
        self.channels.get(channel_name)
    }

    /// Mutable access to the channel called `channel_name`, if any.
    pub fn get_mut(&mut self, channel_name: &str) -> (r: Option<&mut Channel>)
        requires
            old(self).wf(),
        ensures
            final(self).wf(),
            match r {
                Some(c) => old(self)@.contains_key(channel_name@) && *c == old(self)@[channel_name@]
                    && final(self)@ == old(self)@.insert(channel_name@, *final(c)),
                None => !old(self)@.contains_key(channel_name@) && final(self)@ == old(self)@,
            },
    {
        self.channels.get_mut(channel_name)
    }

    /// Whether a channel called `channel_name` is present.
    pub fn contains(&self, channel_name: &str) -> (b: bool)
        requires
            self.wf(),
        ensures
            b == self@.contains_key(channel_name@),
    {
        self.channels.contains_key(channel_name)
    }

    /// Every channel, each once.
    pub fn iter(&self) -> (r: Vec<&Channel>)
        requires
            self.wf(),
        ensures
            r@.len() == self@.len(),
            self.names().len() == r@.len(),
            forall|i: int| 0 <= i < r@.len()
                ==> self@.contains_key(self.names()[i])
                && self@[self.names()[i]] == *#[trigger] r@[i],
            forall|k: Seq<char>| #[trigger]
                self@.contains_key(k) ==> exists|i: int| 0 <= i < r@.len() && self.names()[i] == k,
    {
        proof {
            self.channels.lemma_entries();
        }
        self.channels.values()
    }

    /// Every channel, each once, for changing in place; names stay as they are.
    pub fn iter_mut(&mut self) -> (r: &mut [Channel])
        requires
            old(self).wf(),
        ensures
            r@.len() == old(self)@.len(),
            old(self).names().len() == r@.len(),
            forall|i: int| 0 <= i < r@.len()
                ==> old(self)@.contains_key(old(self).names()[i])
                && old(self)@[old(self).names()[i]] == #[trigger] r@[i],
            forall|k: Seq<char>| #[trigger]
                old(self)@.contains_key(k) ==> exists|i: int|
                    0 <= i < r@.len() && old(self).names()[i] == k,
            final(r)@.len() == r@.len() ==> final(self).wf()
                && final(self)@.dom() == old(self)@.dom()
                && forall|i: int| 0 <= i < r@.len()
                    ==> #[trigger] final(self)@[old(self).names()[i]] == final(r)@[i],
    {
        proof {
            self.channels.lemma_entries();
        }
        self.channels.values_mut()
    }
}

impl Default for ChannelList {
    fn default() -> (l: Self)
        ensures
            l.wf(),
            l@ == Map::<Seq<char>, Channel>::empty(),
    {
        Self::new()
    }
}

impl Clone for Channel {
    /// Copies the channel: the same name, kind, subscription mark and members.
    fn clone(&self) -> (c: Self)
        ensures
            c.name_view() == self.name_view(),
            c.kind() == self.kind(),
            c.subscribed_view() == self.subscribed_view(),
            c.members_view() == self.members_view(),
    {
        proof {
            use_type_invariant(self);
        }
        let members = match &self.members {
            Some(m) => {
                let copy = m.clone();
                assert forall|i: int| 0 <= i < m.val_seq().len() implies copy.val_seq()[i]
                    == m.val_seq()[i] by {
                    assert(cloned::<serde_json::Value>(m.val_seq()[i], copy.val_seq()[i]));
                }
                Some(copy)
            },
            None => None,
        };
        Channel {
            name: self.name.clone(),
            channel_type: self.channel_type,
            subscribed: self.subscribed,
            members,
        }
    }
}

} // verus!
