//! The tag registry and its response channels.
//!
//! Every pending request owns one channel, registered under its tag: a FIFO of
//! responses with a closed state. A channel is reached through two handles,
//! a write-only sink and a read-only stream, which name it by tag and by a
//! channel number that is never reused, so that a handle of a closed channel
//! never reaches a later channel registered under the same tag. Closing a
//! channel removes its registration; reads and writes on it then do nothing.

use vstd::prelude::*;
use std::collections::VecDeque;
use std::marker::PhantomData;
use crate::response::{classify_text, InvalidFormatErrorInfo, ParseResponseError, ResponseInfo};
use crate::json::{opt_view, parsed_object};

verus! {

/// Marker of the write-only handle of a channel.
#[derive(Debug)]
pub struct ResponseSink;

/// Marker of the read-only handle of a channel.
#[derive(Debug)]
pub struct ResponseStream;

/// Where a channel stands.
#[derive(Clone, Copy, Debug, PartialEq, Eq, Structural)]
pub enum ResponseStreamStatus {
    /// Open, with no response queued.
    Pending,
    /// Open, with at least one response queued.
    Ready,
    /// Closed.
    Closed,
}

/// A registered channel: its number and the responses queued in it, oldest first.
pub struct ChannelModel {
    pub channel: u64,
    pub queue: Seq<ResponseInfo>,
}

/// The registry as a map from tag to its channel.
pub type RegistryModel = Map<Seq<char>, ChannelModel>;

/// The channel `channel` is registered under `tag`, that is, it is open.
pub open spec fn is_open(m: RegistryModel, tag: Seq<char>, channel: u64) -> bool {
    m.contains_key(tag) && m[tag].channel == channel
}

/// The registry after a response is handed to the channel of its tag: queued
/// there when its tag is registered, dropped otherwise.
pub open spec fn deliver_model(m: RegistryModel, info: ResponseInfo) -> RegistryModel {
    match info.custom_tag {
        Some(t) => if m.contains_key(t@) {
            m.insert(t@, ChannelModel { channel: m[t@].channel, queue: m[t@].queue.push(info) })
        } else {
            m
        },
        None => m,
    }
}

/// What a read returns.
#[derive(Debug)]
pub enum ReadOutcome {
    /// The oldest queued response, now taken out of the queue.
    Item(ResponseInfo),
    /// The channel is open and empty: a later read may return a response.
    Pending,
    /// The channel is closed: no read will ever return a response.
    Closed,
}

/// A read on the channel `channel` of `tag`: what it returns and the registry after it.
pub open spec fn read_model(m: RegistryModel, tag: Seq<char>, channel: u64) -> (ReadOutcome, RegistryModel) {
    if !is_open(m, tag, channel) {
        (ReadOutcome::Closed, m)
    } else if m[tag].queue.len() == 0 {
        (ReadOutcome::Pending, m)
    } else {
        (
            ReadOutcome::Item(m[tag].queue[0]),
            m.insert(tag, ChannelModel { channel, queue: m[tag].queue.drop_first() }),
        )
    }
}

/// A read of the first response followed by a close: `Some(Some(item))` with
/// the oldest queued response, `Some(None)` on a closed channel, and `None`
/// when the channel is open and empty, in which case nothing changes.
pub open spec fn first_model(m: RegistryModel, tag: Seq<char>, channel: u64) -> (Option<Option<ResponseInfo>>, RegistryModel) {
    if !is_open(m, tag, channel) {
        (Some(None), m)
    } else if m[tag].queue.len() == 0 {
        (None, m)
    } else {
        (Some(Some(m[tag].queue[0])), m.remove(tag))
    }
}

/// The registry after the channel `channel` of `tag` is closed.
pub open spec fn close_model(m: RegistryModel, tag: Seq<char>, channel: u64) -> RegistryModel {
    if is_open(m, tag, channel) {
        m.remove(tag)
    } else {
        m
    }
}

struct Slot {
    tag: String,
    channel: u64,
    queue: VecDeque<ResponseInfo>,
}

spec fn slot_model(s: Slot) -> ChannelModel {
    ChannelModel { channel: s.channel, queue: s.queue@ }
}

/// The registry of pending requests: for each tag, the channel that awaits its
/// responses. At most one channel is registered under a tag.
pub struct TagRegistry {
    slots: Vec<Slot>,
    next_channel: u64,
    model: Ghost<RegistryModel>,
}

/// A handle on a channel: a sink (`ResponseChannel<ResponseSink>`) writes to it,
/// a stream (`ResponseChannel<ResponseStream>`) reads from it.
#[derive(Debug)]
pub struct ResponseChannel<T> {
    tag: String,
    channel: u64,
    endpoint: PhantomData<T>,
}

impl<T> ResponseChannel<T> {
    /// The tag of the channel.
    pub closed spec fn spec_tag(&self) -> Seq<char> {
        self.tag@
    }

    /// The number of the channel.
    pub closed spec fn spec_channel(&self) -> u64 {
        self.channel
    }
}

impl View for TagRegistry {
    type V = RegistryModel;

    closed spec fn view(&self) -> RegistryModel {
        self.model@
    }
}

impl TagRegistry {
    /// The registry is well formed: the map is the list of slots, tags are
    /// unique, and every channel number is below the next one to be given out.
    pub closed spec fn wf(&self) -> bool {
        &&& forall|i: int|
            0 <= i < self.slots@.len() ==> self.model@.contains_key(#[trigger] self.slots@[i].tag@)
                && self.model@[self.slots@[i].tag@] == slot_model(self.slots@[i])
        &&& forall|t: Seq<char>|
            #[trigger] self.model@.contains_key(t) ==> exists|i: int|
                0 <= i < self.slots@.len() && #[trigger] self.slots@[i].tag@ == t
        &&& forall|i: int, j: int|
            0 <= i < j < self.slots@.len() ==> #[trigger] self.slots@[i].tag@
                != #[trigger] self.slots@[j].tag@
        &&& forall|t: Seq<char>| #[trigger]
            self.model@.contains_key(t) ==> self.model@[t].channel < self.next_channel
    }

    /// The number that the next registered channel gets.
    pub closed spec fn spec_next_channel(&self) -> u64 {
        self.next_channel
    }

    /// Whether another channel can be numbered.
    pub fn can_register(&self) -> (r: bool)
        ensures
            r == (self.spec_next_channel() < u64::MAX),
    {
        self.next_channel < u64::MAX
    }

    /// An empty registry.
    pub fn new() -> (r: TagRegistry)
        ensures
            r.wf(),
            r@ == Map::<Seq<char>, ChannelModel>::empty(),
    {
        TagRegistry { slots: Vec::new(), next_channel: 0, model: Ghost(Map::empty()) }
    }

    fn find(&self, tag: &String) -> (r: Option<usize>)
        requires
            self.wf(),
        ensures
            r matches Some(i) ==> i < self.slots@.len() && self.slots@[i as int].tag@ == tag@,
            r is None ==> !self@.contains_key(tag@),
    {
        let n = self.slots.len();
        let mut i: usize = 0;
        while i < n
            invariant
                n == self.slots@.len(),
                0 <= i <= n,
                forall|j: int| 0 <= j < i ==> self.slots@[j].tag@ != tag@,
            decreases n - i,
        {
            if self.slots[i].tag == *tag {
                return Some(i);
            }
            i = i + 1;
        }
        None
    }

    /// The number of registered channels.
    pub fn len(&self) -> (r: usize)
        requires
            self.wf(),
        ensures
            r == self@.len(),
    {
        proof {
            self.lemma_len();
        }
        self.slots.len()
    }

    proof fn lemma_len(&self)
        requires
            self.wf(),
        ensures
            self@.dom().finite(),
            self@.len() == self.slots@.len(),
    {
        let tags = self.slots@.map_values(|s: Slot| s.tag@);
        assert(tags.no_duplicates()) by {
            assert forall|i: int, j: int| 0 <= i < tags.len() && 0 <= j < tags.len() && i != j
                implies tags[i] != tags[j] by {
                if i < j {
                    assert(self.slots@[i].tag@ != self.slots@[j].tag@);
                } else {
                    assert(self.slots@[j].tag@ != self.slots@[i].tag@);
                }
            }
        }
        assert(self@.dom() =~= tags.to_set()) by {
            assert forall|t: Seq<char>| self@.dom().contains(t) implies tags.to_set().contains(t) by {
                let i = choose|i: int| 0 <= i < self.slots@.len() && #[trigger] self.slots@[i].tag@ == t;
                assert(tags[i] == t);
            }
            assert forall|t: Seq<char>| tags.to_set().contains(t) implies self@.dom().contains(t) by {
                let i = choose|i: int| 0 <= i < tags.len() && tags[i] == t;
                assert(self.slots@[i].tag@ == t);
            }
        }
        tags.unique_seq_to_set();
    }

    /// Whether a channel is registered under `tag`.
    pub fn is_registered(&self, tag: &String) -> (r: bool)
        requires
            self.wf(),
        ensures
            r == self@.contains_key(tag@),
    {
        self.find(tag).is_some()
    }
}

impl TagRegistry {
    /// Registers a new channel under `tag` and returns its sink and its stream.
    /// A channel already registered under `tag` is closed first, so that at
    /// most one channel is registered under a tag.
    pub fn register(&mut self, tag: String) -> (r: (ResponseChannel<ResponseSink>, ResponseChannel<ResponseStream>))
        requires
            old(self).wf(),
            old(self).spec_next_channel() < u64::MAX,
        ensures
            final(self).wf(),
            final(self)@ == old(self)@.insert(
                tag@,
                ChannelModel { channel: old(self).spec_next_channel(), queue: Seq::empty() },
            ),
            final(self).spec_next_channel() == old(self).spec_next_channel() + 1,
            forall|t: Seq<char>| #[trigger]
                old(self)@.contains_key(t) ==> old(self)@[t].channel < old(self).spec_next_channel(),
            r.0.spec_tag() == tag@,
            r.0.spec_channel() == old(self).spec_next_channel(),
            r.1.spec_tag() == tag@,
            r.1.spec_channel() == old(self).spec_next_channel(),
    {
        let channel = self.next_channel;
        let sink = ResponseChannel { tag: tag.clone(), channel, endpoint: PhantomData };
        let stream = ResponseChannel { tag: tag.clone(), channel, endpoint: PhantomData };
        let ghost entry = ChannelModel { channel, queue: Seq::empty() };
        let ghost key = tag@;
        let ghost old_slots = self.slots@;
        let mut pos: Ghost<int> = Ghost(old_slots.len() as int);
        match self.find(&tag) {
            Some(i) => {
                pos = Ghost(i as int);
                self.slots[i] = Slot { tag, channel, queue: VecDeque::new() };
                proof {
                    assert forall|j: int, k: int|
                        0 <= j < k < self.slots@.len() implies #[trigger] self.slots@[j].tag@
                        != #[trigger] self.slots@[k].tag@ by {
                        assert(old_slots[j].tag@ != old_slots[k].tag@);
                    }
                }
            },
            None => {
                self.slots.push(Slot { tag, channel, queue: VecDeque::new() });
                proof {
                    assert forall|j: int, k: int|
                        0 <= j < k < self.slots@.len() implies #[trigger] self.slots@[j].tag@
                        != #[trigger] self.slots@[k].tag@ by {
                        if k < old_slots.len() {
                            assert(old_slots[j].tag@ != old_slots[k].tag@);
                        } else {
                            assert(old(self).model@.contains_key(old_slots[j].tag@));
                        }
                    }
                }
            },
        }
        self.model = Ghost(self.model@.insert(key, entry));
        self.next_channel = channel + 1;
        proof {
            assert forall|t: Seq<char>| #[trigger] self.model@.contains_key(t) implies exists|i: int|
                0 <= i < self.slots@.len() && #[trigger] self.slots@[i].tag@ == t by {
                if t != key {
                    let i = choose|i: int| 0 <= i < old_slots.len() && #[trigger] old_slots[i].tag@ == t;
                    assert(self.slots@[i].tag@ == t);
                } else {
                    assert(self.slots@[pos@].tag@ == t);
                }
            }
        }
        (sink, stream)
    }
}

impl TagRegistry {
    fn remove_slot(&mut self, i: usize)
        requires
            old(self).wf(),
            i < old(self).slots@.len(),
        ensures
            final(self).wf(),
            final(self)@ == old(self)@.remove(old(self).slots@[i as int].tag@),
            final(self).next_channel == old(self).next_channel,
    {
        let ghost key = self.slots@[i as int].tag@;
        let ghost old_slots = self.slots@;
        self.slots.remove(i);
        self.model = Ghost(self.model@.remove(key));
        proof {
            assert forall|j: int, k: int|
                0 <= j < k < self.slots@.len() implies #[trigger] self.slots@[j].tag@
                != #[trigger] self.slots@[k].tag@ by {
                let oj = if j < i { j } else { j + 1 };
                let ok = if k < i { k } else { k + 1 };
                assert(old_slots[oj].tag@ != old_slots[ok].tag@);
            }
            assert forall|j: int| 0 <= j < self.slots@.len() implies self.model@.contains_key(
                #[trigger] self.slots@[j].tag@,
            ) && self.model@[self.slots@[j].tag@] == slot_model(self.slots@[j]) by {
                let oj = if j < i { j } else { j + 1 };
                assert(self.slots@[j] == old_slots[oj]);
                if oj < i {
                    assert(old_slots[oj].tag@ != old_slots[i as int].tag@);
                } else {
                    assert(old_slots[i as int].tag@ != old_slots[oj].tag@);
                }
            }
            assert forall|t: Seq<char>| #[trigger] self.model@.contains_key(t) implies exists|j: int|
                0 <= j < self.slots@.len() && #[trigger] self.slots@[j].tag@ == t by {
                let oj = choose|oj: int| 0 <= oj < old_slots.len() && #[trigger] old_slots[oj].tag@ == t;
                if oj < i {
                    assert(self.slots@[oj].tag@ == t);
                } else {
                    assert(self.slots@[oj - 1].tag@ == t);
                }
            }
        }
    }

    fn push_at(&mut self, i: usize, info: ResponseInfo)
        requires
            old(self).wf(),
            i < old(self).slots@.len(),
        ensures
            final(self).wf(),
            final(self)@ == old(self)@.insert(
                old(self).slots@[i as int].tag@,
                ChannelModel {
                    channel: old(self).slots@[i as int].channel,
                    queue: old(self).slots@[i as int].queue@.push(info),
                },
            ),
            final(self).next_channel == old(self).next_channel,
    {
        let ghost old_slots = self.slots@;
        let ghost key = self.slots@[i as int].tag@;
        self.slots[i].queue.push_back(info);
        self.model = Ghost(self.model@.insert(key, slot_model(self.slots@[i as int])));
        proof {
            assert forall|j: int, k: int|
                0 <= j < k < self.slots@.len() implies #[trigger] self.slots@[j].tag@
                != #[trigger] self.slots@[k].tag@ by {
                assert(old_slots[j].tag@ != old_slots[k].tag@);
            }
            assert forall|j: int| 0 <= j < self.slots@.len() implies self.model@.contains_key(
                #[trigger] self.slots@[j].tag@,
            ) && self.model@[self.slots@[j].tag@] == slot_model(self.slots@[j]) by {
                if j != i {
                    assert(old_slots[j].tag@ != old_slots[i as int].tag@) by {
                        if j < i {
                            assert(old_slots[j].tag@ != old_slots[i as int].tag@);
                        } else {
                            assert(old_slots[i as int].tag@ != old_slots[j].tag@);
                        }
                    }
                }
            }
            assert forall|t: Seq<char>| #[trigger] self.model@.contains_key(t) implies exists|j: int|
                0 <= j < self.slots@.len() && #[trigger] self.slots@[j].tag@ == t by {
                if t != key {
                    let j = choose|j: int| 0 <= j < old_slots.len() && #[trigger] old_slots[j].tag@ == t;
                    assert(self.slots@[j].tag@ == t);
                } else {
                    assert(self.slots@[i as int].tag@ == t);
                }
            }
        }
    }

    fn pop_at(&mut self, i: usize) -> (r: Option<ResponseInfo>)
        requires
            old(self).wf(),
            i < old(self).slots@.len(),
        ensures
            final(self).wf(),
            final(self).next_channel == old(self).next_channel,
            final(self).slots@.len() == old(self).slots@.len(),
            final(self).slots@[i as int].tag@ == old(self).slots@[i as int].tag@,
            old(self).slots@[i as int].queue@.len() == 0 ==> r is None && final(self)@ == old(self)@,
            old(self).slots@[i as int].queue@.len() > 0 ==> r == Some(old(self).slots@[i as int].queue@[0])
                && final(self)@ == old(self)@.insert(
                old(self).slots@[i as int].tag@,
                ChannelModel {
                    channel: old(self).slots@[i as int].channel,
                    queue: old(self).slots@[i as int].queue@.drop_first(),
                },
            ),
    {
        let ghost old_slots = self.slots@;
        let ghost key = self.slots@[i as int].tag@;
        let r = self.slots[i].queue.pop_front();
        self.model = Ghost(self.model@.insert(key, slot_model(self.slots@[i as int])));
        proof {
            if old_slots[i as int].queue@.len() == 0 {
                assert(self.model@ =~= old(self).model@);
            }
            assert(self.slots@[i as int].queue@ =~= old_slots[i as int].queue@.drop_first()
                || old_slots[i as int].queue@.len() == 0);
            assert forall|j: int, k: int|
                0 <= j < k < self.slots@.len() implies #[trigger] self.slots@[j].tag@
                != #[trigger] self.slots@[k].tag@ by {
                assert(old_slots[j].tag@ != old_slots[k].tag@);
            }
            assert forall|j: int| 0 <= j < self.slots@.len() implies self.model@.contains_key(
                #[trigger] self.slots@[j].tag@,
            ) && self.model@[self.slots@[j].tag@] == slot_model(self.slots@[j]) by {
                if j != i {
                    assert(old_slots[j].tag@ != old_slots[i as int].tag@) by {
                        if j < i {
                            assert(old_slots[j].tag@ != old_slots[i as int].tag@);
                        } else {
                            assert(old_slots[i as int].tag@ != old_slots[j].tag@);
                        }
                    }
                }
            }
            assert forall|t: Seq<char>| #[trigger] self.model@.contains_key(t) implies exists|j: int|
                0 <= j < self.slots@.len() && #[trigger] self.slots@[j].tag@ == t by {
                if t != key {
                    let j = choose|j: int| 0 <= j < old_slots.len() && #[trigger] old_slots[j].tag@ == t;
                    assert(self.slots@[j].tag@ == t);
                } else {
                    assert(self.slots@[i as int].tag@ == t);
                }
            }
        }
        r
    }
}

/// What became of an inbound frame.
#[derive(Debug, PartialEq, Eq)]
pub enum DispatchOutcome {
    /// Queued in the channel registered under its tag.
    Delivered,
    /// Well formed, but its tag is absent or not registered: dropped.
    Dropped,
    /// Not a response envelope: skipped.
    Malformed(InvalidFormatErrorInfo),
}

impl TagRegistry {
    /// Hands a response to the channel registered under its tag; a response
    /// whose tag is absent or not registered is dropped. No other channel is
    /// touched.
    pub fn deliver(&mut self, info: ResponseInfo) -> (r: bool)
        requires
            old(self).wf(),
        ensures
            final(self).wf(),
            final(self)@ == deliver_model(old(self)@, info),
            final(self).spec_next_channel() == old(self).spec_next_channel(),
            r == (info.custom_tag matches Some(t) && old(self)@.contains_key(t@)),
    {
        let found = match &info.custom_tag {
            Some(t) => self.find(t),
            None => None,
        };
        match found {
            Some(i) => {
                self.push_at(i, info);
                true
            },
            None => false,
        }
    }

    /// Reads one inbound frame and routes it by its tag. A frame that is not a
    /// response envelope is skipped and changes nothing, so the frames after
    /// it are handled as if it had not come.
    pub fn dispatch(&mut self, frame: &str) -> (r: DispatchOutcome)
        requires
            old(self).wf(),
        ensures
            final(self).wf(),
            final(self).spec_next_channel() == old(self).spec_next_channel(),
            match classify_text(frame@) {
                Err(e) => r == DispatchOutcome::Malformed(e) && final(self)@ == old(self)@,
                Ok((status, tag)) => match tag {
                    Some(t) if old(self)@.contains_key(t) => {
                        &&& r == DispatchOutcome::Delivered
                        &&& final(self)@.dom() == old(self)@.dom()
                        &&& forall|u: Seq<char>| #[trigger]
                            old(self)@.contains_key(u) && u != t ==> final(self)@[u] == old(self)@[u]
                        &&& final(self)@[t].channel == old(self)@[t].channel
                        &&& final(self)@[t].queue.len() == old(self)@[t].queue.len() + 1
                        &&& final(self)@[t].queue.drop_last() == old(self)@[t].queue
                        &&& final(self)@[t].queue.last().status == status
                        &&& opt_view(final(self)@[t].queue.last().custom_tag) == Some(t)
                        &&& parsed_object(frame@) == Some(final(self)@[t].queue.last().payload())
                    },
                    _ => r == DispatchOutcome::Dropped && final(self)@ == old(self)@,
                },
            },
    {
        match ResponseInfo::decode(frame) {
            Err(ParseResponseError::InvalidDataFormat(e)) => DispatchOutcome::Malformed(e),
            Err(ParseResponseError::DeserializationError(_)) => DispatchOutcome::Dropped,
            Ok(info) => {
                let ghost item = info;
                if self.deliver(info) {
                    proof {
                        let t = item.custom_tag->Some_0@;
                        assert(final(self)@[t].queue.drop_last() =~= old(self)@[t].queue);
                    }
                    DispatchOutcome::Delivered
                } else {
                    DispatchOutcome::Dropped
                }
            },
        }
    }

    /// Closes every channel, as when the connection is lost: every waiting
    /// reader then sees its channel closed.
    pub fn close_all(&mut self)
        requires
            old(self).wf(),
        ensures
            final(self).wf(),
            final(self)@ == Map::<Seq<char>, ChannelModel>::empty(),
            final(self).spec_next_channel() == old(self).spec_next_channel(),
    {
        self.slots = Vec::new();
        self.model = Ghost(Map::empty());
    }

    fn find_open(&self, tag: &String, channel: u64) -> (r: Option<usize>)
        requires
            self.wf(),
        ensures
            r matches Some(i) ==> i < self.slots@.len() && self.slots@[i as int].tag@ == tag@
                && is_open(self@, tag@, channel),
            r is None ==> !is_open(self@, tag@, channel),
    {
        match self.find(tag) {
            Some(i) => if self.slots[i].channel == channel {
                Some(i)
            } else {
                None
            },
            None => None,
        }
    }
}

impl<T> ResponseChannel<T> {
    /// Where the channel stands.
    pub fn status(&self, registry: &TagRegistry) -> (r: ResponseStreamStatus)
        requires
            registry.wf(),
        ensures
            r == if !is_open(registry@, self.spec_tag(), self.spec_channel()) {
                ResponseStreamStatus::Closed
            } else if registry@[self.spec_tag()].queue.len() > 0 {
                ResponseStreamStatus::Ready
            } else {
                ResponseStreamStatus::Pending
            },
    {
        match registry.find_open(&self.tag, self.channel) {
            None => ResponseStreamStatus::Closed,
            Some(i) => if registry.slots[i].queue.len() > 0 {
                ResponseStreamStatus::Ready
            } else {
                ResponseStreamStatus::Pending
            },
        }
    }

    /// Closes the channel: its registration is removed. Closing a closed
    /// channel does nothing.
    pub fn close(self, registry: &mut TagRegistry)
        requires
            old(registry).wf(),
        ensures
            final(registry).wf(),
            final(registry)@ == close_model(old(registry)@, self.spec_tag(), self.spec_channel()),
            final(registry).spec_next_channel() == old(registry).spec_next_channel(),
    {
        match registry.find_open(&self.tag, self.channel) {
            Some(i) => registry.remove_slot(i),
            None => {},
        }
    }

    /// The number of queued responses; none on a closed channel.
    pub fn queue_size(&self, registry: &TagRegistry) -> (r: usize)
        requires
            registry.wf(),
        ensures
            r == if is_open(registry@, self.spec_tag(), self.spec_channel()) {
                registry@[self.spec_tag()].queue.len()
            } else {
                0
            },
    {
        match registry.find_open(&self.tag, self.channel) {
            Some(i) => registry.slots[i].queue.len(),
            None => 0,
        }
    }

    /// Whether the channel is closed.
    pub fn closed(&self, registry: &TagRegistry) -> (r: bool)
        requires
            registry.wf(),
        ensures
            r == !is_open(registry@, self.spec_tag(), self.spec_channel()),
    {
        registry.find_open(&self.tag, self.channel).is_none()
    }
}

impl ResponseChannel<ResponseStream> {
    /// Takes the oldest queued response. On an open, empty channel it returns
    /// `Pending`, and the caller waits for the next write or close before
    /// reading again; on a closed channel it returns `Closed` at once.
    pub fn read(&mut self, registry: &mut TagRegistry) -> (r: ReadOutcome)
        requires
            old(registry).wf(),
        ensures
            final(registry).wf(),
            final(registry).spec_next_channel() == old(registry).spec_next_channel(),
            *final(self) == *old(self),
            (r, final(registry)@) == read_model(old(registry)@, old(self).spec_tag(), old(self).spec_channel()),
    {
        match registry.find_open(&self.tag, self.channel) {
            None => ReadOutcome::Closed,
            Some(i) => match registry.pop_at(i) {
                Some(info) => ReadOutcome::Item(info),
                None => ReadOutcome::Pending,
            },
        }
    }

    /// Takes the first response and closes the channel. `Ok(Some(item))`: the
    /// oldest queued response, with the channel now closed. `Ok(None)`: the
    /// channel was closed before any response came. `Err(self)`: the channel
    /// is open and empty; nothing changed, and the caller waits for the next
    /// write or close before trying again.
    pub fn first(self, registry: &mut TagRegistry) -> (r: Result<Option<ResponseInfo>, Self>)
        requires
            old(registry).wf(),
        ensures
            final(registry).wf(),
            final(registry).spec_next_channel() == old(registry).spec_next_channel(),
            final(registry)@ == first_model(old(registry)@, self.spec_tag(), self.spec_channel()).1,
            match first_model(old(registry)@, self.spec_tag(), self.spec_channel()).0 {
                Some(item) => r == Ok::<Option<ResponseInfo>, Self>(item),
                None => r == Err::<Option<ResponseInfo>, Self>(self),
            },
    {
        match registry.find_open(&self.tag, self.channel) {
            None => Ok(None),
            Some(i) => if registry.slots[i].queue.len() == 0 {
                Err(self)
            } else {
                let ghost m = registry@;
                let item = registry.pop_at(i);
                registry.remove_slot(i);
                proof {
                    assert(registry@ =~= m.remove(self.tag@));
                }
                Ok(item)
            },
        }
    }
}

impl ResponseChannel<ResponseSink> {
    /// Queues a response at the tail of the channel; on a closed channel the
    /// response is discarded.
    pub fn write(&mut self, registry: &mut TagRegistry, info: ResponseInfo)
        requires
            old(registry).wf(),
        ensures
            final(registry).wf(),
            final(registry).spec_next_channel() == old(registry).spec_next_channel(),
            *final(self) == *old(self),
            final(registry)@ == if is_open(old(registry)@, old(self).spec_tag(), old(self).spec_channel()) {
                old(registry)@.insert(
                    old(self).spec_tag(),
                    ChannelModel {
                        channel: old(self).spec_channel(),
                        queue: old(registry)@[old(self).spec_tag()].queue.push(info),
                    },
                )
            } else {
                old(registry)@
            },
    {
        match registry.find_open(&self.tag, self.channel) {
            Some(i) => registry.push_at(i, info),
            None => {},
        }
    }
}

/// The tag that a response carries, when it carries one.
pub open spec fn tag_of(info: ResponseInfo) -> Seq<char> {
    info.custom_tag->Some_0@
}

/// A response is queued only in the channel of its own tag: the channel of
/// any other registered tag is left as it was.
pub proof fn lemma_no_cross_delivery(m: RegistryModel, info: ResponseInfo, other: Seq<char>)
    requires
        info.custom_tag is Some,
        m.contains_key(tag_of(info)),
        m.contains_key(other),
        other != tag_of(info),
    ensures
        deliver_model(m, info).contains_key(other),
        deliver_model(m, info)[other] == m[other],
        deliver_model(m, info)[tag_of(info)] == (ChannelModel {
            channel: m[tag_of(info)].channel,
            queue: m[tag_of(info)].queue.push(info),
        }),
{
}

/// A response whose tag is absent or not registered changes nothing.
pub proof fn lemma_unroutable_dropped(m: RegistryModel, info: ResponseInfo)
    requires
        !(info.custom_tag matches Some(t) && m.contains_key(t@)),
    ensures
        deliver_model(m, info) == m,
{
}

/// Taking the first response gives the oldest one and closes the channel; a
/// read after that returns `Closed` and changes nothing.
pub proof fn lemma_first_then_read(m: RegistryModel, tag: Seq<char>, channel: u64)
    requires
        is_open(m, tag, channel),
        m[tag].queue.len() > 0,
    ensures
        first_model(m, tag, channel).0 == Some(Some(m[tag].queue[0])),
        !is_open(first_model(m, tag, channel).1, tag, channel),
        read_model(first_model(m, tag, channel).1, tag, channel) == (
            ReadOutcome::Closed,
            first_model(m, tag, channel).1,
        ),
{
}

/// Closing is idempotent: closing a channel twice leaves the registry as
/// closing it once, and a closed channel yields no reads.
pub proof fn lemma_close_idempotent(m: RegistryModel, tag: Seq<char>, channel: u64)
    ensures
        close_model(close_model(m, tag, channel), tag, channel) == close_model(m, tag, channel),
        read_model(close_model(m, tag, channel), tag, channel) == (
            ReadOutcome::Closed,
            close_model(m, tag, channel),
        ),
{
}

/// The registry after the responses `infos` are handed over one at a time, in order.
pub open spec fn deliver_all(m: RegistryModel, infos: Seq<ResponseInfo>) -> RegistryModel
    decreases infos.len(),
{
    if infos.len() == 0 {
        m
    } else {
        deliver_model(deliver_all(m, infos.drop_last()), infos.last())
    }
}

/// Requests pending under distinct tags, each answered by one response with
/// its tag, in any order: each channel ends up with exactly its own response,
/// and every other channel is left as it was.
pub proof fn lemma_each_request_gets_its_response(m: RegistryModel, infos: Seq<ResponseInfo>)
    requires
        forall|i: int| 0 <= i < infos.len() ==> (#[trigger] infos[i]).custom_tag is Some,
        forall|i: int, j: int|
            0 <= i < infos.len() && 0 <= j < infos.len() && i != j ==> tag_of(#[trigger] infos[i])
                != tag_of(#[trigger] infos[j]),
        forall|i: int|
            0 <= i < infos.len() ==> m.contains_key(tag_of(#[trigger] infos[i])) && m[tag_of(
                infos[i],
            )].queue.len() == 0,
    ensures
        deliver_all(m, infos).dom() == m.dom(),
        forall|i: int|
            0 <= i < infos.len() ==> deliver_all(m, infos)[tag_of(#[trigger] infos[i])] == (
            ChannelModel { channel: m[tag_of(infos[i])].channel, queue: seq![infos[i]] }),
        forall|t: Seq<char>|
            #![trigger deliver_all(m, infos)[t]]
            m.contains_key(t) && (forall|i: int| 0 <= i < infos.len() ==> tag_of(#[trigger] infos[i]) != t)
                ==> deliver_all(m, infos)[t] == m[t],
    decreases infos.len(),
{
    if infos.len() > 0 {
        let init = infos.drop_last();
        let n = infos.len() - 1;
        assert forall|i: int, j: int|
            0 <= i < init.len() && 0 <= j < init.len() && i != j implies tag_of(#[trigger] init[i])
            != tag_of(#[trigger] init[j]) by {
            assert(init[i] == infos[i] && init[j] == infos[j]);
        }
        assert forall|i: int| 0 <= i < init.len() implies (#[trigger] init[i]).custom_tag is Some
            && m.contains_key(tag_of(init[i])) && m[tag_of(init[i])].queue.len() == 0 by {
            assert(init[i] == infos[i]);
        }
        lemma_each_request_gets_its_response(m, init);
        let before = deliver_all(m, init);
        let last = infos.last();
        assert forall|i: int| 0 <= i < init.len() implies tag_of(#[trigger] init[i]) != tag_of(last) by {
            assert(init[i] == infos[i]);
            assert(tag_of(infos[i]) != tag_of(infos[n]));
        }
        assert(before[tag_of(last)] == m[tag_of(last)]);
        assert(before[tag_of(last)].queue.push(last) =~= seq![last]);
        assert forall|i: int| 0 <= i < infos.len() implies deliver_all(m, infos)[tag_of(
            #[trigger] infos[i],
        )] == (ChannelModel { channel: m[tag_of(infos[i])].channel, queue: seq![infos[i]] }) by {
            if i < n {
                assert(init[i] == infos[i]);
                assert(tag_of(infos[i]) != tag_of(infos[n]));
            }
        }
        assert forall|t: Seq<char>|
            #![trigger deliver_all(m, infos)[t]]
            m.contains_key(t) && (forall|i: int| 0 <= i < infos.len() ==> tag_of(#[trigger] infos[i]) != t)
                implies deliver_all(m, infos)[t] == m[t] by {
            assert forall|i: int| 0 <= i < init.len() implies tag_of(#[trigger] init[i]) != t by {
                assert(init[i] == infos[i]);
            }
            assert(tag_of(infos[n]) != t);
        }
        assert(deliver_all(m, infos).dom() =~= m.dom());
    }
}

} // verus!
