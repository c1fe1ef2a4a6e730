//! Bookkeeping of the transport adapter: which publisher serves which
//! topic. The publishers themselves live with the caller, one for each
//! handle given out here.

use vstd::prelude::*;

verus! {

/// Queue capacity of every subscriber.
pub const SUBSCRIBER_QUEUE_CAPACITY: usize = 5;

/// Why the transport adapter could not be set up.
#[derive(Debug, Clone, Copy, PartialEq, Eq, Structural)]
pub enum TransportError {
    /// The connection to the bus could not be initialized.
    InitFailed,
}

/// The handle of the publisher that serves `topic`: the position of the
/// topic among those registered.
pub open spec fn handle_of(topics: Seq<String>, topic: Seq<char>) -> Option<int>
    decreases topics.len(),
{
    if topics.len() == 0 {
        None
    } else {
        match handle_of(topics.drop_last(), topic) {
            Some(handle) => Some(handle),
            None => if topics.last()@ == topic {
                Some(topics.len() - 1)
            } else {
                None
            },
        }
    }
}

/// The topics after a publisher for `topic` has been asked for.
pub open spec fn registered(topics: Seq<String>, topic: String) -> Seq<String> {
    if handle_of(topics, topic@) is Some {
        topics
    } else {
        topics.push(topic)
    }
}

/// A handle, where there is one, points at the topic it stands for, and
/// where there is none the topic is not registered.
pub proof fn law_handle_finds_topic(topics: Seq<String>, topic: Seq<char>)
    ensures
        match handle_of(topics, topic) {
            Some(handle) => 0 <= handle < topics.len() && topics[handle]@ == topic,
            None => forall|i: int| 0 <= i < topics.len() ==> (#[trigger] topics[i])@ != topic,
        },
    decreases topics.len(),
{
    if topics.len() > 0 {
        law_handle_finds_topic(topics.drop_last(), topic);
        if handle_of(topics.drop_last(), topic) is None {
            assert forall|i: int| 0 <= i < topics.len() - 1 implies (#[trigger] topics[i])@
                != topic by {
                assert(topics.drop_last()[i] == topics[i]);
            }
        } else {
            assert(topics.drop_last()[handle_of(topics.drop_last(), topic)->0] == topics[handle_of(
                topics.drop_last(),
                topic,
            )->0]);
        }
    }
}

/// Publishers are memoized: asking twice for the same topic gives the
/// same handle, the second time without a new registration, and the
/// handles of all other topics stay as they were.
pub proof fn law_publisher_is_stable(topics: Seq<String>, topic: String, other: Seq<char>)
    ensures
        handle_of(registered(topics, topic), topic@) is Some,
        registered(registered(topics, topic), topic) == registered(topics, topic),
        handle_of(topics, other) is Some ==> handle_of(registered(topics, topic), other)
            == handle_of(topics, other),
{
    if handle_of(topics, topic@) is None {
        assert(topics.push(topic).drop_last() == topics);
    }
}

/// Local communication over a shared-memory bus organized by group,
/// instance and topic.
#[derive(Debug, Clone, PartialEq, Eq)]
pub struct IceoryxCommunicationLayer {
    pub group_name: String,
    pub instance_name: String,
    /// The topics that have a publisher; a publisher's handle is its
    /// topic's position here.
    pub topics: Vec<String>,
}

impl IceoryxCommunicationLayer {
    /// A new adapter for the given group and instance, with no publisher
    /// yet. `app_name` names the connection to the bus, which the caller
    /// opens.
    pub fn init(app_name: String, group_name: String, instance_name: String) -> (r: Result<
        IceoryxCommunicationLayer,
        TransportError,
    >)
        ensures
            r is Ok,
            r->Ok_0.group_name == group_name,
            r->Ok_0.instance_name == instance_name,
            r->Ok_0.topics@ == Seq::<String>::empty(),
    {
        Ok(IceoryxCommunicationLayer { group_name, instance_name, topics: Vec::new() })
    }

    /// The handle of the publisher for `topic`, if one is registered.
    pub fn find_publisher(&self, topic: &String) -> (handle: Option<usize>)
        ensures
            match handle {
                Some(h) => handle_of(self.topics@, topic@) == Some(h as int),
                None => handle_of(self.topics@, topic@) is None,
            },
    {
        let mut i: usize = 0;
        while i < self.topics.len()
            invariant
                i <= self.topics@.len(),
                handle_of(self.topics@.take(i as int), topic@) is None,
            decreases self.topics@.len() - i,
        {
            proof {
                assert(self.topics@.take(i + 1).drop_last() == self.topics@.take(i as int));
                assert(self.topics@.take(i + 1).last() == self.topics@[i as int]);
            }
            if self.topics[i] == *topic {
                proof {
                    lemma_found_stays(self.topics@, i + 1, topic@);
                }
                return Some(i);
            }
            i += 1;
        }
        proof {
            assert(self.topics@.take(i as int) == self.topics@);
        }
        None
    }

    /// The handle of the publisher for `topic`, registering the topic if
    /// it has no publisher yet. `created` tells the caller that the
    /// publisher behind the handle has still to be made.
    pub fn get_or_create_publisher(&mut self, topic: String) -> (r: (usize, bool))
        ensures
            final(self).topics@ == registered(old(self).topics@, topic),
            final(self).group_name == old(self).group_name,
            final(self).instance_name == old(self).instance_name,
            handle_of(final(self).topics@, topic@) == Some(r.0 as int),
            r.1 == (handle_of(old(self).topics@, topic@) is None),
    {
        match self.find_publisher(&topic) {
            Some(handle) => (handle, false),
            None => {
                let handle = self.topics.len();
                proof {
                    assert(self.topics@.push(topic).drop_last() == self.topics@);
                }
                self.topics.push(topic);
                (handle, true)
            },
        }
    }
}

/// What was found among the first `n` topics is what is found among all.
pub proof fn lemma_found_stays(topics: Seq<String>, n: int, topic: Seq<char>)
    requires
        0 <= n <= topics.len(),
        handle_of(topics.take(n), topic) is Some,
    ensures
        handle_of(topics, topic) == handle_of(topics.take(n), topic),
    decreases topics.len(),
{
    if n == topics.len() {
        assert(topics.take(n) == topics);
    } else {
        assert(topics.drop_last().take(n) == topics.take(n));
        lemma_found_stays(topics.drop_last(), n, topic);
    }
}

} // verus!
