//! Subscription registry and inbound routing for the broker session.
//!
//! Topics map to the labels interested in them; an inbound (topic, payload)
//! pair fans out to one loop event per registered label.  The map is an
//! association list with unique topics, looked up by first match.

use vstd::prelude::*;

use crate::messages::{Label, Message, MessageView};
use crate::strutil::str_eq;

verus! {

/// One registered interest: the label delivered with matching messages.
#[derive(Copy, Clone, Debug, PartialEq, Eq, Structural)]
pub struct Subscription {
    pub label: Label,
}

struct TopicSubscriptions {
    topic: String,
    subs: Vec<Subscription>,
}

/// All registered subscriptions, grouped by topic.
pub struct Subscriptions {
    entries: Vec<TopicSubscriptions>,
}

/// First-match lookup of a topic in the registry's view.
pub open spec fn spec_lookup(entries: Seq<(Seq<char>, Seq<Label>)>, topic: Seq<char>) -> Seq<Label>
    decreases entries.len(),
{
    if entries.len() == 0 {
        Seq::empty()
    } else if entries[0].0 == topic {
        entries[0].1
    } else {
        spec_lookup(entries.drop_first(), topic)
    }
}

/// Whether some entry carries this topic.
pub open spec fn spec_has_topic(entries: Seq<(Seq<char>, Seq<Label>)>, topic: Seq<char>) -> bool {
    exists|j: int| 0 <= j < entries.len() && entries[j].0 == topic
}

/// The loop events that one inbound (topic, payload) pair fans out to.
pub open spec fn spec_route_messages(labels: Seq<Label>, topic: Seq<char>, data: Seq<char>) -> Seq<
    MessageView,
> {
    Seq::new(labels.len(), |i: int| MessageView::MqttReceived(topic, data, labels[i]))
}

/// No two entries carry the same topic.
pub open spec fn spec_topics_unique(entries: Seq<(Seq<char>, Seq<Label>)>) -> bool {
    forall|i: int, j: int|
        0 <= i < j < entries.len() ==> entries[i].0 != entries[j].0
}

proof fn lemma_lookup_not_found(entries: Seq<(Seq<char>, Seq<Label>)>, topic: Seq<char>)
    requires
        !spec_has_topic(entries, topic),
    ensures
        spec_lookup(entries, topic) == Seq::<Label>::empty(),
    decreases entries.len(),
{
    if entries.len() > 0 {
        assert(entries[0].0 != topic);
        assert(!spec_has_topic(entries.drop_first(), topic)) by {
            assert forall|j: int|
                0 <= j < entries.drop_first().len() implies entries.drop_first()[j].0
                != topic by {
                assert(entries.drop_first()[j] == entries[j + 1]);
            }
        }
        lemma_lookup_not_found(entries.drop_first(), topic);
    }
}

proof fn lemma_lookup_found(entries: Seq<(Seq<char>, Seq<Label>)>, topic: Seq<char>, i: int)
    requires
        0 <= i < entries.len(),
        entries[i].0 == topic,
        forall|j: int| 0 <= j < i ==> entries[j].0 != topic,
    ensures
        spec_lookup(entries, topic) == entries[i].1,
    decreases i,
{
    if i > 0 {
        assert(entries[0].0 != topic);
        assert(entries.drop_first()[i - 1] == entries[i]);
        assert forall|j: int| 0 <= j < i - 1 implies entries.drop_first()[j].0 != topic by {
            assert(entries.drop_first()[j] == entries[j + 1]);
        }
        lemma_lookup_found(entries.drop_first(), topic, i - 1);
    }
}

proof fn lemma_lookup_push(
    entries: Seq<(Seq<char>, Seq<Label>)>,
    topic: Seq<char>,
    ls: Seq<Label>,
)
    requires
        !spec_has_topic(entries, topic),
    ensures
        spec_lookup(entries.push((topic, ls)), topic) == ls,
        forall|t: Seq<char>|
            t != topic ==> spec_lookup(entries.push((topic, ls)), t) == spec_lookup(entries, t),
    decreases entries.len(),
{
    if entries.len() == 0 {
        assert(entries.push((topic, ls))[0] == (topic, ls));
        assert forall|t: Seq<char>| t != topic implies spec_lookup(entries.push((topic, ls)), t)
            == spec_lookup(entries, t) by {
            assert(entries.push((topic, ls)).drop_first() =~= entries);
            assert(spec_lookup(entries.push((topic, ls)), t) == spec_lookup(entries, t));
        }
    } else {
        assert(entries[0].0 != topic);
        assert(!spec_has_topic(entries.drop_first(), topic)) by {
            assert forall|j: int|
                0 <= j < entries.drop_first().len() implies entries.drop_first()[j].0
                != topic by {
                assert(entries.drop_first()[j] == entries[j + 1]);
            }
        }
        lemma_lookup_push(entries.drop_first(), topic, ls);
        let pushed = entries.push((topic, ls));
        assert(pushed.drop_first() =~= entries.drop_first().push((topic, ls)));
        assert(pushed[0] == entries[0]);
        assert(spec_lookup(pushed, topic) == spec_lookup(pushed.drop_first(), topic));
        assert forall|t: Seq<char>| t != topic implies spec_lookup(pushed, t) == spec_lookup(
            entries,
            t,
        ) by {
            if entries[0].0 != t {
                assert(spec_lookup(pushed, t) == spec_lookup(pushed.drop_first(), t));
                assert(spec_lookup(entries, t) == spec_lookup(entries.drop_first(), t));
            }
        }
    }
}

proof fn lemma_lookup_update(entries: Seq<(Seq<char>, Seq<Label>)>, i: int, ls: Seq<Label>)
    requires
        0 <= i < entries.len(),
        forall|j: int| 0 <= j < i ==> entries[j].0 != entries[i].0,
    ensures
        spec_lookup(entries.update(i, (entries[i].0, ls)), entries[i].0) == ls,
        forall|t: Seq<char>|
            t != entries[i].0 ==> spec_lookup(entries.update(i, (entries[i].0, ls)), t)
                == spec_lookup(entries, t),
    decreases i,
{
    let topic = entries[i].0;
    let updated = entries.update(i, (topic, ls));
    if i == 0 {
        assert(updated[0] == (topic, ls));
        assert(updated.drop_first() =~= entries.drop_first());
        assert forall|t: Seq<char>| t != topic implies spec_lookup(updated, t) == spec_lookup(
            entries,
            t,
        ) by {
            assert(spec_lookup(updated, t) == spec_lookup(updated.drop_first(), t));
            assert(spec_lookup(entries, t) == spec_lookup(entries.drop_first(), t));
        }
    } else {
        assert(updated[0] == entries[0]);
        assert(entries[0].0 != topic);
        assert(updated.drop_first() =~= entries.drop_first().update(i - 1, (topic, ls)));
        assert(entries.drop_first()[i - 1] == entries[i]);
        assert forall|j: int| 0 <= j < i - 1 implies #[trigger] entries.drop_first()[j].0
            != entries.drop_first()[i - 1].0 by {
            assert(entries.drop_first()[j] == entries[j + 1]);
        }
        lemma_lookup_update(entries.drop_first(), i - 1, ls);
        assert(spec_lookup(updated, topic) == spec_lookup(updated.drop_first(), topic));
        assert forall|t: Seq<char>| t != topic implies spec_lookup(updated, t) == spec_lookup(
            entries,
            t,
        ) by {
            if entries[0].0 != t {
                assert(spec_lookup(updated, t) == spec_lookup(updated.drop_first(), t));
                assert(spec_lookup(entries, t) == spec_lookup(entries.drop_first(), t));
            }
        }
    }
}

impl View for Subscriptions {
    type V = Seq<(Seq<char>, Seq<Label>)>;

    closed spec fn view(&self) -> Seq<(Seq<char>, Seq<Label>)> {
        self.entries@.map_values(
            |e: TopicSubscriptions| (e.topic@, e.subs@.map_values(|s: Subscription| s.label)),
        )
    }
}

impl Subscriptions {
    pub fn new() -> (r: Self)
        ensures
            r@ == Seq::<(Seq<char>, Seq<Label>)>::empty(),
            spec_topics_unique(r@),
    {
        let r = Subscriptions { entries: Vec::new() };
        proof {
            assert(r@ =~= Seq::<(Seq<char>, Seq<Label>)>::empty());
        }
        r
    }

    /// Registers `label` under `topic`, appending to the topic's label list
    /// (a new topic starts a new entry); every other topic is untouched.
    pub fn add(&mut self, topic: &str, label: Label)
        requires
            spec_topics_unique(old(self)@),
        ensures
            spec_topics_unique(final(self)@),
            spec_lookup(final(self)@, topic@) == spec_lookup(old(self)@, topic@).push(label),
            forall|t: Seq<char>|
                t != topic@ ==> spec_lookup(final(self)@, t) == spec_lookup(old(self)@, t),
    {
        let ghost old_view = self@;
        let mut i: usize = 0;
        while i < self.entries.len()
            invariant
                i <= self.entries.len(),
                old_view == old(self)@,
                self@ == old_view,
                spec_topics_unique(old_view),
                old_view.len() == self.entries.len(),
                forall|j: int| 0 <= j < i ==> old_view[j].0 != topic@,
            decreases self.entries.len() - i,
        {
            assert(old_view[i as int].0 == self.entries@[i as int].topic@);
            if str_eq(self.entries[i].topic.as_str(), topic) {
                let ghost pre_entries = self.entries@;
                let mut e = self.entries.remove(i);
                let ghost old_labels = old_view[i as int].1;
                e.subs.push(Subscription { label });
                self.entries.insert(i, e);
                proof {
                    assert(self.entries@ =~= pre_entries.update(i as int, self.entries@[i as int]));
                    assert(self@[i as int].1 =~= old_labels.push(label));
                    assert(self@ =~= old_view.update(i as int, (topic@, old_labels.push(label))));
                    lemma_lookup_update(old_view, i as int, old_labels.push(label));
                    lemma_lookup_found(old_view, topic@, i as int);
                    assert forall|ii: int, jj: int|
                        0 <= ii < jj < self@.len() implies self@[ii].0 != self@[jj].0 by {
                        assert(self@[ii].0 == old_view[ii].0);
                        assert(self@[jj].0 == old_view[jj].0);
                    }
                }
                return ;
            }
            i += 1;
        }
        let mut subs: Vec<Subscription> = Vec::new();
        subs.push(Subscription { label });
        let ghost new_labels = subs@.map_values(|s: Subscription| s.label);
        self.entries.push(TopicSubscriptions { topic: topic.to_owned(), subs });
        proof {
            assert(new_labels =~= Seq::<Label>::empty().push(label));
            assert(self@ =~= old_view.push((topic@, new_labels)));
            assert(!spec_has_topic(old_view, topic@));
            lemma_lookup_push(old_view, topic@, new_labels);
            lemma_lookup_not_found(old_view, topic@);
            assert forall|ii: int, jj: int|
                0 <= ii < jj < self@.len() implies self@[ii].0 != self@[jj].0 by {
                if jj < old_view.len() {
                    assert(self@[ii].0 == old_view[ii].0);
                    assert(self@[jj].0 == old_view[jj].0);
                } else {
                    assert(self@[ii].0 == old_view[ii].0);
                    assert(self@[jj].0 == topic@);
                }
            }
        }
    }

    /// The labels registered under `topic`, in registration order.
    pub fn get_labels(&self, topic: &str) -> (r: Vec<Label>)
        ensures
            r@ == spec_lookup(self@, topic@),
    {
        let mut i: usize = 0;
        while i < self.entries.len()
            invariant
                i <= self.entries.len(),
                self@.len() == self.entries.len(),
                forall|j: int| 0 <= j < i ==> self@[j].0 != topic@,
            decreases self.entries.len() - i,
        {
            assert(self@[i as int].0 == self.entries@[i as int].topic@);
            if str_eq(self.entries[i].topic.as_str(), topic) {
                let subs = &self.entries[i].subs;
                let mut r: Vec<Label> = Vec::new();
                let mut k: usize = 0;
                while k < subs.len()
                    invariant
                        k <= subs.len(),
                        r@ =~= subs@.map_values(|s: Subscription| s.label).take(k as int),
                    decreases subs.len() - k,
                {
                    r.push(subs[k].label);
                    k += 1;
                }
                proof {
                    assert(r@ =~= self@[i as int].1);
                    lemma_lookup_found(self@, topic@, i as int);
                }
                return r;
            }
            i += 1;
        }
        proof {
            lemma_lookup_not_found(self@, topic@);
        }
        Vec::new()
    }

    /// Turns one inbound (topic, payload) pair into the loop events it fans
    /// out to: one per label registered under the topic, in order.
    pub fn route(&self, topic: &str, data: &str) -> (r: Vec<Message>)
        ensures
            r.deep_view() == spec_route_messages(spec_lookup(self@, topic@), topic@, data@),
    {
        let labels = self.get_labels(topic);
        let ghost want = spec_route_messages(labels@, topic@, data@);
        let mut r: Vec<Message> = Vec::new();
        let mut k: usize = 0;
        while k < labels.len()
            invariant
                k <= labels.len(),
                labels@ == spec_lookup(self@, topic@),
                want == spec_route_messages(labels@, topic@, data@),
                r.deep_view() == want.take(k as int),
            decreases labels.len() - k,
        {
            let msg = Message::MqttReceived(topic.to_owned(), data.to_owned(), labels[k]);
            proof {
                assert(msg.deep_view() == want[k as int]);
            }
            let ghost prev = r@;
            let ghost prev_dv = r.deep_view();
            r.push(msg);
            proof {
                assert(r@ == prev.push(msg));
                assert(prev_dv.len() == prev.len());
                assert(r@.len() == k + 1);
            }
            k += 1;
            proof {
                assert forall|j: int| 0 <= j < k implies r.deep_view()[j] == want.take(k as int)[j]
                    by {
                    assert(r.deep_view()[j] == r@[j].deep_view());
                    if j < k - 1 {
                        assert(r@[j] == prev[j]);
                        assert(prev_dv[j] == prev[j].deep_view());
                        assert(prev_dv[j] == want[j]);
                    } else {
                        assert(r@[j] == msg);
                    }
                }
                assert(r.deep_view() =~= want.take(k as int));
            }
        }
        proof {
            assert(r.deep_view() =~~= want);
        }
        r
    }
}

} // verus!
