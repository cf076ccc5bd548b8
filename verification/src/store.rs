use vstd::prelude::*;
use crate::api::{Contact, Message};
use crate::cache::KeyedCache;
use crate::digest::{session_hash_key, session_key};
use crate::hub::{SessionUpdate, UserStatus};
use crate::time::ResDateTime;

verus! {

/// Whether a list of messages runs from the one updated first to the one
/// updated last.
pub open spec fn in_time_order(s: Seq<Message>) -> bool {
    forall|i: int, j: int|
        0 <= i <= j < s.len() ==> s[i].last_update_time.not_after(s[j].last_update_time)
}

/// The place at which a message updated at `t` is filed in a list: behind
/// the leading messages that were updated at or before `t`.
pub open spec fn filing_place(s: Seq<Message>, t: ResDateTime) -> int
    decreases s.len(),
{
    if s.len() == 0 {
        0
    } else if s[0].last_update_time.not_after(t) {
        1 + filing_place(s.drop_first(), t)
    } else {
        0
    }
}

/// A list of messages with one more message filed in it.
pub open spec fn filed(s: Seq<Message>, m: Message) -> Seq<Message> {
    s.insert(filing_place(s, m.last_update_time), m)
}

/// The messages with a peer, or none where the peer is unknown.
pub open spec fn bucket_of(m: Map<Seq<char>, Seq<Message>>, peer: Seq<char>) -> Seq<Message> {
    if m.contains_key(peer) {
        m[peer]
    } else {
        Seq::empty()
    }
}

/// The message lists after one message was added to that of its peer.
pub open spec fn with_message(m: Map<Seq<char>, Seq<Message>>, msg: Message) -> Map<
    Seq<char>,
    Seq<Message>,
> {
    m.insert(msg.other_id@, filed(bucket_of(m, msg.other_id@), msg))
}

/// The message lists after a batch of messages was added, one by one in
/// the order of the batch.
pub open spec fn with_messages(m: Map<Seq<char>, Seq<Message>>, batch: Seq<Message>) -> Map<
    Seq<char>,
    Seq<Message>,
>
    decreases batch.len(),
{
    if batch.len() == 0 {
        m
    } else {
        with_message(with_messages(m, batch.drop_last()), batch.last())
    }
}

/// Whether every list is in time order and holds only messages of its peer.
pub open spec fn buckets_in_order(m: Map<Seq<char>, Seq<Message>>) -> bool {
    forall|k: Seq<char>| #[trigger]
        m.contains_key(k) ==> in_time_order(m[k]) && forall|i: int|
            0 <= i < m[k].len() ==> (#[trigger] m[k][i]).other_id@ == k
}

/// The filing place lies within the list; what stands before it was
/// updated at or before `t`, and what stands at it, if anything, after `t`.
pub proof fn lemma_filing_place(s: Seq<Message>, t: ResDateTime)
    ensures
        0 <= filing_place(s, t) <= s.len(),
        forall|j: int|
            0 <= j < filing_place(s, t) ==> (#[trigger] s[j]).last_update_time.not_after(t),
        filing_place(s, t) < s.len() ==> !s[filing_place(s, t)].last_update_time.not_after(t),
    decreases s.len(),
{
    if s.len() > 0 && s[0].last_update_time.not_after(t) {
        let rest = s.drop_first();
        lemma_filing_place(rest, t);
        assert forall|j: int| 0 <= j < filing_place(s, t) implies (#[trigger] s[j])
            .last_update_time.not_after(t) by {
            if j > 0 {
                assert(s[j] == rest[j - 1]);
            }
        }
        if filing_place(s, t) < s.len() {
            assert(s[filing_place(s, t)] == rest[filing_place(rest, t)]);
        }
    }
}

/// The filing place is the first place whose message was updated after `t`.
pub proof fn lemma_filing_place_is(s: Seq<Message>, t: ResDateTime, i: int)
    requires
        0 <= i <= s.len(),
        forall|j: int| 0 <= j < i ==> (#[trigger] s[j]).last_update_time.not_after(t),
        i < s.len() ==> !s[i].last_update_time.not_after(t),
    ensures
        filing_place(s, t) == i,
    decreases s.len(),
{
    if s.len() == 0 {
    } else if i == 0 {
    } else {
        let rest = s.drop_first();
        assert(s[0].last_update_time.not_after(t));
        assert forall|j: int| 0 <= j < i - 1 implies (#[trigger] rest[j]).last_update_time.not_after(
            t,
        ) by {
            assert(rest[j] == s[j + 1]);
        }
        if i < s.len() {
            assert(rest[i - 1] == s[i]);
        }
        lemma_filing_place_is(rest, t, i - 1);
    }
}

/// Filing a message in a list in time order gives a list in time order,
/// one longer, that holds the message at its filing place.
pub proof fn lemma_filed_in_order(s: Seq<Message>, m: Message)
    requires
        in_time_order(s),
    ensures
        in_time_order(filed(s, m)),
        filed(s, m).len() == s.len() + 1,
        0 <= filing_place(s, m.last_update_time) <= s.len(),
        filed(s, m)[filing_place(s, m.last_update_time)] == m,
{
    let t = m.last_update_time;
    let p = filing_place(s, t);
    lemma_filing_place(s, t);
    let r = filed(s, m);
    assert forall|i: int, j: int| 0 <= i <= j < r.len() implies r[i].last_update_time.not_after(
        r[j].last_update_time,
    ) by {
        if i < p {
            assert(r[i] == s[i]);
            if j < p {
                assert(r[j] == s[j]);
            } else if j == p {
            } else {
                assert(r[j] == s[j - 1]);
            }
        } else if i == p {
            if j > p {
                assert(r[j] == s[j - 1]);
                assert(s[p].last_update_time.not_after(s[j - 1].last_update_time));
            }
        } else {
            assert(r[i] == s[i - 1]);
            assert(r[j] == s[j - 1]);
        }
    }
}

/// Files a message in a list that is in time order: behind the messages
/// updated at or before it, before those updated after it.
pub fn file_message(bucket: &mut Vec<Message>, m: Message)
    requires
        in_time_order(old(bucket)@),
    ensures
        final(bucket)@ == filed(old(bucket)@, m),
        in_time_order(final(bucket)@),
        final(bucket)@.len() == old(bucket)@.len() + 1,
{
    let mut i: usize = 0;
    while i < bucket.len() && bucket[i].last_update_time.is_not_after(&m.last_update_time)
        invariant
            0 <= i <= bucket.len(),
            *bucket == *old(bucket),
            forall|j: int|
                0 <= j < i ==> (#[trigger] bucket@[j]).last_update_time.not_after(
                    m.last_update_time,
                ),
        decreases bucket.len() - i,
    {
        i += 1;
    }
    proof {
        lemma_filing_place_is(bucket@, m.last_update_time, i as int);
        lemma_filed_in_order(bucket@, m);
    }
    bucket.insert(i, m);
}

/// Adding a batch of messages to lists that are in time order leaves every
/// list in time order, and no list of a peer gets shorter or is lost.
pub proof fn lemma_merge_keeps_order_and_grows(m: Map<Seq<char>, Seq<Message>>, batch: Seq<Message>)
    requires
        buckets_in_order(m),
    ensures
        buckets_in_order(with_messages(m, batch)),
        forall|k: Seq<char>| #[trigger]
            m.contains_key(k) ==> with_messages(m, batch).contains_key(k) && with_messages(
                m,
                batch,
            )[k].len() >= m[k].len(),
    decreases batch.len(),
{
    if batch.len() > 0 {
        let before = with_messages(m, batch.drop_last());
        lemma_merge_keeps_order_and_grows(m, batch.drop_last());
        lemma_with_message_keeps_order(before, batch.last());
    }
}

/// Adding one message to lists that are in time order leaves every list in
/// time order; the list of the message's peer gets one longer, the others
/// stay as they are.
pub proof fn lemma_with_message_keeps_order(m: Map<Seq<char>, Seq<Message>>, msg: Message)
    requires
        buckets_in_order(m),
    ensures
        buckets_in_order(with_message(m, msg)),
        with_message(m, msg)[msg.other_id@].len() == bucket_of(m, msg.other_id@).len() + 1,
        forall|k: Seq<char>| #[trigger]
            m.contains_key(k) ==> with_message(m, msg).contains_key(k) && with_message(
                m,
                msg,
            )[k].len() >= m[k].len(),
{
    let peer = msg.other_id@;
    let s = bucket_of(m, peer);
    assert(in_time_order(s)) by {
        if m.contains_key(peer) {
        }
    }
    lemma_filed_in_order(s, msg);
    let r = filed(s, msg);
    let p = filing_place(s, msg.last_update_time);
    assert forall|i: int| 0 <= i < r.len() implies (#[trigger] r[i]).other_id@ == peer by {
        if i < p {
            assert(r[i] == s[i]);
        } else if i == p {
        } else {
            assert(r[i] == s[i - 1]);
        }
    }
    let after = with_message(m, msg);
    assert forall|k: Seq<char>| #[trigger] after.contains_key(k) implies in_time_order(after[k])
        && forall|i: int| 0 <= i < after[k].len() ==> (#[trigger] after[k][i]).other_id@ == k by {
        if k == peer {
        } else {
            assert(m.contains_key(k));
        }
    }
}

/// The contacts that do not belong to an owner.
pub open spec fn without_owner(m: Map<Seq<char>, Contact>, owner: Seq<char>) -> Map<
    Seq<char>,
    Contact,
> {
    Map::new(|k: Seq<char>| m.contains_key(k) && m[k].owner_id@ != owner, |k: Seq<char>| m[k])
}

/// The contacts after a batch was put in, each under its id; of two
/// contacts of the batch with one id the later one stays.
pub open spec fn with_contacts(m: Map<Seq<char>, Contact>, batch: Seq<Contact>) -> Map<
    Seq<char>,
    Contact,
>
    decreases batch.len(),
{
    if batch.len() == 0 {
        m
    } else {
        with_contacts(m, batch.drop_last()).insert(batch.last().id@, batch.last())
    }
}

/// The last place before `upto` in a list of session ids whose salted hash
/// is `hash`, or -1 where there is none.
pub open spec fn last_with_hash(ids: Seq<Seq<char>>, salt: Seq<char>, hash: Seq<char>, upto: int) -> int
    decreases upto,
{
    if upto <= 0 {
        -1
    } else if session_key(ids[upto - 1], salt) == hash {
        upto - 1
    } else {
        last_with_hash(ids, salt, hash, upto - 1)
    }
}

/// What `last_with_hash` finds: a place whose hash is the one asked for,
/// or, with -1, that no place before `upto` has that hash.
pub proof fn lemma_last_with_hash(ids: Seq<Seq<char>>, salt: Seq<char>, hash: Seq<char>, upto: int)
    requires
        0 <= upto <= ids.len(),
    ensures
        -1 <= last_with_hash(ids, salt, hash, upto) < upto,
        last_with_hash(ids, salt, hash, upto) >= 0 ==> session_key(
            ids[last_with_hash(ids, salt, hash, upto)],
            salt,
        ) == hash,
        last_with_hash(ids, salt, hash, upto) == -1 ==> forall|j: int|
            0 <= j < upto ==> session_key(#[trigger] ids[j], salt) != hash,
    decreases upto,
{
    if upto > 0 && session_key(ids[upto - 1], salt) != hash {
        lemma_last_with_hash(ids, salt, hash, upto - 1);
    }
}

/// How the table of salted hashes stands after a status with a salt came,
/// given the sessions that were cached then. Every cached session is found
/// under the hash of its id with the salt; where two cached ids share a
/// hash, one of them is found. What stood under other hashes is unchanged.
pub open spec fn keys_refreshed(
    before: Map<Seq<char>, Seq<char>>,
    after: Map<Seq<char>, Seq<char>>,
    sessions: Set<Seq<char>>,
    salt: Seq<char>,
) -> bool {
    &&& forall|id: Seq<char>| #[trigger]
        sessions.contains(id) ==> after.contains_key(session_key(id, salt)) && sessions.contains(
            after[session_key(id, salt)],
        ) && session_key(after[session_key(id, salt)], salt) == session_key(id, salt)
    &&& forall|h: Seq<char>| #[trigger]
        after.contains_key(h) ==> before.contains_key(h) || (sessions.contains(after[h])
            && session_key(after[h], salt) == h)
    &&& forall|h: Seq<char>| #[trigger]
        before.contains_key(h) ==> after.contains_key(h) && (after[h] == before[h] || (
        sessions.contains(after[h]) && session_key(after[h], salt) == h))
}

/// The caches that the command loop, the push handlers and the interface
/// share: contacts by id, messages by peer, statuses by user, sessions by
/// session id, the table that finds a session again from a salted hash, and
/// the flag that asks the interface to draw itself anew.
pub struct SharedCaches {
    contacts: KeyedCache<Contact>,
    messages: KeyedCache<Vec<Message>>,
    statuses: KeyedCache<UserStatus>,
    sessions: KeyedCache<SessionUpdate>,
    session_keys: KeyedCache<String>,
    refresh_ui: bool,
}

impl SharedCaches {
    /// The cached contacts, by contact id.
    pub closed spec fn contacts(&self) -> Map<Seq<char>, Contact> {
        self.contacts@
    }

    /// The cached messages, by peer.
    pub closed spec fn messages(&self) -> Map<Seq<char>, Seq<Message>> {
        self.messages@.map_values(|v: Vec<Message>| v@)
    }

    /// The cached statuses, by user id.
    pub closed spec fn statuses(&self) -> Map<Seq<char>, UserStatus> {
        self.statuses@
    }

    /// The cached sessions, by session id.
    pub closed spec fn sessions(&self) -> Map<Seq<char>, SessionUpdate> {
        self.sessions@
    }

    /// The session id found under each salted hash.
    pub closed spec fn session_keys(&self) -> Map<Seq<char>, Seq<char>> {
        self.session_keys@.map_values(|v: String| v@)
    }

    /// Whether the interface was asked to draw itself anew.
    pub closed spec fn refresh_wanted(&self) -> bool {
        self.refresh_ui
    }

    /// The caches hold together: every message list is in time order and
    /// holds the messages of its peer, and every contact, status and
    /// session stands under its own id.
    pub closed spec fn wf(&self) -> bool {
        &&& self.contacts.wf()
        &&& self.messages.wf()
        &&& self.statuses.wf()
        &&& self.sessions.wf()
        &&& self.session_keys.wf()
        &&& buckets_in_order(self.messages())
        &&& forall|k: Seq<char>| #[trigger]
            self.contacts@.contains_key(k) ==> self.contacts@[k].id@ == k
        &&& forall|k: Seq<char>| #[trigger]
            self.statuses@.contains_key(k) ==> self.statuses@[k].user_id@ == k
        &&& forall|k: Seq<char>| #[trigger]
            self.sessions@.contains_key(k) ==> self.sessions@[k].session_id@ == k
    }

    /// What well-formed caches promise to their readers.
    pub proof fn lemma_wf(&self)
        requires
            self.wf(),
        ensures
            buckets_in_order(self.messages()),
            forall|k: Seq<char>| #[trigger]
                self.contacts().contains_key(k) ==> self.contacts()[k].id@ == k,
            forall|k: Seq<char>| #[trigger]
                self.statuses().contains_key(k) ==> self.statuses()[k].user_id@ == k,
            forall|k: Seq<char>| #[trigger]
                self.sessions().contains_key(k) ==> self.sessions()[k].session_id@ == k,
    {
    }

    /// Empty caches, with no redraw asked for.
    pub fn new() -> (r: Self)
        ensures
            r.wf(),
            r.contacts() == Map::<Seq<char>, Contact>::empty(),
            r.messages() == Map::<Seq<char>, Seq<Message>>::empty(),
            r.statuses() == Map::<Seq<char>, UserStatus>::empty(),
            r.sessions() == Map::<Seq<char>, SessionUpdate>::empty(),
            r.session_keys() == Map::<Seq<char>, Seq<char>>::empty(),
            !r.refresh_wanted(),
    {
        let r = SharedCaches {
            contacts: KeyedCache::new(),
            messages: KeyedCache::new(),
            statuses: KeyedCache::new(),
            sessions: KeyedCache::new(),
            session_keys: KeyedCache::new(),
            refresh_ui: false,
        };
        assert(r.messages() =~= Map::<Seq<char>, Seq<Message>>::empty());
        assert(r.session_keys() =~= Map::<Seq<char>, Seq<char>>::empty());
        r
    }

    /// The cached contact with an id.
    pub fn contact(&self, id: &str) -> (r: Option<&Contact>)
        requires
            self.wf(),
        ensures
            r is Some <==> self.contacts().contains_key(id@),
            r matches Some(c) ==> *c == self.contacts()[id@],
    {
        self.contacts.get(id)
    }

    /// The cached messages with a peer, in time order.
    pub fn messages_with(&self, peer: &str) -> (r: Option<&Vec<Message>>)
        requires
            self.wf(),
        ensures
            r is Some <==> self.messages().contains_key(peer@),
            r matches Some(v) ==> v@ == self.messages()[peer@] && in_time_order(v@),
    {
        self.messages.get(peer)
    }

    /// The cached status of a user.
    pub fn status_of(&self, user_id: &str) -> (r: Option<&UserStatus>)
        requires
            self.wf(),
        ensures
            r is Some <==> self.statuses().contains_key(user_id@),
            r matches Some(s) ==> *s == self.statuses()[user_id@],
    {
        self.statuses.get(user_id)
    }

    /// The cached session with an id.
    pub fn session(&self, session_id: &str) -> (r: Option<&SessionUpdate>)
        requires
            self.wf(),
        ensures
            r is Some <==> self.sessions().contains_key(session_id@),
            r matches Some(s) ==> *s == self.sessions()[session_id@] && s.session_id@
                == session_id@,
    {
        self.sessions.get(session_id)
    }

    /// The id of the session that stands under a salted hash.
    pub fn session_id_for(&self, hash: &str) -> (r: Option<&String>)
        requires
            self.wf(),
        ensures
            r is Some <==> self.session_keys().contains_key(hash@),
            r matches Some(id) ==> id@ == self.session_keys()[hash@],
    {
        self.session_keys.get(hash)
    }

    /// Whether a redraw was asked for since the last call; the call takes
    /// the request back.
    pub fn take_refresh(&mut self) -> (r: bool)
        requires
            old(self).wf(),
        ensures
            final(self).wf(),
            r == old(self).refresh_wanted(),
            !final(self).refresh_wanted(),
            final(self).contacts() == old(self).contacts(),
            final(self).messages() == old(self).messages(),
            final(self).statuses() == old(self).statuses(),
            final(self).sessions() == old(self).sessions(),
            final(self).session_keys() == old(self).session_keys(),
    {
        let r = self.refresh_ui;
        self.refresh_ui = false;
        r
    }

    /// Puts a status under its user's id, in place of what stood there.
    /// Nothing else changes, and no redraw is asked for.
    pub fn cache_status(&mut self, status: UserStatus)
        requires
            old(self).wf(),
        ensures
            final(self).wf(),
            final(self).statuses() == old(self).statuses().insert(status.user_id@, status),
            final(self).contacts() == old(self).contacts(),
            final(self).messages() == old(self).messages(),
            final(self).sessions() == old(self).sessions(),
            final(self).session_keys() == old(self).session_keys(),
            final(self).refresh_wanted() == old(self).refresh_wanted(),
    {
        let key = status.user_id.clone();
        self.statuses.insert(key, status);
    }

    /// The hub pushed a session: it is put under its session id, in place
    /// of what stood there, and a redraw is asked for.
    pub fn session_update(&mut self, message: SessionUpdate)
        requires
            old(self).wf(),
        ensures
            final(self).wf(),
            final(self).sessions() == old(self).sessions().insert(message.session_id@, message),
            final(self).refresh_wanted(),
            final(self).contacts() == old(self).contacts(),
            final(self).messages() == old(self).messages(),
            final(self).statuses() == old(self).statuses(),
            final(self).session_keys() == old(self).session_keys(),
    {
        let key = message.session_id.clone();
        self.sessions.insert(key, message);
        self.refresh_ui = true;
    }

    /// The hub pushed a message that someone sent to the user. The message
    /// is not read: only a redraw is asked for.
    pub fn message_receive(&mut self, message: &str)
        requires
            old(self).wf(),
        ensures
            final(self).wf(),
            final(self).refresh_wanted(),
            final(self).contacts() == old(self).contacts(),
            final(self).messages() == old(self).messages(),
            final(self).statuses() == old(self).statuses(),
            final(self).sessions() == old(self).sessions(),
            final(self).session_keys() == old(self).session_keys(),
    {
        self.refresh_ui = true;
    }

    /// The hub confirmed a message that the user sent. The message is not
    /// read: only a redraw is asked for.
    pub fn message_sent(&mut self, message: &str)
        requires
            old(self).wf(),
        ensures
            final(self).wf(),
            final(self).refresh_wanted(),
            final(self).contacts() == old(self).contacts(),
            final(self).messages() == old(self).messages(),
            final(self).statuses() == old(self).statuses(),
            final(self).sessions() == old(self).sessions(),
            final(self).session_keys() == old(self).session_keys(),
    {
        self.refresh_ui = true;
    }

    /// Adds fetched messages to the lists of their peers, one by one in the
    /// order of the batch; each is filed by the time of its last update. No
    /// message that was cached is lost, and every list stays in time order.
    pub fn merge_messages(&mut self, batch: Vec<Message>)
        requires
            old(self).wf(),
        ensures
            final(self).wf(),
            final(self).messages() == with_messages(old(self).messages(), batch@),
            buckets_in_order(final(self).messages()),
            forall|k: Seq<char>| #[trigger]
                old(self).messages().contains_key(k) ==> final(self).messages().contains_key(k)
                    && final(self).messages()[k].len() >= old(self).messages()[k].len(),
            final(self).contacts() == old(self).contacts(),
            final(self).statuses() == old(self).statuses(),
            final(self).sessions() == old(self).sessions(),
            final(self).session_keys() == old(self).session_keys(),
            final(self).refresh_wanted() == old(self).refresh_wanted(),
    {
        let ghost all = batch@;
        let ghost start = self.messages();
        for msg in it: batch
            invariant
                it.seq() == all,
                self.wf(),
                self.messages() == with_messages(start, all.take(it.index() as int)),
                self.contacts == old(self).contacts,
                self.statuses == old(self).statuses,
                self.sessions == old(self).sessions,
                self.session_keys == old(self).session_keys,
                self.refresh_ui == old(self).refresh_ui,
        {
            let ghost done = all.take(it.index() as int);
            let ghost before = self.messages();
            let ghost peer = msg.other_id@;
            let key = msg.other_id.clone();
            let again = msg.other_id.clone();
            let found = self.messages.insert(key, Vec::new());
            let mut bucket = match found {
                Some(b) => b,
                None => Vec::new(),
            };
            assert(bucket@ == bucket_of(before, peer));
            file_message(&mut bucket, msg);
            self.messages.insert(again, bucket);
            proof {
                assert(self.messages() =~= with_message(before, msg));
                lemma_with_message_keeps_order(before, msg);
                let next = all.take(it.index() as int + 1);
                assert(next.drop_last() =~= done);
                assert(next.last() == msg);
            }
        }
        proof {
            assert(all.take(all.len() as int) =~= all);
            lemma_merge_keeps_order_and_grows(start, all);
        }
    }

    /// A fetch of an owner's contacts came back: the cached contacts of
    /// that owner give way to the fetched ones, each under its id. The
    /// contacts of other owners stay.
    pub fn replace_contacts(&mut self, owner: &str, batch: Vec<Contact>)
        requires
            old(self).wf(),
        ensures
            final(self).wf(),
            final(self).contacts() == with_contacts(
                without_owner(old(self).contacts(), owner@),
                batch@,
            ),
            final(self).messages() == old(self).messages(),
            final(self).statuses() == old(self).statuses(),
            final(self).sessions() == old(self).sessions(),
            final(self).session_keys() == old(self).session_keys(),
            final(self).refresh_wanted() == old(self).refresh_wanted(),
    {
        let ghost start = self.contacts@;
        let mut i: usize = 0;
        while i < self.contacts.len()
            invariant
                self.wf(),
                0 <= i <= self.contacts.key_seq().len(),
                forall|k: Seq<char>| #[trigger]
                    self.contacts@.contains_key(k) ==> start.contains_key(k) && self.contacts@[k]
                        == start[k],
                forall|k: Seq<char>| #[trigger]
                    start.contains_key(k) && start[k].owner_id@ != owner@
                        ==> self.contacts@.contains_key(k),
                forall|j: int|
                    0 <= j < i ==> (#[trigger] self.contacts.value_seq()[j]).owner_id@ != owner@,
                self.messages == old(self).messages,
                self.statuses == old(self).statuses,
                self.sessions == old(self).sessions,
                self.session_keys == old(self).session_keys,
                self.refresh_ui == old(self).refresh_ui,
            decreases self.contacts.key_seq().len() - i,
        {
            if crate::text::same_text(self.contacts.value_at(i).owner_id.as_str(), owner) {
                let ghost prev = self.contacts;
                proof {
                    prev.lemma_entries();
                }
                self.contacts.remove_at(i);
                proof {
                    assert forall|j: int| 0 <= j < i implies (#[trigger] self.contacts.value_seq()[j])
                        .owner_id@ != owner@ by {
                        assert(self.contacts.value_seq()[j] == prev.value_seq()[j]);
                    }
                }
            } else {
                i += 1;
            }
        }
        proof {
            self.contacts.lemma_entries();
            assert(self.contacts@ =~= without_owner(start, owner@)) by {
                assert forall|k: Seq<char>| self.contacts@.contains_key(k) implies start[k].owner_id@
                    != owner@ by {
                    let j = self.contacts.key_seq().index_of(k);
                    assert(self.contacts@[self.contacts.key_seq()[j]]
                        == self.contacts.value_seq()[j]);
                }
            }
        }
        let ghost all = batch@;
        let ghost cleared = self.contacts@;
        for contact in it: batch
            invariant
                it.seq() == all,
                self.wf(),
                self.contacts@ == with_contacts(cleared, all.take(it.index() as int)),
                self.messages == old(self).messages,
                self.statuses == old(self).statuses,
                self.sessions == old(self).sessions,
                self.session_keys == old(self).session_keys,
                self.refresh_ui == old(self).refresh_ui,
        {
            let ghost done = all.take(it.index() as int);
            let key = contact.id.clone();
            self.contacts.insert(key, contact);
            proof {
                let next = all.take(it.index() as int + 1);
                assert(next.drop_last() =~= done);
                assert(next.last() == contact);
            }
        }
        proof {
            assert(all.take(all.len() as int) =~= all);
        }
    }

    /// The hub pushed a status. Where it carries a salt, every cached
    /// session is entered in the table of salted hashes under the hash of
    /// its id with that salt. Then the status is put under its user's id,
    /// in place of what stood there, and a redraw is asked for.
    pub fn status_update(&mut self, message: UserStatus)
        requires
            old(self).wf(),
        ensures
            final(self).wf(),
            final(self).statuses() == old(self).statuses().insert(message.user_id@, message),
            final(self).refresh_wanted(),
            match message.hash_salt {
                Some(salt) => keys_refreshed(
                    old(self).session_keys(),
                    final(self).session_keys(),
                    old(self).sessions().dom(),
                    salt@,
                ),
                None => final(self).session_keys() == old(self).session_keys(),
            },
            final(self).contacts() == old(self).contacts(),
            final(self).messages() == old(self).messages(),
            final(self).sessions() == old(self).sessions(),
    {
        if let Some(salt) = &message.hash_salt {
            self.refresh_session_keys(salt.as_str());
        }
        let key = message.user_id.clone();
        self.statuses.insert(key, message);
        self.refresh_ui = true;
    }

    /// Enters every cached session in the table of salted hashes, under the
    /// hash of its id with `salt`.
    pub fn refresh_session_keys(&mut self, salt: &str)
        requires
            old(self).wf(),
        ensures
            final(self).wf(),
            keys_refreshed(
                old(self).session_keys(),
                final(self).session_keys(),
                old(self).sessions().dom(),
                salt@,
            ),
            final(self).contacts() == old(self).contacts(),
            final(self).messages() == old(self).messages(),
            final(self).statuses() == old(self).statuses(),
            final(self).sessions() == old(self).sessions(),
            final(self).refresh_wanted() == old(self).refresh_wanted(),
    {
        let ghost before = self.session_keys();
        let ghost ids = self.sessions.key_seq();
        proof {
            self.sessions.lemma_entries();
        }
        let n = self.sessions.len();
        let mut i: usize = 0;
        while i < n
            invariant
                self.wf(),
                0 <= i <= n,
                n == ids.len(),
                ids == self.sessions.key_seq(),
                self.sessions == old(self).sessions,
                self.contacts == old(self).contacts,
                self.messages == old(self).messages,
                self.statuses == old(self).statuses,
                self.refresh_ui == old(self).refresh_ui,
                before == old(self).session_keys(),
                forall|h: Seq<char>|
                    {
                        let w = #[trigger] last_with_hash(ids, salt@, h, i as int);
                        if w >= 0 {
                            self.session_keys().contains_key(h) && self.session_keys()[h] == ids[w]
                        } else {
                            self.session_keys().contains_key(h) == before.contains_key(h) && (
                            before.contains_key(h) ==> self.session_keys()[h] == before[h])
                        }
                    },
            decreases n - i,
        {
            let ghost table = self.session_keys();
            let id = self.sessions.key_at(i);
            let hash = session_hash_key(id.as_str(), salt);
            let found = self.sessions.value_at(i).session_id.clone();
            proof {
                self.sessions.lemma_entries();
                assert(found@ == ids[i as int]);
            }
            self.session_keys.insert(hash, found);
            proof {
                assert(self.session_keys() =~= table.insert(hash@, ids[i as int]));
                assert forall|h: Seq<char>|
                    {
                        let w = #[trigger] last_with_hash(ids, salt@, h, i as int + 1);
                        if w >= 0 {
                            self.session_keys().contains_key(h) && self.session_keys()[h] == ids[w]
                        } else {
                            self.session_keys().contains_key(h) == before.contains_key(h) && (
                            before.contains_key(h) ==> self.session_keys()[h] == before[h])
                        }
                    } by {
                    let w0 = last_with_hash(ids, salt@, h, i as int);
                    if session_key(ids[i as int], salt@) == h {
                    } else {
                    }
                }
            }
            i += 1;
        }
        proof {
            let after = self.session_keys();
            let sessions = old(self).sessions().dom();
            assert forall|id: Seq<char>| #[trigger] sessions.contains(id) implies after.contains_key(
                session_key(id, salt@),
            ) && sessions.contains(after[session_key(id, salt@)]) && session_key(
                after[session_key(id, salt@)],
                salt@,
            ) == session_key(id, salt@) by {
                let h = session_key(id, salt@);
                lemma_last_with_hash(ids, salt@, h, n as int);
                let w = last_with_hash(ids, salt@, h, n as int);
                let j = ids.index_of(id);
                assert(ids[j] == id);
                assert(w >= 0);
            }
            assert forall|h: Seq<char>| #[trigger] after.contains_key(h) implies before.contains_key(
                h,
            ) || (sessions.contains(after[h]) && session_key(after[h], salt@) == h) by {
                lemma_last_with_hash(ids, salt@, h, n as int);
            }
            assert forall|h: Seq<char>| #[trigger] before.contains_key(h) implies after.contains_key(
                h,
            ) && (after[h] == before[h] || (sessions.contains(after[h]) && session_key(
                after[h],
                salt@,
            ) == h)) by {
                lemma_last_with_hash(ids, salt@, h, n as int);
            }
        }
    }
}

} // verus!
