//! Links between a message in a subscriber's chat and its copy in the admin chat.

use vstd::prelude::*;

verus! {

/// One completed forward: where the message stands in the subscriber's chat, and where
/// its copy stands in the admin chat.
#[derive(Clone, Copy, Debug, PartialEq, Eq, Structural)]
pub struct MessageLink {
    pub subscriber_user_id: i64,
    pub subscriber_chat_id: i64,
    pub subscriber_message_id: i64,
    pub admin_chat_id: i64,
    pub admin_message_id: i64,
}

/// Which side of a link a lookup matches against.
#[derive(Clone, Copy, Debug, PartialEq, Eq, Structural)]
pub enum MessageLinkDirection {
    /// By the copy in the admin chat.
    Admin,
    /// By the message in the subscriber's chat.
    Subscriber,
}

impl MessageLinkDirection {
    /// Lower-case name of the direction.
    pub fn name(&self) -> (r: &'static str)
        ensures
            r@ == (match *self {
                MessageLinkDirection::Admin => "admin"@,
                MessageLinkDirection::Subscriber => "subscriber"@,
            }),
    {
        match self {
            MessageLinkDirection::Admin => "admin",
            MessageLinkDirection::Subscriber => "subscriber",
        }
    }
}

impl MessageLink {
    pub fn new(
        subscriber_user_id: i64,
        subscriber_chat_id: i64,
        subscriber_message_id: i64,
        admin_chat_id: i64,
        admin_message_id: i64,
    ) -> (r: Self)
        ensures
            r == (MessageLink {
                subscriber_user_id,
                subscriber_chat_id,
                subscriber_message_id,
                admin_chat_id,
                admin_message_id,
            }),
    {
        MessageLink {
            subscriber_user_id,
            subscriber_chat_id,
            subscriber_message_id,
            admin_chat_id,
            admin_message_id,
        }
    }

    pub fn subscriber_user_id(&self) -> (r: i64)
        ensures
            r == self.subscriber_user_id,
    {
        self.subscriber_user_id
    }

    pub fn subscriber_chat_id(&self) -> (r: i64)
        ensures
            r == self.subscriber_chat_id,
    {
        self.subscriber_chat_id
    }

    pub fn subscriber_message_id(&self) -> (r: i64)
        ensures
            r == self.subscriber_message_id,
    {
        self.subscriber_message_id
    }

    pub fn admin_chat_id(&self) -> (r: i64)
        ensures
            r == self.admin_chat_id,
    {
        self.admin_chat_id
    }

    pub fn admin_message_id(&self) -> (r: i64)
        ensures
            r == self.admin_message_id,
    {
        self.admin_message_id
    }

    /// Whether a lookup of `(chat_id, message_id)` on the side `direction` finds this link.
    pub open spec fn matches(
        self,
        chat_id: i64,
        message_id: i64,
        direction: MessageLinkDirection,
    ) -> bool {
        match direction {
            MessageLinkDirection::Admin => self.admin_chat_id == chat_id && self.admin_message_id
                == message_id,
            MessageLinkDirection::Subscriber => self.subscriber_chat_id == chat_id
                && self.subscriber_message_id == message_id,
        }
    }

    /// Whether the two links name the same message on one of the two sides.
    pub open spec fn collides(self, other: MessageLink) -> bool {
        ||| (self.subscriber_chat_id == other.subscriber_chat_id && self.subscriber_message_id
            == other.subscriber_message_id)
        ||| (self.admin_chat_id == other.admin_chat_id && self.admin_message_id
            == other.admin_message_id)
    }

    /// Whether a lookup of `(chat_id, message_id)` on the side `direction` finds this link.
    pub fn is_match(&self, chat_id: i64, message_id: i64, direction: MessageLinkDirection) -> (r:
        bool)
        ensures
            r == self.matches(chat_id, message_id, direction),
    {
        match direction {
            MessageLinkDirection::Admin => self.admin_chat_id == chat_id && self.admin_message_id
                == message_id,
            MessageLinkDirection::Subscriber => self.subscriber_chat_id == chat_id
                && self.subscriber_message_id == message_id,
        }
    }

    /// The five values of the link in the order of the insert statement's parameters.
    pub fn params(&self) -> (r: [i64; 5])
        ensures
            r@ == seq![
                self.subscriber_user_id,
                self.subscriber_chat_id,
                self.subscriber_message_id,
                self.admin_chat_id,
                self.admin_message_id,
            ],
    {
        let r = [
            self.subscriber_user_id,
            self.subscriber_chat_id,
            self.subscriber_message_id,
            self.admin_chat_id,
            self.admin_message_id,
        ];
        assert(r@ =~= seq![
            self.subscriber_user_id,
            self.subscriber_chat_id,
            self.subscriber_message_id,
            self.admin_chat_id,
            self.admin_message_id,
        ]);
        r
    }
}

/// What a lookup returns on the links `links`: the first that matches, if any does.
pub open spec fn find_link(
    links: Seq<MessageLink>,
    chat_id: i64,
    message_id: i64,
    direction: MessageLinkDirection,
) -> Option<MessageLink>
    decreases links.len(),
{
    if links.len() == 0 {
        None
    } else if links[0].matches(chat_id, message_id, direction) {
        Some(links[0])
    } else {
        find_link(links.skip(1), chat_id, message_id, direction)
    }
}

/// Whether no two of the links name the same message on one side: each pair of
/// coordinates is a key.
pub open spec fn links_unique(links: Seq<MessageLink>) -> bool {
    forall|i: int, j: int|
        0 <= i < j < links.len() ==> !(#[trigger] links[i]).collides(#[trigger] links[j])
}

/// Whether some link of `links` names a message that `link` names too.
pub open spec fn has_collision(links: Seq<MessageLink>, link: MessageLink) -> bool {
    exists|i: int| 0 <= i < links.len() && (#[trigger] links[i]).collides(link)
}

/// The links after an attempt to add `link`: with the link at the end, unless it names a
/// message that a stored link names already.
pub open spec fn store_after(links: Seq<MessageLink>, link: MessageLink) -> Seq<MessageLink> {
    if has_collision(links, link) {
        links
    } else {
        links.push(link)
    }
}

/// How many of the links a lookup matches.
pub open spec fn count_matches(
    links: Seq<MessageLink>,
    chat_id: i64,
    message_id: i64,
    direction: MessageLinkDirection,
) -> nat
    decreases links.len(),
{
    if links.len() == 0 {
        0
    } else {
        count_matches(links.drop_last(), chat_id, message_id, direction) + (if links.last().matches(
            chat_id,
            message_id,
            direction,
        ) {
            1nat
        } else {
            0nat
        })
    }
}

/// Why the link store refused.
#[derive(Clone, Copy, Debug, PartialEq, Eq, Structural)]
pub enum MessageLinkServiceError {
    /// The link could not be added; it is handed back whole.
    Create { link: MessageLink },
    /// The lookup could not be made.
    Find { chat_id: i64, message_id: i64, direction: MessageLinkDirection },
}

/// The statement that adds a link; its parameters are those of [`MessageLink::params`].
pub fn insert_statement() -> (r: &'static str)
    ensures
        r@ == "INSERT INTO message_links (subscriber_user_id, subscriber_chat_id, subscriber_message_id, admin_chat_id, admin_message_id) VALUES ($1, $2, $3, $4, $5)"@,
{
    "INSERT INTO message_links (subscriber_user_id, subscriber_chat_id, subscriber_message_id, admin_chat_id, admin_message_id) VALUES ($1, $2, $3, $4, $5)"
}

/// The statement that looks a link up on one side; its parameters are the chat id and the
/// message id.
pub fn find_statement(direction: MessageLinkDirection) -> (r: &'static str)
    ensures
        r@ == (match direction {
            MessageLinkDirection::Admin => "SELECT * FROM message_links WHERE admin_chat_id = $1 AND admin_message_id = $2"@,
            MessageLinkDirection::Subscriber => "SELECT * FROM message_links WHERE subscriber_chat_id = $1 AND subscriber_message_id = $2"@,
        }),
{
    match direction {
        MessageLinkDirection::Admin => "SELECT * FROM message_links WHERE admin_chat_id = $1 AND admin_message_id = $2",
        MessageLinkDirection::Subscriber => "SELECT * FROM message_links WHERE subscriber_chat_id = $1 AND subscriber_message_id = $2",
    }
}

/// The link store held in memory: the links in the order in which they were added.
#[derive(Debug)]
pub struct MessageLinkService {
    links: Vec<MessageLink>,
}

impl View for MessageLinkService {
    type V = Seq<MessageLink>;

    closed spec fn view(&self) -> Seq<MessageLink> {
        self.links@
    }
}

impl MessageLinkService {
    /// Whether the store is valid: each pair of coordinates names one link at most.
    pub open spec fn wf(&self) -> bool {
        links_unique(self@)
    }

    /// An empty store.
    pub fn new() -> (r: Self)
        ensures
            r@ == Seq::<MessageLink>::empty(),
            r.wf(),
    {
        MessageLinkService { links: Vec::new() }
    }

    /// Adds a link at the end. The store refuses a link that names a message which a stored
    /// link names already, and is then unchanged.
    pub fn create(&mut self, link: MessageLink) -> (r: Result<(), MessageLinkServiceError>)
        requires
            old(self).wf(),
        ensures
            final(self).wf(),
            final(self)@ == store_after(old(self)@, link),
            r == (if has_collision(old(self)@, link) {
                Err(MessageLinkServiceError::Create { link })
            } else {
                Ok(())
            }),
    {
        let mut i: usize = 0;
        while i < self.links.len()
            invariant
                i <= self.links.len(),
                self.links@ == old(self).links@,
                links_unique(self.links@),
                forall|j: int| 0 <= j < i ==> !(#[trigger] self.links@[j]).collides(link),
            decreases self.links.len() - i,
        {
            let other = self.links[i];
            if (other.subscriber_chat_id == link.subscriber_chat_id && other.subscriber_message_id
                == link.subscriber_message_id) || (other.admin_chat_id == link.admin_chat_id
                && other.admin_message_id == link.admin_message_id) {
                return Err(MessageLinkServiceError::Create { link });
            }
            i += 1;
        }
        self.links.push(link);
        Ok(())
    }

    /// Looks up the link of a message by its coordinates on one side.
    pub fn find(&self, chat_id: i64, message_id: i64, direction: MessageLinkDirection) -> (r:
        Option<MessageLink>)
        ensures
            r == find_link(self@, chat_id, message_id, direction),
    {
        let mut i: usize = 0;
        assert(self.links@.skip(0) =~= self.links@);
        while i < self.links.len()
            invariant
                i <= self.links.len(),
                find_link(self.links@, chat_id, message_id, direction) == find_link(
                    self.links@.skip(i as int),
                    chat_id,
                    message_id,
                    direction,
                ),
            decreases self.links.len() - i,
        {
            let link = self.links[i];
            assert(self.links@.skip(i as int)[0] == link);
            assert(self.links@.skip(i as int).skip(1) =~= self.links@.skip(i + 1));
            if link.is_match(chat_id, message_id, direction) {
                return Some(link);
            }
            i += 1;
        }
        assert(self.links@.skip(i as int).len() == 0);
        None
    }

    /// How many links the store holds.
    pub fn len(&self) -> (r: usize)
        ensures
            r == self@.len(),
    {
        self.links.len()
    }
}

/// A lookup whose first match stands at `i` returns the link at `i`.
proof fn lemma_find_link_at(
    links: Seq<MessageLink>,
    chat_id: i64,
    message_id: i64,
    direction: MessageLinkDirection,
    i: int,
)
    requires
        0 <= i < links.len(),
        links[i].matches(chat_id, message_id, direction),
        forall|j: int| 0 <= j < i ==> !(#[trigger] links[j]).matches(chat_id, message_id, direction),
    ensures
        find_link(links, chat_id, message_id, direction) == Some(links[i]),
    decreases i,
{
    if i > 0 {
        let rest = links.skip(1);
        assert(rest[i - 1] == links[i]);
        assert forall|j: int| 0 <= j < i - 1 implies !(#[trigger] rest[j]).matches(
            chat_id,
            message_id,
            direction,
        ) by {
            assert(rest[j] == links[j + 1]);
        }
        lemma_find_link_at(rest, chat_id, message_id, direction, i - 1);
    }
}

/// A lookup never returns a link of another message: what it finds is stored and has the
/// coordinates asked for on the side asked for; it finds nothing only where no stored link
/// has them.
pub proof fn lemma_find_link_matches(
    links: Seq<MessageLink>,
    chat_id: i64,
    message_id: i64,
    direction: MessageLinkDirection,
)
    ensures
        find_link(links, chat_id, message_id, direction) matches Some(link) ==> link.matches(
            chat_id,
            message_id,
            direction,
        ) && links.contains(link),
        find_link(links, chat_id, message_id, direction) is None <==> forall|i: int|
            0 <= i < links.len() ==> !(#[trigger] links[i]).matches(chat_id, message_id, direction),
    decreases links.len(),
{
    if links.len() > 0 {
        if links[0].matches(chat_id, message_id, direction) {
            assert(links.contains(links[0]));
        } else {
            let rest = links.skip(1);
            lemma_find_link_matches(rest, chat_id, message_id, direction);
            match find_link(rest, chat_id, message_id, direction) {
                Some(link) => {
                    let k = choose|k: int| 0 <= k < rest.len() && rest[k] == link;
                    assert(links[k + 1] == link);
                },
                None => {
                    assert forall|i: int| 0 <= i < links.len() implies !(
                    #[trigger] links[i]).matches(chat_id, message_id, direction) by {
                        if i > 0 {
                            assert(rest[i - 1] == links[i]);
                        }
                    }
                },
            }
        }
    }
}

/// Counting the matches of a lookup that only the link at `i` matches, or none.
proof fn lemma_count_matches_single(
    links: Seq<MessageLink>,
    chat_id: i64,
    message_id: i64,
    direction: MessageLinkDirection,
    i: int,
)
    requires
        forall|j: int|
            0 <= j < links.len() && j != i ==> !(#[trigger] links[j]).matches(
                chat_id,
                message_id,
                direction,
            ),
    ensures
        count_matches(links, chat_id, message_id, direction) == (if 0 <= i < links.len()
            && links[i].matches(chat_id, message_id, direction) {
            1nat
        } else {
            0nat
        }),
    decreases links.len(),
{
    if links.len() > 0 {
        let front = links.drop_last();
        assert forall|j: int| 0 <= j < front.len() && j != i implies !(#[trigger] front[j]).matches(
            chat_id,
            message_id,
            direction,
        ) by {
            assert(front[j] == links[j]);
        }
        lemma_count_matches_single(front, chat_id, message_id, direction, i);
        if 0 <= i < front.len() {
            assert(front[i] == links[i]);
        }
    }
}

/// In a store where each pair of coordinates is a key, a lookup by either pair of a stored
/// link returns that link, and it is the only link the lookup matches.
pub proof fn lemma_each_link_found(links: Seq<MessageLink>, i: int)
    requires
        links_unique(links),
        0 <= i < links.len(),
    ensures
        find_link(
            links,
            links[i].admin_chat_id,
            links[i].admin_message_id,
            MessageLinkDirection::Admin,
        ) == Some(links[i]),
        find_link(
            links,
            links[i].subscriber_chat_id,
            links[i].subscriber_message_id,
            MessageLinkDirection::Subscriber,
        ) == Some(links[i]),
        count_matches(
            links,
            links[i].admin_chat_id,
            links[i].admin_message_id,
            MessageLinkDirection::Admin,
        ) == 1,
        count_matches(
            links,
            links[i].subscriber_chat_id,
            links[i].subscriber_message_id,
            MessageLinkDirection::Subscriber,
        ) == 1,
{
    let link = links[i];
    assert forall|j: int| 0 <= j < links.len() && j != i implies !(#[trigger] links[j]).matches(
        link.admin_chat_id,
        link.admin_message_id,
        MessageLinkDirection::Admin,
    ) && !links[j].matches(
        link.subscriber_chat_id,
        link.subscriber_message_id,
        MessageLinkDirection::Subscriber,
    ) by {
        if j < i {
            assert(!links[j].collides(links[i]));
        } else {
            assert(!links[i].collides(links[j]));
        }
    }
    lemma_find_link_at(
        links,
        link.admin_chat_id,
        link.admin_message_id,
        MessageLinkDirection::Admin,
        i,
    );
    lemma_find_link_at(
        links,
        link.subscriber_chat_id,
        link.subscriber_message_id,
        MessageLinkDirection::Subscriber,
        i,
    );
    lemma_count_matches_single(
        links,
        link.admin_chat_id,
        link.admin_message_id,
        MessageLinkDirection::Admin,
        i,
    );
    lemma_count_matches_single(
        links,
        link.subscriber_chat_id,
        link.subscriber_message_id,
        MessageLinkDirection::Subscriber,
        i,
    );
}

/// An attempt to add a link keeps each pair of coordinates a key.
pub proof fn lemma_store_after(links: Seq<MessageLink>, link: MessageLink)
    requires
        links_unique(links),
    ensures
        links_unique(store_after(links, link)),
{
    if !has_collision(links, link) {
        let after = links.push(link);
        assert forall|i: int, j: int| 0 <= i < j < after.len() implies !(#[trigger] after[i]).collides(
            #[trigger] after[j],
        ) by {
            if j == links.len() {
                assert(!links[i].collides(link));
            }
        }
    }
}

/// The links after attempts to add each of `added` in turn.
pub open spec fn store_after_all(links: Seq<MessageLink>, added: Seq<MessageLink>) -> Seq<
    MessageLink,
>
    decreases added.len(),
{
    if added.len() == 0 {
        links
    } else {
        store_after(store_after_all(links, added.drop_last()), added.last())
    }
}

/// Whether each of `added`, attempted in turn on `links`, was added.
pub open spec fn all_added(links: Seq<MessageLink>, added: Seq<MessageLink>) -> bool {
    forall|k: int|
        0 <= k < added.len() ==> !has_collision(
            store_after_all(links, added.take(k)),
            #[trigger] added[k],
        )
}

/// Attempts to add links keep each pair of coordinates a key, and keep what was stored.
pub proof fn lemma_store_after_all(links: Seq<MessageLink>, added: Seq<MessageLink>)
    requires
        links_unique(links),
    ensures
        links_unique(store_after_all(links, added)),
        all_added(links, added) ==> store_after_all(links, added) == links + added,
    decreases added.len(),
{
    if added.len() > 0 {
        let front = added.drop_last();
        lemma_store_after_all(links, front);
        let before = store_after_all(links, front);
        let link = added.last();
        lemma_store_after(before, link);
        if all_added(links, added) {
            assert forall|k: int| 0 <= k < front.len() implies !has_collision(
                store_after_all(links, front.take(k)),
                #[trigger] front[k],
            ) by {
                assert(front.take(k) =~= added.take(k));
                assert(front[k] == added[k]);
            }
            assert(added.take(added.len() - 1) =~= front);
            assert(!has_collision(before, added[added.len() - 1]));
            assert(before.push(link) =~= links + added);
        }
    } else {
        assert(links + added =~= links);
    }
}

/// After any number of forwards that each added its link, a lookup by either pair of any
/// of them returns the link of that forward, and it is the only link the lookup matches.
pub proof fn lemma_forwarded_pairs_found(
    links: Seq<MessageLink>,
    added: Seq<MessageLink>,
    k: int,
)
    requires
        links_unique(links),
        all_added(links, added),
        0 <= k < added.len(),
    ensures
        ({
            let store = store_after_all(links, added);
            &&& links_unique(store)
            &&& find_link(
                store,
                added[k].admin_chat_id,
                added[k].admin_message_id,
                MessageLinkDirection::Admin,
            ) == Some(added[k])
            &&& find_link(
                store,
                added[k].subscriber_chat_id,
                added[k].subscriber_message_id,
                MessageLinkDirection::Subscriber,
            ) == Some(added[k])
            &&& count_matches(
                store,
                added[k].admin_chat_id,
                added[k].admin_message_id,
                MessageLinkDirection::Admin,
            ) == 1
            &&& count_matches(
                store,
                added[k].subscriber_chat_id,
                added[k].subscriber_message_id,
                MessageLinkDirection::Subscriber,
            ) == 1
        }),
{
    lemma_store_after_all(links, added);
    let store = store_after_all(links, added);
    assert(store[links.len() + k] == added[k]);
    lemma_each_link_found(store, links.len() + k);
}

} // verus!
