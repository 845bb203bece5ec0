//! The tables as sequences of rows, and what a query returns on them.

use crate::database::error::{
    negative_limit, negative_offset, posts_created_by_fkey, posts_posted_in_fkey,
    sequence_exhausted, topics_created_by_fkey, users_user_name_key, DatabaseErrorView,
};
use crate::database::order::{lemma_newest_first, newest_first, page};
use crate::models::post::PostView;
use crate::models::topic::TopicView;
use crate::models::user::UserView;
use vstd::prelude::*;

verus! {

/// The contents of the three tables, each in the order of its rows'
/// identifiers.
pub struct DatabaseView {
    pub users: Seq<UserView>,
    pub topics: Seq<TopicView>,
    pub posts: Seq<PostView>,
}

impl DatabaseView {
    /// The database without any row.
    pub open spec fn empty() -> DatabaseView {
        DatabaseView { users: Seq::empty(), topics: Seq::empty(), posts: Seq::empty() }
    }

    /// Whether the row at `i` is the user of the given name.
    pub open spec fn user_at_is_named(self, i: int, name: Seq<char>) -> bool {
        0 <= i < self.users.len() && self.users[i].user_name == name
    }

    /// Whether the row at `i` is the user of the given identifier.
    pub open spec fn user_at_has_id(self, i: int, id: int) -> bool {
        0 <= i < self.users.len() && self.users[i].id == id
    }

    /// Whether the row at `i` is the topic of the given identifier.
    pub open spec fn topic_at_has_id(self, i: int, id: int) -> bool {
        0 <= i < self.topics.len() && self.topics[i].id == id
    }

    /// Whether a user of that name is stored.
    pub open spec fn has_user_name(self, name: Seq<char>) -> bool {
        exists|i: int| self.user_at_is_named(i, name)
    }

    /// Whether a user of that identifier is stored.
    pub open spec fn has_user_id(self, id: int) -> bool {
        exists|i: int| self.user_at_has_id(i, id)
    }

    /// Whether a topic of that identifier is stored.
    pub open spec fn has_topic_id(self, id: int) -> bool {
        exists|i: int| self.topic_at_has_id(i, id)
    }

    /// The user of that name, where one is stored.
    pub open spec fn user_named(self, name: Seq<char>) -> UserView {
        self.users[choose|i: int| self.user_at_is_named(i, name)]
    }

    /// The user of that identifier, where one is stored.
    pub open spec fn user_with_id(self, id: int) -> UserView {
        self.users[choose|i: int| self.user_at_has_id(i, id)]
    }

    /// How many stored users have that name.
    pub open spec fn count_user_name(self, name: Seq<char>) -> nat {
        self.users.filter(|u: UserView| u.user_name == name).len()
    }

    /// The rules that the tables obey at all times: identifiers ascend along
    /// each table, no two users share a name, every topic was created by a
    /// stored user, and every post lies in a stored topic and was created by
    /// a stored user.
    pub open spec fn wf(self) -> bool {
        &&& forall|i: int, j: int|
            0 <= i < j < self.users.len() ==> self.users[i].id < self.users[j].id
        &&& forall|i: int, j: int|
            0 <= i < j < self.users.len() ==> self.users[i].user_name != self.users[j].user_name
        &&& forall|i: int, j: int|
            0 <= i < j < self.topics.len() ==> self.topics[i].id < self.topics[j].id
        &&& forall|i: int|
            0 <= i < self.topics.len() ==> self.has_user_id(#[trigger] self.topics[i].created_by)
        &&& forall|i: int, j: int|
            0 <= i < j < self.posts.len() ==> self.posts[i].id < self.posts[j].id
        &&& forall|i: int|
            0 <= i < self.posts.len() ==> self.has_topic_id(#[trigger] self.posts[i].posted_in)
        &&& forall|i: int|
            0 <= i < self.posts.len() ==> self.has_user_id(#[trigger] self.posts[i].created_by)
    }

    /// The identifier that the next user gets.
    pub open spec fn next_user_id(self) -> int {
        if self.users.len() == 0 {
            1
        } else {
            self.users.last().id + 1
        }
    }

    /// The identifier that the next topic gets.
    pub open spec fn next_topic_id(self) -> int {
        if self.topics.len() == 0 {
            1
        } else {
            self.topics.last().id + 1
        }
    }

    /// The identifier that the next post gets.
    pub open spec fn next_post_id(self) -> int {
        if self.posts.len() == 0 {
            1
        } else {
            self.posts.last().id + 1
        }
    }

    /// What the insertion of a user returns: the stored row, or the failure.
    /// A name that is taken violates the constraint on names.
    pub open spec fn insert_user_result(
        self,
        user_name: Seq<char>,
        password_hash: Seq<char>,
    ) -> Result<UserView, DatabaseErrorView> {
        if self.has_user_name(user_name) {
            Err(DatabaseErrorView::UniqueViolation(users_user_name_key()))
        } else if self.next_user_id() > i64::MAX {
            Err(DatabaseErrorView::Unknown(sequence_exhausted()))
        } else {
            Ok(UserView { id: self.next_user_id(), user_name, password_hash })
        }
    }

    /// The database after the insertion of a user: one row longer where the
    /// insertion succeeds, unchanged where it fails.
    pub open spec fn insert_user(
        self,
        user_name: Seq<char>,
        password_hash: Seq<char>,
    ) -> DatabaseView {
        match self.insert_user_result(user_name, password_hash) {
            Ok(user) => DatabaseView { users: self.users.push(user), ..self },
            Err(_) => self,
        }
    }

    /// What the query for the user of a name returns.
    pub open spec fn first_user_by_name(self, name: Seq<char>) -> Result<
        UserView,
        DatabaseErrorView,
    > {
        if self.has_user_name(name) {
            Ok(self.user_named(name))
        } else {
            Err(DatabaseErrorView::NotFound)
        }
    }

    /// What the query for the user of an identifier returns.
    pub open spec fn first_user_by_id(self, id: int) -> Result<UserView, DatabaseErrorView> {
        if self.has_user_id(id) {
            Ok(self.user_with_id(id))
        } else {
            Err(DatabaseErrorView::NotFound)
        }
    }
}

impl DatabaseView {
    /// What the insertion of a topic returns: the stored row, or the failure.
    /// A creator who is not stored violates the constraint on creators.
    pub open spec fn insert_topic_result(
        self,
        title: Seq<char>,
        created_by: int,
        created_at: int,
    ) -> Result<TopicView, DatabaseErrorView> {
        if !self.has_user_id(created_by) {
            Err(DatabaseErrorView::ForeignKeyViolation(topics_created_by_fkey()))
        } else if self.next_topic_id() > i64::MAX {
            Err(DatabaseErrorView::Unknown(sequence_exhausted()))
        } else {
            Ok(TopicView { id: self.next_topic_id(), title, created_by, created_at })
        }
    }

    /// The database after the insertion of a topic: one row longer where the
    /// insertion succeeds, unchanged where it fails.
    pub open spec fn insert_topic(
        self,
        title: Seq<char>,
        created_by: int,
        created_at: int,
    ) -> DatabaseView {
        match self.insert_topic_result(title, created_by, created_at) {
            Ok(topic) => DatabaseView { topics: self.topics.push(topic), ..self },
            Err(_) => self,
        }
    }

    /// What the insertion of a post returns: the stored row, or the failure.
    /// A topic or a creator that is not stored violates a constraint.
    pub open spec fn insert_post_result(
        self,
        posted_in: int,
        created_by: int,
        created_at: int,
        content: Seq<char>,
    ) -> Result<PostView, DatabaseErrorView> {
        if !self.has_topic_id(posted_in) {
            Err(DatabaseErrorView::ForeignKeyViolation(posts_posted_in_fkey()))
        } else if !self.has_user_id(created_by) {
            Err(DatabaseErrorView::ForeignKeyViolation(posts_created_by_fkey()))
        } else if self.next_post_id() > i64::MAX {
            Err(DatabaseErrorView::Unknown(sequence_exhausted()))
        } else {
            Ok(PostView { id: self.next_post_id(), posted_in, created_by, created_at, content })
        }
    }

    /// The database after the insertion of a post: one row longer where the
    /// insertion succeeds, unchanged where it fails.
    pub open spec fn insert_post(
        self,
        posted_in: int,
        created_by: int,
        created_at: int,
        content: Seq<char>,
    ) -> DatabaseView {
        match self.insert_post_result(posted_in, created_by, created_at, content) {
            Ok(post) => DatabaseView { posts: self.posts.push(post), ..self },
            Err(_) => self,
        }
    }

    /// All topics, newest first, each with the user who created it.
    pub open spec fn topics_newest_first(self) -> Seq<(TopicView, UserView)> {
        newest_first(self.topics.map_values(|t: TopicView| t.created_at)).map_values(
            |i: int| (self.topics[i], self.user_with_id(self.topics[i].created_by)),
        )
    }

    /// The topics of the listing, without their creators.
    pub open spec fn topics_listed(self) -> Seq<TopicView> {
        self.topics_newest_first().map_values(|r: (TopicView, UserView)| r.0)
    }

    /// The posts of the listing of a topic, without their creators.
    pub open spec fn posts_listed(self, topic: int) -> Seq<PostView> {
        self.posts_newest_first(topic).map_values(|r: (PostView, UserView)| r.0)
    }

    /// The test that a post lies in the given topic.
    pub open spec fn in_topic(topic: int) -> spec_fn(PostView) -> bool {
        |p: PostView| p.posted_in == topic
    }

    /// The posts of a topic, in the order of the table.
    pub open spec fn posts_in(self, topic: int) -> Seq<PostView> {
        self.posts.filter(Self::in_topic(topic))
    }

    /// The posts of a topic, newest first, each with the user who created
    /// it.
    pub open spec fn posts_newest_first(self, topic: int) -> Seq<(PostView, UserView)> {
        let rows = self.posts_in(topic);
        newest_first(rows.map_values(|p: PostView| p.created_at)).map_values(
            |i: int| (rows[i], self.user_with_id(rows[i].created_by)),
        )
    }

    /// What the listing of topics returns: as a query with `OFFSET` and
    /// `LIMIT` does, a failure where one of the two is negative, else the
    /// page.
    pub open spec fn topics_by_date(self, offset: int, limit: int) -> Result<
        Seq<(TopicView, UserView)>,
        DatabaseErrorView,
    > {
        if offset < 0 {
            Err(DatabaseErrorView::Unknown(negative_offset()))
        } else if limit < 0 {
            Err(DatabaseErrorView::Unknown(negative_limit()))
        } else {
            Ok(page(self.topics_newest_first(), offset, limit))
        }
    }

    /// What the listing of the posts of a topic returns: as a query with
    /// `OFFSET` and `LIMIT` does, a failure where one of the two is negative,
    /// else the page.
    pub open spec fn posts_in_topic_by_date(self, topic: int, offset: int, limit: int) -> Result<
        Seq<(PostView, UserView)>,
        DatabaseErrorView,
    > {
        if offset < 0 {
            Err(DatabaseErrorView::Unknown(negative_offset()))
        } else if limit < 0 {
            Err(DatabaseErrorView::Unknown(negative_limit()))
        } else {
            Ok(page(self.posts_newest_first(topic), offset, limit))
        }
    }
}

impl DatabaseView {
    /// Under the rules, the row of a name is the only one of that name.
    pub proof fn lemma_user_named(self, i: int, name: Seq<char>)
        requires
            self.wf(),
            self.user_at_is_named(i, name),
        ensures
            self.has_user_name(name),
            self.user_named(name) == self.users[i],
    {
        let j = choose|j: int| self.user_at_is_named(j, name);
        if i < j {
            assert(self.users[i].user_name != self.users[j].user_name);
        } else if j < i {
            assert(self.users[j].user_name != self.users[i].user_name);
        }
    }

    /// Under the rules, the row of an identifier is the only one of that
    /// identifier.
    pub proof fn lemma_user_with_id(self, i: int, id: int)
        requires
            self.wf(),
            self.user_at_has_id(i, id),
        ensures
            self.has_user_id(id),
            self.user_with_id(id) == self.users[i],
    {
        let j = choose|j: int| self.user_at_has_id(j, id);
        if i < j {
            assert(self.users[i].id < self.users[j].id);
        } else if j < i {
            assert(self.users[j].id < self.users[i].id);
        }
    }

    /// Every user that is stored is still stored after one more is added.
    pub proof fn lemma_push_user_keeps_ids(self, user: UserView, id: int)
        requires
            self.has_user_id(id),
        ensures
            (DatabaseView { users: self.users.push(user), ..self }).has_user_id(id),
    {
        let after = DatabaseView { users: self.users.push(user), ..self };
        let i = choose|i: int| self.user_at_has_id(i, id);
        assert(after.user_at_has_id(i, id));
    }

    /// The insertion of a user keeps the rules.
    pub proof fn lemma_insert_user_keeps_wf(self, user_name: Seq<char>, password_hash: Seq<char>)
        requires
            self.wf(),
        ensures
            self.insert_user(user_name, password_hash).wf(),
    {
        let after = self.insert_user(user_name, password_hash);
        if let Ok(user) = self.insert_user_result(user_name, password_hash) {
            let n = self.users.len() as int;
            assert forall|i: int, j: int| 0 <= i < j < after.users.len() implies after.users[i].id
                < after.users[j].id by {
                if j == n {
                    if i < n - 1 {
                        assert(self.users[i].id < self.users[n - 1].id);
                    }
                }
            }
            assert forall|i: int, j: int| 0 <= i < j < after.users.len() implies after.users[i].user_name
                != after.users[j].user_name by {
                if j == n {
                    assert(!self.user_at_is_named(i, user_name));
                }
            }
            assert forall|i: int| 0 <= i < after.topics.len() implies after.has_user_id(
                #[trigger] after.topics[i].created_by,
            ) by {
                self.lemma_push_user_keeps_ids(user, self.topics[i].created_by);
            }
            assert forall|i: int| 0 <= i < after.posts.len() implies after.has_user_id(
                #[trigger] after.posts[i].created_by,
            ) by {
                self.lemma_push_user_keeps_ids(user, self.posts[i].created_by);
            }
            assert forall|i: int| 0 <= i < after.posts.len() implies after.has_topic_id(
                #[trigger] after.posts[i].posted_in,
            ) by {
                let k = choose|k: int| self.topic_at_has_id(k, self.posts[i].posted_in);
                assert(after.topic_at_has_id(k, after.posts[i].posted_in));
            }
        }
    }
}

impl DatabaseView {
    /// The insertion of a topic keeps the rules.
    pub proof fn lemma_insert_topic_keeps_wf(
        self,
        title: Seq<char>,
        created_by: int,
        created_at: int,
    )
        requires
            self.wf(),
        ensures
            self.insert_topic(title, created_by, created_at).wf(),
    {
        let after = self.insert_topic(title, created_by, created_at);
        if let Ok(topic) = self.insert_topic_result(title, created_by, created_at) {
            let n = self.topics.len() as int;
            assert forall|i: int, j: int| 0 <= i < j < after.topics.len() implies after.topics[i].id
                < after.topics[j].id by {
                if j == n {
                    if i < n - 1 {
                        assert(self.topics[i].id < self.topics[n - 1].id);
                    }
                }
            }
            assert forall|i: int| 0 <= i < after.topics.len() implies after.has_user_id(
                #[trigger] after.topics[i].created_by,
            ) by {
                let k = choose|k: int| self.user_at_has_id(k, after.topics[i].created_by);
                assert(after.user_at_has_id(k, after.topics[i].created_by));
            }
            assert forall|i: int| 0 <= i < after.posts.len() implies after.has_user_id(
                #[trigger] after.posts[i].created_by,
            ) by {
                let k = choose|k: int| self.user_at_has_id(k, self.posts[i].created_by);
                assert(after.user_at_has_id(k, after.posts[i].created_by));
            }
            assert forall|i: int| 0 <= i < after.posts.len() implies after.has_topic_id(
                #[trigger] after.posts[i].posted_in,
            ) by {
                let k = choose|k: int| self.topic_at_has_id(k, self.posts[i].posted_in);
                assert(after.topic_at_has_id(k, after.posts[i].posted_in));
            }
        }
    }

    /// The insertion of a post keeps the rules.
    pub proof fn lemma_insert_post_keeps_wf(
        self,
        posted_in: int,
        created_by: int,
        created_at: int,
        content: Seq<char>,
    )
        requires
            self.wf(),
        ensures
            self.insert_post(posted_in, created_by, created_at, content).wf(),
    {
        let after = self.insert_post(posted_in, created_by, created_at, content);
        if let Ok(post) = self.insert_post_result(posted_in, created_by, created_at, content) {
            let n = self.posts.len() as int;
            assert forall|i: int, j: int| 0 <= i < j < after.posts.len() implies after.posts[i].id
                < after.posts[j].id by {
                if j == n {
                    if i < n - 1 {
                        assert(self.posts[i].id < self.posts[n - 1].id);
                    }
                }
            }
            assert forall|i: int| 0 <= i < after.topics.len() implies after.has_user_id(
                #[trigger] after.topics[i].created_by,
            ) by {
                let k = choose|k: int| self.user_at_has_id(k, self.topics[i].created_by);
                assert(after.user_at_has_id(k, after.topics[i].created_by));
            }
            assert forall|i: int| 0 <= i < after.posts.len() implies after.has_user_id(
                #[trigger] after.posts[i].created_by,
            ) by {
                let k = choose|k: int| self.user_at_has_id(k, after.posts[i].created_by);
                assert(after.user_at_has_id(k, after.posts[i].created_by));
            }
            assert forall|i: int| 0 <= i < after.posts.len() implies after.has_topic_id(
                #[trigger] after.posts[i].posted_in,
            ) by {
                let k = choose|k: int| self.topic_at_has_id(k, after.posts[i].posted_in);
                assert(after.topic_at_has_id(k, after.posts[i].posted_in));
            }
        }
    }
}

impl DatabaseView {
    /// Where nobody has the name, no row counts for it.
    pub proof fn lemma_count_of_free_name(users: Seq<UserView>, name: Seq<char>)
        requires
            forall|i: int| 0 <= i < users.len() ==> users[i].user_name != name,
        ensures
            users.filter(|u: UserView| u.user_name == name).len() == 0,
        decreases users.len(),
    {
        reveal(Seq::filter);
        if users.len() > 0 {
            let rest = users.drop_last();
            assert forall|i: int| 0 <= i < rest.len() implies rest[i].user_name != name by {
                assert(rest[i] == users[i]);
            }
            Self::lemma_count_of_free_name(rest, name);
        }
    }

    /// A name that has been registered cannot be registered again: the
    /// second insertion under the name violates the constraint on names and
    /// leaves the table as it is, with exactly one row of that name.
    pub proof fn lemma_insert_user_twice(
        self,
        user_name: Seq<char>,
        first_hash: Seq<char>,
        second_hash: Seq<char>,
    )
        requires
            self.wf(),
            self.insert_user_result(user_name, first_hash) is Ok,
        ensures
            self.insert_user(user_name, first_hash).insert_user_result(user_name, second_hash)
                == Err::<UserView, _>(DatabaseErrorView::UniqueViolation(users_user_name_key())),
            self.insert_user(user_name, first_hash).insert_user(user_name, second_hash)
                == self.insert_user(user_name, first_hash),
            self.insert_user(user_name, first_hash).count_user_name(user_name) == 1,
    {
        let after = self.insert_user(user_name, first_hash);
        let n = self.users.len() as int;
        assert(after.user_at_is_named(n, user_name));
        assert forall|i: int| 0 <= i < self.users.len() implies self.users[i].user_name
            != user_name by {
            assert(!self.user_at_is_named(i, user_name));
        }
        Self::lemma_count_of_free_name(self.users, user_name);
        assert(after.users.drop_last() =~= self.users);
        assert(after.count_user_name(user_name) == 1) by {
            reveal(Seq::filter);
        }
    }

    /// The listing of topics shows every stored topic once, each with the
    /// user who created it, and never an older topic before a newer one.
    /// Where no two topics share a time, the times strictly fall along the
    /// listing.
    pub proof fn lemma_topics_newest_first(self)
        requires
            self.wf(),
        ensures
            ({
                let rows = self.topics_newest_first();
                let listed = self.topics_listed();
                &&& listed.len() == self.topics.len()
                &&& forall|i: int|
                    0 <= i < self.topics.len() ==> listed.contains(#[trigger] self.topics[i])
                &&& forall|k: int|
                    0 <= k < listed.len() ==> self.topics.contains(#[trigger] listed[k])
                &&& forall|k: int, l: int|
                    0 <= k < l < listed.len() ==> #[trigger] listed[k] != #[trigger] listed[l]
                &&& forall|k: int|
                    0 <= k < listed.len() ==> self.has_user_id(listed[k].created_by)
                        && (#[trigger] rows[k]).1 == self.user_with_id(listed[k].created_by)
                        && rows[k].1.id == listed[k].created_by
                &&& forall|k: int, l: int|
                    0 <= k < l < listed.len() ==> (#[trigger] listed[k]).created_at
                        >= (#[trigger] listed[l]).created_at
                &&& (forall|i: int, j: int|
                    0 <= i < j < self.topics.len() ==> self.topics[i].created_at
                        != self.topics[j].created_at) ==> forall|k: int, l: int|
                    0 <= k < l < listed.len() ==> (#[trigger] listed[k]).created_at
                        > (#[trigger] listed[l]).created_at
            }),
    {
        let times = self.topics.map_values(|t: TopicView| t.created_at);
        let order = newest_first(times);
        let rows = self.topics_newest_first();
        let listed = self.topics_listed();
        lemma_newest_first(times);
        assert forall|i: int| 0 <= i < self.topics.len() implies listed.contains(
            #[trigger] self.topics[i],
        ) by {
            assert(order.contains(i));
            let k = choose|k: int| 0 <= k < order.len() && order[k] == i;
            assert(listed[k] == self.topics[i]);
        }
        assert forall|k: int| 0 <= k < listed.len() implies self.topics.contains(
            #[trigger] listed[k],
        ) by {
            assert(listed[k] == self.topics[order[k]]);
        }
        assert forall|k: int, l: int| 0 <= k < l < listed.len() implies #[trigger] listed[k]
            != #[trigger] listed[l] by {
            let a = order[k];
            let b = order[l];
            assert(a != b);
            if a < b {
                assert(self.topics[a].id < self.topics[b].id);
            } else {
                assert(self.topics[b].id < self.topics[a].id);
            }
        }
        assert forall|k: int| 0 <= k < listed.len() implies self.has_user_id(
            listed[k].created_by,
        ) && (#[trigger] rows[k]).1 == self.user_with_id(listed[k].created_by) && rows[k].1.id
            == listed[k].created_by by {
            let id = self.topics[order[k]].created_by;
            assert(self.has_user_id(id));
            let u = choose|u: int| self.user_at_has_id(u, id);
            self.lemma_user_with_id(u, id);
        }
        assert forall|k: int, l: int| 0 <= k < l < listed.len() implies (#[trigger] listed[k]).created_at
            >= (#[trigger] listed[l]).created_at by {
            assert(times[order[k]] >= times[order[l]]);
        }
        if forall|i: int, j: int|
            0 <= i < j < self.topics.len() ==> self.topics[i].created_at
                != self.topics[j].created_at {
            assert forall|i: int, j: int| 0 <= i < j < times.len() implies times[i]
                != times[j] by {
                assert(self.topics[i].created_at != self.topics[j].created_at);
            }
            assert forall|k: int, l: int| 0 <= k < l < listed.len() implies (#[trigger] listed[k]).created_at
                > (#[trigger] listed[l]).created_at by {
                assert(times[order[k]] > times[order[l]]);
            }
        }
    }

    /// A topic that has just been stored is in the listing of topics, which
    /// is one row longer than before.
    pub proof fn lemma_topic_listed_after_insert(
        self,
        title: Seq<char>,
        created_by: int,
        created_at: int,
    )
        requires
            self.wf(),
            self.insert_topic_result(title, created_by, created_at) is Ok,
        ensures
            self.insert_topic(title, created_by, created_at).topics_listed().len()
                == self.topics_listed().len() + 1,
            self.insert_topic(title, created_by, created_at).topics_listed().contains(
                self.insert_topic_result(title, created_by, created_at)->Ok_0,
            ),
    {
        let after = self.insert_topic(title, created_by, created_at);
        self.lemma_insert_topic_keeps_wf(title, created_by, created_at);
        self.lemma_topics_newest_first();
        after.lemma_topics_newest_first();
        assert(after.topics[self.topics.len() as int] == self.insert_topic_result(
            title,
            created_by,
            created_at,
        )->Ok_0);
    }

    /// The listing of the posts of a topic shows every stored post of that
    /// topic once and no other post, each with the user who created it, and
    /// never an older post before a newer one. Where no two posts of the
    /// topic share a time, the times strictly fall along the listing.
    pub proof fn lemma_posts_newest_first(self, topic: int)
        requires
            self.wf(),
        ensures
            ({
                let rows = self.posts_newest_first(topic);
                let listed = self.posts_listed(topic);
                &&& listed.len() == self.posts_in(topic).len()
                &&& forall|i: int|
                    0 <= i < self.posts.len() && self.posts[i].posted_in == topic
                        ==> listed.contains(#[trigger] self.posts[i])
                &&& forall|k: int|
                    0 <= k < listed.len() ==> (#[trigger] listed[k]).posted_in == topic
                        && self.posts.contains(listed[k])
                &&& forall|k: int, l: int|
                    0 <= k < l < listed.len() ==> #[trigger] listed[k] != #[trigger] listed[l]
                &&& forall|k: int|
                    0 <= k < listed.len() ==> self.has_user_id(listed[k].created_by)
                        && (#[trigger] rows[k]).1 == self.user_with_id(listed[k].created_by)
                        && rows[k].1.id == listed[k].created_by
                &&& forall|k: int, l: int|
                    0 <= k < l < listed.len() ==> (#[trigger] listed[k]).created_at
                        >= (#[trigger] listed[l]).created_at
                &&& (forall|i: int, j: int|
                    0 <= i < j < self.posts.len() && self.posts[i].posted_in == topic
                        && self.posts[j].posted_in == topic ==> self.posts[i].created_at
                        != self.posts[j].created_at) ==> forall|k: int, l: int|
                    0 <= k < l < listed.len() ==> (#[trigger] listed[k]).created_at
                        > (#[trigger] listed[l]).created_at
            }),
    {
        let picked = self.posts_in(topic);
        let times = picked.map_values(|p: PostView| p.created_at);
        let order = newest_first(times);
        let rows = self.posts_newest_first(topic);
        let listed = self.posts_listed(topic);
        lemma_newest_first(times);
        self.lemma_posts_in(topic);
        assert forall|i: int|
            0 <= i < self.posts.len() && self.posts[i].posted_in == topic implies listed.contains(
            #[trigger] self.posts[i],
        ) by {
            assert(picked.contains(self.posts[i]));
            let j = choose|j: int| 0 <= j < picked.len() && picked[j] == self.posts[i];
            assert(order.contains(j));
            let k = choose|k: int| 0 <= k < order.len() && order[k] == j;
            assert(listed[k] == self.posts[i]);
        }
        assert forall|k: int| 0 <= k < listed.len() implies (#[trigger] listed[k]).posted_in
            == topic && self.posts.contains(listed[k]) by {
            assert(listed[k] == picked[order[k]]);
        }
        assert forall|k: int, l: int| 0 <= k < l < listed.len() implies #[trigger] listed[k]
            != #[trigger] listed[l] by {
            let a = order[k];
            let b = order[l];
            assert(a != b);
            if a < b {
                assert(picked[a].id < picked[b].id);
            } else {
                assert(picked[b].id < picked[a].id);
            }
        }
        assert forall|k: int| 0 <= k < listed.len() implies self.has_user_id(
            listed[k].created_by,
        ) && (#[trigger] rows[k]).1 == self.user_with_id(listed[k].created_by) && rows[k].1.id
            == listed[k].created_by by {
            let row = picked[order[k]];
            assert(self.posts.contains(row));
            let i = choose|i: int| 0 <= i < self.posts.len() && self.posts[i] == row;
            assert(self.has_user_id(self.posts[i].created_by));
            let u = choose|u: int| self.user_at_has_id(u, row.created_by);
            self.lemma_user_with_id(u, row.created_by);
        }
        assert forall|k: int, l: int| 0 <= k < l < listed.len() implies (#[trigger] listed[k]).created_at
            >= (#[trigger] listed[l]).created_at by {
            assert(times[order[k]] >= times[order[l]]);
        }
        if forall|i: int, j: int|
            0 <= i < j < self.posts.len() && self.posts[i].posted_in == topic
                && self.posts[j].posted_in == topic ==> self.posts[i].created_at
                != self.posts[j].created_at {
            assert forall|i: int, j: int| 0 <= i < j < times.len() implies times[i]
                != times[j] by {
                assert(picked[i].id < picked[j].id);
                assert(self.posts.contains(picked[i]));
                assert(self.posts.contains(picked[j]));
                let a = choose|a: int| 0 <= a < self.posts.len() && self.posts[a] == picked[i];
                let b = choose|b: int| 0 <= b < self.posts.len() && self.posts[b] == picked[j];
                if a < b {
                    assert(self.posts[a].created_at != self.posts[b].created_at);
                } else if b < a {
                    assert(self.posts[b].created_at != self.posts[a].created_at);
                }
            }
            assert forall|k: int, l: int| 0 <= k < l < listed.len() implies (#[trigger] listed[k]).created_at
                > (#[trigger] listed[l]).created_at by {
                assert(times[order[k]] > times[order[l]]);
            }
        }
    }

    /// The posts of a topic are the stored posts that lie in it, in the
    /// order of the table.
    pub proof fn lemma_posts_in(self, topic: int)
        requires
            self.wf(),
        ensures
            forall|j: int|
                0 <= j < self.posts_in(topic).len() ==> (#[trigger] self.posts_in(
                    topic,
                )[j]).posted_in == topic && self.posts.contains(self.posts_in(topic)[j]),
            forall|i: int|
                0 <= i < self.posts.len() && self.posts[i].posted_in == topic
                    ==> self.posts_in(topic).contains(#[trigger] self.posts[i]),
            forall|i: int, j: int|
                0 <= i < j < self.posts_in(topic).len() ==> (#[trigger] self.posts_in(topic)[i]).id
                    < (#[trigger] self.posts_in(topic)[j]).id,
    {
        Self::lemma_filtered_posts(self.posts, topic);
    }

    /// What is left of a table of posts with ascending identifiers when the
    /// posts of one topic are picked out.
    pub proof fn lemma_filtered_posts(posts: Seq<PostView>, topic: int)
        requires
            forall|i: int, j: int| 0 <= i < j < posts.len() ==> posts[i].id < posts[j].id,
        ensures
            forall|j: int|
                0 <= j < posts.filter(Self::in_topic(topic)).len() ==> (#[trigger] posts.filter(
                    Self::in_topic(topic),
                )[j]).posted_in == topic && posts.contains(posts.filter(Self::in_topic(topic))[j]),
            forall|i: int|
                0 <= i < posts.len() && posts[i].posted_in == topic ==> posts.filter(
                    Self::in_topic(topic),
                ).contains(#[trigger] posts[i]),
            forall|i: int, j: int|
                0 <= i < j < posts.filter(Self::in_topic(topic)).len() ==> (#[trigger] posts.filter(
                    Self::in_topic(topic),
                )[i]).id < (#[trigger] posts.filter(Self::in_topic(topic))[j]).id,
        decreases posts.len(),
    {
        reveal(Seq::filter);
        let test = Self::in_topic(topic);
        let picked = posts.filter(test);
        if posts.len() > 0 {
            let rest = posts.drop_last();
            let last = posts.last();
            assert forall|i: int, j: int| 0 <= i < j < rest.len() implies rest[i].id
                < rest[j].id by {
                assert(rest[i] == posts[i] && rest[j] == posts[j]);
            }
            Self::lemma_filtered_posts(rest, topic);
            let before = rest.filter(test);
            assert forall|j: int| 0 <= j < picked.len() implies (#[trigger] picked[j]).posted_in
                == topic && posts.contains(picked[j]) by {
                if j < before.len() {
                    assert(picked[j] == before[j]);
                    assert(rest.contains(before[j]));
                    let i = choose|i: int| 0 <= i < rest.len() && rest[i] == before[j];
                    assert(posts[i] == picked[j]);
                } else {
                    assert(picked[j] == last);
                    assert(posts[posts.len() - 1] == last);
                }
            }
            assert forall|i: int| 0 <= i < posts.len() && posts[i].posted_in == topic implies picked.contains(
                #[trigger] posts[i],
            ) by {
                if i < rest.len() {
                    assert(rest[i] == posts[i]);
                    assert(before.contains(rest[i]));
                    let j = choose|j: int| 0 <= j < before.len() && before[j] == rest[i];
                    assert(picked[j] == posts[i]);
                } else {
                    assert(picked[picked.len() - 1] == posts[i]);
                }
            }
            assert forall|i: int, j: int| 0 <= i < j < picked.len() implies (#[trigger] picked[i]).id
                < (#[trigger] picked[j]).id by {
                if j < before.len() {
                    assert(picked[i] == before[i] && picked[j] == before[j]);
                } else {
                    assert(picked[i] == before[i]);
                    assert(rest.contains(before[i]));
                    let a = choose|a: int| 0 <= a < rest.len() && rest[a] == before[i];
                    assert(posts[a].id < posts[posts.len() - 1].id);
                }
            }
        }
    }
}

} // verus!
