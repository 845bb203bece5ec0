//! The tables themselves.

use crate::database::error::{DatabaseError, DatabaseErrorView};
use crate::database::view::DatabaseView;
use crate::database::order::{lemma_newest_first, newest_first, newest_first_order, page};
use crate::models::post::{NewPost, Post, PostView};
use crate::models::topic::{NewTopic, Topic, TopicId, TopicView};
use crate::models::user::{NewUser, User, UserId, UserView};
use crate::utils::id::Id;
use vstd::prelude::*;
use vstd::string::*;

verus! {

/// The rows of a table of users, as mathematical values.
pub open spec fn users_view(rows: Seq<User>) -> Seq<UserView> {
    rows.map_values(|u: User| u@)
}

/// The rows of a table of topics, as mathematical values.
pub open spec fn topics_view(rows: Seq<Topic>) -> Seq<TopicView> {
    rows.map_values(|t: Topic| t@)
}

/// The rows of a table of posts, as mathematical values.
pub open spec fn posts_view(rows: Seq<Post>) -> Seq<PostView> {
    rows.map_values(|p: Post| p@)
}

/// The rows of a listing of topics, as mathematical values.
pub open spec fn topic_rows_view(rows: Seq<(Topic, User)>) -> Seq<(TopicView, UserView)> {
    rows.map_values(|r: (Topic, User)| (r.0@, r.1@))
}

/// The rows of a listing of posts, as mathematical values.
pub open spec fn post_rows_view(rows: Seq<(Post, User)>) -> Seq<(PostView, UserView)> {
    rows.map_values(|r: (Post, User)| (r.0@, r.1@))
}

/// The three tables of the forum. Every database that this crate hands
/// out obeys the rules of `DatabaseView::wf`.
pub struct Database {
    users: Vec<User>,
    topics: Vec<Topic>,
    posts: Vec<Post>,
}

impl View for Database {
    type V = DatabaseView;

    closed spec fn view(&self) -> DatabaseView {
        DatabaseView {
            users: users_view(self.users@),
            topics: topics_view(self.topics@),
            posts: posts_view(self.posts@),
        }
    }
}

impl Database {
    /// Whether the tables obey their rules.
    pub open spec fn wf(&self) -> bool {
        self@.wf()
    }

    /// A database without any row.
    pub fn new() -> (db: Database)
        ensures
            db@ == DatabaseView::empty(),
            db.wf(),
    {
        let db = Database { users: Vec::new(), topics: Vec::new(), posts: Vec::new() };
        assert(db@.users =~= Seq::empty());
        assert(db@.topics =~= Seq::empty());
        assert(db@.posts =~= Seq::empty());
        db
    }

    /// The database of the given tables, where they obey the rules, and
    /// nothing where they break one.
    pub fn from_tables(users: Vec<User>, topics: Vec<Topic>, posts: Vec<Post>) -> (r: Option<
        Database,
    >)
        ensures
            match r {
                Some(db) => db.wf() && db@ == (DatabaseView {
                    users: users_view(users@),
                    topics: topics_view(topics@),
                    posts: posts_view(posts@),
                }),
                None => !(DatabaseView {
                    users: users_view(users@),
                    topics: topics_view(topics@),
                    posts: posts_view(posts@),
                }).wf(),
            },
    {
        let db = Database { users, topics, posts };
        if db.obeys_rules() {
            Some(db)
        } else {
            None
        }
    }

    /// Whether the tables obey their rules.
    fn obeys_rules(&self) -> (r: bool)
        ensures
            r == self.wf(),
    {
        let mut i: usize = 0;
        while i < self.users.len()
            invariant
                i <= self.users.len(),
                forall|a: int, b: int|
                    0 <= a < b < i ==> self@.users[a].id < self@.users[b].id,
                forall|a: int, b: int|
                    0 <= a < b < i ==> self@.users[a].user_name != self@.users[b].user_name,
            decreases self.users.len() - i,
        {
            if i > 0 && self.users[i - 1].id.value() >= self.users[i].id.value() {
                assert(!(self@.users[i - 1].id < self@.users[i as int].id));
                return false;
            }
            let mut j: usize = 0;
            while j < i
                invariant
                    j <= i < self.users.len(),
                    forall|a: int|
                        0 <= a < j ==> self@.users[a].user_name != self@.users[i as int].user_name,
                decreases i - j,
            {
                if self.users[j].user_name == self.users[i].user_name {
                    assert(!(self@.users[j as int].user_name != self@.users[i as int].user_name));
                    return false;
                }
                j += 1;
            }
            assert forall|a: int, b: int| 0 <= a < b < i + 1 implies self@.users[a].id
                < self@.users[b].id by {
                if b == i && a < i - 1 {
                    assert(self@.users[a].id < self@.users[i - 1].id);
                }
            }
            i += 1;
        }
        let mut i: usize = 0;
        while i < self.topics.len()
            invariant
                i <= self.topics.len(),
                forall|a: int, b: int|
                    0 <= a < b < i ==> self@.topics[a].id < self@.topics[b].id,
                forall|a: int|
                    0 <= a < i ==> self@.has_user_id(#[trigger] self@.topics[a].created_by),
            decreases self.topics.len() - i,
        {
            if i > 0 && self.topics[i - 1].id.value() >= self.topics[i].id.value() {
                assert(!(self@.topics[i - 1].id < self@.topics[i as int].id));
                return false;
            }
            if self.position_of_user_id(self.topics[i].created_by.value()).is_none() {
                assert(!self@.has_user_id(self@.topics[i as int].created_by));
                return false;
            }
            assert forall|a: int, b: int| 0 <= a < b < i + 1 implies self@.topics[a].id
                < self@.topics[b].id by {
                if b == i && a < i - 1 {
                    assert(self@.topics[a].id < self@.topics[i - 1].id);
                }
            }
            i += 1;
        }
        let mut i: usize = 0;
        while i < self.posts.len()
            invariant
                i <= self.posts.len(),
                forall|a: int, b: int| 0 <= a < b < i ==> self@.posts[a].id < self@.posts[b].id,
                forall|a: int|
                    0 <= a < i ==> self@.has_topic_id(#[trigger] self@.posts[a].posted_in),
                forall|a: int|
                    0 <= a < i ==> self@.has_user_id(#[trigger] self@.posts[a].created_by),
            decreases self.posts.len() - i,
        {
            if i > 0 && self.posts[i - 1].id.value() >= self.posts[i].id.value() {
                assert(!(self@.posts[i - 1].id < self@.posts[i as int].id));
                return false;
            }
            if self.position_of_topic_id(self.posts[i].posted_in.value()).is_none() {
                assert(!self@.has_topic_id(self@.posts[i as int].posted_in));
                return false;
            }
            if self.position_of_user_id(self.posts[i].created_by.value()).is_none() {
                assert(!self@.has_user_id(self@.posts[i as int].created_by));
                return false;
            }
            assert forall|a: int, b: int| 0 <= a < b < i + 1 implies self@.posts[a].id
                < self@.posts[b].id by {
                if b == i && a < i - 1 {
                    assert(self@.posts[a].id < self@.posts[i - 1].id);
                }
            }
            i += 1;
        }
        true
    }

    /// The table of users.
    pub fn users(&self) -> (rows: &Vec<User>)
        ensures
            users_view(rows@) == self@.users,
    {
        &self.users
    }

    /// The table of topics.
    pub fn topics(&self) -> (rows: &Vec<Topic>)
        ensures
            topics_view(rows@) == self@.topics,
    {
        &self.topics
    }

    /// The table of posts.
    pub fn posts(&self) -> (rows: &Vec<Post>)
        ensures
            posts_view(rows@) == self@.posts,
    {
        &self.posts
    }

    /// Where the user of that name stands in the table.
    fn position_of_user_name(&self, name: &String) -> (r: Option<usize>)
        ensures
            match r {
                Some(i) => self@.user_at_is_named(i as int, name@),
                None => !self@.has_user_name(name@),
            },
    {
        let mut i: usize = 0;
        while i < self.users.len()
            invariant
                i <= self.users.len(),
                forall|k: int| 0 <= k < i ==> !self@.user_at_is_named(k, name@),
            decreases self.users.len() - i,
        {
            if self.users[i].user_name == *name {
                return Some(i);
            }
            i += 1;
        }
        None
    }

    /// Where the user of that identifier stands in the table.
    fn position_of_user_id(&self, id: i64) -> (r: Option<usize>)
        ensures
            match r {
                Some(i) => self@.user_at_has_id(i as int, id as int),
                None => !self@.has_user_id(id as int),
            },
    {
        let mut i: usize = 0;
        while i < self.users.len()
            invariant
                i <= self.users.len(),
                forall|k: int| 0 <= k < i ==> !self@.user_at_has_id(k, id as int),
            decreases self.users.len() - i,
        {
            if self.users[i].id.value() == id {
                return Some(i);
            }
            i += 1;
        }
        None
    }

    /// The user of that name, or `NotFound`.
    pub fn first_user_by_name(&self, name: &String) -> (r: Result<User, DatabaseError>)
        requires
            self.wf(),
        ensures
            match r {
                Ok(user) => self@.first_user_by_name(name@) == Ok::<_, DatabaseErrorView>(user@),
                Err(error) => self@.first_user_by_name(name@) == Err::<UserView, _>(error@),
            },
    {
        match self.position_of_user_name(name) {
            Some(i) => {
                proof {
                    self@.lemma_user_named(i as int, name@);
                }
                Ok(self.users[i].clone())
            },
            None => Err(DatabaseError::NotFound),
        }
    }

    /// The user of that identifier, or `NotFound`.
    pub fn first_user_by_id(&self, id: UserId) -> (r: Result<User, DatabaseError>)
        requires
            self.wf(),
        ensures
            match r {
                Ok(user) => self@.first_user_by_id(id@) == Ok::<_, DatabaseErrorView>(user@),
                Err(error) => self@.first_user_by_id(id@) == Err::<UserView, _>(error@),
            },
    {
        match self.position_of_user_id(id.value()) {
            Some(i) => {
                proof {
                    self@.lemma_user_with_id(i as int, id@);
                }
                Ok(self.users[i].clone())
            },
            None => Err(DatabaseError::NotFound),
        }
    }

    /// Stores a user under the next identifier, unless the name is taken.
    pub fn insert_user(&mut self, new_user: NewUser) -> (r: Result<User, DatabaseError>)
        requires
            old(self).wf(),
        ensures
            final(self).wf(),
            final(self)@ == old(self)@.insert_user(new_user.user_name@, new_user.password_hash@),
            match r {
                Ok(user) => old(self)@.insert_user_result(
                    new_user.user_name@,
                    new_user.password_hash@,
                ) == Ok::<_, DatabaseErrorView>(user@),
                Err(error) => old(self)@.insert_user_result(
                    new_user.user_name@,
                    new_user.password_hash@,
                ) == Err::<UserView, _>(error@),
            },
    {
        if self.position_of_user_name(&new_user.user_name).is_some() {
            return Err(DatabaseError::UniqueViolation(String::from_str("users_user_name_key")));
        }
        let n = self.users.len();
        let id: i64 = if n == 0 {
            1
        } else {
            let last = self.users[n - 1].id.value();
            if last == i64::MAX {
                return Err(
                    DatabaseError::Unknown(
                        String::from_str("nextval: reached maximum value of sequence"),
                    ),
                );
            }
            last + 1
        };
        let user = User {
            id: Id::new(id),
            user_name: new_user.user_name,
            password_hash: new_user.password_hash,
        };
        let stored = user.clone();
        proof {
            old(self)@.lemma_insert_user_keeps_wf(user@.user_name, user@.password_hash);
        }
        self.users.push(user);
        assert(self@.users =~= old(self)@.users.push(stored@));
        Ok(stored)
    }

    /// Where the topic of that identifier stands in the table.
    fn position_of_topic_id(&self, id: i64) -> (r: Option<usize>)
        ensures
            match r {
                Some(i) => self@.topic_at_has_id(i as int, id as int),
                None => !self@.has_topic_id(id as int),
            },
    {
        let mut i: usize = 0;
        while i < self.topics.len()
            invariant
                i <= self.topics.len(),
                forall|k: int| 0 <= k < i ==> !self@.topic_at_has_id(k, id as int),
            decreases self.topics.len() - i,
        {
            if self.topics[i].id.value() == id {
                return Some(i);
            }
            i += 1;
        }
        None
    }

    /// Stores a topic under the next identifier, unless its creator is not
    /// stored.
    pub fn insert_topic(&mut self, new_topic: NewTopic) -> (r: Result<Topic, DatabaseError>)
        requires
            old(self).wf(),
        ensures
            final(self).wf(),
            final(self)@ == old(self)@.insert_topic(
                new_topic.title@,
                new_topic.created_by@,
                new_topic.created_at as int,
            ),
            match r {
                Ok(topic) => old(self)@.insert_topic_result(
                    new_topic.title@,
                    new_topic.created_by@,
                    new_topic.created_at as int,
                ) == Ok::<_, DatabaseErrorView>(topic@),
                Err(error) => old(self)@.insert_topic_result(
                    new_topic.title@,
                    new_topic.created_by@,
                    new_topic.created_at as int,
                ) == Err::<TopicView, _>(error@),
            },
    {
        if self.position_of_user_id(new_topic.created_by.value()).is_none() {
            return Err(
                DatabaseError::ForeignKeyViolation(String::from_str("topics_created_by_fkey")),
            );
        }
        let n = self.topics.len();
        let id: i64 = if n == 0 {
            1
        } else {
            let last = self.topics[n - 1].id.value();
            if last == i64::MAX {
                return Err(
                    DatabaseError::Unknown(
                        String::from_str("nextval: reached maximum value of sequence"),
                    ),
                );
            }
            last + 1
        };
        let topic = Topic {
            id: Id::new(id),
            title: new_topic.title,
            created_by: new_topic.created_by,
            created_at: new_topic.created_at,
        };
        let stored = topic.clone();
        proof {
            old(self)@.lemma_insert_topic_keeps_wf(
                topic@.title,
                topic@.created_by,
                topic@.created_at,
            );
        }
        self.topics.push(topic);
        assert(self@.topics =~= old(self)@.topics.push(stored@));
        Ok(stored)
    }

    /// Stores a post under the next identifier, unless its topic or its
    /// creator is not stored.
    pub fn insert_post(&mut self, new_post: NewPost) -> (r: Result<Post, DatabaseError>)
        requires
            old(self).wf(),
        ensures
            final(self).wf(),
            final(self)@ == old(self)@.insert_post(
                new_post.posted_in@,
                new_post.created_by@,
                new_post.created_at as int,
                new_post.content@,
            ),
            match r {
                Ok(post) => old(self)@.insert_post_result(
                    new_post.posted_in@,
                    new_post.created_by@,
                    new_post.created_at as int,
                    new_post.content@,
                ) == Ok::<_, DatabaseErrorView>(post@),
                Err(error) => old(self)@.insert_post_result(
                    new_post.posted_in@,
                    new_post.created_by@,
                    new_post.created_at as int,
                    new_post.content@,
                ) == Err::<PostView, _>(error@),
            },
    {
        if self.position_of_topic_id(new_post.posted_in.value()).is_none() {
            return Err(DatabaseError::ForeignKeyViolation(String::from_str("posts_posted_in_fkey")));
        }
        if self.position_of_user_id(new_post.created_by.value()).is_none() {
            return Err(
                DatabaseError::ForeignKeyViolation(String::from_str("posts_created_by_fkey")),
            );
        }
        let n = self.posts.len();
        let id: i64 = if n == 0 {
            1
        } else {
            let last = self.posts[n - 1].id.value();
            if last == i64::MAX {
                return Err(
                    DatabaseError::Unknown(
                        String::from_str("nextval: reached maximum value of sequence"),
                    ),
                );
            }
            last + 1
        };
        let post = Post {
            id: Id::new(id),
            posted_in: new_post.posted_in,
            created_by: new_post.created_by,
            created_at: new_post.created_at,
            content: new_post.content,
        };
        let stored = post.clone();
        proof {
            old(self)@.lemma_insert_post_keeps_wf(
                post@.posted_in,
                post@.created_by,
                post@.created_at,
                post@.content,
            );
        }
        self.posts.push(post);
        assert(self@.posts =~= old(self)@.posts.push(stored@));
        Ok(stored)
    }

    /// The topics `offset` to `offset + limit` of the listing that shows the
    /// newest first, each with the user who created it.
    pub fn topics_by_date(&self, offset: i64, limit: i64) -> (r: Result<
        Vec<(Topic, User)>,
        DatabaseError,
    >)
        requires
            self.wf(),
        ensures
            match r {
                Ok(rows) => self@.topics_by_date(offset as int, limit as int) == Ok::<
                    _,
                    DatabaseErrorView,
                >(topic_rows_view(rows@)),
                Err(error) => self@.topics_by_date(offset as int, limit as int) == Err::<
                    Seq<(TopicView, UserView)>,
                    _,
                >(error@),
            },
    {
        if offset < 0 {
            return Err(DatabaseError::Unknown(String::from_str("OFFSET must not be negative")));
        }
        if limit < 0 {
            return Err(DatabaseError::Unknown(String::from_str("LIMIT must not be negative")));
        }
        let mut times: Vec<i64> = Vec::new();
        let mut i: usize = 0;
        while i < self.topics.len()
            invariant
                i <= self.topics.len(),
                times.len() == i,
                forall|j: int| 0 <= j < i ==> #[trigger] times[j] == self.topics[j].created_at,
            decreases self.topics.len() - i,
        {
            times.push(self.topics[i].created_at);
            i += 1;
        }
        assert(times@.map_values(|t: i64| t as int) =~= self@.topics.map_values(
            |t: TopicView| t.created_at,
        ));
        let order = newest_first_order(&times);
        let ghost spec_order = newest_first(self@.topics.map_values(|t: TopicView| t.created_at));
        let ghost listing = self@.topics_newest_first();
        proof {
            lemma_newest_first(self@.topics.map_values(|t: TopicView| t.created_at));
        }
        let n = order.len();
        let start: usize = if offset as u64 >= n as u64 {
            n
        } else {
            offset as usize
        };
        let left = n - start;
        let count: usize = if limit as u64 >= left as u64 {
            left
        } else {
            limit as usize
        };
        let end = start + count;
        let mut rows: Vec<(Topic, User)> = Vec::new();
        let mut k: usize = start;
        while k < end
            invariant
                self.wf(),
                start <= k <= end <= n,
                n == order.len(),
                n == self.topics.len(),
                order@.map_values(|i: usize| i as int) == spec_order,
                spec_order == newest_first(self@.topics.map_values(|t: TopicView| t.created_at)),
                listing == self@.topics_newest_first(),
                forall|j: int| 0 <= j < n ==> 0 <= #[trigger] spec_order[j] < n,
                topic_rows_view(rows@) == listing.subrange(start as int, k as int),
            decreases end - k,
        {
            assert(spec_order[k as int] == order[k as int]);
            let ghost shown = topic_rows_view(rows@);
            let topic = self.topics[order[k]].clone();
            assert(topic@ == self@.topics[spec_order[k as int]]);
            match self.position_of_user_id(topic.created_by.value()) {
                Some(u) => {
                    proof {
                        self@.lemma_user_with_id(u as int, topic@.created_by);
                    }
                    let user = self.users[u].clone();
                    assert((topic@, user@) == listing[k as int]);
                    rows.push((topic, user));
                    assert(topic_rows_view(rows@) =~= shown.push(listing[k as int]));
                },
                None => {
                    // The rules leave no topic without its creator.
                    assert(self@.has_user_id(self@.topics[spec_order[k as int]].created_by));
                    assert(false);
                },
            }
            assert(topic_rows_view(rows@) =~= listing.subrange(start as int, k + 1));
            k += 1;
        }
        assert(page(listing, offset as int, limit as int) == listing.subrange(
            start as int,
            end as int,
        ));
        Ok(rows)
    }

    /// The posts `offset` to `offset + limit` of the listing that shows the
    /// posts of a topic, newest first, each with the user who created it.
    pub fn posts_in_topic_by_date(&self, topic: TopicId, offset: i64, limit: i64) -> (r: Result<
        Vec<(Post, User)>,
        DatabaseError,
    >)
        requires
            self.wf(),
        ensures
            match r {
                Ok(rows) => self@.posts_in_topic_by_date(topic@, offset as int, limit as int)
                    == Ok::<_, DatabaseErrorView>(post_rows_view(rows@)),
                Err(error) => self@.posts_in_topic_by_date(topic@, offset as int, limit as int)
                    == Err::<Seq<(PostView, UserView)>, _>(error@),
            },
    {
        if offset < 0 {
            return Err(DatabaseError::Unknown(String::from_str("OFFSET must not be negative")));
        }
        if limit < 0 {
            return Err(DatabaseError::Unknown(String::from_str("LIMIT must not be negative")));
        }
        let ghost test = DatabaseView::in_topic(topic@);
        let mut found: Vec<usize> = Vec::new();
        let mut times: Vec<i64> = Vec::new();
        let mut i: usize = 0;
        assert(self@.posts.take(0).filter(test) =~= Seq::empty()) by {
            reveal(Seq::filter);
        }
        while i < self.posts.len()
            invariant
                i <= self.posts.len(),
                test == DatabaseView::in_topic(topic@),
                found.len() == times.len(),
                forall|j: int| 0 <= j < found.len() ==> #[trigger] found[j] < i,
                forall|j: int|
                    0 <= j < found.len() ==> #[trigger] times[j]
                        == self.posts[found[j] as int].created_at,
                found@.map_values(|c: usize| self@.posts[c as int]) == self@.posts.take(
                    i as int,
                ).filter(test),
            decreases self.posts.len() - i,
        {
            let ghost before = found@.map_values(|c: usize| self@.posts[c as int]);
            proof {
                reveal(Seq::filter);
                assert(self@.posts.take(i + 1).drop_last() =~= self@.posts.take(i as int));
                assert(self@.posts.take(i + 1).last() == self@.posts[i as int]);
            }
            if self.posts[i].posted_in.value() == topic.value() {
                found.push(i);
                times.push(self.posts[i].created_at);
                assert(found@.map_values(|c: usize| self@.posts[c as int]) =~= before.push(
                    self@.posts[i as int],
                ));
            }
            i += 1;
        }
        assert(self@.posts.take(i as int) =~= self@.posts);
        let ghost in_topic = self@.posts_in(topic@);
        assert(found@.map_values(|c: usize| self@.posts[c as int]) == in_topic);
        assert(times@.map_values(|t: i64| t as int) =~= in_topic.map_values(
            |p: PostView| p.created_at,
        )) by {
            assert forall|j: int| 0 <= j < times.len() implies times[j] as int
                == in_topic[j].created_at by {
                assert(in_topic[j] == found@.map_values(|c: usize| self@.posts[c as int])[j]);
            }
        }
        let order = newest_first_order(&times);
        let ghost spec_order = newest_first(in_topic.map_values(|p: PostView| p.created_at));
        let ghost listing = self@.posts_newest_first(topic@);
        proof {
            lemma_newest_first(in_topic.map_values(|p: PostView| p.created_at));
        }
        let n = order.len();
        let start: usize = if offset as u64 >= n as u64 {
            n
        } else {
            offset as usize
        };
        let left = n - start;
        let count: usize = if limit as u64 >= left as u64 {
            left
        } else {
            limit as usize
        };
        let end = start + count;
        let mut rows: Vec<(Post, User)> = Vec::new();
        let mut k: usize = start;
        while k < end
            invariant
                self.wf(),
                start <= k <= end <= n,
                n == order.len(),
                n == found.len(),
                forall|j: int| 0 <= j < found.len() ==> #[trigger] found[j] < self.posts.len(),
                found@.map_values(|c: usize| self@.posts[c as int]) == in_topic,
                order@.map_values(|i: usize| i as int) == spec_order,
                spec_order == newest_first(in_topic.map_values(|p: PostView| p.created_at)),
                in_topic == self@.posts_in(topic@),
                listing == self@.posts_newest_first(topic@),
                forall|j: int| 0 <= j < n ==> 0 <= #[trigger] spec_order[j] < n,
                post_rows_view(rows@) == listing.subrange(start as int, k as int),
            decreases end - k,
        {
            assert(spec_order[k as int] == order[k as int]);
            let ghost shown = post_rows_view(rows@);
            let at = found[order[k]];
            let post = self.posts[at].clone();
            assert(post@ == in_topic[spec_order[k as int]]) by {
                assert(in_topic[spec_order[k as int]] == found@.map_values(
                    |c: usize| self@.posts[c as int],
                )[spec_order[k as int]]);
            }
            match self.position_of_user_id(post.created_by.value()) {
                Some(u) => {
                    proof {
                        self@.lemma_user_with_id(u as int, post@.created_by);
                    }
                    let user = self.users[u].clone();
                    assert((post@, user@) == listing[k as int]);
                    rows.push((post, user));
                    assert(post_rows_view(rows@) =~= shown.push(listing[k as int]));
                },
                None => {
                    // The rules leave no post without its creator.
                    assert(self@.has_user_id(self@.posts[at as int].created_by));
                    assert(false);
                },
            }
            assert(post_rows_view(rows@) =~= listing.subrange(start as int, k + 1));
            k += 1;
        }
        assert(page(listing, offset as int, limit as int) == listing.subrange(
            start as int,
            end as int,
        ));
        Ok(rows)
    }
}

} // verus!
